use nae::shader::{Attr, VertexData};

#[test]
fn vertex_data_layout() {
    let all = [VertexData::Float1, VertexData::Float2, VertexData::Float3, VertexData::Float4];
    let sizes: Vec<i32> = all.iter().map(|v| v.size()).collect();
    assert_eq!(sizes, vec![1, 2, 3, 4]);
    for v in &all {
        assert_eq!(v.typ(), 0x1406);
        assert!(!v.normalized());
    }
}

#[test]
fn attr_keeps_name_and_layout() {
    let a = Attr::new("a_position", VertexData::Float2);
    assert_eq!(a.name, "a_position");
    assert_eq!(a.vertex_data, VertexData::Float2);
}
