//! Layout of the vertex attributes that a shader program reads.
use vstd::prelude::*;

verus! {

/// Number of float components in one vertex attribute.
#[derive(Clone, Copy, Debug, PartialEq, Eq, Structural)]
pub enum VertexData {
    Float1,
    Float2,
    Float3,
    Float4,
}

/// Relies on glow's `FLOAT` constant, the GL enum for 32-bit floats.
#[verifier::external_body]
fn gl_float() -> (r: u32)
    ensures
        r == 0x1406,
{
    glow::FLOAT
}

impl VertexData {
    pub open spec fn size_spec(self) -> i32 {
        match self {
            VertexData::Float1 => 1,
            VertexData::Float2 => 2,
            VertexData::Float3 => 3,
            VertexData::Float4 => 4,
        }
    }

    /// Number of components.
    pub fn size(&self) -> (r: i32)
        ensures
            r == self.size_spec(),
    {
        match self {
            VertexData::Float1 => 1,
            VertexData::Float2 => 2,
            VertexData::Float3 => 3,
            VertexData::Float4 => 4,
        }
    }

    /// GL type of each component: always `FLOAT` (0x1406).
    pub fn typ(&self) -> (r: u32)
        ensures
            r == 0x1406,
    {
        gl_float()
    }

    /// Components are passed as they are, never normalized.
    pub fn normalized(&self) -> (r: bool)
        ensures
            !r,
    {
        false
    }
}

/// A named vertex attribute.
#[derive(Debug)]
pub struct Attr {
    pub name: String,
    pub vertex_data: VertexData,
}

impl Attr {
    pub fn new(name: &str, data_type: VertexData) -> (r: Attr)
        ensures
            r.name@ == name@,
            r.vertex_data == data_type,
    {
        Attr { name: name.to_owned(), vertex_data: data_type }
    }
}

} // verus!
