use nae::clock::{date_now, millis_or_zero};
use nae::res::{Blob, Resource, ResourceConstructor};

#[test]
fn blob_loads_parsed_data() {
    let mut b = <Blob as ResourceConstructor>::new("data.bin");
    assert!(!b.is_loaded());
    assert!(b.data().is_empty());
    b.parse(vec![1, 2, 3]).unwrap();
    assert!(b.is_loaded());
    assert_eq!(*b.data(), vec![1, 2, 3]);
    b.data_mut().push(4);
    assert_eq!(*b.data(), vec![1, 2, 3, 4]);
    b.data_mut().clear();
    assert!(!b.is_loaded());
}

#[test]
fn date_now_is_after_2020() {
    let t = date_now();
    assert!(t > 1_577_836_800_000);
}

#[test]
fn millis_or_zero_cuts_to_64_bits() {
    assert_eq!(millis_or_zero(None), 0);
    assert_eq!(millis_or_zero(Some(1_234)), 1_234);
    assert_eq!(millis_or_zero(Some((1u128 << 64) + 5)), 5);
}
