use libsensors_rs::ffi::Call;
use libsensors_rs::utils::{ptr_to_ref, try_cstr, GLibCBox, Pointer};

#[test]
fn pointer_image_needs_a_pointee_exactly_when_readable() {
    assert!(Pointer::new(0x1000, 8, Some(5u32)).is_some());
    assert!(Pointer::<u32>::new(0x1000, 8, None).is_none());
    assert!(Pointer::<u32>::new(0, 8, None).is_some());
    assert!(Pointer::new(0, 8, Some(5u32)).is_none());
    assert!(Pointer::<u32>::new(0x1004, 8, None).is_some());
    assert!(Pointer::new(0x1004, 8, Some(5u32)).is_none());
    assert!(Pointer::<u32>::new(0, 0, None).is_none());
    assert!(Pointer::new(0x1000, 0, Some(5u32)).is_none());
}

#[test]
fn can_read_tells_null_and_misaligned_apart() {
    assert!(Pointer::<u32>::can_read(0x1000, 8));
    assert!(Pointer::<u32>::can_read(0x1001, 1));
    assert!(!Pointer::<u32>::can_read(0, 8));
    assert!(!Pointer::<u32>::can_read(0x1004, 8));
    assert!(!Pointer::<u32>::can_read(0x1000, 0));
}

#[test]
fn pointer_accessors() {
    let p = Pointer::new(0x1000, 8, Some(5u32)).unwrap();
    assert_eq!(p.address(), 0x1000);
    assert!(!p.is_null());
    assert!(p.is_aligned());
    assert_eq!(p.get(), Some(&5));
    assert_eq!(p.into_target(), Some(5));
    let q = Pointer::<u32>::new(0x1004, 8, None).unwrap();
    assert!(!q.is_null());
    assert!(!q.is_aligned());
    assert_eq!(q.get(), None);
    let n = Pointer::<u32>::new(0, 8, None).unwrap();
    assert!(n.is_null());
    assert!(n.is_aligned());
}

#[test]
fn ptr_to_ref_null_is_nothing() {
    let null = Pointer::<u32>::new(0, 4, None).unwrap();
    assert!(matches!(ptr_to_ref(null), Ok(None)));
}

#[test]
fn ptr_to_ref_misaligned_is_an_error() {
    let misaligned = Pointer::<u32>::new(0x1002, 4, None).unwrap();
    assert!(matches!(ptr_to_ref(misaligned), Err(())));
}

#[test]
fn ptr_to_ref_valid_is_a_reference() {
    let valid = Pointer::new(0x1004, 4, Some(9u32)).unwrap();
    match ptr_to_ref(valid) {
        Ok(Some(found)) => {
            assert_eq!(found.addr, 0x1004);
            assert_eq!(found.value, 9);
        }
        other => panic!("expected a reference, got {:?}", other),
    }
}

#[test]
fn try_cstr_null_is_nothing() {
    let null = Pointer::<Vec<u8>>::new(0, 1, None).unwrap();
    assert_eq!(try_cstr(&null), None);
}

#[test]
fn try_cstr_gives_the_bytes() {
    let name = Pointer::new(0x77, 1, Some(b"coretemp".to_vec())).unwrap();
    assert_eq!(try_cstr(&name), Some(&b"coretemp".to_vec()));
    let empty = Pointer::new(0x78, 1, Some(Vec::new())).unwrap();
    assert_eq!(try_cstr(&empty), Some(&Vec::new()));
}

#[test]
fn box_release_frees_a_buffer_once() {
    let buffer = Pointer::new(0x5000, 1, Some(b"temp1".to_vec())).unwrap();
    let owned = GLibCBox::from_raw(buffer);
    assert_eq!(owned.as_ptr().address(), 0x5000);
    let (bytes, due) = owned.release();
    assert_eq!(bytes, Some(b"temp1".to_vec()));
    assert_eq!(due, Some(Call::Free { ptr: 0x5000 }));
}

#[test]
fn box_release_of_null_frees_nothing() {
    let owned = GLibCBox::from_raw(Pointer::<Vec<u8>>::new(0, 1, None).unwrap());
    let (bytes, due) = owned.release();
    assert_eq!(bytes, None);
    assert_eq!(due, None);
}

#[test]
fn box_release_frees_what_could_not_be_read() {
    let owned = GLibCBox::from_raw(Pointer::<u64>::new(0x5004, 8, None).unwrap());
    let (value, due) = owned.release();
    assert_eq!(value, None);
    assert_eq!(due, Some(Call::Free { ptr: 0x5004 }));
}
