use std::mem::MaybeUninit;
use xbpf::OpenObject;

#[test]
fn open_object_lends_its_storage() {
    let mut obj: OpenObject<u64> = OpenObject::new();
    let storage: &mut MaybeUninit<u64> = &mut obj;
    let value = storage.write(41);
    *value += 1;
    assert_eq!(*value, 42);
}

#[test]
fn open_object_holds_a_large_object() {
    let mut obj: OpenObject<[u8; 4096]> = OpenObject::new();
    let data = obj.write([7u8; 4096]);
    assert!(data.iter().all(|b| *b == 7));
    let _shared: &MaybeUninit<[u8; 4096]> = &obj;
}
