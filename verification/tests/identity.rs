use cachy::{CacheId, Key};

#[test]
fn every_key_shape_has_its_variant() {
    assert!(matches!(5usize.as_cache_id(), CacheId::USize(5)));
    assert!(matches!(5u32.as_cache_id(), CacheId::U32(5)));
    assert!(matches!(5u64.as_cache_id(), CacheId::U64(5)));
    assert!(matches!((-5isize).as_cache_id(), CacheId::ISize(-5)));
    assert!(matches!((-5i32).as_cache_id(), CacheId::I32(-5)));
    assert!(matches!((-5i64).as_cache_id(), CacheId::I64(-5)));
    assert!(matches!(String::from("five").as_cache_id(), CacheId::Str(ref s) if s == "five"));
}

#[test]
fn equal_keys_give_equal_identities() {
    assert!(7u32.as_cache_id() == 7u32.as_cache_id());
    assert!(String::from("k").as_cache_id() == String::from("k").as_cache_id());
    assert!(7u32.as_cache_id().same(&CacheId::U32(7)));
}

#[test]
fn different_keys_give_different_identities() {
    assert!(7u32.as_cache_id() != 8u32.as_cache_id());
    assert!(String::from("k").as_cache_id() != String::from("K").as_cache_id());
    assert!(String::from("").as_cache_id() != String::from(" ").as_cache_id());
}

#[test]
fn key_shapes_do_not_collide() {
    assert!(1u32.as_cache_id() != 1u64.as_cache_id());
    assert!(1u32.as_cache_id() != 1usize.as_cache_id());
    assert!(1i32.as_cache_id() != 1u32.as_cache_id());
    assert!(1i64.as_cache_id() != 1isize.as_cache_id());
    assert!(String::from("1").as_cache_id() != 1i32.as_cache_id());
    assert!(!CacheId::I64(0).same(&CacheId::U64(0)));
}

#[test]
fn clone_of_an_identity_is_the_same_identity() {
    let text = CacheId::Str(String::from("resource"));
    assert!(text.clone() == text);
    let number = CacheId::ISize(isize::MIN);
    assert!(number.clone() == number);
}

#[test]
fn text_identity_owns_a_copy() {
    let mut key = String::from("before");
    let id = key.as_cache_id();
    key.push_str(" and after");
    assert!(id == CacheId::Str(String::from("before")));
}
