use host_lib::wire::{
    decode_found, decode_lookup, decode_lookups, encode_found, encode_lookup, encode_lookups,
    position_of, CacheEntry,
};

#[test]
fn lookup_encoding() {
    let e = encode_lookup(Some(vec![4, 5]));
    assert!(e.found);
    assert_eq!(e.value, vec![4, 5]);
    let e = encode_lookup(None);
    assert!(!e.found);
    assert!(e.value.is_empty());
}

#[test]
fn lookup_round_trip() {
    for v in [None, Some(vec![]), Some(vec![1u8, 2, 3])] {
        assert_eq!(decode_lookup(encode_lookup(v.clone())), v);
    }
}

#[test]
fn not_found_ignores_the_value() {
    let e = CacheEntry { found: false, value: vec![1] };
    assert_eq!(decode_lookup(e), None);
}

#[test]
fn multi_lookup_round_trip() {
    let vs = vec![Some(vec![1]), None, Some(vec![])];
    let es = encode_lookups(vs.clone());
    assert_eq!(es.len(), 3);
    assert!(es[0].found && !es[1].found && es[2].found);
    assert_eq!(decode_lookups(es), vs);
}

#[test]
fn found_flag_round_trip() {
    assert_eq!(encode_found(Some(3)), (true, Some(3)));
    assert_eq!(encode_found::<i32>(None), (false, None));
    assert_eq!(decode_found(true, Some("h1")), Some("h1"));
    assert_eq!(decode_found(false, Some("h1")), None);
    assert_eq!(decode_found::<u8>(true, None), None);
    let (f, item) = encode_found(Some(42u64));
    assert_eq!(decode_found(f, item), Some(42));
}

#[test]
fn position_finds_the_first_match() {
    let ids = vec!["1".to_string(), "2".to_string(), "2".to_string()];
    assert_eq!(position_of(&ids, &"2".to_string()), Some(1));
    assert_eq!(position_of(&ids, &"1".to_string()), Some(0));
    assert_eq!(position_of(&ids, &"3".to_string()), None);
    assert_eq!(position_of(&Vec::new(), &"1".to_string()), None);
}
