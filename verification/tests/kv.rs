use host_lib::kv::KvCache;

fn k(s: &str) -> String {
    s.to_string()
}

#[test]
fn get_after_set_returns_the_value() {
    let mut c = KvCache::new();
    assert_eq!(c.get(&k("a")), None);
    c.set(k("a"), vec![1, 2, 3]);
    assert_eq!(c.get(&k("a")), Some(vec![1, 2, 3]));
}

#[test]
fn later_write_wins_and_other_keys_stay() {
    let mut c = KvCache::new();
    c.set(k("a"), vec![1]);
    c.set(k("b"), vec![2]);
    c.set(k("a"), vec![9, 9]);
    assert_eq!(c.get(&k("a")), Some(vec![9, 9]));
    assert_eq!(c.get(&k("b")), Some(vec![2]));
}

#[test]
fn empty_value_is_still_found() {
    let mut c = KvCache::new();
    c.set(k("e"), Vec::new());
    assert_eq!(c.get(&k("e")), Some(Vec::new()));
}

#[test]
fn get_multi_answers_each_key_in_order() {
    let mut c = KvCache::new();
    c.set(k("x"), vec![7]);
    c.set(k("y"), vec![8]);
    let got = c.get_multi(&vec![k("y"), k("missing"), k("x"), k("y")]);
    assert_eq!(got, vec![Some(vec![8]), None, Some(vec![7]), Some(vec![8])]);
    assert_eq!(c.get_multi(&Vec::new()), Vec::<Option<Vec<u8>>>::new());
}
