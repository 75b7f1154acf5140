use host_lib::repro::{decimal, get_items, item_count, pad, summarize, verdict, zero_padded_decimal, PAD};

#[test]
fn pad_fills_with_zeros_to_width() {
    assert_eq!(pad("ab".to_string(), 5), "ab000");
    assert_eq!(pad("abcde".to_string(), 5), "abcde");
    assert_eq!(pad("abcdef".to_string(), 5), "abcdef");
    assert_eq!(pad(String::new(), 3), "000");
    // width counts bytes: "é" is two bytes long
    assert_eq!(pad("é".to_string(), 4), "é00");
}

#[test]
fn decimal_numerals() {
    assert_eq!(decimal(0), "0");
    assert_eq!(decimal(7), "7");
    assert_eq!(decimal(1234), "1234");
    assert_eq!(decimal(u32::MAX), "4294967295");
    assert_eq!(zero_padded_decimal(7, 4), "0007");
    assert_eq!(zero_padded_decimal(12345, 4), "12345");
    assert_eq!(zero_padded_decimal(0, 4), format!("{:04}", 0));
    assert_eq!(zero_padded_decimal(79, 4), format!("{:04}", 79));
}

#[test]
fn items_match_the_formatted_ids() {
    let items = get_items(3, 2);
    assert_eq!(items.len(), 3);
    for (i, item) in items.iter().enumerate() {
        let id = format!("item-{:04}", i);
        let expected = format!("{}{}", id, "0".repeat(PAD - id.len()));
        assert_eq!(item.id, expected);
        assert_eq!(item.tags.len(), 2);
        for (j, tag) in item.tags.iter().enumerate() {
            let t = format!("tag-{:04}-{}", i, j);
            assert_eq!(*tag, format!("{}{}", t, "0".repeat(PAD - t.len())));
            assert_eq!(tag.len(), PAD);
        }
    }
    assert!(get_items(0, 5).is_empty());
}

#[test]
fn summary_of_results() {
    let s = summarize(&vec![true, true, true]);
    assert!(s.passed);
    assert!(s.corrupted.is_empty());
    let s = summarize(&vec![true, false, true, false]);
    assert!(!s.passed);
    assert_eq!(s.corrupted, vec![1, 3]);
    assert_eq!(s.shown, vec![1, 3]);
    assert!(!s.truncated);
    let mut many = vec![false; 12];
    many[5] = true;
    let s = summarize(&many);
    assert_eq!(s.corrupted.len(), 11);
    assert_eq!(s.shown, vec![0, 1, 2, 3, 4, 6, 7, 8, 9, 10]);
    assert!(s.truncated);
}

#[test]
fn verdicts() {
    let v = verdict(false, true);
    assert!(v.bug_confirmed);
    assert_eq!(v.exit_code, 1);
    let v = verdict(true, true);
    assert!(v.gc_did_not_fire && !v.bug_confirmed && !v.fixed_failed);
    assert_eq!(v.exit_code, 0);
    let v = verdict(false, false);
    assert!(v.fixed_failed && !v.bug_confirmed);
    assert_eq!(v.exit_code, 2);
    let v = verdict(true, false);
    assert!(v.gc_did_not_fire && v.fixed_failed);
    assert_eq!(v.exit_code, 2);
}

#[test]
fn item_count_defaults_to_80() {
    assert_eq!(item_count(None), 80);
    assert_eq!(item_count(Some("200")), 200);
    assert_eq!(item_count(Some("many")), 80);
}

#[test]
fn padding_twice_changes_nothing() {
    let once = pad("ab".to_string(), 6);
    assert_eq!(once.len(), 6);
    assert!(once.starts_with("ab"));
    assert!(once[2..].bytes().all(|b| b == b'0'));
    assert_eq!(pad(once.clone(), 6), once);
    let long = pad("abcdefgh".to_string(), 6);
    assert_eq!(long, "abcdefgh");
    assert_eq!(pad(long.clone(), 6), long);
}
