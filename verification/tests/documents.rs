use host_lib::documents::{bson_to_json, json_batch_to_bson, json_to_bson, without_id, ConversionStep};

#[test]
fn json_to_document_and_back_drops_the_id() {
    let doc = json_to_bson(br#"{"_id":5,"hotelId":"1","lat":37.5}"#).ok().unwrap();
    assert_eq!(doc.get_str("hotelId").unwrap(), "1");
    let json = bson_to_json(&doc).ok().unwrap();
    let v: serde_json::Value = serde_json::from_slice(&json).unwrap();
    let expected: serde_json::Value = serde_json::from_str(r#"{"hotelId":"1","lat":37.5}"#).unwrap();
    assert_eq!(v, expected);
}

#[test]
fn bad_json_is_a_parse_error() {
    let e = json_to_bson(b"{not json").err().unwrap();
    assert_eq!(e.step, ConversionStep::ParseJson);
    assert!(!e.message.is_empty());
}

#[test]
fn non_object_json_is_not_a_document() {
    let e = json_to_bson(b"[1,2]").err().unwrap();
    assert_eq!(e.step, ConversionStep::JsonToBson);
}

#[test]
fn batch_stops_at_the_first_failure() {
    let ok = json_batch_to_bson(&vec![b"{\"a\":1}".to_vec(), b"{}".to_vec()]).ok().unwrap();
    assert_eq!(ok.len(), 2);
    let e = json_batch_to_bson(&vec![b"{\"a\":1}".to_vec(), b"3".to_vec()]).err().unwrap();
    assert_eq!(e.step, ConversionStep::JsonToBson);
}

#[test]
fn without_id_keeps_the_other_fields_in_order() {
    let doc = json_to_bson(br#"{"b":1,"_id":"x","a":2}"#).ok().unwrap();
    let shown = without_id(&doc);
    let keys: Vec<&String> = shown.keys().collect();
    assert_eq!(keys, vec!["b", "a"]);
    assert_eq!(doc.len(), 3);
    let plain = json_to_bson(br#"{"c":true}"#).ok().unwrap();
    assert_eq!(without_id(&plain).keys().collect::<Vec<_>>(), vec!["c"]);
}

#[test]
fn empty_object_is_an_empty_document_and_scalars_are_refused() {
    let doc = json_to_bson(b"{}").ok().unwrap();
    assert_eq!(doc.len(), 0);
    assert_eq!(json_to_bson(b"3").err().unwrap().step, ConversionStep::JsonToBson);
    assert_eq!(json_to_bson(b"\"s\"").err().unwrap().step, ConversionStep::JsonToBson);
    assert_eq!(json_to_bson(b"{").err().unwrap().step, ConversionStep::ParseJson);
}

#[test]
fn shown_json_has_no_id_and_keeps_values() {
    let doc = json_to_bson(br#"{"_id":"x","n":3,"s":"t","b":true}"#).ok().unwrap();
    let json = bson_to_json(&doc).ok().unwrap();
    assert_eq!(String::from_utf8(json).unwrap(), r#"{"n":3,"s":"t","b":true}"#);
}

#[test]
fn batch_fails_with_the_first_failing_document() {
    let e = json_batch_to_bson(&vec![b"{}".to_vec(), b"{".to_vec(), b"[1]".to_vec()]).err().unwrap();
    assert_eq!(e.step, ConversionStep::ParseJson);
    let e = json_batch_to_bson(&vec![b"[1]".to_vec(), b"{".to_vec()]).err().unwrap();
    assert_eq!(e.step, ConversionStep::JsonToBson);
}
