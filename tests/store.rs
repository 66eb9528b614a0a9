use trading_booth::store::{recipients_key, stream_key, trade_key, Namespace};

#[test]
fn trade_key_serialises_tag_then_big_endian_id() {
    let k = trade_key(0x0102030405060708);
    assert_eq!(k.namespace, Namespace::Booth);
    assert_eq!(k.to_bytes(), vec![1, 1, 2, 3, 4, 5, 6, 7, 8]);
}

#[test]
fn registry_keys_differ_for_same_id() {
    let s = stream_key(42).to_bytes();
    let r = recipients_key(42).to_bytes();
    let t = trade_key(42).to_bytes();
    assert_eq!(s, vec![2, 0, 0, 0, 0, 0, 0, 0, 0, 42]);
    assert_eq!(r, vec![2, 1, 0, 0, 0, 0, 0, 0, 0, 42]);
    assert_ne!(s, r);
    assert_ne!(s, t);
    assert_ne!(trade_key(1).to_bytes(), trade_key(256).to_bytes());
}
