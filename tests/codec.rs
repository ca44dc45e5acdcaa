use std::collections::BTreeMap;

use rqueue::Codec;

#[test]
fn codec_defaults_to_json() {
    assert_eq!(Codec::default(), Codec::Json);
}

#[test]
fn json_encodes_as_text() {
    let bytes = Codec::Json.serialize(&vec![1, 2, 3]).unwrap();
    assert_eq!(bytes, b"[1,2,3]".to_vec());
    let bytes = Codec::Json.serialize("data").unwrap();
    assert_eq!(bytes, b"\"data\"".to_vec());
}

#[test]
fn msgpack_encodes_compactly() {
    assert_eq!(Codec::MsgPack.serialize(&1u8).unwrap(), vec![0x01]);
    assert_eq!(Codec::MsgPack.serialize("ab").unwrap(), vec![0xa2, b'a', b'b']);
}

#[test]
fn json_round_trip() {
    let mut m: BTreeMap<String, Vec<i64>> = BTreeMap::new();
    m.insert(String::from("a"), vec![1, -2, 3]);
    m.insert(String::from("b"), vec![]);
    let bytes = Codec::Json.serialize(&m).unwrap();
    let back: BTreeMap<String, Vec<i64>> = Codec::Json.deserialize(&bytes).unwrap();
    assert_eq!(back, m);

    let v = (7i32, String::from("seven"), Some(true));
    let bytes = Codec::Json.serialize(&v).unwrap();
    let back: (i32, String, Option<bool>) = Codec::Json.deserialize(&bytes).unwrap();
    assert_eq!(back, v);
}

#[test]
fn msgpack_round_trip() {
    let mut m: BTreeMap<String, Vec<i64>> = BTreeMap::new();
    m.insert(String::from("short_message"), vec![2147483648, 0, -1]);
    let bytes = Codec::MsgPack.serialize(&m).unwrap();
    let back: BTreeMap<String, Vec<i64>> = Codec::MsgPack.deserialize(&bytes).unwrap();
    assert_eq!(back, m);

    let v = serde_json::Value::String(String::from("data"));
    let bytes = Codec::MsgPack.serialize(&v).unwrap();
    let back: serde_json::Value = Codec::MsgPack.deserialize(&bytes).unwrap();
    assert_eq!(back, v);
}

#[test]
fn json_malformed_bytes_fail() {
    let r: Result<Vec<i32>, std::io::Error> = Codec::Json.deserialize(b"[1,2");
    assert!(r.is_err());
    let r: Result<String, std::io::Error> = Codec::Json.deserialize(b"");
    assert!(r.is_err());
    let r: Result<i32, std::io::Error> = Codec::Json.deserialize(b"\"text\"");
    assert_eq!(r.unwrap_err().kind(), std::io::ErrorKind::InvalidData);
}

#[test]
fn msgpack_malformed_bytes_fail() {
    let r: Result<String, std::io::Error> = Codec::MsgPack.deserialize(&[0xa5, b'a']);
    assert!(r.is_err());
    let r: Result<u8, std::io::Error> = Codec::MsgPack.deserialize(&[]);
    assert!(r.is_err());
    let r: Result<Vec<u8>, std::io::Error> = Codec::MsgPack.deserialize(&[0xc1]);
    assert_eq!(r.unwrap_err().kind(), std::io::ErrorKind::InvalidData);
}

#[test]
fn json_encoding_error_is_reported() {
    let mut m: BTreeMap<(i32, i32), i32> = BTreeMap::new();
    m.insert((1, 2), 3);
    let r = Codec::Json.serialize(&m);
    assert_eq!(r.unwrap_err().kind(), std::io::ErrorKind::InvalidData);
}
