use lib::c_string::c_string_bytes;

#[test]
fn endpoint_url_gets_terminator() {
    let bytes = c_string_bytes("opc.tcp://opcua.demo-this.com:51210").unwrap();
    assert_eq!(bytes, b"opc.tcp://opcua.demo-this.com:51210\0".to_vec());
}

#[test]
fn empty_text_is_only_terminator() {
    assert_eq!(c_string_bytes(""), Some(vec![0u8]));
}

#[test]
fn interior_nul_is_refused() {
    assert_eq!(c_string_bytes("opc.tcp://host\0:4840"), None);
    assert_eq!(c_string_bytes("\0"), None);
    assert_eq!(c_string_bytes("end\0"), None);
}

#[test]
fn non_ascii_text_keeps_utf8_bytes() {
    let bytes = c_string_bytes("grüße").unwrap();
    let mut expected = "grüße".as_bytes().to_vec();
    expected.push(0);
    assert_eq!(bytes, expected);
}

#[test]
fn terminator_is_the_only_zero_byte() {
    for text in ["opc.tcp://127.0.0.1:4840", "user", "pa ss", ""] {
        let bytes = c_string_bytes(text).unwrap();
        assert_eq!(bytes.len(), text.len() + 1);
        assert_eq!(bytes.iter().filter(|b| **b == 0).count(), 1);
        assert_eq!(bytes.last(), Some(&0u8));
        assert_eq!(&bytes[..text.len()], text.as_bytes());
    }
}
