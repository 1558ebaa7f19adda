use exper_inter_process_channel::an_id::{AnId, ID_STR_LEN};
use exper_inter_process_channel::msg_header::MSG_ID_STR_LEN;

#[test]
fn test_an_id() {
    let id = AnId::new();
    let from_id = AnId::from(id.0);
    println!("test_an_id: {}", id.to_string());
    assert_eq!(id, from_id);
}

#[test]
fn test_msg_id_utf8_len() {
    let nill_utf8: String = AnId::nil().to_string();
    println!("test_msg_id_utf8_len: nil_utf8={nill_utf8}");
    assert_eq!(MSG_ID_STR_LEN, nill_utf8.len());
    assert_eq!(ID_STR_LEN, nill_utf8.len());
}

#[test]
fn test_an_id_text_forms() {
    let id = AnId::from(0xad376277_0f23_4f4e_bbe6_4f76708da4fe);
    assert_eq!(id.to_string(), "ad376277-0f23-4f4e-bbe6-4f76708da4fe");
    assert_eq!(id.to_short_string(), "ad376277");
    assert_eq!(AnId::nil().to_string(), "00000000-0000-0000-0000-000000000000");
    assert_eq!(AnId::nil().0, 0);
    assert_eq!(AnId::from(1).to_string(), "00000000-0000-0000-0000-000000000001");
}

#[test]
fn test_an_id_new_is_v4() {
    let a = AnId::new();
    let b = AnId::new();
    assert_ne!(a, b);
    assert_eq!((a.0 >> 76) & 0xf, 4);
    assert_eq!((a.0 >> 62) & 0x3, 2);
    assert_eq!((b.0 >> 76) & 0xf, 4);
    assert_eq!((b.0 >> 62) & 0x3, 2);
}
