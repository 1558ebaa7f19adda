use exper_inter_process_channel::an_id::AnId;
use exper_inter_process_channel::msg_header::MsgHeader;

#[test]
fn test_size() {
    let header = MsgHeader::new(AnId::nil(), AnId::nil(), AnId::nil());
    let size = std::mem::size_of_val(&header);
    println!("test_default: size_of_val(&header)={size} {}", header.simple_display());
    assert_eq!(size, 48);
}

#[test]
fn test_new() {
    let msg_id = AnId::nil();
    let dst_id = AnId::from(0xad376277_0f23_4f4e_bbe6_4f76708da4fe);
    let src_id = AnId::from(0x31d1ee24_0dfd_49cd_906a_857aa67e59f4);

    let header = MsgHeader::new(msg_id, dst_id, src_id);
    println!("test_new: {}", header.simple_display());
    assert_eq!(header.msg_id, msg_id);
    assert_eq!(header.dst_id, dst_id);
    assert_eq!(header.src_id, src_id);
}

#[test]
fn test_simple_display() {
    let header = MsgHeader::new(
        AnId::nil(),
        AnId::from(0xad376277_0f23_4f4e_bbe6_4f76708da4fe),
        AnId::from(0x31d1ee24_0dfd_49cd_906a_857aa67e59f4),
    );
    assert_eq!(
        header.simple_display(),
        "mh { msg_id: 00000000 dst_id: ad376277 src_id: 31d1ee24 }"
    );
}

#[test]
fn test_new_msg_id_only() {
    let h = MsgHeader::new_msg_id_only(AnId::from(7));
    assert_eq!(h.msg_id, AnId::from(7));
    assert_eq!(h.dst_id, AnId::nil());
    assert_eq!(h.src_id, AnId::nil());
}
