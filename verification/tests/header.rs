use netlink_rs::socket::{
    nlmsg_align, nlmsg_header_length, nlmsg_length, DecodeError, Flags, GetFlags, MsgType,
    NewFlags, NlMsgHeader,
};

fn native16(n: u16) -> [u8; 2] {
    n.to_ne_bytes()
}

fn native32(n: u32) -> [u8; 4] {
    n.to_ne_bytes()
}

fn wire(length: u32, kind: u16, flags: u16, seq: u32, pid: u32) -> Vec<u8> {
    let mut out = Vec::new();
    out.extend_from_slice(&native32(length));
    out.extend_from_slice(&native16(kind));
    out.extend_from_slice(&native16(flags));
    out.extend_from_slice(&native32(seq));
    out.extend_from_slice(&native32(pid));
    out
}

#[test]
fn test_encoding() {
    // Little endian only right now
    let expected = [20, 0, 0, 0, 0, 0, 1, 3, 1, 0, 0, 0, 9, 0, 0, 0];
    let mut hdr = NlMsgHeader::request();
    let bytes = hdr.data_length(4).pid(9).seq(1).dump().bytes();

    assert_eq!(bytes, expected);
}

#[test]
fn test_decoding() {
    // Little endian only right now
    let bytes = [20, 0, 0, 0, 0, 0, 1, 3, 1, 0, 0, 0, 9, 0, 0, 0, 1, 1, 1];
    let mut h = NlMsgHeader::request();
    let expected = h.data_length(4).pid(9).seq(1).dump();

    let (hdr, n) = NlMsgHeader::from_bytes(&bytes).unwrap();
    assert_eq!(hdr, *expected);
    assert_eq!(n, 16);
}

#[test]
fn request_starts_with_the_request_flag_and_the_bare_header_length() {
    let h = NlMsgHeader::request();
    assert_eq!(h.msg_length(), 16);
    assert_eq!(h.msg_type(), MsgType::Request);
    assert_eq!(h.msg_flags(), 1);
    assert_eq!(h.msg_seq(), 0);
    assert_eq!(h.msg_pid(), 0);
    assert_eq!(h.bytes(), wire(16, 0, 1, 0, 0));
}

#[test]
fn done_starts_with_the_multi_flag() {
    let h = NlMsgHeader::done();
    assert_eq!(h.msg_length(), 16);
    assert_eq!(h.msg_type(), MsgType::Done);
    assert_eq!(h.msg_flags(), 2);
    assert_eq!(h.bytes(), wire(16, 3, 2, 0, 0));
}

#[test]
fn error_counts_the_status_code_and_the_embedded_header() {
    let h = NlMsgHeader::error();
    assert_eq!(h.msg_length(), 36);
    assert_eq!(h.msg_type(), MsgType::Error);
    assert_eq!(h.msg_flags(), 0);
    assert_eq!(h.bytes(), wire(36, 2, 0, 0, 0));
}

#[test]
fn user_defined_keeps_the_code_and_sets_the_request_flag() {
    let h = NlMsgHeader::user_defined(0x1234);
    assert_eq!(h.msg_length(), 16);
    assert_eq!(h.msg_type(), MsgType::UserDefined(0x1234));
    assert_eq!(h.msg_flags(), 1);
    assert_eq!(h.bytes(), wire(16, 0x1234, 1, 0, 0));
}

#[test]
fn user_defined_with_a_reserved_code_reads_as_that_type() {
    assert_eq!(NlMsgHeader::user_defined(3).msg_type(), MsgType::Done);
    assert_eq!(NlMsgHeader::user_defined(10).msg_type(), MsgType::MinType);
    assert_eq!(NlMsgHeader::user_defined(9).msg_type(), MsgType::UserDefined(9));
}

#[test]
fn data_length_adds_the_header_size() {
    let mut h = NlMsgHeader::request();
    assert_eq!(h.data_length(0).msg_length(), 16);
    assert_eq!(h.data_length(4).msg_length(), 20);
    assert_eq!(h.data_length(5).msg_length(), 21);
    assert_eq!(h.data_length(u32::MAX - 16).msg_length(), u32::MAX);
    assert_eq!(h.msg_flags(), 1);
    assert_eq!(h.msg_type(), MsgType::Request);
}

#[test]
fn seq_and_pid_change_only_their_field() {
    let mut h = NlMsgHeader::request();
    h.seq(0xdead_beef);
    assert_eq!(h.msg_seq(), 0xdead_beef);
    assert_eq!(h.msg_pid(), 0);
    h.pid(0x0102_0304);
    assert_eq!(h.msg_seq(), 0xdead_beef);
    assert_eq!(h.msg_pid(), 0x0102_0304);
    assert_eq!(h.msg_length(), 16);
    assert_eq!(h.msg_flags(), 1);
    assert_eq!(h.bytes(), wire(16, 0, 1, 0xdead_beef, 0x0102_0304));
}

#[test]
fn general_flags_set_their_bit() {
    let mut h = NlMsgHeader::error();
    assert_eq!(h.multipart().msg_flags(), 2);
    assert_eq!(h.ack().msg_flags(), 2 | 4);
    assert_eq!(h.echo().msg_flags(), 2 | 4 | 8);
    assert_eq!(h.echo().msg_flags(), 2 | 4 | 8);
    assert_eq!(h.msg_length(), 36);
}

#[test]
fn new_modifiers_set_their_bit() {
    let mut h = NlMsgHeader::error();
    assert_eq!(h.replace().msg_flags(), 0x100);
    assert_eq!(h.excl().msg_flags(), 0x300);
    assert_eq!(h.create().msg_flags(), 0x700);
    assert_eq!(h.append().msg_flags(), 0xf00);
    let mut single = NlMsgHeader::error();
    assert_eq!(single.append().msg_flags(), 0x800);
}

#[test]
fn get_modifiers_set_their_bit() {
    let mut h = NlMsgHeader::error();
    assert_eq!(h.root().msg_flags(), 0x100);
    assert_eq!(h.match_provided().msg_flags(), 0x300);
    assert_eq!(h.atomic().msg_flags(), 0x700);
    let mut single = NlMsgHeader::error();
    assert_eq!(single.atomic().msg_flags(), 0x400);
    let mut other = NlMsgHeader::error();
    assert_eq!(other.match_provided().msg_flags(), 0x200);
}

#[test]
fn dump_is_root_then_match() {
    let mut dumped = NlMsgHeader::request();
    dumped.dump();
    assert_eq!(dumped.msg_flags(), 1 | 0x100 | 0x200);
    assert_eq!(dumped.msg_flags() & 0x300, 0x300);

    let mut stepwise = NlMsgHeader::request();
    stepwise.root().match_provided();
    assert_eq!(stepwise, dumped);
    assert_eq!(stepwise.msg_flags(), dumped.msg_flags());

    let mut reversed = NlMsgHeader::request();
    reversed.match_provided().root();
    assert_eq!(reversed, dumped);
}

#[test]
fn setters_chain_on_one_header() {
    let mut h = NlMsgHeader::user_defined(17);
    h.data_length(8).multipart().ack().seq(7).pid(11);
    assert_eq!(h.msg_length(), 24);
    assert_eq!(h.msg_flags(), 1 | 2 | 4);
    assert_eq!(h.msg_seq(), 7);
    assert_eq!(h.msg_pid(), 11);
    assert_eq!(h.bytes(), wire(24, 17, 7, 7, 11));
}

#[test]
fn header_round_trips_through_its_bytes() {
    let mut h = NlMsgHeader::request();
    h.data_length(1000).ack().echo().atomic().seq(0xffff_ffff).pid(0x8000_0001);
    let bytes = h.bytes();
    assert_eq!(bytes.len(), 16);
    let (back, n) = NlMsgHeader::from_bytes(&bytes).unwrap();
    assert_eq!(back, h);
    assert_eq!(n, 16);
}

#[test]
fn decoding_reads_each_field_at_its_offset() {
    let bytes = wire(0x0a0b_0c0d, 0x0102, 0x0304, 0x1122_3344, 0x5566_7788);
    let (h, n) = NlMsgHeader::from_bytes(&bytes).unwrap();
    assert_eq!(n, 16);
    assert_eq!(h.msg_length(), 0x0a0b_0c0d);
    assert_eq!(h.msg_type(), MsgType::UserDefined(0x0102));
    assert_eq!(h.msg_flags(), 0x0304);
    assert_eq!(h.msg_seq(), 0x1122_3344);
    assert_eq!(h.msg_pid(), 0x5566_7788);
    assert_eq!(h.bytes(), bytes);
}

#[test]
fn decoding_a_short_buffer_is_an_error() {
    let bytes = wire(16, 0, 1, 0, 0);
    assert_eq!(NlMsgHeader::from_bytes(&bytes[..15]), Err(DecodeError::UnexpectedEof));
    assert_eq!(NlMsgHeader::from_bytes(&bytes[..4]), Err(DecodeError::UnexpectedEof));
    assert_eq!(NlMsgHeader::from_bytes(&[]), Err(DecodeError::UnexpectedEof));
    assert!(NlMsgHeader::from_bytes(&bytes[..16]).is_ok());
}

#[test]
fn decoding_accepts_a_length_below_the_header_size() {
    let bytes = wire(3, 0, 0, 0, 0);
    let (h, n) = NlMsgHeader::from_bytes(&bytes).unwrap();
    assert_eq!(h.msg_length(), 3);
    assert_eq!(n, 16);
}

#[test]
fn message_types_map_to_their_codes() {
    assert_eq!(u16::from(MsgType::Request), 0);
    assert_eq!(u16::from(MsgType::Noop), 1);
    assert_eq!(u16::from(MsgType::Error), 2);
    assert_eq!(u16::from(MsgType::Done), 3);
    assert_eq!(u16::from(MsgType::Overrun), 4);
    assert_eq!(u16::from(MsgType::MinType), 10);
    assert_eq!(u16::from(MsgType::UserDefined(77)), 77);
    let code: u16 = MsgType::Done.into();
    assert_eq!(code, 3);
}

#[test]
fn codes_map_to_their_message_types() {
    assert_eq!(MsgType::from(0), MsgType::Request);
    assert_eq!(MsgType::from(1), MsgType::Noop);
    assert_eq!(MsgType::from(2), MsgType::Error);
    assert_eq!(MsgType::from(3), MsgType::Done);
    assert_eq!(MsgType::from(4), MsgType::Overrun);
    assert_eq!(MsgType::from(5), MsgType::UserDefined(5));
    assert_eq!(MsgType::from(9), MsgType::UserDefined(9));
    assert_eq!(MsgType::from(10), MsgType::MinType);
    assert_eq!(MsgType::from(11), MsgType::UserDefined(11));
    assert_eq!(MsgType::from(u16::MAX), MsgType::UserDefined(u16::MAX));
    let kind: MsgType = 2u16.into();
    assert_eq!(kind, MsgType::Error);
}

#[test]
fn every_code_survives_the_way_through_its_type() {
    let mut code: u16 = 0;
    loop {
        assert_eq!(u16::from(MsgType::from(code)), code);
        if code == u16::MAX {
            break;
        }
        code += 1;
    }
}

#[test]
fn flag_groups_have_their_bits() {
    assert_eq!(u16::from(Flags::Request), 1);
    assert_eq!(u16::from(Flags::Multi), 2);
    assert_eq!(u16::from(Flags::Ack), 4);
    assert_eq!(u16::from(Flags::Echo), 8);
    assert_eq!(u16::from(GetFlags::Root), 0x100);
    assert_eq!(u16::from(GetFlags::Match), 0x200);
    assert_eq!(u16::from(GetFlags::Atomic), 0x400);
    assert_eq!(u16::from(GetFlags::Dump), 0x300);
    assert_eq!(u16::from(NewFlags::Replace), 0x100);
    assert_eq!(u16::from(NewFlags::Excl), 0x200);
    assert_eq!(u16::from(NewFlags::Create), 0x400);
    assert_eq!(u16::from(NewFlags::Append), 0x800);
}

#[test]
fn alignment_rounds_up_to_four() {
    assert_eq!(nlmsg_align(0), 0);
    assert_eq!(nlmsg_align(1), 4);
    assert_eq!(nlmsg_align(3), 4);
    assert_eq!(nlmsg_align(4), 4);
    assert_eq!(nlmsg_align(5), 8);
    assert_eq!(nlmsg_align(16), 16);
    assert_eq!(nlmsg_align(17), 20);
    assert_eq!(nlmsg_align(usize::MAX - 3), usize::MAX - 3);
}

#[test]
fn lengths_count_the_header() {
    assert_eq!(nlmsg_header_length(), 16);
    assert_eq!(nlmsg_length(0), 16);
    assert_eq!(nlmsg_length(4), 20);
    assert_eq!(nlmsg_length(20), 36);
}
