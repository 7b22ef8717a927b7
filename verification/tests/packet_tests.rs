use blaze_relay::packet::{
    Packet, PacketCodec, PacketHeader, PacketOptions, PacketType, HAS_CONTEXT, JUMBO_FRAME,
};

fn header(component: u16, command: u16, error: u16, ty: PacketType, bits: u8, seq: u16) -> PacketHeader {
    PacketHeader {
        component,
        command,
        error,
        ty,
        options: PacketOptions { bits },
        seq,
    }
}

#[test]
fn header_round_trip_basic() {
    let h = header(0x0005, 0x0001, 0, PacketType::Request, 0, 7);
    let mut buf: Vec<u8> = Vec::new();
    h.write(&mut buf, 10);
    assert_eq!(buf.len(), 12);
    let (h2, len) = PacketHeader::read(&mut buf).expect("complete header");
    assert_eq!(len, 10);
    assert_eq!(h2, h);
    assert_eq!(buf.len(), 0);
}

#[test]
fn header_round_trip_all_types_and_flags() {
    let types = [
        PacketType::Request,
        PacketType::Response,
        PacketType::Notify,
        PacketType::Error,
    ];
    for ty in types {
        for bits in 0u8..16 {
            let h = header(0x1234, 0xABCD, 0x00FF, ty, bits, 0xBEEF);
            let mut buf: Vec<u8> = Vec::new();
            h.write(&mut buf, 42);
            let (h2, len) = PacketHeader::read(&mut buf).expect("complete header");
            assert_eq!(len, 42);
            assert_eq!(h2, h);
        }
    }
}

#[test]
fn header_round_trip_forces_jumbo_flag() {
    let h = header(1, 2, 0, PacketType::Request, HAS_CONTEXT, 3);
    let mut buf: Vec<u8> = Vec::new();
    h.write(&mut buf, 0x12345);
    assert_eq!(buf.len(), 14);
    let (h2, len) = PacketHeader::read(&mut buf).expect("complete header");
    assert_eq!(len, 0x12345);
    // Same header, except the jumbo-frame flag was forced on.
    assert_eq!(h2.options.bits, HAS_CONTEXT | JUMBO_FRAME);
    assert_eq!(h2.component, h.component);
    assert_eq!(h2.command, h.command);
    assert_eq!(h2.error, h.error);
    assert_eq!(h2.ty, h.ty);
    assert_eq!(h2.seq, h.seq);
}

#[test]
fn jumbo_boundary() {
    let h = header(1, 2, 0, PacketType::Request, 0, 0);
    let mut small: Vec<u8> = Vec::new();
    h.write(&mut small, 0xFFFF);
    assert_eq!(small.len(), 12);

    let mut big: Vec<u8> = Vec::new();
    h.write(&mut big, 0x10000);
    assert_eq!(big.len(), 14);
    let (_, len) = PacketHeader::read(&mut big).expect("complete header");
    assert_eq!(len, 0x10000);
}

#[test]
fn wire_bytes_are_exact() {
    // length 0x0102, component 0x0304, command 0x0506, error 0x0708,
    // type Notify (2 -> high nibble 0x20), options 0x6 -> 0x60, seq 0x090A.
    let h = header(0x0304, 0x0506, 0x0708, PacketType::Notify, 0x6, 0x090A);
    let mut buf: Vec<u8> = Vec::new();
    h.write(&mut buf, 0x0102);
    assert_eq!(
        buf,
        vec![0x01, 0x02, 0x03, 0x04, 0x05, 0x06, 0x07, 0x08, 0x20, 0x60, 0x09, 0x0A]
    );
}

#[test]
fn unknown_type_ordinals_decode_as_request() {
    assert_eq!(PacketType::from(0), PacketType::Request);
    assert_eq!(PacketType::from(1), PacketType::Response);
    assert_eq!(PacketType::from(2), PacketType::Notify);
    assert_eq!(PacketType::from(3), PacketType::Error);
    for v in 4u8..=255 {
        assert_eq!(PacketType::from(v), PacketType::Request);
    }
}

#[test]
fn path_matches_is_symmetric_and_reflexive() {
    let a = header(1, 2, 0, PacketType::Request, 0, 0);
    let b = header(1, 2, 9, PacketType::Error, 3, 77);
    let c = header(1, 3, 0, PacketType::Request, 0, 0);
    assert!(a.path_matches(&a));
    assert!(b.path_matches(&b));
    assert_eq!(a.path_matches(&b), b.path_matches(&a));
    assert!(a.path_matches(&b));
    assert_eq!(a.path_matches(&c), c.path_matches(&a));
    assert!(!a.path_matches(&c));
}

#[test]
fn options_flags() {
    let none = PacketOptions::none();
    assert_eq!(none.bits, 0);
    assert!(!none.contains(JUMBO_FRAME));
    let both = PacketOptions {
        bits: JUMBO_FRAME | HAS_CONTEXT,
    };
    assert!(both.contains(JUMBO_FRAME));
    assert!(both.contains(HAS_CONTEXT));
    assert!(both.contains(JUMBO_FRAME | HAS_CONTEXT));
    assert!(!both.contains(0x4));
}

#[test]
fn with_type_and_response_clear_options() {
    let h = header(4, 5, 6, PacketType::Request, 0xF, 8);
    let r = h.response();
    assert_eq!(r.ty, PacketType::Response);
    assert_eq!(r.options.bits, 0);
    assert_eq!(r.component, 4);
    assert_eq!(r.command, 5);
    assert_eq!(r.error, 6);
    assert_eq!(r.seq, 8);
    let n = h.with_type(PacketType::Notify);
    assert_eq!(n.ty, PacketType::Notify);
    assert_eq!(n.options.bits, 0);
}

#[test]
fn packet_round_trip_with_contents() {
    let p = Packet::new_request(9, 0x0001, 0x0002, vec![1, 2, 3, 4, 5]);
    let mut buf: Vec<u8> = Vec::new();
    p.write(&mut buf);
    assert_eq!(buf.len(), 12 + 5);
    let q = Packet::read(&mut buf).expect("complete packet");
    assert_eq!(q.header, p.header);
    assert_eq!(q.contents, p.contents);
    assert!(buf.is_empty());
}

#[test]
fn jumbo_packet_round_trips_byte_identical() {
    let contents: Vec<u8> = (0..0x10000u32).map(|i| (i % 251) as u8).collect();
    let p = Packet::new(
        PacketHeader::request(1, 0x0009, 0x0001),
        contents.clone(),
    );
    let mut buf: Vec<u8> = Vec::new();
    p.write(&mut buf);
    assert_eq!(buf.len(), 14 + 0x10000);
    let mut again = buf.clone();
    let q = Packet::read(&mut again).expect("complete packet");
    assert_eq!(q.contents, contents);
    let mut rewritten: Vec<u8> = Vec::new();
    q.write(&mut rewritten);
    assert_eq!(rewritten, buf);
}

#[test]
fn decode_waits_for_more_data() {
    let p = Packet::new_request(3, 7, 8, vec![9, 9, 9]);
    let mut wire: Vec<u8> = Vec::new();
    p.write(&mut wire);

    let mut codec = PacketCodec;
    let mut buf: Vec<u8> = Vec::new();
    // Feed the bytes a few at a time: no packet, and nothing consumed,
    // until the whole frame is present.
    for chunk in wire.chunks(5) {
        let before = buf.len();
        if buf.len() + chunk.len() < wire.len() {
            buf.extend_from_slice(chunk);
            assert!(codec.decode(&mut buf).is_none());
            assert_eq!(buf.len(), before + chunk.len());
        } else {
            buf.extend_from_slice(chunk);
        }
    }
    let q = codec.decode(&mut buf).expect("complete packet");
    assert_eq!(q.header, p.header);
    assert_eq!(q.contents, p.contents);
    assert!(buf.is_empty());
}

#[test]
fn partial_jumbo_header_is_not_consumed() {
    let h = header(1, 2, 0, PacketType::Request, JUMBO_FRAME, 0);
    let mut wire: Vec<u8> = Vec::new();
    h.write(&mut wire, 0x10000);
    // Only the fixed 12 bytes, missing the two extension bytes.
    let mut buf: Vec<u8> = wire[..12].to_vec();
    assert!(PacketHeader::read(&mut buf).is_none());
    assert_eq!(buf.len(), 12);
    assert_eq!(buf, &wire[..12]);
}

#[test]
fn two_packets_in_one_buffer_decode_in_order() {
    let p1 = Packet::new_request(1, 10, 20, vec![0xAA]);
    let p2 = Packet::new_request(2, 30, 40, vec![0xBB, 0xCC]);
    let mut buf: Vec<u8> = Vec::new();
    p1.write(&mut buf);
    p2.write(&mut buf);
    let mut codec = PacketCodec;
    let q1 = codec.decode(&mut buf).expect("first packet");
    assert_eq!(q1.header.seq, 1);
    assert_eq!(q1.contents, vec![0xAA]);
    let q2 = codec.decode(&mut buf).expect("second packet");
    assert_eq!(q2.header.seq, 2);
    assert_eq!(q2.contents, vec![0xBB, 0xCC]);
    assert!(codec.decode(&mut buf).is_none());
}
