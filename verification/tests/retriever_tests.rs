use blaze_relay::packet::{Packet, PacketHeader, PacketType};
use tdf::writer::TdfSerializer;
use blaze_relay::retriever::{
    accept_dns_ip, expect_response, select_doh_answer, InstanceAddress, InstanceDetails,
    InstanceHost, InstanceNet, InstanceRequest, OfficialInstance, OfficialSession, InstanceError,
    ResponseStep, RetrieverError, response_step,
};

#[test]
fn session_ids_start_at_zero_and_advance_by_one() {
    let mut session = OfficialSession::new();
    let p0 = session.request_raw(0x5, 0x1, vec![1, 2]);
    let p1 = session.request_empty_raw(0x5, 0x1);
    let p2 = session.request_raw(0x7, 0x2, Vec::new());
    assert_eq!(p0.header.seq, 0);
    assert_eq!(p1.header.seq, 1);
    assert_eq!(p2.header.seq, 2);
    assert_eq!(p0.header.ty, PacketType::Request);
    assert_eq!(p0.header.component, 0x5);
    assert_eq!(p0.header.command, 0x1);
    assert_eq!(p0.header.error, 0);
    assert_eq!(p0.contents, vec![1, 2]);
    assert!(p1.contents.is_empty());
    assert_ne!(p0.header.seq, p1.header.seq);
    assert_ne!(p1.header.seq, p2.header.seq);
}

fn response_to(req: &PacketHeader, contents: Vec<u8>) -> Packet {
    Packet::new(req.response(), contents)
}

fn notify(component: u16, command: u16) -> Packet {
    Packet::new_empty(PacketHeader::request(0, component, command).with_type(PacketType::Notify))
}

fn error_packet(component: u16, command: u16, code: u16) -> Packet {
    let mut header = PacketHeader::request(0, component, command).with_type(PacketType::Error);
    header.error = code;
    Packet::new_empty(header)
}

#[test]
fn expect_response_discards_unrelated_and_returns_first_match() {
    let req = PacketHeader::request(4, 0x5, 0x1);
    let other = PacketHeader::request(9, 0x6, 0x2);
    let incoming = vec![
        notify(0x30, 0x99),
        response_to(&other, vec![7]),
        response_to(&req, vec![1, 2, 3]),
        response_to(&req, vec![4, 5, 6]),
    ];
    let got = expect_response(&req, &incoming).expect("a matching response");
    assert_eq!(got.contents, vec![1, 2, 3]);
    assert_eq!(got.header.component, 0x5);
    assert_eq!(got.header.command, 0x1);
    assert_eq!(got.header.ty, PacketType::Response);
}

#[test]
fn expect_response_fails_on_first_error_even_with_different_path() {
    let req = PacketHeader::request(4, 0x5, 0x1);
    let incoming = vec![
        notify(0x30, 0x99),
        error_packet(0x77, 0x88, 0xBEEF),
        response_to(&req, vec![1]),
    ];
    match expect_response(&req, &incoming) {
        Err(RetrieverError::Packet(ep)) => {
            assert_eq!(ep.error_code(), 0xBEEF);
            assert_eq!(ep.0.header.component, 0x77);
        }
        other => panic!("expected an error packet failure, got {:?}", other),
    }
}

#[test]
fn expect_response_reports_early_stream_end() {
    let req = PacketHeader::request(4, 0x5, 0x1);
    let other = PacketHeader::request(9, 0x6, 0x2);
    let incoming = vec![notify(0x30, 0x99), response_to(&other, vec![7])];
    match expect_response(&req, &incoming) {
        Err(RetrieverError::EarlyEof) => {}
        other => panic!("expected early end of stream, got {:?}", other),
    }
    match expect_response(&req, &Vec::new()) {
        Err(RetrieverError::EarlyEof) => {}
        other => panic!("expected early end of stream, got {:?}", other),
    }
}

#[test]
fn response_step_classifies_packets() {
    let req = PacketHeader::request(4, 0x5, 0x1);
    let matching = req.response();
    let mismatched = PacketHeader::request(4, 0x6, 0x1).response();
    let note = req.with_type(PacketType::Notify);
    let err = req.with_type(PacketType::Error);
    assert_eq!(response_step(&req, &matching), ResponseStep::Accept);
    assert_eq!(response_step(&req, &mismatched), ResponseStep::Discard);
    assert_eq!(response_step(&req, &note), ResponseStep::Discard);
    assert_eq!(response_step(&req, &err), ResponseStep::Fail);
}

#[test]
fn loopback_dns_result_is_rejected() {
    // 127.0.0.1 and 127.255.255.254 point at a local override.
    assert!(accept_dns_ip(Some(0x7F000001)).is_none());
    assert!(accept_dns_ip(Some(0x7FFFFFFE)).is_none());
    assert!(accept_dns_ip(None).is_none());
    // A public address is accepted in dotted-decimal form.
    let s = accept_dns_ip(Some(0x9F9940AF)).expect("accepted");
    assert_eq!(s, "159.153.64.175");
}

#[test]
fn doh_answer_selection_takes_the_last_entry() {
    let answers = vec![
        String::from("10.0.0.1"),
        String::from("10.0.0.2"),
        String::from("159.153.64.175"),
    ];
    assert_eq!(select_doh_answer(&answers).as_deref(), Some("159.153.64.175"));
    assert_eq!(
        select_doh_answer(&vec![String::from("8.8.8.8")]).as_deref(),
        Some("8.8.8.8")
    );
    assert!(select_doh_answer(&Vec::new()).is_none());
}

#[test]
fn from_details_extracts_host_and_port() {
    let details = InstanceDetails {
        net: InstanceNet::InstanceAddress(InstanceAddress {
            host: InstanceHost::Host(String::from("gs.example.com")),
            port: 10041,
        }),
        secure: true,
        xdns: false,
    };
    let instance = OfficialInstance::from_details(details).expect("an address");
    assert_eq!(instance.host, "gs.example.com");
    assert_eq!(instance.port, 10041);

    let numeric = InstanceDetails {
        net: InstanceNet::InstanceAddress(InstanceAddress {
            host: InstanceHost::Address(0x9F9940AF),
            port: 443,
        }),
        secure: true,
        xdns: true,
    };
    let instance = OfficialInstance::from_details(numeric).expect("an address");
    assert_eq!(instance.host, "159.153.64.175");
    assert_eq!(instance.port, 443);
}

#[test]
fn from_details_without_address_fails() {
    for net in [InstanceNet::Unset, InstanceNet::Default] {
        let details = InstanceDetails {
            net,
            secure: false,
            xdns: false,
        };
        match OfficialInstance::from_details(details) {
            Err(InstanceError::MissingAddress) => {}
            other => panic!("expected a missing address, got {:?}", other),
        }
    }
}

#[test]
fn instance_host_serializes_to_exact_tdf_bytes() {
    // tag "HOST" packs to a2 fc f4, type String = 01; "a" is written as
    // length 2, byte 0x61, and a null terminator.
    let mut out: Vec<u8> = Vec::new();
    InstanceHost::Host(String::from("a")).serialize(&mut out);
    assert_eq!(out, vec![0xA2, 0xFC, 0xF4, 0x01, 0x02, 0x61, 0x00]);
}

#[test]
fn instance_request_serializes_as_the_codec_writes_it() {
    let mut ours: Vec<u8> = Vec::new();
    InstanceRequest.serialize(&mut ours);

    // The same thirteen fields written through the codec directly.
    let mut expected: Vec<u8> = Vec::new();
    {
        let w = &mut expected;
        w.tag_str(b"BSDK", "3.15.6.0");
        w.tag_str(b"BTIM", "Dec 21 2012 12:47:10");
        w.tag_str(b"CLNT", "MassEffect3-pc");
        w.tag_u8(b"CLTP", 0);
        w.tag_str(b"CSKU", "134845");
        w.tag_str(b"CVER", "05427.124");
        w.tag_str(b"DSDK", "8.14.7.1");
        w.tag_str(b"ENV", "prod");
        w.tag_union_unset(b"FPID");
        w.tag_u32(b"LOC", 0x656e4e5a);
        w.tag_str(b"NAME", "masseffect-3-pc");
        w.tag_str(b"PLAT", "Windows");
        w.tag_str(b"PROF", "standardSecure_v3");
    }
    assert!(!ours.is_empty());
    assert_eq!(ours, expected);
}

#[test]
fn instance_address_serializes_group_body() {
    let addr = InstanceAddress {
        host: InstanceHost::Address(0x0A000001),
        port: 42127,
    };
    let mut ours: Vec<u8> = Vec::new();
    addr.serialize(&mut ours);

    let mut expected: Vec<u8> = Vec::new();
    {
        let w = &mut expected;
        w.tag_u32(b"IP", 0x0A000001);
        w.tag_u16(b"PORT", 42127);
        w.tag_group_end();
    }
    assert_eq!(ours, expected);
}

#[test]
fn host_into_string_forms() {
    assert_eq!(
        InstanceHost::Host(String::from("gosredirector.ea.com")).into_string(),
        "gosredirector.ea.com"
    );
    assert_eq!(InstanceHost::Address(0).into_string(), "0.0.0.0");
    assert_eq!(InstanceHost::Address(0xFFFFFFFF).into_string(), "255.255.255.255");
    assert_eq!(InstanceHost::Address(0x0100007F).into_string(), "1.0.0.127");
}
