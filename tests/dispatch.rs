use rdpdr::announce::{ClientAnnounceReply, ServerAnnounceRequest};
use rdpdr::capability::{Capability, CapabilityType};
use rdpdr::capability_list::ServerCoreCapabilityRequest;
use rdpdr::client::{encode_message, Client};
use rdpdr::error::DecodeError;
use rdpdr::header::{ChannelPDUHeader, Component, Header, PacketId};

fn inbound(component: Component, packet_id: PacketId, body: &[u8]) -> Vec<u8> {
    let mut inner = Header::new(component, packet_id).encode();
    inner.extend_from_slice(body);
    let mut out = ChannelPDUHeader::new(inner.len() as u32).encode();
    out.extend_from_slice(&inner);
    out
}

#[test]
fn announce_reply_from_request() {
    let req = ServerAnnounceRequest { version_major: 1, version_minor: 12, client_id: 0xDEADBEEF };
    let r = ClientAnnounceReply::new(req);
    assert_eq!(r, ClientAnnounceReply { version_major: 1, version_minor: 12, client_id: 0xDEADBEEF });
    assert_eq!(r.encode(), vec![1, 0, 12, 0, 0xEF, 0xBE, 0xAD, 0xDE]);
    let req = ServerAnnounceRequest { version_major: 7, version_minor: 99, client_id: 5 };
    assert_eq!(ClientAnnounceReply::new(req).client_id, 5);
    assert_eq!(ClientAnnounceReply::new(req).version_minor, 12);
}

#[test]
fn server_announce_decode() {
    let s = [1, 0, 12, 0, 0xEF, 0xBE, 0xAD, 0xDE, 0x77];
    assert_eq!(
        ServerAnnounceRequest::decode(&s),
        Ok((ServerAnnounceRequest { version_major: 1, version_minor: 12, client_id: 0xDEADBEEF }, 8))
    );
    assert_eq!(ServerAnnounceRequest::decode(&s[..7]), Err(DecodeError::UnexpectedEnd));
}

#[test]
fn encode_message_frames_payload() {
    let mut body = vec![0xAB, 0xCD];
    let m = encode_message(PacketId::PAKID_CORE_CLIENT_NAME, &mut body);
    assert!(body.is_empty());
    assert_eq!(m, vec![6, 0, 0, 0, 3, 0, 0, 0, 0x72, 0x44, 0x4E, 0x43, 0xAB, 0xCD]);
}

#[test]
fn handshake_announce() {
    let body = [1, 0, 12, 0, 0xEF, 0xBE, 0xAD, 0xDE];
    let msg = inbound(Component::RDPDR_CTYP_CORE, PacketId::PAKID_CORE_SERVER_ANNOUNCE, &body);
    let mut client = Client::new();
    let out = client.read(&msg).unwrap().expect("a reply is sent");
    assert_eq!(out.len(), 20);
    let (env, n) = ChannelPDUHeader::decode(&out).unwrap();
    assert_eq!(env, ChannelPDUHeader { length: 12, flags: 3 });
    let (h, m) = Header::decode(&out[n..]).unwrap();
    assert_eq!(h, Header::new(Component::RDPDR_CTYP_CORE, PacketId::PAKID_CORE_CLIENTID_CONFIRM));
    // The reply body has the layout of the announcement.
    let (reply, k) = ServerAnnounceRequest::decode(&out[n + m..]).unwrap();
    assert_eq!(k, 8);
    assert_eq!(reply.version_major, 1);
    assert_eq!(reply.version_minor, 12);
    assert_eq!(reply.client_id, 0xDEADBEEF);
}

#[test]
fn handshake_announce_truncated_body() {
    let msg = inbound(Component::RDPDR_CTYP_CORE, PacketId::PAKID_CORE_SERVER_ANNOUNCE, &[1, 0, 12, 0, 0xEF]);
    assert_eq!(Client::new().read(&msg), Err(DecodeError::UnexpectedEnd));
}

fn check_capability_reply(out: &[u8]) {
    let (env, n) = ChannelPDUHeader::decode(out).unwrap();
    assert_eq!(env, ChannelPDUHeader { length: 60, flags: 3 });
    let (h, m) = Header::decode(&out[n..]).unwrap();
    assert_eq!(h, Header::new(Component::RDPDR_CTYP_CORE, PacketId::PAKID_CORE_CLIENT_CAPABILITY));
    let (list, k) = ServerCoreCapabilityRequest::decode(&out[n + m..]).unwrap();
    assert_eq!(n + m + k, out.len());
    assert_eq!(list.num_capabilities, 2);
    assert_eq!(list.capabilities.len(), 2);
    match list.capabilities[0].data {
        Capability::General(g) => {
            assert_eq!(g.io_code_1, 0x00007fff);
            assert_eq!(g.special_type_device_cap(), 1);
        }
        _ => panic!("first set is not the general capability"),
    }
    assert_eq!(list.capabilities[1].header.cap_type, CapabilityType::CAP_SMARTCARD_TYPE);
    assert_eq!(list.capabilities[1].data, Capability::Smartcard);
}

#[test]
fn capability_reply_is_fixed() {
    let bodies: Vec<Vec<u8>> = vec![
        vec![0, 0, 0, 0],
        vec![1, 0, 0, 0, 2, 0, 8, 0, 1, 0, 0, 0],
        vec![
            2, 0, 0, 0, 1, 0, 40, 0, 1, 0, 0, 0, 1, 2, 3, 4, 5, 6, 7, 8, 9, 10, 11, 12, 13, 14, 15, 16, 17,
            18, 19, 20, 21, 22, 23, 24, 25, 26, 27, 28, 29, 30, 31, 32, 4, 0, 8, 0, 1, 0, 0, 0,
        ],
    ];
    for body in bodies {
        let msg = inbound(Component::RDPDR_CTYP_CORE, PacketId::PAKID_CORE_SERVER_CAPABILITY, &body);
        let out = Client::new().read(&msg).unwrap().expect("a reply is sent");
        check_capability_reply(&out);
    }
}

#[test]
fn capability_request_with_bad_type_fails() {
    let body = [1, 0, 0, 0, 7, 0, 8, 0, 1, 0, 0, 0];
    let msg = inbound(Component::RDPDR_CTYP_CORE, PacketId::PAKID_CORE_SERVER_CAPABILITY, &body);
    assert_eq!(Client::new().read(&msg), Err(DecodeError::InvalidCapabilityType(7)));
}

#[test]
fn unimplemented_packet_ignored() {
    let msg = inbound(Component::RDPDR_CTYP_CORE, PacketId::PAKID_CORE_CLIENT_NAME, &[0xFF, 0x00, 0x13, 0x37, 0x42]);
    assert_eq!(&msg[8..12], &[0x72, 0x44, 0x4E, 0x43]);
    assert_eq!(Client::new().read(&msg), Ok(None));
    let others = [
        PacketId::PAKID_CORE_CLIENTID_CONFIRM,
        PacketId::PAKID_CORE_DEVICELIST_ANNOUNCE,
        PacketId::PAKID_CORE_DEVICE_REPLY,
        PacketId::PAKID_CORE_DEVICE_IOREQUEST,
        PacketId::PAKID_CORE_DEVICE_IOCOMPLETION,
        PacketId::PAKID_CORE_CLIENT_CAPABILITY,
        PacketId::PAKID_CORE_DEVICELIST_REMOVE,
        PacketId::PAKID_PRN_CACHE_DATA,
        PacketId::PAKID_CORE_USER_LOGGEDON,
        PacketId::PAKID_PRN_USING_XPS,
    ];
    for packet_id in others {
        let msg = inbound(Component::RDPDR_CTYP_CORE, packet_id, &[]);
        assert_eq!(Client::new().read(&msg), Ok(None));
    }
}

#[test]
fn printer_component_ignored() {
    let ids = [
        PacketId::PAKID_CORE_SERVER_ANNOUNCE,
        PacketId::PAKID_CORE_SERVER_CAPABILITY,
        PacketId::PAKID_PRN_CACHE_DATA,
        PacketId::PAKID_PRN_USING_XPS,
    ];
    for packet_id in ids {
        // The body would not decode as an announcement or capability list.
        let msg = inbound(Component::RDPDR_CTYP_PRN, packet_id, &[7]);
        assert_eq!(Client::new().read(&msg), Ok(None));
    }
}

#[test]
fn invalid_discriminator_fails() {
    let mut msg = ChannelPDUHeader::new(4).encode();
    msg.extend_from_slice(&[0x99, 0x99, 0x6E, 0x49]);
    assert_eq!(Client::new().read(&msg), Err(DecodeError::InvalidComponent(0x9999)));
    let mut msg = ChannelPDUHeader::new(4).encode();
    msg.extend_from_slice(&[0x72, 0x44, 0x99, 0x99]);
    assert_eq!(Client::new().read(&msg), Err(DecodeError::InvalidPacketId(0x9999)));
}

#[test]
fn truncated_envelope_fails() {
    assert_eq!(Client::new().read(&[1, 0, 0]), Err(DecodeError::UnexpectedEnd));
    assert_eq!(Client::new().read(&[4, 0, 0, 0, 3, 0, 0, 0, 0x72]), Err(DecodeError::UnexpectedEnd));
}
