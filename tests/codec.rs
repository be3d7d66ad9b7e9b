use rdpdr::capability::{
    Capability, CapabilityHeader, CapabilitySet, CapabilityType, GeneralCapabilitySet,
};
use rdpdr::capability_list::{ClientCoreCapabilityResponse, ServerCoreCapabilityRequest};
use rdpdr::error::DecodeError;
use rdpdr::header::{ChannelPDUHeader, Component, Header, PacketId};
use rdpdr::wire::{read_u16, read_u32, write_u16, write_u32};

fn general(special: Option<u32>) -> GeneralCapabilitySet {
    GeneralCapabilitySet {
        os_type: 0x01020304,
        os_version: 0x0A0B0C0D,
        protocol_major_version: 1,
        protocol_minor_version: 0x000c,
        io_code_1: 0x00007fff,
        io_code_2: 7,
        extended_pdu: 3,
        extra_flags_1: 0xFFFFFFFF,
        extra_flags_2: 9,
        special_type_device_cap: special,
    }
}

#[test]
fn little_endian_fields() {
    let mut w = Vec::new();
    write_u16(&mut w, 0x4472);
    write_u32(&mut w, 0x12345678);
    assert_eq!(w, vec![0x72, 0x44, 0x78, 0x56, 0x34, 0x12]);
    assert_eq!(read_u16(&w, 0), 0x4472);
    assert_eq!(read_u32(&w, 2), 0x12345678);
}

#[test]
fn channel_pdu_header_round_trip() {
    let h = ChannelPDUHeader::new(0xDEADBEEF);
    assert_eq!(h.flags, 3);
    let w = h.encode();
    assert_eq!(w, vec![0xEF, 0xBE, 0xAD, 0xDE, 0x03, 0, 0, 0]);
    let mut s = w.clone();
    s.extend_from_slice(&[9, 9]);
    assert_eq!(ChannelPDUHeader::decode(&s), Ok((h, 8)));
}

#[test]
fn channel_pdu_header_truncated() {
    assert_eq!(ChannelPDUHeader::decode(&[1, 2, 3, 4, 5, 6, 7]), Err(DecodeError::UnexpectedEnd));
}

#[test]
fn header_round_trip() {
    let ids = [
        PacketId::PAKID_CORE_SERVER_ANNOUNCE,
        PacketId::PAKID_CORE_CLIENTID_CONFIRM,
        PacketId::PAKID_CORE_CLIENT_NAME,
        PacketId::PAKID_CORE_DEVICELIST_ANNOUNCE,
        PacketId::PAKID_CORE_DEVICE_REPLY,
        PacketId::PAKID_CORE_DEVICE_IOREQUEST,
        PacketId::PAKID_CORE_DEVICE_IOCOMPLETION,
        PacketId::PAKID_CORE_SERVER_CAPABILITY,
        PacketId::PAKID_CORE_CLIENT_CAPABILITY,
        PacketId::PAKID_CORE_DEVICELIST_REMOVE,
        PacketId::PAKID_PRN_CACHE_DATA,
        PacketId::PAKID_CORE_USER_LOGGEDON,
        PacketId::PAKID_PRN_USING_XPS,
    ];
    for component in [Component::RDPDR_CTYP_CORE, Component::RDPDR_CTYP_PRN] {
        for packet_id in ids {
            let h = Header::new(component, packet_id);
            assert_eq!(Header::decode(&h.encode()), Ok((h, 4)));
        }
    }
}

#[test]
fn header_bytes() {
    let h = Header::new(Component::RDPDR_CTYP_CORE, PacketId::PAKID_CORE_SERVER_ANNOUNCE);
    assert_eq!(h.encode(), vec![0x72, 0x44, 0x6E, 0x49]);
    let h = Header::new(Component::RDPDR_CTYP_PRN, PacketId::PAKID_CORE_CLIENT_CAPABILITY);
    assert_eq!(h.encode(), vec![0x52, 0x50, 0x50, 0x43]);
}

#[test]
fn header_invalid_component() {
    let r = Header::decode(&[0x99, 0x99, 0x6E, 0x49]);
    assert_eq!(r, Err(DecodeError::InvalidComponent(0x9999)));
    assert!(r.unwrap_err().is_invalid_data());
}

#[test]
fn header_invalid_packet_id() {
    let r = Header::decode(&[0x72, 0x44, 0x99, 0x99]);
    assert_eq!(r, Err(DecodeError::InvalidPacketId(0x9999)));
    assert!(r.unwrap_err().is_invalid_data());
}

#[test]
fn header_truncated() {
    let r = Header::decode(&[0x72, 0x44, 0x6E]);
    assert_eq!(r, Err(DecodeError::UnexpectedEnd));
    assert!(!r.unwrap_err().is_invalid_data());
}

#[test]
fn capability_header_round_trip() {
    let h = CapabilityHeader { cap_type: CapabilityType::CAP_DRIVE_TYPE, length: 0x1234, version: 0x00050006 };
    let w = h.encode();
    assert_eq!(w, vec![4, 0, 0x34, 0x12, 6, 0, 5, 0]);
    assert_eq!(CapabilityHeader::decode(&w), Ok((h, 8)));
}

#[test]
fn capability_header_invalid_type() {
    assert_eq!(
        CapabilityHeader::decode(&[6, 0, 8, 0, 1, 0, 0, 0]),
        Err(DecodeError::InvalidCapabilityType(6))
    );
    // The kind is checked before the rest of the header is read.
    assert_eq!(CapabilityHeader::decode(&[0, 0]), Err(DecodeError::InvalidCapabilityType(0)));
    assert_eq!(CapabilityHeader::decode(&[5, 0, 8]), Err(DecodeError::UnexpectedEnd));
}

#[test]
fn general_version_1_reads_fixed_fields_only() {
    let g = general(None);
    let mut s = g.encode();
    assert_eq!(s.len(), 32);
    s.extend_from_slice(&[0xAA, 0xBB, 0xCC, 0xDD]);
    let (d, n) = GeneralCapabilitySet::decode(&s, 1).unwrap();
    assert_eq!(n, 32);
    assert_eq!(d, g);
    assert_eq!(d.special_type_device_cap(), 0);
}

#[test]
fn general_version_2_keeps_trailing_field() {
    let g = general(Some(0x11223344));
    let s = g.encode();
    assert_eq!(s.len(), 36);
    assert_eq!(&s[32..], &[0x44, 0x33, 0x22, 0x11]);
    let (d, n) = GeneralCapabilitySet::decode(&s, 2).unwrap();
    assert_eq!(n, 36);
    assert_eq!(d, g);
    assert_eq!(d.special_type_device_cap(), 0x11223344);
    assert_eq!(GeneralCapabilitySet::decode(&s[..35], 2), Err(DecodeError::UnexpectedEnd));
    assert_eq!(GeneralCapabilitySet::decode(&s[..32], 2), Err(DecodeError::UnexpectedEnd));
    assert_eq!(GeneralCapabilitySet::decode(&s[..31], 1), Err(DecodeError::UnexpectedEnd));
}

#[test]
fn capability_set_round_trip() {
    let sets = [
        CapabilitySet {
            header: CapabilityHeader { cap_type: CapabilityType::CAP_GENERAL_TYPE, length: 44, version: 2 },
            data: Capability::General(general(Some(1))),
        },
        CapabilitySet {
            header: CapabilityHeader { cap_type: CapabilityType::CAP_GENERAL_TYPE, length: 40, version: 1 },
            data: Capability::General(general(None)),
        },
        CapabilitySet {
            header: CapabilityHeader { cap_type: CapabilityType::CAP_PRINTER_TYPE, length: 8, version: 1 },
            data: Capability::Printer,
        },
        CapabilitySet {
            header: CapabilityHeader { cap_type: CapabilityType::CAP_PORT_TYPE, length: 8, version: 1 },
            data: Capability::Port,
        },
        CapabilitySet {
            header: CapabilityHeader { cap_type: CapabilityType::CAP_DRIVE_TYPE, length: 8, version: 2 },
            data: Capability::Drive,
        },
        CapabilitySet {
            header: CapabilityHeader { cap_type: CapabilityType::CAP_SMARTCARD_TYPE, length: 8, version: 1 },
            data: Capability::Smartcard,
        },
    ];
    for c in sets {
        let w = c.encode();
        let mut s = w.clone();
        s.extend_from_slice(&[1, 2, 3]);
        assert_eq!(CapabilitySet::decode(&s), Ok((c, w.len())));
    }
}

#[test]
fn capability_list_round_trip() {
    let req = ServerCoreCapabilityRequest {
        num_capabilities: 3,
        padding: 0x0102,
        capabilities: vec![
            CapabilitySet {
                header: CapabilityHeader { cap_type: CapabilityType::CAP_GENERAL_TYPE, length: 40, version: 1 },
                data: Capability::General(general(None)),
            },
            CapabilitySet {
                header: CapabilityHeader { cap_type: CapabilityType::CAP_PRINTER_TYPE, length: 8, version: 1 },
                data: Capability::Printer,
            },
            CapabilitySet {
                header: CapabilityHeader { cap_type: CapabilityType::CAP_SMARTCARD_TYPE, length: 8, version: 1 },
                data: Capability::Smartcard,
            },
        ],
    };
    let w = req.encode();
    assert_eq!(w.len(), 4 + 40 + 8 + 8);
    let (d, n) = ServerCoreCapabilityRequest::decode(&w).unwrap();
    assert_eq!(n, w.len());
    assert_eq!(d.num_capabilities, 3);
    assert_eq!(d.padding, 0x0102);
    assert_eq!(d.capabilities, req.capabilities);
}

#[test]
fn capability_list_empty() {
    let (d, n) = ServerCoreCapabilityRequest::decode(&[0, 0, 0, 0, 0xFF]).unwrap();
    assert_eq!(n, 4);
    assert_eq!(d.num_capabilities, 0);
    assert!(d.capabilities.is_empty());
}

#[test]
fn capability_list_bad_entry_aborts() {
    // Two sets announced, the second of an unknown kind.
    let s = [2, 0, 0, 0, 5, 0, 8, 0, 1, 0, 0, 0, 9, 0, 8, 0, 1, 0, 0, 0];
    assert!(matches!(
        ServerCoreCapabilityRequest::decode(&s),
        Err(DecodeError::InvalidCapabilityType(9))
    ));
    // One set announced, its general body cut short.
    let s = [1, 0, 0, 0, 1, 0, 44, 0, 2, 0, 0, 0, 1, 2, 3];
    assert!(matches!(ServerCoreCapabilityRequest::decode(&s), Err(DecodeError::UnexpectedEnd)));
    // More sets announced than there are.
    let s = [2, 0, 0, 0, 5, 0, 8, 0, 1, 0, 0, 0];
    assert!(matches!(ServerCoreCapabilityRequest::decode(&s), Err(DecodeError::UnexpectedEnd)));
}

#[test]
fn client_capability_response_content() {
    let r = ClientCoreCapabilityResponse::new_response();
    assert_eq!(r.num_capabilities, 2);
    assert_eq!(r.padding, 0);
    assert_eq!(r.capabilities.len(), 2);
    let g = &r.capabilities[0];
    assert_eq!(g.header, CapabilityHeader { cap_type: CapabilityType::CAP_GENERAL_TYPE, length: 44, version: 2 });
    match g.data {
        Capability::General(gen) => {
            assert_eq!(gen.protocol_major_version, 1);
            assert_eq!(gen.protocol_minor_version, 12);
            assert_eq!(gen.io_code_1, 0x00007fff);
            assert_eq!(gen.io_code_2, 0);
            assert_eq!(gen.extended_pdu, 3);
            assert_eq!(gen.special_type_device_cap, Some(1));
        }
        _ => panic!("first set is not the general capability"),
    }
    assert_eq!(
        r.capabilities[1],
        CapabilitySet {
            header: CapabilityHeader { cap_type: CapabilityType::CAP_SMARTCARD_TYPE, length: 8, version: 1 },
            data: Capability::Smartcard,
        }
    );
    let w = r.encode();
    assert_eq!(w.len(), 56);
    // Each header declares the length of its own set.
    assert_eq!(&w[4..12], &[1, 0, 44, 0, 2, 0, 0, 0]);
    assert_eq!(&w[48..56], &[5, 0, 8, 0, 1, 0, 0, 0]);
}
