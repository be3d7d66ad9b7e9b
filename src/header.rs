//! The two headers in front of every message on the channel: the
//! per-fragment envelope, and the component / packet id discriminator.

use vstd::prelude::*;
use crate::error::{DecodeError, decodes_as};
use crate::wire::{le16, le32, u16_at, u32_at, read_u16, read_u32, write_u16, write_u32, lemma_u16_at_le16, lemma_u32_at_le32};

verus! {

/// Envelope flag: the fragment is the first of its message.
pub const CHANNEL_FLAG_FIRST: u32 = 0x00000001;

/// Envelope flag: the fragment is the last of its message.
pub const CHANNEL_FLAG_LAST: u32 = 0x00000002;

/// The envelope of one fragment: eight bytes, `length` then `flags`.
#[derive(Debug, Clone, Copy, PartialEq, Eq, Structural)]
pub struct ChannelPDUHeader {
    pub length: u32,
    pub flags: u32,
}

impl ChannelPDUHeader {
    /// The bytes of the envelope.
    pub open spec fn wire(self) -> Seq<u8> {
        le32(self.length) + le32(self.flags)
    }

    /// What decoding `s` gives, and how many bytes it takes.
    pub open spec fn parse(s: Seq<u8>) -> Result<(ChannelPDUHeader, int), DecodeError> {
        if s.len() < 8 {
            Err(DecodeError::UnexpectedEnd)
        } else {
            Ok((ChannelPDUHeader { length: u32_at(s, 0), flags: u32_at(s, 4) }, 8))
        }
    }

    /// The envelope of a message of `length` bytes sent in one fragment.
    pub fn new(length: u32) -> (r: Self)
        ensures
            r.length == length,
            r.flags == 3,
    {
        assert(CHANNEL_FLAG_FIRST | CHANNEL_FLAG_LAST == 3) by (bit_vector);
        ChannelPDUHeader { length, flags: CHANNEL_FLAG_FIRST | CHANNEL_FLAG_LAST }
    }

    /// Decodes the envelope at the start of `s`; the flags are not checked.
    pub fn decode(s: &[u8]) -> (r: Result<(Self, usize), DecodeError>)
        ensures
            decodes_as(r, Self::parse(s@)),
    {
        if s.len() < 8 {
            return Err(DecodeError::UnexpectedEnd);
        }
        Ok((ChannelPDUHeader { length: read_u32(s, 0), flags: read_u32(s, 4) }, 8))
    }

    /// The envelope's bytes.
    pub fn encode(&self) -> (r: Vec<u8>)
        ensures
            r@ == self.wire(),
    {
        let mut w: Vec<u8> = Vec::new();
        write_u32(&mut w, self.length);
        write_u32(&mut w, self.flags);
        assert(w@ =~= self.wire());
        w
    }
}

/// Decoding the bytes of an envelope, whatever follows them, gives it back.
pub proof fn lemma_channel_pdu_header_round_trip(h: ChannelPDUHeader, rest: Seq<u8>)
    ensures
        ChannelPDUHeader::parse(h.wire() + rest) == Ok::<(ChannelPDUHeader, int), DecodeError>((h, 8)),
{
    let s = h.wire() + rest;
    assert(s.subrange(0, 4) =~= le32(h.length));
    assert(s.subrange(4, 8) =~= le32(h.flags));
    lemma_u32_at_le32(h.length, s, 0);
    lemma_u32_at_le32(h.flags, s, 4);
}

/// The component a message belongs to.
#[allow(non_camel_case_types)]
#[derive(Debug, Clone, Copy, PartialEq, Eq, Structural)]
pub enum Component {
    RDPDR_CTYP_CORE,
    RDPDR_CTYP_PRN,
}

impl Component {
    /// The component's code on the wire.
    pub open spec fn code(self) -> u16 {
        match self {
            Component::RDPDR_CTYP_CORE => 0x4472,
            Component::RDPDR_CTYP_PRN => 0x5052,
        }
    }

    /// The component whose code is `c`, if any.
    pub open spec fn of_code(c: u16) -> Option<Component> {
        if c == 0x4472 {
            Some(Component::RDPDR_CTYP_CORE)
        } else if c == 0x5052 {
            Some(Component::RDPDR_CTYP_PRN)
        } else {
            None
        }
    }

    pub fn from_u16(c: u16) -> (r: Option<Self>)
        ensures
            r == Self::of_code(c),
    {
        if c == 0x4472 {
            Some(Component::RDPDR_CTYP_CORE)
        } else if c == 0x5052 {
            Some(Component::RDPDR_CTYP_PRN)
        } else {
            None
        }
    }

    pub fn to_u16(&self) -> (r: u16)
        ensures
            r == self.code(),
    {
        match self {
            Component::RDPDR_CTYP_CORE => 0x4472,
            Component::RDPDR_CTYP_PRN => 0x5052,
        }
    }
}

/// What a message is.
#[allow(non_camel_case_types)]
#[derive(Debug, Clone, Copy, PartialEq, Eq, Structural)]
pub enum PacketId {
    PAKID_CORE_SERVER_ANNOUNCE,
    PAKID_CORE_CLIENTID_CONFIRM,
    PAKID_CORE_CLIENT_NAME,
    PAKID_CORE_DEVICELIST_ANNOUNCE,
    PAKID_CORE_DEVICE_REPLY,
    PAKID_CORE_DEVICE_IOREQUEST,
    PAKID_CORE_DEVICE_IOCOMPLETION,
    PAKID_CORE_SERVER_CAPABILITY,
    PAKID_CORE_CLIENT_CAPABILITY,
    PAKID_CORE_DEVICELIST_REMOVE,
    PAKID_PRN_CACHE_DATA,
    PAKID_CORE_USER_LOGGEDON,
    PAKID_PRN_USING_XPS,
}

impl PacketId {
    /// The packet id's code on the wire.
    pub open spec fn code(self) -> u16 {
        match self {
            PacketId::PAKID_CORE_SERVER_ANNOUNCE => 0x496E,
            PacketId::PAKID_CORE_CLIENTID_CONFIRM => 0x4343,
            PacketId::PAKID_CORE_CLIENT_NAME => 0x434E,
            PacketId::PAKID_CORE_DEVICELIST_ANNOUNCE => 0x4441,
            PacketId::PAKID_CORE_DEVICE_REPLY => 0x6472,
            PacketId::PAKID_CORE_DEVICE_IOREQUEST => 0x4952,
            PacketId::PAKID_CORE_DEVICE_IOCOMPLETION => 0x4943,
            PacketId::PAKID_CORE_SERVER_CAPABILITY => 0x5350,
            PacketId::PAKID_CORE_CLIENT_CAPABILITY => 0x4350,
            PacketId::PAKID_CORE_DEVICELIST_REMOVE => 0x444D,
            PacketId::PAKID_PRN_CACHE_DATA => 0x5043,
            PacketId::PAKID_CORE_USER_LOGGEDON => 0x554C,
            PacketId::PAKID_PRN_USING_XPS => 0x5543,
        }
    }

    /// The packet id whose code is `c`, if any.
    pub open spec fn of_code(c: u16) -> Option<PacketId> {
        if c == 0x496E {
            Some(PacketId::PAKID_CORE_SERVER_ANNOUNCE)
        } else if c == 0x4343 {
            Some(PacketId::PAKID_CORE_CLIENTID_CONFIRM)
        } else if c == 0x434E {
            Some(PacketId::PAKID_CORE_CLIENT_NAME)
        } else if c == 0x4441 {
            Some(PacketId::PAKID_CORE_DEVICELIST_ANNOUNCE)
        } else if c == 0x6472 {
            Some(PacketId::PAKID_CORE_DEVICE_REPLY)
        } else if c == 0x4952 {
            Some(PacketId::PAKID_CORE_DEVICE_IOREQUEST)
        } else if c == 0x4943 {
            Some(PacketId::PAKID_CORE_DEVICE_IOCOMPLETION)
        } else if c == 0x5350 {
            Some(PacketId::PAKID_CORE_SERVER_CAPABILITY)
        } else if c == 0x4350 {
            Some(PacketId::PAKID_CORE_CLIENT_CAPABILITY)
        } else if c == 0x444D {
            Some(PacketId::PAKID_CORE_DEVICELIST_REMOVE)
        } else if c == 0x5043 {
            Some(PacketId::PAKID_PRN_CACHE_DATA)
        } else if c == 0x554C {
            Some(PacketId::PAKID_CORE_USER_LOGGEDON)
        } else if c == 0x5543 {
            Some(PacketId::PAKID_PRN_USING_XPS)
        } else {
            None
        }
    }

    pub fn from_u16(c: u16) -> (r: Option<Self>)
        ensures
            r == Self::of_code(c),
    {
        if c == 0x496E {
            Some(PacketId::PAKID_CORE_SERVER_ANNOUNCE)
        } else if c == 0x4343 {
            Some(PacketId::PAKID_CORE_CLIENTID_CONFIRM)
        } else if c == 0x434E {
            Some(PacketId::PAKID_CORE_CLIENT_NAME)
        } else if c == 0x4441 {
            Some(PacketId::PAKID_CORE_DEVICELIST_ANNOUNCE)
        } else if c == 0x6472 {
            Some(PacketId::PAKID_CORE_DEVICE_REPLY)
        } else if c == 0x4952 {
            Some(PacketId::PAKID_CORE_DEVICE_IOREQUEST)
        } else if c == 0x4943 {
            Some(PacketId::PAKID_CORE_DEVICE_IOCOMPLETION)
        } else if c == 0x5350 {
            Some(PacketId::PAKID_CORE_SERVER_CAPABILITY)
        } else if c == 0x4350 {
            Some(PacketId::PAKID_CORE_CLIENT_CAPABILITY)
        } else if c == 0x444D {
            Some(PacketId::PAKID_CORE_DEVICELIST_REMOVE)
        } else if c == 0x5043 {
            Some(PacketId::PAKID_PRN_CACHE_DATA)
        } else if c == 0x554C {
            Some(PacketId::PAKID_CORE_USER_LOGGEDON)
        } else if c == 0x5543 {
            Some(PacketId::PAKID_PRN_USING_XPS)
        } else {
            None
        }
    }

    pub fn to_u16(&self) -> (r: u16)
        ensures
            r == self.code(),
    {
        match self {
            PacketId::PAKID_CORE_SERVER_ANNOUNCE => 0x496E,
            PacketId::PAKID_CORE_CLIENTID_CONFIRM => 0x4343,
            PacketId::PAKID_CORE_CLIENT_NAME => 0x434E,
            PacketId::PAKID_CORE_DEVICELIST_ANNOUNCE => 0x4441,
            PacketId::PAKID_CORE_DEVICE_REPLY => 0x6472,
            PacketId::PAKID_CORE_DEVICE_IOREQUEST => 0x4952,
            PacketId::PAKID_CORE_DEVICE_IOCOMPLETION => 0x4943,
            PacketId::PAKID_CORE_SERVER_CAPABILITY => 0x5350,
            PacketId::PAKID_CORE_CLIENT_CAPABILITY => 0x4350,
            PacketId::PAKID_CORE_DEVICELIST_REMOVE => 0x444D,
            PacketId::PAKID_PRN_CACHE_DATA => 0x5043,
            PacketId::PAKID_CORE_USER_LOGGEDON => 0x554C,
            PacketId::PAKID_PRN_USING_XPS => 0x5543,
        }
    }
}

/// The discriminator at the start of every message: four bytes, the
/// component's code then the packet id's code.
#[derive(Debug, Clone, Copy, PartialEq, Eq, Structural)]
pub struct Header {
    pub component: Component,
    pub packet_id: PacketId,
}

impl Header {
    /// The bytes of the discriminator.
    pub open spec fn wire(self) -> Seq<u8> {
        le16(self.component.code()) + le16(self.packet_id.code())
    }

    /// What decoding `s` gives, and how many bytes it takes.
    pub open spec fn parse(s: Seq<u8>) -> Result<(Header, int), DecodeError> {
        if s.len() < 4 {
            Err(DecodeError::UnexpectedEnd)
        } else {
            match (Component::of_code(u16_at(s, 0)), PacketId::of_code(u16_at(s, 2))) {
                (None, _) => Err(DecodeError::InvalidComponent(u16_at(s, 0))),
                (Some(_), None) => Err(DecodeError::InvalidPacketId(u16_at(s, 2))),
                (Some(component), Some(packet_id)) => Ok((Header { component, packet_id }, 4)),
            }
        }
    }

    pub fn new(component: Component, packet_id: PacketId) -> (r: Self)
        ensures
            r.component == component,
            r.packet_id == packet_id,
    {
        Header { component, packet_id }
    }

    /// Decodes the discriminator at the start of `s`; a code that names
    /// nothing known is an error that carries the code.
    pub fn decode(s: &[u8]) -> (r: Result<(Self, usize), DecodeError>)
        ensures
            decodes_as(r, Self::parse(s@)),
    {
        if s.len() < 4 {
            return Err(DecodeError::UnexpectedEnd);
        }
        let component = read_u16(s, 0);
        let packet_id = read_u16(s, 2);
        let component = match Component::from_u16(component) {
            Some(c) => c,
            None => return Err(DecodeError::InvalidComponent(component)),
        };
        let packet_id = match PacketId::from_u16(packet_id) {
            Some(p) => p,
            None => return Err(DecodeError::InvalidPacketId(packet_id)),
        };
        Ok((Header { component, packet_id }, 4))
    }

    /// The discriminator's bytes; every discriminator can be encoded.
    pub fn encode(&self) -> (r: Vec<u8>)
        ensures
            r@ == self.wire(),
    {
        let mut w: Vec<u8> = Vec::new();
        write_u16(&mut w, self.component.to_u16());
        write_u16(&mut w, self.packet_id.to_u16());
        assert(w@ =~= self.wire());
        w
    }
}

/// Decoding the bytes of a discriminator, whatever follows them, gives it back.
pub proof fn lemma_header_round_trip(h: Header, rest: Seq<u8>)
    ensures
        Header::parse(h.wire() + rest) == Ok::<(Header, int), DecodeError>((h, 4)),
{
    let s = h.wire() + rest;
    assert(s.subrange(0, 2) =~= le16(h.component.code()));
    assert(s.subrange(2, 4) =~= le16(h.packet_id.code()));
    lemma_u16_at_le16(h.component.code(), s, 0);
    lemma_u16_at_le16(h.packet_id.code(), s, 2);
}

} // verus!
