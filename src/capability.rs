//! Capability sets: what client and server announce to each other that they
//! support, and the list of them exchanged in the capability step.

use vstd::prelude::*;
use crate::error::{DecodeError, decodes_as};
use crate::wire::{le16, le32, u16_at, u32_at, read_u16, read_u32, write_u16, write_u32, lemma_u16_at_le16, lemma_u32_at_le32};

verus! {

/// Version of the smartcard capability that this client sends.
pub const SMARTCARD_CAPABILITY_VERSION_01: u32 = 0x00000001;

/// Version of the general capability without its trailing field.
pub const GENERAL_CAPABILITY_VERSION_01: u32 = 0x00000001;

/// Version of the general capability with its trailing field.
pub const GENERAL_CAPABILITY_VERSION_02: u32 = 0x00000002;

/// The kind of a capability set.
#[allow(non_camel_case_types)]
#[derive(Debug, Clone, Copy, PartialEq, Eq, Structural)]
pub enum CapabilityType {
    CAP_GENERAL_TYPE,
    CAP_PRINTER_TYPE,
    CAP_PORT_TYPE,
    CAP_DRIVE_TYPE,
    CAP_SMARTCARD_TYPE,
}

impl CapabilityType {
    /// The kind's code on the wire.
    pub open spec fn code(self) -> u16 {
        match self {
            CapabilityType::CAP_GENERAL_TYPE => 1,
            CapabilityType::CAP_PRINTER_TYPE => 2,
            CapabilityType::CAP_PORT_TYPE => 3,
            CapabilityType::CAP_DRIVE_TYPE => 4,
            CapabilityType::CAP_SMARTCARD_TYPE => 5,
        }
    }

    /// The kind whose code is `c`, if any.
    pub open spec fn of_code(c: u16) -> Option<CapabilityType> {
        if c == 1 {
            Some(CapabilityType::CAP_GENERAL_TYPE)
        } else if c == 2 {
            Some(CapabilityType::CAP_PRINTER_TYPE)
        } else if c == 3 {
            Some(CapabilityType::CAP_PORT_TYPE)
        } else if c == 4 {
            Some(CapabilityType::CAP_DRIVE_TYPE)
        } else if c == 5 {
            Some(CapabilityType::CAP_SMARTCARD_TYPE)
        } else {
            None
        }
    }

    pub fn from_u16(c: u16) -> (r: Option<Self>)
        ensures
            r == Self::of_code(c),
    {
        if c == 1 {
            Some(CapabilityType::CAP_GENERAL_TYPE)
        } else if c == 2 {
            Some(CapabilityType::CAP_PRINTER_TYPE)
        } else if c == 3 {
            Some(CapabilityType::CAP_PORT_TYPE)
        } else if c == 4 {
            Some(CapabilityType::CAP_DRIVE_TYPE)
        } else if c == 5 {
            Some(CapabilityType::CAP_SMARTCARD_TYPE)
        } else {
            None
        }
    }

    pub fn to_u16(&self) -> (r: u16)
        ensures
            r == self.code(),
    {
        match self {
            CapabilityType::CAP_GENERAL_TYPE => 1,
            CapabilityType::CAP_PRINTER_TYPE => 2,
            CapabilityType::CAP_PORT_TYPE => 3,
            CapabilityType::CAP_DRIVE_TYPE => 4,
            CapabilityType::CAP_SMARTCARD_TYPE => 5,
        }
    }
}

/// The header of a capability set: eight bytes, the kind's code, the declared
/// length of header and body, and the version.
#[derive(Debug, Clone, Copy, PartialEq, Eq, Structural)]
pub struct CapabilityHeader {
    pub cap_type: CapabilityType,
    pub length: u16,
    pub version: u32,
}

impl CapabilityHeader {
    /// The bytes of the header.
    pub open spec fn wire(self) -> Seq<u8> {
        le16(self.cap_type.code()) + le16(self.length) + le32(self.version)
    }

    /// What decoding `s` gives, and how many bytes it takes. The kind is
    /// checked as soon as it is read, before the rest is.
    pub open spec fn parse(s: Seq<u8>) -> Result<(CapabilityHeader, int), DecodeError> {
        if s.len() < 2 {
            Err(DecodeError::UnexpectedEnd)
        } else {
            match CapabilityType::of_code(u16_at(s, 0)) {
                None => Err(DecodeError::InvalidCapabilityType(u16_at(s, 0))),
                Some(cap_type) => if s.len() < 8 {
                    Err(DecodeError::UnexpectedEnd)
                } else {
                    Ok((CapabilityHeader { cap_type, length: u16_at(s, 2), version: u32_at(s, 4) }, 8))
                },
            }
        }
    }

    /// The header's bytes.
    pub fn encode(&self) -> (r: Vec<u8>)
        ensures
            r@ == self.wire(),
    {
        let mut w: Vec<u8> = Vec::new();
        write_u16(&mut w, self.cap_type.to_u16());
        write_u16(&mut w, self.length);
        write_u32(&mut w, self.version);
        assert(w@ =~= self.wire());
        w
    }

    /// Decodes the header at the start of `s`; an unknown kind is an error
    /// that carries its code.
    pub fn decode(s: &[u8]) -> (r: Result<(Self, usize), DecodeError>)
        ensures
            decodes_as(r, Self::parse(s@)),
    {
        if s.len() < 2 {
            return Err(DecodeError::UnexpectedEnd);
        }
        let code = read_u16(s, 0);
        let cap_type = match CapabilityType::from_u16(code) {
            Some(t) => t,
            None => return Err(DecodeError::InvalidCapabilityType(code)),
        };
        if s.len() < 8 {
            return Err(DecodeError::UnexpectedEnd);
        }
        Ok((CapabilityHeader { cap_type, length: read_u16(s, 2), version: read_u32(s, 4) }, 8))
    }
}

/// Decoding the bytes of a capability header, whatever follows them, gives
/// it back.
pub proof fn lemma_capability_header_round_trip(h: CapabilityHeader, rest: Seq<u8>)
    ensures
        CapabilityHeader::parse(h.wire() + rest) == Ok::<(CapabilityHeader, int), DecodeError>((h, 8)),
{
    let s = h.wire() + rest;
    assert(s.subrange(0, 2) =~= le16(h.cap_type.code()));
    assert(s.subrange(2, 4) =~= le16(h.length));
    assert(s.subrange(4, 8) =~= le32(h.version));
    lemma_u16_at_le16(h.cap_type.code(), s, 0);
    lemma_u16_at_le16(h.length, s, 2);
    lemma_u32_at_le32(h.version, s, 4);
}

/// The body of the general capability: nine fixed fields, 32 bytes, and at
/// version 2 a tenth, the number of special devices asked for.
#[derive(Debug, Clone, Copy, PartialEq, Eq, Structural)]
pub struct GeneralCapabilitySet {
    pub os_type: u32,
    pub os_version: u32,
    pub protocol_major_version: u16,
    pub protocol_minor_version: u16,
    pub io_code_1: u32,
    pub io_code_2: u32,
    pub extended_pdu: u32,
    pub extra_flags_1: u32,
    pub extra_flags_2: u32,
    /// Present exactly when the version is 2.
    pub special_type_device_cap: Option<u32>,
}

impl GeneralCapabilitySet {
    /// The trailing field is there exactly at version 2.
    pub open spec fn fits_version(self, version: u32) -> bool {
        self.special_type_device_cap is Some <==> version == 2
    }

    /// The bytes of the body.
    pub open spec fn wire(self) -> Seq<u8> {
        le32(self.os_type) + le32(self.os_version) + le16(self.protocol_major_version) + le16(
            self.protocol_minor_version,
        ) + le32(self.io_code_1) + le32(self.io_code_2) + le32(self.extended_pdu) + le32(
            self.extra_flags_1,
        ) + le32(self.extra_flags_2) + match self.special_type_device_cap {
            Some(v) => le32(v),
            None => Seq::empty(),
        }
    }

    /// The body at the start of `s` with the nine fixed fields only.
    pub open spec fn fixed_fields(s: Seq<u8>) -> GeneralCapabilitySet {
        GeneralCapabilitySet {
            os_type: u32_at(s, 0),
            os_version: u32_at(s, 4),
            protocol_major_version: u16_at(s, 8),
            protocol_minor_version: u16_at(s, 10),
            io_code_1: u32_at(s, 12),
            io_code_2: u32_at(s, 16),
            extended_pdu: u32_at(s, 20),
            extra_flags_1: u32_at(s, 24),
            extra_flags_2: u32_at(s, 28),
            special_type_device_cap: None,
        }
    }

    /// What decoding `s` as a body of the given version gives, and how many
    /// bytes it takes.
    pub open spec fn parse(s: Seq<u8>, version: u32) -> Result<(GeneralCapabilitySet, int), DecodeError> {
        if s.len() < 32 {
            Err(DecodeError::UnexpectedEnd)
        } else if version != 2 {
            Ok((Self::fixed_fields(s), 32))
        } else if s.len() < 36 {
            Err(DecodeError::UnexpectedEnd)
        } else {
            Ok((GeneralCapabilitySet { special_type_device_cap: Some(u32_at(s, 32)), ..Self::fixed_fields(s) }, 36))
        }
    }

    /// The number of special devices asked for; 0 where the version has no
    /// such field.
    pub fn special_type_device_cap(&self) -> (r: u32)
        ensures
            r == match self.special_type_device_cap {
                Some(v) => v,
                None => 0,
            },
    {
        match self.special_type_device_cap {
            Some(v) => v,
            None => 0,
        }
    }

    /// The body's bytes.
    pub fn encode(&self) -> (r: Vec<u8>)
        ensures
            r@ == self.wire(),
    {
        let mut w: Vec<u8> = Vec::new();
        write_u32(&mut w, self.os_type);
        write_u32(&mut w, self.os_version);
        write_u16(&mut w, self.protocol_major_version);
        write_u16(&mut w, self.protocol_minor_version);
        write_u32(&mut w, self.io_code_1);
        write_u32(&mut w, self.io_code_2);
        write_u32(&mut w, self.extended_pdu);
        write_u32(&mut w, self.extra_flags_1);
        write_u32(&mut w, self.extra_flags_2);
        if let Some(v) = self.special_type_device_cap {
            write_u32(&mut w, v);
        }
        assert(w@ =~= self.wire());
        w
    }

    /// Decodes a body of the given version at the start of `s`: the trailing
    /// field is read at version 2 only.
    pub fn decode(s: &[u8], version: u32) -> (r: Result<(Self, usize), DecodeError>)
        ensures
            decodes_as(r, Self::parse(s@, version)),
    {
        if s.len() < 32 {
            return Err(DecodeError::UnexpectedEnd);
        }
        let special_type_device_cap = if version == GENERAL_CAPABILITY_VERSION_02 {
            if s.len() < 36 {
                return Err(DecodeError::UnexpectedEnd);
            }
            Some(read_u32(s, 32))
        } else {
            None
        };
        let g = GeneralCapabilitySet {
            os_type: read_u32(s, 0),
            os_version: read_u32(s, 4),
            protocol_major_version: read_u16(s, 8),
            protocol_minor_version: read_u16(s, 10),
            io_code_1: read_u32(s, 12),
            io_code_2: read_u32(s, 16),
            extended_pdu: read_u32(s, 20),
            extra_flags_1: read_u32(s, 24),
            extra_flags_2: read_u32(s, 28),
            special_type_device_cap,
        };
        let n: usize = if version == GENERAL_CAPABILITY_VERSION_02 { 36 } else { 32 };
        Ok((g, n))
    }
}

/// Decoding the bytes of a general capability body at a version that it
/// fits, whatever follows them, gives it back.
pub proof fn lemma_general_round_trip(g: GeneralCapabilitySet, version: u32, rest: Seq<u8>)
    requires
        g.fits_version(version),
    ensures
        GeneralCapabilitySet::parse(g.wire() + rest, version) == Ok::<(GeneralCapabilitySet, int), DecodeError>(
            (g, g.wire().len() as int),
        ),
{
    let s = g.wire() + rest;
    assert(s.subrange(0, 4) =~= le32(g.os_type));
    assert(s.subrange(4, 8) =~= le32(g.os_version));
    assert(s.subrange(8, 10) =~= le16(g.protocol_major_version));
    assert(s.subrange(10, 12) =~= le16(g.protocol_minor_version));
    assert(s.subrange(12, 16) =~= le32(g.io_code_1));
    assert(s.subrange(16, 20) =~= le32(g.io_code_2));
    assert(s.subrange(20, 24) =~= le32(g.extended_pdu));
    assert(s.subrange(24, 28) =~= le32(g.extra_flags_1));
    assert(s.subrange(28, 32) =~= le32(g.extra_flags_2));
    lemma_u32_at_le32(g.os_type, s, 0);
    lemma_u32_at_le32(g.os_version, s, 4);
    lemma_u16_at_le16(g.protocol_major_version, s, 8);
    lemma_u16_at_le16(g.protocol_minor_version, s, 10);
    lemma_u32_at_le32(g.io_code_1, s, 12);
    lemma_u32_at_le32(g.io_code_2, s, 16);
    lemma_u32_at_le32(g.extended_pdu, s, 20);
    lemma_u32_at_le32(g.extra_flags_1, s, 24);
    lemma_u32_at_le32(g.extra_flags_2, s, 28);
    if let Some(v) = g.special_type_device_cap {
        assert(s.subrange(32, 36) =~= le32(v));
        lemma_u32_at_le32(v, s, 32);
    }
}

/// The body of a capability set; only the general kind has one, the others
/// are markers of zero bytes.
#[derive(Debug, Clone, Copy, PartialEq, Eq, Structural)]
pub enum Capability {
    General(GeneralCapabilitySet),
    Printer,
    Port,
    Drive,
    Smartcard,
}

impl Capability {
    /// The body agrees with the header in front of it: same kind, and a
    /// general body fits the header's version.
    pub open spec fn fits(self, header: CapabilityHeader) -> bool {
        match self {
            Capability::General(g) => header.cap_type == CapabilityType::CAP_GENERAL_TYPE
                && g.fits_version(header.version),
            Capability::Printer => header.cap_type == CapabilityType::CAP_PRINTER_TYPE,
            Capability::Port => header.cap_type == CapabilityType::CAP_PORT_TYPE,
            Capability::Drive => header.cap_type == CapabilityType::CAP_DRIVE_TYPE,
            Capability::Smartcard => header.cap_type == CapabilityType::CAP_SMARTCARD_TYPE,
        }
    }

    /// The bytes of the body.
    pub open spec fn wire(self) -> Seq<u8> {
        match self {
            Capability::General(g) => g.wire(),
            _ => Seq::empty(),
        }
    }

    /// What decoding `s` as the body that `header` announces gives, and how
    /// many bytes it takes.
    pub open spec fn parse(s: Seq<u8>, header: CapabilityHeader) -> Result<(Capability, int), DecodeError> {
        match header.cap_type {
            CapabilityType::CAP_GENERAL_TYPE => match GeneralCapabilitySet::parse(s, header.version) {
                Err(e) => Err(e),
                Ok((g, n)) => Ok((Capability::General(g), n)),
            },
            CapabilityType::CAP_PRINTER_TYPE => Ok((Capability::Printer, 0)),
            CapabilityType::CAP_PORT_TYPE => Ok((Capability::Port, 0)),
            CapabilityType::CAP_DRIVE_TYPE => Ok((Capability::Drive, 0)),
            CapabilityType::CAP_SMARTCARD_TYPE => Ok((Capability::Smartcard, 0)),
        }
    }

    /// The body's bytes.
    pub fn encode(&self) -> (r: Vec<u8>)
        ensures
            r@ == self.wire(),
    {
        match self {
            Capability::General(general) => general.encode(),
            _ => Vec::new(),
        }
    }

    /// Decodes the body that `header` announces at the start of `s`.
    pub fn decode(s: &[u8], header: &CapabilityHeader) -> (r: Result<(Self, usize), DecodeError>)
        ensures
            decodes_as(r, Self::parse(s@, *header)),
    {
        match header.cap_type {
            CapabilityType::CAP_GENERAL_TYPE => match GeneralCapabilitySet::decode(s, header.version) {
                Ok((g, n)) => Ok((Capability::General(g), n)),
                Err(e) => Err(e),
            },
            CapabilityType::CAP_PRINTER_TYPE => Ok((Capability::Printer, 0)),
            CapabilityType::CAP_PORT_TYPE => Ok((Capability::Port, 0)),
            CapabilityType::CAP_DRIVE_TYPE => Ok((Capability::Drive, 0)),
            CapabilityType::CAP_SMARTCARD_TYPE => Ok((Capability::Smartcard, 0)),
        }
    }
}

/// One capability set: a header and the body it announces.
#[derive(Debug, Clone, Copy, PartialEq, Eq, Structural)]
pub struct CapabilitySet {
    pub header: CapabilityHeader,
    pub data: Capability,
}

impl CapabilitySet {
    /// The body agrees with the header.
    pub open spec fn well_formed(self) -> bool {
        self.data.fits(self.header)
    }

    /// The bytes of the set.
    pub open spec fn wire(self) -> Seq<u8> {
        self.header.wire() + self.data.wire()
    }

    /// What decoding `s` gives, and how many bytes it takes: the header,
    /// then the body that its kind and version call for.
    pub open spec fn parse(s: Seq<u8>) -> Result<(CapabilitySet, int), DecodeError> {
        match CapabilityHeader::parse(s) {
            Err(e) => Err(e),
            Ok((header, n)) => match Capability::parse(s.skip(n), header) {
                Err(e) => Err(e),
                Ok((data, m)) => Ok((CapabilitySet { header, data }, n + m)),
            },
        }
    }

    /// The set's bytes.
    pub fn encode(&self) -> (r: Vec<u8>)
        ensures
            r@ == self.wire(),
    {
        let mut w = self.header.encode();
        let mut body = self.data.encode();
        w.append(&mut body);
        w
    }

    /// Decodes the set at the start of `s`.
    pub fn decode(s: &[u8]) -> (r: Result<(Self, usize), DecodeError>)
        ensures
            decodes_as(r, Self::parse(s@)),
    {
        let (header, n) = match CapabilityHeader::decode(s) {
            Ok(h) => h,
            Err(e) => return Err(e),
        };
        let rest = vstd::slice::slice_subrange(s, n, s.len());
        assert(rest@ =~= s@.skip(n as int));
        let (data, m) = match Capability::decode(rest, &header) {
            Ok(d) => d,
            Err(e) => return Err(e),
        };
        Ok((CapabilitySet { header, data }, n + m))
    }
}

/// A set takes no more bytes than there are.
pub proof fn lemma_capability_set_parse_len(s: Seq<u8>)
    ensures
        CapabilitySet::parse(s) matches Ok((_, n)) ==> 0 <= n <= s.len(),
{
}

/// Decoding the bytes of a well-formed capability set, whatever follows
/// them, gives it back.
pub proof fn lemma_capability_set_round_trip(c: CapabilitySet, rest: Seq<u8>)
    requires
        c.well_formed(),
    ensures
        CapabilitySet::parse(c.wire() + rest) == Ok::<(CapabilitySet, int), DecodeError>((c, c.wire().len() as int)),
{
    let hw = c.header.wire();
    let dw = c.data.wire();
    let s = hw + dw + rest;
    assert(s =~= hw + (dw + rest));
    lemma_capability_header_round_trip(c.header, dw + rest);
    assert(hw.len() == 8);
    assert(s.skip(8) =~= dw + rest);
    match c.data {
        Capability::General(g) => {
            lemma_general_round_trip(g, c.header.version, rest);
        },
        _ => {
            assert(dw + rest =~= rest);
        },
    }
}

/// The trailing field of the general capability is gated on the version:
/// at any version but 2 a body takes the 32 bytes of the fixed fields, no
/// more, and has no trailing field (it reads as 0); at version 2 it needs 36
/// bytes and keeps the trailing field exactly as sent.
pub proof fn lemma_general_trailing_field(s: Seq<u8>, version: u32)
    ensures
        version != 2 ==> (GeneralCapabilitySet::parse(s, version) is Ok <==> s.len() >= 32),
        version != 2 && s.len() >= 32 ==> (GeneralCapabilitySet::parse(s, version) matches Ok((g, n)) && (n == 32
            && g.special_type_device_cap is None)),
        version == 2 ==> (GeneralCapabilitySet::parse(s, version) is Ok <==> s.len() >= 36),
        version == 2 && s.len() >= 36 ==> (GeneralCapabilitySet::parse(s, version) matches Ok((g, n)) && (n == 36
            && g.special_type_device_cap == Some(u32_at(s, 32)))),
{
}

} // verus!
