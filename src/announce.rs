//! The announce step of the handshake: the server's announcement and the
//! client's confirmation, which echoes the server's client id.

use vstd::prelude::*;
use crate::error::{DecodeError, decodes_as};
use crate::wire::{le16, le32, u16_at, u32_at, read_u16, read_u32, write_u16, write_u32, lemma_u16_at_le16, lemma_u32_at_le32};

verus! {

/// Major version of the protocol this client speaks.
pub const VERSION_MAJOR: u16 = 0x0001;

/// Minor version of the protocol this client speaks.
pub const VERSION_MINOR: u16 = 0x000c;

/// The server's announcement: eight bytes, two versions then a client id.
#[derive(Debug, Clone, Copy, PartialEq, Eq, Structural)]
pub struct ServerAnnounceRequest {
    pub version_major: u16,
    pub version_minor: u16,
    pub client_id: u32,
}

/// What decoding an announce body `s` gives, and how many bytes it takes;
/// the server's announcement and the client's reply share this layout.
pub open spec fn parse_announce(s: Seq<u8>) -> Result<((u16, u16, u32), int), DecodeError> {
    if s.len() < 8 {
        Err(DecodeError::UnexpectedEnd)
    } else {
        Ok(((u16_at(s, 0), u16_at(s, 2), u32_at(s, 4)), 8))
    }
}

/// The bytes of an announce body.
pub open spec fn announce_wire(version_major: u16, version_minor: u16, client_id: u32) -> Seq<u8> {
    le16(version_major) + le16(version_minor) + le32(client_id)
}

/// Decoding the bytes of an announce body, whatever follows them, gives its
/// fields back.
pub proof fn lemma_announce_round_trip(version_major: u16, version_minor: u16, client_id: u32, rest: Seq<u8>)
    ensures
        parse_announce(announce_wire(version_major, version_minor, client_id) + rest)
            == Ok::<((u16, u16, u32), int), DecodeError>(((version_major, version_minor, client_id), 8)),
{
    let s = announce_wire(version_major, version_minor, client_id) + rest;
    assert(s.subrange(0, 2) =~= le16(version_major));
    assert(s.subrange(2, 4) =~= le16(version_minor));
    assert(s.subrange(4, 8) =~= le32(client_id));
    lemma_u16_at_le16(version_major, s, 0);
    lemma_u16_at_le16(version_minor, s, 2);
    lemma_u32_at_le32(client_id, s, 4);
}

impl ServerAnnounceRequest {
    /// The bytes of the announcement.
    pub open spec fn wire(self) -> Seq<u8> {
        announce_wire(self.version_major, self.version_minor, self.client_id)
    }

    /// What decoding `s` gives, and how many bytes it takes.
    pub open spec fn parse(s: Seq<u8>) -> Result<(ServerAnnounceRequest, int), DecodeError> {
        match parse_announce(s) {
            Err(e) => Err(e),
            Ok(((version_major, version_minor, client_id), n)) => Ok(
                (ServerAnnounceRequest { version_major, version_minor, client_id }, n),
            ),
        }
    }

    /// Decodes the announcement at the start of `s`; the versions are taken
    /// as they come.
    pub fn decode(s: &[u8]) -> (r: Result<(Self, usize), DecodeError>)
        ensures
            decodes_as(r, Self::parse(s@)),
    {
        if s.len() < 8 {
            return Err(DecodeError::UnexpectedEnd);
        }
        Ok((
            ServerAnnounceRequest {
                version_major: read_u16(s, 0),
                version_minor: read_u16(s, 2),
                client_id: read_u32(s, 4),
            },
            8,
        ))
    }
}

/// The client's confirmation: its own protocol version and the server's
/// client id.
#[derive(Debug, Clone, Copy, PartialEq, Eq, Structural)]
pub struct ClientAnnounceReply {
    pub version_major: u16,
    pub version_minor: u16,
    pub client_id: u32,
}

impl ClientAnnounceReply {
    /// The bytes of the confirmation.
    pub open spec fn wire(self) -> Seq<u8> {
        announce_wire(self.version_major, self.version_minor, self.client_id)
    }

    /// What decoding `s` gives, and how many bytes it takes.
    pub open spec fn parse(s: Seq<u8>) -> Result<(ClientAnnounceReply, int), DecodeError> {
        match parse_announce(s) {
            Err(e) => Err(e),
            Ok(((version_major, version_minor, client_id), n)) => Ok(
                (ClientAnnounceReply { version_major, version_minor, client_id }, n),
            ),
        }
    }

    /// The confirmation of `req`.
    pub fn new(req: ServerAnnounceRequest) -> (r: Self)
        ensures
            r == (ClientAnnounceReply { version_major: 1, version_minor: 12, client_id: req.client_id }),
    {
        ClientAnnounceReply { version_major: VERSION_MAJOR, version_minor: VERSION_MINOR, client_id: req.client_id }
    }

    /// The bytes of the confirmation.
    pub fn encode(&self) -> (r: Vec<u8>)
        ensures
            r@ == self.wire(),
    {
        let mut w: Vec<u8> = Vec::new();
        write_u16(&mut w, self.version_major);
        write_u16(&mut w, self.version_minor);
        write_u32(&mut w, self.client_id);
        assert(w@ =~= self.wire());
        w
    }
}

} // verus!
