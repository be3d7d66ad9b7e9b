//! The dispatcher: one inbound message on the channel in, at most one reply
//! to write back out. Nothing is kept from one message to the next.

use vstd::prelude::*;
use crate::error::DecodeError;
use crate::header::{ChannelPDUHeader, Component, Header, PacketId, lemma_channel_pdu_header_round_trip, lemma_header_round_trip};
use crate::announce::{ClientAnnounceReply, ServerAnnounceRequest, lemma_announce_round_trip};
use crate::capability::Capability;
use crate::capability_list::{
    CapabilityList, ClientCoreCapabilityResponse, ServerCoreCapabilityRequest, client_capabilities,
    lemma_capability_list_round_trip, sets_wire,
};

verus! {

/// The bytes of an outbound message: a single-fragment envelope whose
/// length counts discriminator and body, the discriminator of the core
/// component with `packet_id`, then `body`.
pub open spec fn message_wire(packet_id: PacketId, body: Seq<u8>) -> Seq<u8> {
    ChannelPDUHeader { length: (4 + body.len()) as u32, flags: 3 }.wire() + Header {
        component: Component::RDPDR_CTYP_CORE,
        packet_id,
    }.wire() + body
}

/// What the client answers to the inbound message `s`: an error, nothing
/// (the message is ignored), or the bytes of one message to send back.
pub open spec fn reply(s: Seq<u8>) -> Result<Option<Seq<u8>>, DecodeError> {
    match ChannelPDUHeader::parse(s) {
        Err(e) => Err(e),
        Ok((_, n)) => match Header::parse(s.skip(n)) {
            Err(e) => Err(e),
            Ok((header, m)) => {
                let body = s.skip(n + m);
                if header.component == Component::RDPDR_CTYP_PRN {
                    Ok(None)
                } else {
                    match header.packet_id {
                        PacketId::PAKID_CORE_SERVER_ANNOUNCE => match ServerAnnounceRequest::parse(body) {
                            Err(e) => Err(e),
                            Ok((req, _)) => Ok(
                                Some(
                                    message_wire(
                                        PacketId::PAKID_CORE_CLIENTID_CONFIRM,
                                        ClientAnnounceReply {
                                            version_major: 1,
                                            version_minor: 12,
                                            client_id: req.client_id,
                                        }.wire(),
                                    ),
                                ),
                            ),
                        },
                        PacketId::PAKID_CORE_SERVER_CAPABILITY => match CapabilityList::parse(body) {
                            Err(e) => Err(e),
                            Ok(_) => Ok(
                                Some(message_wire(PacketId::PAKID_CORE_CLIENT_CAPABILITY, client_capabilities().wire())),
                            ),
                        },
                        _ => Ok(None),
                    }
                }
            },
        },
    }
}

/// `r`, with its bytes as a sequence, is `expected`.
pub open spec fn replies_as(r: Result<Option<Vec<u8>>, DecodeError>, expected: Result<Option<Seq<u8>>, DecodeError>) -> bool {
    match r {
        Ok(Some(m)) => expected == Ok::<Option<Seq<u8>>, DecodeError>(Some(m@)),
        Ok(None) => expected == Ok::<Option<Seq<u8>>, DecodeError>(None),
        Err(e) => expected == Err::<Option<Seq<u8>>, DecodeError>(e),
    }
}

/// The client's capability list takes 56 bytes.
pub proof fn lemma_client_capabilities_wire_len()
    ensures
        client_capabilities().wire().len() == 56,
{
    let caps = client_capabilities().capabilities;
    let first = caps.drop_last();
    assert(first.drop_last() =~= Seq::<crate::capability::CapabilitySet>::empty());
    assert(first.last() == caps[0]);
    assert(caps[0].header.wire().len() == 8);
    assert(caps[0].data.wire().len() == 36);
    assert(sets_wire(first) =~= sets_wire(first.drop_last()) + caps[0].wire());
    assert(sets_wire(caps.drop_last()).len() == 44);
    assert(sets_wire(caps).len() == 52);
}

/// Frames `payload` as an outbound message with `packet_id`, leaving
/// `payload` empty.
pub fn encode_message(packet_id: PacketId, payload: &mut Vec<u8>) -> (r: Vec<u8>)
    requires
        old(payload)@.len() + 4 <= u32::MAX,
    ensures
        r@ == message_wire(packet_id, old(payload)@),
        final(payload)@ == Seq::<u8>::empty(),
{
    let mut inner = Header::new(Component::RDPDR_CTYP_CORE, packet_id).encode();
    inner.append(payload);
    let mut outer = ChannelPDUHeader::new(inner.len() as u32).encode();
    outer.append(&mut inner);
    outer
}

/// The client end of the channel.
pub struct Client {}

impl Client {
    pub fn new() -> (r: Self) {
        Client {}
    }

    /// Handles one whole inbound message `payload` (envelope included) and
    /// returns the bytes to write back on the channel, if any. Printer
    /// messages and core packets other than the server's announcement and
    /// capability list are ignored; the envelope's length and flags are not
    /// checked.
    pub fn read(&mut self, payload: &[u8]) -> (r: Result<Option<Vec<u8>>, DecodeError>)
        ensures
            replies_as(r, reply(payload@)),
    {
        let (_pdu_header, n) = match ChannelPDUHeader::decode(payload) {
            Ok(x) => x,
            Err(e) => return Err(e),
        };
        let rest = vstd::slice::slice_subrange(payload, n, payload.len());
        assert(rest@ =~= payload@.skip(n as int));
        let (header, m) = match Header::decode(rest) {
            Ok(x) => x,
            Err(e) => return Err(e),
        };
        let body = vstd::slice::slice_subrange(rest, m, rest.len());
        assert(body@ =~= payload@.skip(n + m));
        if let Component::RDPDR_CTYP_PRN = header.component {
            return Ok(None);
        }
        match header.packet_id {
            PacketId::PAKID_CORE_SERVER_ANNOUNCE => {
                let (req, _) = match ServerAnnounceRequest::decode(body) {
                    Ok(x) => x,
                    Err(e) => return Err(e),
                };
                let mut resp = ClientAnnounceReply::new(req).encode();
                Ok(Some(encode_message(PacketId::PAKID_CORE_CLIENTID_CONFIRM, &mut resp)))
            },
            PacketId::PAKID_CORE_SERVER_CAPABILITY => {
                match ServerCoreCapabilityRequest::decode(body) {
                    Ok(_) => {},
                    Err(e) => return Err(e),
                }
                let mut resp = ClientCoreCapabilityResponse::new_response().encode();
                proof {
                    lemma_client_capabilities_wire_len();
                }
                Ok(Some(encode_message(PacketId::PAKID_CORE_CLIENT_CAPABILITY, &mut resp)))
            },
            _ => Ok(None),
        }
    }
}

/// The first bytes of an inbound message: an envelope, then a
/// discriminator.
pub open spec fn framed(env: ChannelPDUHeader, header: Header, body: Seq<u8>) -> Seq<u8> {
    env.wire() + header.wire() + body
}

/// How `reply` sees a framed message: its discriminator, and the body after
/// it.
proof fn lemma_reply_framed(env: ChannelPDUHeader, header: Header, body: Seq<u8>)
    ensures
        ChannelPDUHeader::parse(framed(env, header, body)) == Ok::<(ChannelPDUHeader, int), DecodeError>((env, 8)),
        Header::parse(framed(env, header, body).skip(8)) == Ok::<(Header, int), DecodeError>((header, 4)),
        framed(env, header, body).skip(12) == body,
{
    let s = framed(env, header, body);
    assert(s =~= env.wire() + (header.wire() + body));
    lemma_channel_pdu_header_round_trip(env, header.wire() + body);
    assert(s.skip(8) =~= header.wire() + body);
    lemma_header_round_trip(header, body);
    assert(s.skip(12) =~= body);
}

/// How an outbound message decodes: a single-fragment envelope that counts
/// the discriminator and the body, the core discriminator, then the body.
proof fn lemma_message_decodes(packet_id: PacketId, body: Seq<u8>)
    requires
        body.len() + 4 <= u32::MAX,
    ensures
        ChannelPDUHeader::parse(message_wire(packet_id, body)) == Ok::<(ChannelPDUHeader, int), DecodeError>(
            (ChannelPDUHeader { length: (4 + body.len()) as u32, flags: 3 }, 8),
        ),
        Header::parse(message_wire(packet_id, body).skip(8)) == Ok::<(Header, int), DecodeError>(
            (Header { component: Component::RDPDR_CTYP_CORE, packet_id }, 4),
        ),
        message_wire(packet_id, body).skip(12) == body,
{
    lemma_reply_framed(
        ChannelPDUHeader { length: (4 + body.len()) as u32, flags: 3 },
        Header { component: Component::RDPDR_CTYP_CORE, packet_id },
        body,
    );
}

/// The announce handshake: whatever the envelope and the server's versions,
/// the answer to an announcement is one message whose envelope declares 12
/// bytes, whose discriminator is the core component's client id
/// confirmation, and whose body is version 1.12 with the server's client id
/// unchanged.
pub proof fn lemma_announce_reply(env: ChannelPDUHeader, req: ServerAnnounceRequest, rest: Seq<u8>)
    ensures
        reply(
            framed(
                env,
                Header { component: Component::RDPDR_CTYP_CORE, packet_id: PacketId::PAKID_CORE_SERVER_ANNOUNCE },
                req.wire() + rest,
            ),
        ) matches Ok(Some(out)) && out.len() == 20 && ChannelPDUHeader::parse(out) == Ok::<
            (ChannelPDUHeader, int),
            DecodeError,
        >((ChannelPDUHeader { length: 12, flags: 3 }, 8)) && Header::parse(out.skip(8)) == Ok::<
            (Header, int),
            DecodeError,
        >((Header { component: Component::RDPDR_CTYP_CORE, packet_id: PacketId::PAKID_CORE_CLIENTID_CONFIRM }, 4))
            && ClientAnnounceReply::parse(out.skip(12)) == Ok::<(ClientAnnounceReply, int), DecodeError>(
            (ClientAnnounceReply { version_major: 1, version_minor: 12, client_id: req.client_id }, 8),
        ),
{
    let header = Header { component: Component::RDPDR_CTYP_CORE, packet_id: PacketId::PAKID_CORE_SERVER_ANNOUNCE };
    lemma_reply_framed(env, header, req.wire() + rest);
    lemma_announce_round_trip(req.version_major, req.version_minor, req.client_id, rest);
    let answer = ClientAnnounceReply { version_major: 1, version_minor: 12, client_id: req.client_id };
    lemma_message_decodes(PacketId::PAKID_CORE_CLIENTID_CONFIRM, answer.wire());
    lemma_announce_round_trip(1, 12, req.client_id, Seq::empty());
    assert(answer.wire() + Seq::<u8>::empty() =~= answer.wire());
}

/// `list` holds exactly two sets: the general capability asking for all
/// required operations and one special device, then the smartcard marker.
pub open spec fn is_smartcard_only_answer(list: CapabilityList) -> bool {
    &&& list.num_capabilities == 2
    &&& list.capabilities.len() == 2
    &&& list.capabilities[0].data matches Capability::General(g) && (g.io_code_1 == 0x00007fff
        && g.special_type_device_cap == Some(1u32))
    &&& list.capabilities[1].data == Capability::Smartcard
}

/// The capability reply: whatever capability list the server sent, as long
/// as it decodes, the answer is one message whose body decodes to exactly two
/// sets, the general capability asking for all required operations and one
/// special device, then the empty smartcard marker.
pub proof fn lemma_capability_reply(env: ChannelPDUHeader, body: Seq<u8>)
    requires
        CapabilityList::parse(body) is Ok,
    ensures
        reply(
            framed(
                env,
                Header { component: Component::RDPDR_CTYP_CORE, packet_id: PacketId::PAKID_CORE_SERVER_CAPABILITY },
                body,
            ),
        ) matches Ok(Some(out)) && (Header::parse(out.skip(8)) == Ok::<(Header, int), DecodeError>(
            (Header { component: Component::RDPDR_CTYP_CORE, packet_id: PacketId::PAKID_CORE_CLIENT_CAPABILITY }, 4),
        ) && (CapabilityList::parse(out.skip(12)) matches Ok((list, _)) && is_smartcard_only_answer(list))),
{
    let header = Header { component: Component::RDPDR_CTYP_CORE, packet_id: PacketId::PAKID_CORE_SERVER_CAPABILITY };
    lemma_reply_framed(env, header, body);
    let caps = client_capabilities();
    lemma_client_capabilities_wire_len();
    lemma_message_decodes(PacketId::PAKID_CORE_CLIENT_CAPABILITY, caps.wire());
    assert(caps.well_formed());
    lemma_capability_list_round_trip(caps, Seq::empty());
    assert(caps.wire() + Seq::<u8>::empty() =~= caps.wire());
}

/// Core packets other than the server's announcement and capability list
/// are ignored: whatever follows the discriminator, nothing is sent and no
/// error comes back.
pub proof fn lemma_unimplemented_packet_ignored(env: ChannelPDUHeader, packet_id: PacketId, rest: Seq<u8>)
    requires
        packet_id != PacketId::PAKID_CORE_SERVER_ANNOUNCE,
        packet_id != PacketId::PAKID_CORE_SERVER_CAPABILITY,
    ensures
        reply(framed(env, Header { component: Component::RDPDR_CTYP_CORE, packet_id }, rest))
            == Ok::<Option<Seq<u8>>, DecodeError>(None),
{
    lemma_reply_framed(env, Header { component: Component::RDPDR_CTYP_CORE, packet_id }, rest);
}

/// Printer messages are ignored whatever their packet id and body: nothing
/// is sent and no error comes back.
pub proof fn lemma_printer_ignored(env: ChannelPDUHeader, packet_id: PacketId, rest: Seq<u8>)
    ensures
        reply(framed(env, Header { component: Component::RDPDR_CTYP_PRN, packet_id }, rest))
            == Ok::<Option<Seq<u8>>, DecodeError>(None),
{
    lemma_reply_framed(env, Header { component: Component::RDPDR_CTYP_PRN, packet_id }, rest);
}

} // verus!
