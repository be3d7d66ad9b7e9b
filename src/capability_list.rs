//! The list of capability sets that server and client exchange in the
//! capability step, and the fixed list this client answers with.

use vstd::prelude::*;
use crate::error::DecodeError;
use crate::wire::{le16, u16_at, read_u16, write_u16, lemma_u16_at_le16};
use crate::announce::{VERSION_MAJOR, VERSION_MINOR};
use crate::capability::{
    Capability, CapabilityHeader, CapabilitySet, CapabilityType, GeneralCapabilitySet,
    GENERAL_CAPABILITY_VERSION_02, SMARTCARD_CAPABILITY_VERSION_01, lemma_capability_set_parse_len,
    lemma_capability_set_round_trip,
};

verus! {

/// The bytes of a sequence of capability sets, one after the other.
pub open spec fn sets_wire(caps: Seq<CapabilitySet>) -> Seq<u8>
    decreases caps.len(),
{
    if caps.len() == 0 {
        Seq::empty()
    } else {
        sets_wire(caps.drop_last()) + caps.last().wire()
    }
}

/// What decoding `n` capability sets one after the other from the start of
/// `s` gives, and how many bytes they take; the first failure ends it.
pub open spec fn parse_sets(s: Seq<u8>, n: nat) -> Result<(Seq<CapabilitySet>, int), DecodeError>
    decreases n,
{
    if n == 0 {
        Ok((Seq::empty(), 0))
    } else {
        match parse_sets(s, (n - 1) as nat) {
            Err(e) => Err(e),
            Ok((caps, used)) => match CapabilitySet::parse(s.skip(used)) {
                Err(e) => Err(e),
                Ok((c, k)) => Ok((caps.push(c), used + k)),
            },
        }
    }
}

/// Once decoding fails, decoding more sets fails the same way.
pub proof fn lemma_parse_sets_failure_stays(s: Seq<u8>, i: nat, n: nat)
    requires
        i <= n,
        parse_sets(s, i) is Err,
    ensures
        parse_sets(s, n) == parse_sets(s, i),
    decreases n,
{
    if n > i {
        lemma_parse_sets_failure_stays(s, i, (n - 1) as nat);
    }
}

/// Decoding the bytes of well-formed sets, whatever follows them, gives them
/// back.
pub proof fn lemma_sets_round_trip(caps: Seq<CapabilitySet>, rest: Seq<u8>)
    requires
        forall|i: int| 0 <= i < caps.len() ==> #[trigger] caps[i].well_formed(),
    ensures
        parse_sets(sets_wire(caps) + rest, caps.len()) == Ok::<(Seq<CapabilitySet>, int), DecodeError>(
            (caps, sets_wire(caps).len() as int),
        ),
    decreases caps.len(),
{
    if caps.len() == 0 {
        assert(caps =~= Seq::<CapabilitySet>::empty());
        assert(sets_wire(caps) + rest =~= rest);
    } else {
        let init = caps.drop_last();
        let c = caps.last();
        assert forall|i: int| 0 <= i < init.len() implies #[trigger] init[i].well_formed() by {
            assert(init[i] == caps[i]);
        }
        assert(c.well_formed());
        let tail = c.wire() + rest;
        lemma_sets_round_trip(init, tail);
        let s = sets_wire(caps) + rest;
        assert(s =~= sets_wire(init) + tail);
        let used = sets_wire(init).len() as int;
        assert(s.skip(used) =~= tail);
        lemma_capability_set_round_trip(c, rest);
        assert(init.push(c) =~= caps);
    }
}

/// A capability list as a value: its declared count, its padding, and its
/// sets in order.
pub struct CapabilityList {
    pub num_capabilities: u16,
    pub padding: u16,
    pub capabilities: Seq<CapabilitySet>,
}

impl CapabilityList {
    /// The count is the number of sets, and each set's body agrees with its
    /// header.
    pub open spec fn well_formed(self) -> bool {
        &&& self.num_capabilities == self.capabilities.len()
        &&& forall|i: int| 0 <= i < self.capabilities.len() ==> #[trigger] self.capabilities[i].well_formed()
    }

    /// The bytes of the list: count, padding, then the sets.
    pub open spec fn wire(self) -> Seq<u8> {
        le16(self.num_capabilities) + le16(self.padding) + sets_wire(self.capabilities)
    }

    /// What decoding `s` gives, and how many bytes it takes: as many sets as
    /// the count says, each decoded by its own kind.
    pub open spec fn parse(s: Seq<u8>) -> Result<(CapabilityList, int), DecodeError> {
        if s.len() < 4 {
            Err(DecodeError::UnexpectedEnd)
        } else {
            match parse_sets(s.skip(4), u16_at(s, 0) as nat) {
                Err(e) => Err(e),
                Ok((capabilities, n)) => Ok(
                    (CapabilityList { num_capabilities: u16_at(s, 0), padding: u16_at(s, 2), capabilities }, 4 + n),
                ),
            }
        }
    }
}

/// Decoding the bytes of a well-formed capability list, whatever follows
/// them, gives it back.
pub proof fn lemma_capability_list_round_trip(l: CapabilityList, rest: Seq<u8>)
    requires
        l.well_formed(),
    ensures
        CapabilityList::parse(l.wire() + rest) == Ok::<(CapabilityList, int), DecodeError>((l, l.wire().len() as int)),
{
    let s = l.wire() + rest;
    assert(s.subrange(0, 2) =~= le16(l.num_capabilities));
    assert(s.subrange(2, 4) =~= le16(l.padding));
    lemma_u16_at_le16(l.num_capabilities, s, 0);
    lemma_u16_at_le16(l.padding, s, 2);
    assert(s.skip(4) =~= sets_wire(l.capabilities) + rest);
    lemma_sets_round_trip(l.capabilities, rest);
}

/// The general capability this client sends: version 2, every required
/// operation, device removal and display name messages, and one special
/// device, the smartcard.
pub open spec fn client_general_capability() -> CapabilitySet {
    CapabilitySet {
        header: CapabilityHeader { cap_type: CapabilityType::CAP_GENERAL_TYPE, length: 44, version: 2 },
        data: Capability::General(
            GeneralCapabilitySet {
                os_type: 0,
                os_version: 0,
                protocol_major_version: 1,
                protocol_minor_version: 12,
                io_code_1: 0x00007fff,
                io_code_2: 0,
                extended_pdu: 3,
                extra_flags_1: 0,
                extra_flags_2: 0,
                special_type_device_cap: Some(1),
            },
        ),
    }
}

/// The smartcard capability this client sends: a marker with no body.
pub open spec fn client_smartcard_capability() -> CapabilitySet {
    CapabilitySet {
        header: CapabilityHeader { cap_type: CapabilityType::CAP_SMARTCARD_TYPE, length: 8, version: 1 },
        data: Capability::Smartcard,
    }
}

/// The list this client answers every capability request with.
pub open spec fn client_capabilities() -> CapabilityList {
    CapabilityList {
        num_capabilities: 2,
        padding: 0,
        capabilities: seq![client_general_capability(), client_smartcard_capability()],
    }
}

/// The capability list sent by the server; the client's answer has the same
/// shape.
pub struct ServerCoreCapabilityRequest {
    pub num_capabilities: u16,
    pub padding: u16,
    pub capabilities: Vec<CapabilitySet>,
}

/// The client's answer to the server's capability list.
pub type ClientCoreCapabilityResponse = ServerCoreCapabilityRequest;

impl View for ServerCoreCapabilityRequest {
    type V = CapabilityList;

    open spec fn view(&self) -> CapabilityList {
        CapabilityList {
            num_capabilities: self.num_capabilities,
            padding: self.padding,
            capabilities: self.capabilities@,
        }
    }
}

impl ServerCoreCapabilityRequest {
    /// The list this client answers with: the general capability, then the
    /// smartcard marker. Each header declares the length of its set.
    pub fn new_response() -> (r: Self)
        ensures
            r@ == client_capabilities(),
            r@.well_formed(),
            forall|i: int|
                0 <= i < r@.capabilities.len() ==> #[trigger] r@.capabilities[i].header.length
                    == r@.capabilities[i].wire().len(),
    {
        let general = CapabilitySet {
            header: CapabilityHeader {
                cap_type: CapabilityType::CAP_GENERAL_TYPE,
                length: 8 + 36,
                version: GENERAL_CAPABILITY_VERSION_02,
            },
            data: Capability::General(
                GeneralCapabilitySet {
                    os_type: 0,
                    os_version: 0,
                    protocol_major_version: VERSION_MAJOR,
                    protocol_minor_version: VERSION_MINOR,
                    io_code_1: 0x00007fff,
                    io_code_2: 0,
                    extended_pdu: 0x00000001 | 0x00000002,
                    extra_flags_1: 0,
                    extra_flags_2: 0,
                    special_type_device_cap: Some(1),
                },
            ),
        };
        let smartcard = CapabilitySet {
            header: CapabilityHeader {
                cap_type: CapabilityType::CAP_SMARTCARD_TYPE,
                length: 8,
                version: SMARTCARD_CAPABILITY_VERSION_01,
            },
            data: Capability::Smartcard,
        };
        assert(0x00000001u32 | 0x00000002u32 == 3) by (bit_vector);
        let mut capabilities: Vec<CapabilitySet> = Vec::new();
        capabilities.push(general);
        capabilities.push(smartcard);
        let r = ServerCoreCapabilityRequest { num_capabilities: 2, padding: 0, capabilities };
        assert(r@.capabilities =~= client_capabilities().capabilities);
        r
    }

    /// The list's bytes; the count is written as it stands.
    pub fn encode(&self) -> (r: Vec<u8>)
        ensures
            r@ == self@.wire(),
    {
        let mut w: Vec<u8> = Vec::new();
        write_u16(&mut w, self.num_capabilities);
        write_u16(&mut w, self.padding);
        let mut i: usize = 0;
        while i < self.capabilities.len()
            invariant
                i <= self.capabilities@.len(),
                w@ == le16(self.num_capabilities) + le16(self.padding) + sets_wire(self.capabilities@.take(i as int)),
            decreases self.capabilities@.len() - i,
        {
            let mut c = self.capabilities[i].encode();
            w.append(&mut c);
            proof {
                let next = self.capabilities@.take(i + 1);
                assert(next.drop_last() =~= self.capabilities@.take(i as int));
                assert(next.last() == self.capabilities@[i as int]);
            }
            i = i + 1;
        }
        assert(self.capabilities@.take(i as int) =~= self.capabilities@);
        w
    }

    /// Decodes the list at the start of `s`; the first set that fails ends
    /// the decoding with its error.
    pub fn decode(s: &[u8]) -> (r: Result<(Self, usize), DecodeError>)
        ensures
            match r {
                Ok((v, n)) => CapabilityList::parse(s@) == Ok::<(CapabilityList, int), DecodeError>((v@, n as int)),
                Err(e) => CapabilityList::parse(s@) == Err::<(CapabilityList, int), DecodeError>(e),
            },
    {
        if s.len() < 4 {
            return Err(DecodeError::UnexpectedEnd);
        }
        let num_capabilities = read_u16(s, 0);
        let padding = read_u16(s, 2);
        let ghost body = s@.skip(4);
        let mut capabilities: Vec<CapabilitySet> = Vec::new();
        let mut pos: usize = 4;
        let mut i: u16 = 0;
        while i < num_capabilities
            invariant
                4 <= pos <= s@.len(),
                i <= num_capabilities,
                num_capabilities == u16_at(s@, 0),
                padding == u16_at(s@, 2),
                body == s@.skip(4),
                parse_sets(body, i as nat) == Ok::<(Seq<CapabilitySet>, int), DecodeError>(
                    (capabilities@, pos - 4),
                ),
            decreases num_capabilities - i,
        {
            let rest = vstd::slice::slice_subrange(s, pos, s.len());
            assert(rest@ =~= body.skip(pos - 4));
            match CapabilitySet::decode(rest) {
                Ok((c, n)) => {
                    proof {
                        lemma_capability_set_parse_len(rest@);
                    }
                    capabilities.push(c);
                    pos = pos + n;
                },
                Err(e) => {
                    proof {
                        assert(parse_sets(body, (i + 1) as nat) == Err::<(Seq<CapabilitySet>, int), DecodeError>(e));
                        lemma_parse_sets_failure_stays(body, (i + 1) as nat, num_capabilities as nat);
                    }
                    return Err(e);
                },
            }
            i = i + 1;
        }
        Ok((ServerCoreCapabilityRequest { num_capabilities, padding, capabilities }, pos))
    }
}

} // verus!
