//! Connection resolver: drives one candidate peripheral through
//! connect -> service discovery -> characteristic resolution, ending in a
//! ready-to-write light or a typed failure.
//!
//! The transport performs the connect, the service enumeration and nothing
//! else; it reports each step's outcome as a plain value, and the state
//! machine here decides, verified for every outcome, what the next state is.

use vstd::prelude::*;

use crate::errors::LightError;

verus! {

/// The protocol control characteristic that every matched peripheral must
/// expose; frames are written to it.
pub const PROTOCOL_CHARACTERISTIC_UUID: u128 = 0x000102030405060708090a0b0c0d2b11;

/// Identity of one characteristic as enumerated on a peripheral: its own UUID
/// and the UUID of the service it belongs to.
#[derive(Clone, Copy, Debug, PartialEq, Eq, Structural)]
pub struct CharacteristicId {
    pub uuid: u128,
    pub service_uuid: u128,
}

/// A connected peripheral whose control characteristic has been resolved: the
/// unit every later command write addresses. Its characteristic identity
/// never changes once built.
#[derive(Clone, Copy, Debug, PartialEq, Eq, Structural)]
pub struct ReadyLight {
    /// Identifier the transport layer uses to address this peripheral.
    pub device_id: u64,
    /// The resolved control characteristic on this peripheral.
    pub characteristic: CharacteristicId,
}

/// The stages a candidate passes through; `Ready` and `Failed` are terminal.
#[derive(Clone, Copy, Debug, PartialEq, Eq, Structural)]
pub enum ResolveState {
    /// Seen in a scan and matched; no transport work started yet.
    Discovered,
    /// A transport-level connect is in flight.
    Connecting,
    /// Connected; service/characteristic enumeration is in flight.
    ServicesDiscovering,
    /// Services enumerated; the control characteristic is being looked up.
    CharacteristicResolving,
    /// The control characteristic was found; the light can be written to.
    Ready { light: ReadyLight },
    /// Resolution failed at some stage; the candidate is dropped.
    Failed { error: LightError },
}

/// One candidate device undergoing resolution.
#[derive(Clone, Copy, Debug)]
pub struct PendingConnection {
    pub device_id: u64,
    pub state: ResolveState,
}

/// The first enumerated characteristic whose UUID is the protocol control
/// UUID, if any.
pub open spec fn find_protocol(chars: Seq<CharacteristicId>) -> Option<CharacteristicId>
    decreases chars.len(),
{
    if chars.len() == 0 {
        None
    } else if chars[0].uuid == PROTOCOL_CHARACTERISTIC_UUID {
        Some(chars[0])
    } else {
        find_protocol(chars.drop_first())
    }
}

/// What resolving one candidate yields, given the transport's report of its
/// connect and service-discovery steps and the characteristics it enumerated.
#[derive(Debug)]
pub struct CandidateOutcome {
    /// Whether the transport-level connect succeeded.
    pub connect_ok: bool,
    /// Whether service/characteristic enumeration succeeded.
    pub services_ok: bool,
    /// The characteristics enumerated on the device (meaningful only when
    /// `services_ok`).
    pub characteristics: Vec<CharacteristicId>,
}

/// The terminal state resolution reaches for a candidate with the given
/// transport outcome: a ready light, or the failure of the first stage that
/// went wrong.
pub open spec fn resolve_spec(device_id: u64, o: CandidateOutcome) -> Result<
    ReadyLight,
    LightError,
> {
    if !o.connect_ok {
        Err(LightError::ConnectError)
    } else if !o.services_ok {
        Err(LightError::DiscoveryError)
    } else {
        match find_protocol(o.characteristics@) {
            Some(c) => Ok(ReadyLight { device_id, characteristic: c }),
            None => Err(LightError::CharacteristicNotFound),
        }
    }
}

impl PendingConnection {
    /// A freshly matched candidate, before any transport work.
    pub fn new(device_id: u64) -> (p: PendingConnection)
        ensures
            p.device_id == device_id,
            p.state is Discovered,
    {
        PendingConnection { device_id, state: ResolveState::Discovered }
    }

    /// Records that a transport-level connect has been initiated.
    pub fn begin_connect(&mut self)
        requires
            old(self).state is Discovered,
        ensures
            final(self).device_id == old(self).device_id,
            final(self).state is Connecting,
    {
        self.state = ResolveState::Connecting;
    }

    /// Records the outcome of the connect: success moves on to service
    /// discovery, failure is terminal.
    pub fn on_connect_result(&mut self, ok: bool)
        requires
            old(self).state is Connecting,
        ensures
            final(self).device_id == old(self).device_id,
            ok ==> final(self).state is ServicesDiscovering,
            !ok ==> final(self).state == (ResolveState::Failed { error: LightError::ConnectError }),
    {
        if ok {
            self.state = ResolveState::ServicesDiscovering;
        } else {
            self.state = ResolveState::Failed { error: LightError::ConnectError };
        }
    }

    /// Records the outcome of service/characteristic enumeration: success
    /// moves on to characteristic resolution, failure is terminal.
    pub fn on_services_result(&mut self, ok: bool)
        requires
            old(self).state is ServicesDiscovering,
        ensures
            final(self).device_id == old(self).device_id,
            ok ==> final(self).state is CharacteristicResolving,
            !ok ==> final(self).state == (ResolveState::Failed {
                error: LightError::DiscoveryError,
            }),
    {
        if ok {
            self.state = ResolveState::CharacteristicResolving;
        } else {
            self.state = ResolveState::Failed { error: LightError::DiscoveryError };
        }
    }

    /// Searches the enumerated characteristics for the protocol control UUID:
    /// the first hit makes the candidate ready, none is a terminal failure.
    pub fn resolve_characteristic(&mut self, characteristics: &Vec<CharacteristicId>)
        requires
            old(self).state is CharacteristicResolving,
        ensures
            final(self).device_id == old(self).device_id,
            final(self).state == match find_protocol(characteristics@) {
                Some(c) => ResolveState::Ready {
                    light: ReadyLight { device_id: old(self).device_id, characteristic: c },
                },
                None => ResolveState::Failed { error: LightError::CharacteristicNotFound },
            },
    {
        match find_characteristic(characteristics) {
            Some(c) => {
                self.state = ResolveState::Ready {
                    light: ReadyLight { device_id: self.device_id, characteristic: c },
                };
            },
            None => {
                self.state = ResolveState::Failed { error: LightError::CharacteristicNotFound };
            },
        }
    }
}

/// Returns the first enumerated characteristic carrying the protocol control
/// UUID, if one exists.
#[verifier::loop_isolation(false)]
pub fn find_characteristic(characteristics: &Vec<CharacteristicId>) -> (r: Option<
    CharacteristicId,
>)
    ensures
        r == find_protocol(characteristics@),
{
    let mut i: usize = 0;
    assert(characteristics@.skip(0) =~= characteristics@);
    while i < characteristics.len()
        invariant
            i <= characteristics@.len(),
            find_protocol(characteristics@) == find_protocol(characteristics@.skip(i as int)),
            forall|j: int| 0 <= j < i ==> characteristics@[j].uuid != PROTOCOL_CHARACTERISTIC_UUID,
        decreases characteristics@.len() - i,
    {
        let c = characteristics[i];
        proof {
            assert(characteristics@.skip(i as int)[0] == characteristics@[i as int]);
            assert(characteristics@.skip(i as int).drop_first() =~= characteristics@.skip(
                i + 1 as int,
            ));
        }
        if c.uuid == PROTOCOL_CHARACTERISTIC_UUID {
            return Some(c);
        }
        i = i + 1;
    }
    assert(characteristics@.skip(i as int) =~= Seq::<CharacteristicId>::empty());
    None
}

/// Drives the state machine for one candidate from `Discovered` to a terminal
/// state, using the transport's reported outcome of each stage, and returns
/// the ready light or the stage's typed failure.
pub fn resolve_candidate(device_id: u64, outcome: &CandidateOutcome) -> (r: Result<
    ReadyLight,
    LightError,
>)
    ensures
        r == resolve_spec(device_id, *outcome),
{
    let mut pending = PendingConnection::new(device_id);
    pending.begin_connect();
    pending.on_connect_result(outcome.connect_ok);
    if let ResolveState::Failed { error } = pending.state {
        return Err(error);
    }
    pending.on_services_result(outcome.services_ok);
    if let ResolveState::Failed { error } = pending.state {
        return Err(error);
    }
    pending.resolve_characteristic(&outcome.characteristics);
    match pending.state {
        ResolveState::Ready { light } => Ok(light),
        ResolveState::Failed { error } => Err(error),
        _ => {
            proof {
                assert(false);
            }
            Err(LightError::CharacteristicNotFound)
        },
    }
}

} // verus!
