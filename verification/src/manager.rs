//! Light manager facade: composes matcher, resolver and registry into the
//! connection phase, and turns each logical operation into an encoded frame
//! addressed to the full registry.
//!
//! The transport scans, connects and writes; it hands this module the scan's
//! advertisements and each resolution stage's outcome as plain values, and
//! every decision taken on them here is verified.

use vstd::prelude::*;

use crate::codec;
use crate::codec::{CommandFrame, brightness_command, color_command, frame_spec, power_command};
use crate::errors::LightError;
use crate::matcher;
use crate::matcher::{AdvertisedDevice, matched_spec};
use crate::registry::{LightRegistry, distinct_ids};
use crate::resolver;
use crate::resolver::{CandidateOutcome, ReadyLight, resolve_spec};

verus! {

/// The ready lights produced by resolving the first `n` matched candidates,
/// in completion order: candidate `k` contributes exactly when its transport
/// outcome resolves to `Ok`.
pub open spec fn ready_prefix(ids: Seq<u64>, outs: Seq<CandidateOutcome>, n: int) -> Seq<
    ReadyLight,
>
    decreases n,
{
    if n <= 0 {
        Seq::empty()
    } else {
        let prev = ready_prefix(ids, outs, n - 1);
        match resolve_spec(ids[n - 1], outs[n - 1]) {
            Ok(l) => prev.push(l),
            Err(_) => prev,
        }
    }
}

/// The ready lights produced by resolving every matched candidate.
pub open spec fn ready_lights(ids: Seq<u64>, outs: Seq<CandidateOutcome>) -> Seq<ReadyLight> {
    ready_prefix(ids, outs, ids.len() as int)
}

/// There are never more ready lights than candidates.
pub proof fn lemma_ready_len(ids: Seq<u64>, outs: Seq<CandidateOutcome>, n: int)
    requires
        0 <= n,
    ensures
        ready_prefix(ids, outs, n).len() <= n,
    decreases n,
{
    if n > 0 {
        lemma_ready_len(ids, outs, n - 1);
    }
}

/// Law: every ready light carries the identity of one of the candidates, and
/// when the candidate identifiers are pairwise distinct so are the device
/// identities of the ready lights — resolving each candidate once keeps the
/// registry unique by device.
pub proof fn lemma_ready_ids_distinct(ids: Seq<u64>, outs: Seq<CandidateOutcome>, n: int)
    requires
        0 <= n <= ids.len(),
        forall|a: int, b: int| 0 <= a < b < ids.len() ==> ids[a] != ids[b],
    ensures
        forall|a: int|
            0 <= a < ready_prefix(ids, outs, n).len() ==> exists|k: int|
                0 <= k < n && #[trigger] ready_prefix(ids, outs, n)[a].device_id == #[trigger] ids[k],
        distinct_ids(ready_prefix(ids, outs, n)),
    decreases n,
{
    if n > 0 {
        lemma_ready_ids_distinct(ids, outs, n - 1);
        let prev = ready_prefix(ids, outs, n - 1);
        let cur = ready_prefix(ids, outs, n);
        if resolve_spec(ids[n - 1], outs[n - 1]) is Ok {
            let l = resolve_spec(ids[n - 1], outs[n - 1])->Ok_0;
            assert(cur == prev.push(l));
            assert(l.device_id == ids[n - 1]);
            assert forall|a: int| 0 <= a < cur.len() implies exists|k: int|
                0 <= k < n && #[trigger] cur[a].device_id == #[trigger] ids[k] by {
                if a < prev.len() {
                    assert(cur[a] == prev[a]);
                    let k = choose|k: int| 0 <= k < n - 1 && prev[a].device_id == ids[k];
                    assert(0 <= k < n && cur[a].device_id == ids[k]);
                } else {
                    assert(cur[a] == l);
                    assert(cur[a].device_id == ids[n - 1]);
                }
            }
            assert forall|a: int, b: int|
                0 <= a < b < cur.len() implies cur[a].device_id != cur[b].device_id by {
                if b < prev.len() {
                    assert(cur[a] == prev[a] && cur[b] == prev[b]);
                } else {
                    assert(cur[b] == l);
                    assert(cur[a] == prev[a]);
                    let k = choose|k: int| 0 <= k < n - 1 && prev[a].device_id == ids[k];
                    assert(ids[k] != ids[n - 1]);
                }
            }
        }
    }
}

/// One logical operation made concrete: the encoded wire frame and the full
/// set of lights the transport must write it to.
#[derive(Debug)]
pub struct DispatchPlan {
    /// The encoded 20-byte command frame.
    pub frame: CommandFrame,
    /// Every registered light, in registry order: one write per entry.
    pub targets: Vec<ReadyLight>,
}

/// Facade over discovery, connection and command encoding for the whole set
/// of lights. Owns the registry of ready lights.
#[derive(Debug)]
pub struct LightManager {
    registry: LightRegistry,
}

impl View for LightManager {
    type V = Seq<ReadyLight>;

    closed spec fn view(&self) -> Seq<ReadyLight> {
        self.registry@
    }
}

impl LightManager {
    /// A manager with no connected lights.
    pub fn new() -> (m: LightManager)
        ensures
            m@ == Seq::<ReadyLight>::empty(),
    {
        LightManager { registry: LightRegistry::new() }
    }

    /// The registry of connected lights, read-only.
    pub fn registry(&self) -> (r: &LightRegistry)
        ensures
            r@ == self@,
    {
        &self.registry
    }

    /// Runs the connection phase over one scan: filters the advertisements
    /// by name prefix, resolves every matched candidate from the transport
    /// outcomes (one per matched candidate, in scan order), and populates the
    /// registry with the lights that became ready — but only if at least
    /// `num_lights` of them did. With fewer, the call fails with
    /// `InsufficientLights` carrying the found and required counts, and the
    /// registry is left empty rather than partially usable. A failed
    /// candidate never aborts the others' resolution.
    #[verifier::loop_isolation(false)]
    pub fn connect_to_lights(
        &mut self,
        prefix: &Vec<u8>,
        num_lights: usize,
        scanned: &Vec<AdvertisedDevice>,
        outcomes: &Vec<CandidateOutcome>,
    ) -> (r: Result<(), LightError>)
        requires
            old(self)@.len() == 0,
            outcomes@.len() == matched_spec(scanned@, prefix@).len(),
            forall|a: int, b: int| 0 <= a < b < scanned@.len() ==> scanned@[a].id != scanned@[b].id,
        ensures
            ({
                let ready = ready_lights(matched_spec(scanned@, prefix@), outcomes@);
                &&& (r is Ok <==> ready.len() >= num_lights)
                &&& (r is Ok ==> final(self)@ == ready)
                &&& (r is Err ==> r == Err::<(), LightError>(
                    LightError::InsufficientLights {
                        found: ready.len() as usize,
                        required: num_lights,
                    },
                ))
                &&& (r is Err ==> final(self)@.len() == 0)
                &&& distinct_ids(final(self)@)
            }),
    {
        let matched = matcher::match_candidates(scanned, prefix);
        let ghost ids = matched@;
        let mut ready: Vec<ReadyLight> = Vec::new();
        let mut j: usize = 0;
        while j < matched.len()
            invariant
                j <= ids.len(),
                ready@ == ready_prefix(ids, outcomes@, j as int),
            decreases ids.len() - j,
        {
            let outcome = &outcomes[j];
            match resolver::resolve_candidate(matched[j], outcome) {
                Ok(light) => {
                    ready.push(light);
                },
                Err(_) => {
                    // the failure is this candidate's terminal state; the
                    // other candidates go on
                },
            }
            j = j + 1;
        }
        proof {
            matcher::lemma_matched_ids_distinct(scanned@, prefix@, scanned@.len() as int);
            lemma_ready_ids_distinct(ids, outcomes@, ids.len() as int);
            lemma_ready_len(ids, outcomes@, ids.len() as int);
        }
        if ready.len() < num_lights {
            return Err(
                LightError::InsufficientLights { found: ready.len(), required: num_lights },
            );
        }
        let mut k: usize = 0;
        while k < ready.len()
            invariant
                k <= ready@.len(),
                self@ == ready@.take(k as int),
            decreases ready@.len() - k,
        {
            self.registry.add(ready[k]);
            assert(self@ =~= ready@.take(k + 1 as int));
            k = k + 1;
        }
        assert(self@ =~= ready@);
        Ok(())
    }

    /// Copies the registry into a target list for one dispatch.
    #[verifier::loop_isolation(false)]
    fn target_list(&self) -> (v: Vec<ReadyLight>)
        ensures
            v@ == self@,
    {
        let all = self.registry.all();
        let mut v: Vec<ReadyLight> = Vec::new();
        let mut i: usize = 0;
        while i < all.len()
            invariant
                i <= self@.len(),
                v@ == self@.take(i as int),
            decreases self@.len() - i,
        {
            v.push(all[i]);
            assert(v@ =~= self@.take(i + 1 as int));
            i = i + 1;
        }
        assert(v@ =~= self@);
        v
    }

    /// Turns the lights on or off: the encoded power frame, addressed to
    /// every registered light.
    pub fn set_power(&self, power: bool) -> (p: DispatchPlan)
        ensures
            p.frame@ == frame_spec(power_command(power)),
            p.targets@ == self@,
    {
        DispatchPlan { frame: codec::encode_power(power), targets: self.target_list() }
    }

    /// Sets the lights' brightness: the encoded brightness frame, addressed
    /// to every registered light.
    pub fn set_brightness(&self, brightness: u8) -> (p: DispatchPlan)
        ensures
            p.frame@ == frame_spec(brightness_command(brightness)),
            p.targets@ == self@,
    {
        DispatchPlan { frame: codec::encode_brightness(brightness), targets: self.target_list() }
    }

    /// Sets the lights' color: the encoded RGB frame, addressed to every
    /// registered light.
    pub fn set_color(&self, r: u8, g: u8, b: u8) -> (p: DispatchPlan)
        ensures
            p.frame@ == frame_spec(color_command(r, g, b)),
            p.targets@ == self@,
    {
        DispatchPlan { frame: codec::encode_color(r, g, b), targets: self.target_list() }
    }
}

} // verus!
