//! Light registry: the ordered collection of ready lights, unique by device
//! identity, insertion order = connection completion order. After the
//! connection phase it is only ever read.

use vstd::prelude::*;

use crate::resolver::ReadyLight;

verus! {

/// No two lights in `s` address the same device.
pub open spec fn distinct_ids(s: Seq<ReadyLight>) -> bool {
    forall|a: int, b: int|
        0 <= a < b < s.len() ==> s[a].device_id != s[b].device_id
}

/// The ordered collection of ready lights. Commands are delivered to the
/// full current set; its size is fixed once the connection phase completes.
#[derive(Debug)]
pub struct LightRegistry {
    lights: Vec<ReadyLight>,
}

impl View for LightRegistry {
    type V = Seq<ReadyLight>;

    closed spec fn view(&self) -> Seq<ReadyLight> {
        self.lights@
    }
}

impl LightRegistry {
    /// An empty registry.
    pub fn new() -> (r: LightRegistry)
        ensures
            r@ == Seq::<ReadyLight>::empty(),
    {
        LightRegistry { lights: Vec::new() }
    }

    /// Appends a ready light. No deduplication is performed here: the
    /// connection phase processes each candidate device once, which is what
    /// keeps the registry unique by device identity.
    pub fn add(&mut self, light: ReadyLight)
        ensures
            final(self)@ == old(self)@.push(light),
    {
        self.lights.push(light);
    }

    /// Number of registered lights.
    pub fn len(&self) -> (n: usize)
        ensures
            n == self@.len(),
    {
        self.lights.len()
    }

    /// The light at position `i` (insertion order).
    pub fn get(&self, i: usize) -> (l: &ReadyLight)
        requires
            i < self@.len(),
        ensures
            *l == self@[i as int],
    {
        &self.lights[i]
    }

    /// Read-only view of all registered lights, in insertion order.
    pub fn all(&self) -> (r: &Vec<ReadyLight>)
        ensures
            r@ == self@,
    {
        &self.lights
    }
}

} // verus!
