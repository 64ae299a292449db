use vstd::prelude::*;

use crate::hazards::{Hazard, Hazards};

verus! {

/// The hazards blocked for one device in a list of device rules: the most
/// recent rule for that device wins, and no rule blocks nothing.
pub open spec fn rule_for(rules: Seq<(usize, Hazards)>, id: usize) -> Set<Hazard>
    decreases rules.len(),
{
    if rules.len() == 0 {
        Set::empty()
    } else if rules.last().0 == id {
        rules.last().1@
    } else {
        rule_for(rules.drop_last(), id)
    }
}

/// A privacy policy: hazards blocked on every device, and hazards blocked on
/// single devices, identified by their index.
#[derive(Debug, Clone, PartialEq)]
pub struct Policy {
    global: Hazards,
    local: Vec<(usize, Hazards)>,
}

impl Policy {
    /// The hazards blocked on every device.
    pub closed spec fn global_set(&self) -> Set<Hazard> {
        self.global@
    }

    /// The hazards blocked on the device with the given index.
    pub closed spec fn local_set(&self, id: usize) -> Set<Hazard> {
        rule_for(self.local@, id)
    }

    /// A policy that blocks nothing.
    pub fn init() -> (r: Policy)
        ensures
            r.global_set() == Set::<Hazard>::empty(),
            forall|id: usize| #[trigger] r.local_set(id) == Set::<Hazard>::empty(),
    {
        Policy { global: Hazards::new(), local: Vec::new() }
    }

    /// A policy that blocks the given hazards on every device.
    pub fn new(global_blocked_hazards: Hazards) -> (r: Policy)
        ensures
            r.global_set() == global_blocked_hazards@,
            forall|id: usize| #[trigger] r.local_set(id) == Set::<Hazard>::empty(),
    {
        Policy { global: global_blocked_hazards, local: Vec::new() }
    }

    /// Blocks the given hazards on the device with index `id`, in place of
    /// whatever was blocked on it before.
    pub fn block_device_on_hazards(self, id: usize, hazards: Hazards) -> (r: Policy)
        ensures
            r.global_set() == self.global_set(),
            r.local_set(id) == hazards@,
            forall|other: usize| other != id ==> #[trigger] r.local_set(other) == self.local_set(other),
    {
        let mut local = self.local;
        let ghost before = local@;
        local.push((id, hazards));
        proof {
            assert(local@.drop_last() =~= before);
        }
        Policy { global: self.global, local }
    }

    /// The hazards of `hazards` that are blocked on every device.
    pub fn global_blocked_hazards(&self, hazards: &Hazards) -> (r: Hazards)
        ensures
            r@ == hazards@.intersect(self.global_set()),
    {
        hazards.intersection(&self.global)
    }

    /// The hazards of `hazards` that are blocked on the device with index
    /// `id`.
    pub fn local_blocked_hazards(&self, id: usize, hazards: &Hazards) -> (r: Hazards)
        ensures
            r@ == hazards@.intersect(self.local_set(id)),
    {
        let mut i: usize = self.local.len();
        proof {
            assert(self.local@.subrange(0, i as int) =~= self.local@);
        }
        while i > 0
            invariant
                i <= self.local@.len(),
                rule_for(self.local@, id) == rule_for(self.local@.subrange(0, i as int), id),
            decreases i,
        {
            let ghost prefix = self.local@.subrange(0, i as int);
            proof {
                assert(prefix.drop_last() =~= self.local@.subrange(0, i - 1));
            }
            if self.local[i - 1].0 == id {
                return hazards.intersection(&self.local[i - 1].1);
            }
            i = i - 1;
        }
        proof {
            assert(self.local@.subrange(0, 0) =~= Seq::<(usize, Hazards)>::empty());
        }
        let r = Hazards::new();
        proof {
            assert(hazards@.intersect(Set::<Hazard>::empty()) =~= Set::<Hazard>::empty());
        }
        r
    }
}

} // verus!
