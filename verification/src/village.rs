//! A toy settlement that accumulates resources at random, one stock
//! per resource type.

use vstd::prelude::*;

use crate::rng::sample_u64;

verus! {

#[derive(Copy, Clone, PartialEq, Eq, Structural, Hash, Debug)]
pub enum ResourceType {
    Gold,
    Food,
    Wood,
    Stone,
    Villager,
}

/// Where a resource's stock lives in the village's table.
pub open spec fn resource_index(r: ResourceType) -> int {
    match r {
        ResourceType::Gold => 0,
        ResourceType::Food => 1,
        ResourceType::Wood => 2,
        ResourceType::Stone => 3,
        ResourceType::Villager => 4,
    }
}

impl ResourceType {
    /// Every resource type, in table order.
    pub fn iterator() -> (r: Vec<ResourceType>)
        ensures
            r@ == seq![
                ResourceType::Gold,
                ResourceType::Food,
                ResourceType::Wood,
                ResourceType::Stone,
                ResourceType::Villager,
            ],
            forall|t: ResourceType| r@[resource_index(t)] == t,
    {
        let mut resource_types: Vec<ResourceType> = Vec::new();
        resource_types.push(ResourceType::Gold);
        resource_types.push(ResourceType::Food);
        resource_types.push(ResourceType::Wood);
        resource_types.push(ResourceType::Stone);
        resource_types.push(ResourceType::Villager);
        proof {
            assert(resource_types@ =~= seq![
                ResourceType::Gold,
                ResourceType::Food,
                ResourceType::Wood,
                ResourceType::Stone,
                ResourceType::Villager,
            ]);
        }
        resource_types
    }
}

/// One stock grown by one, stopping at the integer ceiling.
pub open spec fn spec_bumped(s: Seq<u64>, i: int) -> Seq<u64> {
    s.update(
        i,
        if s[i] < u64::MAX {
            (s[i] + 1) as u64
        } else {
            s[i]
        },
    )
}

/// The resource stocks of one settlement, one count per
/// `ResourceType` in `resource_index` order.
#[derive(Clone, Debug)]
pub struct Village {
    pub resources: Vec<u64>,
}

/// The table holds exactly one stock per resource type.
pub open spec fn village_wf(v: Village) -> bool {
    v.resources@.len() == 5
}

impl Village {
    /// A village with every stock at zero.
    pub fn new() -> (r: Village)
        ensures
            village_wf(r),
            forall|i: int| 0 <= i < 5 ==> r.resources@[i] == 0,
    {
        let mut resources: Vec<u64> = Vec::new();
        resources.push(0);
        resources.push(0);
        resources.push(0);
        resources.push(0);
        resources.push(0);
        Village { resources }
    }

    /// One tick: a uniformly drawn resource's stock grows by one.
    pub fn update(&mut self)
        requires
            village_wf(*old(self)),
        ensures
            village_wf(*final(self)),
            exists|i: int|
                0 <= i < 5 && final(self).resources@ == #[trigger] spec_bumped(
                    old(self).resources@,
                    i,
                ),
    {
        let chosen: usize = sample_u64(0, 5) as usize;
        let count: u64 = self.resources[chosen];
        let grown: u64 = if count < u64::MAX {
            count + 1
        } else {
            count
        };
        self.resources.set(chosen, grown);
        proof {
            assert(self.resources@ == spec_bumped(old(self).resources@, chosen as int));
        }
    }

    /// The stock of one resource.
    pub fn resource_count(&self, resource_type: ResourceType) -> (r: u64)
        requires
            village_wf(*self),
        ensures
            r == self.resources@[resource_index(resource_type)],
    {
        let i: usize = match resource_type {
            ResourceType::Gold => 0,
            ResourceType::Food => 1,
            ResourceType::Wood => 2,
            ResourceType::Stone => 3,
            ResourceType::Villager => 4,
        };
        self.resources[i]
    }
}

} // verus!
