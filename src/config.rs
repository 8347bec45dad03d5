use vstd::prelude::*;
use crate::types::{KeyTypeId, SessionIndex, AURA_KEY_TYPE, DUMMY_KEY_TYPE, GRANDPA_KEY_TYPE};

verus! {

/// How a reconciliation treats an identity that is queued both for addition and for removal.
#[derive(Clone, Copy, Debug, PartialEq, Eq, Structural)]
pub enum MergeOrder {
    /// Removals are applied first, so the addition wins and the identity stays.
    RemovalsFirst,
    /// Additions are applied first, so the removal wins and the identity goes.
    AdditionsFirst,
}

/// The fixed parameters of a chain's validator manager.
pub struct Config {
    /// The fewest validators the active set may hold after a reconciliation.
    pub min_authorities: u32,
    /// Sessions `1..=bootstrap_sessions` leave the active set untouched.
    pub bootstrap_sessions: SessionIndex,
    /// The roles that the chain's session key bundle declares.
    pub key_types: Vec<KeyTypeId>,
    /// The fewest roles the bundle must declare.
    pub expected_key_count: usize,
    /// Roles that must each be among the declared ones.
    pub required_key_types: Vec<KeyTypeId>,
    /// The shortest encoded bundle that is accepted.
    pub min_encoded_len: usize,
    /// The order in which a reconciliation applies the two queues.
    pub merge_order: MergeOrder,
}

impl Config {
    /// Whether `index` lies in the window after genesis in which the set is left alone.
    pub open spec fn in_bootstrap(&self, index: SessionIndex) -> bool {
        1 <= index && index <= self.bootstrap_sessions
    }

    /// Whether the declared roles meet the expected count and include every required one.
    pub open spec fn roles_complete(&self) -> bool {
        &&& self.key_types@.len() >= self.expected_key_count
        &&& forall|i: int|
            0 <= i < self.required_key_types@.len() ==> self.key_types@.contains(
                #[trigger] self.required_key_types@[i],
            )
    }
}

/// The production chain: an authoring key and a finality key of 32 bytes each.
pub struct Runtime;

impl Runtime {
    pub fn config() -> (c: Config)
        ensures
            c.min_authorities == 2,
            c.bootstrap_sessions == 2,
            c.key_types@ == seq![KeyTypeId(AURA_KEY_TYPE), KeyTypeId(GRANDPA_KEY_TYPE)],
            c.expected_key_count == 2,
            c.required_key_types@ == seq![KeyTypeId(AURA_KEY_TYPE), KeyTypeId(GRANDPA_KEY_TYPE)],
            c.min_encoded_len == 64,
            c.merge_order == MergeOrder::RemovalsFirst,
    {
        Config {
            min_authorities: 2,
            bootstrap_sessions: 2,
            key_types: vec![KeyTypeId(AURA_KEY_TYPE), KeyTypeId(GRANDPA_KEY_TYPE)],
            expected_key_count: 2,
            required_key_types: vec![KeyTypeId(AURA_KEY_TYPE), KeyTypeId(GRANDPA_KEY_TYPE)],
            min_encoded_len: 64,
            merge_order: MergeOrder::RemovalsFirst,
        }
    }
}

/// A chain for tests: one eight-byte key of a single role.
pub struct Test;

impl Test {
    pub fn config() -> (c: Config)
        ensures
            c.min_authorities == 2,
            c.bootstrap_sessions == 1,
            c.key_types@ == seq![KeyTypeId(DUMMY_KEY_TYPE)],
            c.expected_key_count == 1,
            c.required_key_types@ == Seq::<KeyTypeId>::empty(),
            c.min_encoded_len == 8,
            c.merge_order == MergeOrder::RemovalsFirst,
    {
        Config {
            min_authorities: 2,
            bootstrap_sessions: 1,
            key_types: vec![KeyTypeId(DUMMY_KEY_TYPE)],
            expected_key_count: 1,
            required_key_types: Vec::new(),
            min_encoded_len: 8,
            merge_order: MergeOrder::RemovalsFirst,
        }
    }
}

} // verus!
