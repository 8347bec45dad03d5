use vstd::prelude::*;
use crate::config::Config;
use crate::types::{Error, KeyTypeId, ValidatorId};

verus! {

/// The bundle most recently registered for `v` among `entries`, if any.
pub open spec fn latest_bundle(entries: Seq<(ValidatorId, Vec<u8>)>, v: ValidatorId) -> Option<Seq<u8>>
    decreases entries.len(),
{
    if entries.len() == 0 {
        None
    } else if entries.last().0 == v {
        Some(entries.last().1@)
    } else {
        latest_bundle(entries.drop_last(), v)
    }
}

/// The session key bundles that validators have announced, each in its encoded form.
/// A later announcement for the same validator replaces the earlier one.
pub struct KeyRegistry {
    entries: Vec<(ValidatorId, Vec<u8>)>,
}

impl KeyRegistry {
    /// The encoded bundle registered for `v`, if any.
    pub closed spec fn bundle_of(&self, v: ValidatorId) -> Option<Seq<u8>> {
        latest_bundle(self.entries@, v)
    }

    pub fn new() -> (r: KeyRegistry)
        ensures
            forall|v: ValidatorId| r.bundle_of(v) == None::<Seq<u8>>,
    {
        KeyRegistry { entries: Vec::new() }
    }

    /// Records `bundle` as the keys of `v`.
    pub fn set_keys(&mut self, v: ValidatorId, bundle: Vec<u8>)
        ensures
            final(self).bundle_of(v) == Some(bundle@),
            forall|w: ValidatorId| w != v ==> final(self).bundle_of(w) == old(self).bundle_of(w),
    {
        let ghost before = self.entries@;
        self.entries.push((v, bundle));
        assert(self.entries@.drop_last() =~= before);
    }

    /// Looks up the encoded bundle of `v`.
    pub fn next_keys(&self, v: ValidatorId) -> (r: Option<&Vec<u8>>)
        ensures
            match r {
                Some(b) => self.bundle_of(v) == Some(b@),
                None => self.bundle_of(v) == None::<Seq<u8>>,
            },
    {
        let mut i: usize = self.entries.len();
        assert(self.entries@.subrange(0, i as int) =~= self.entries@);
        while i > 0
            invariant
                i <= self.entries@.len(),
                self.bundle_of(v) == latest_bundle(self.entries@.subrange(0, i as int), v),
            decreases i,
        {
            let ghost pre = self.entries@.subrange(0, i as int);
            assert(pre.drop_last() =~= self.entries@.subrange(0, i - 1));
            if self.entries[i - 1].0 == v {
                return Some(&self.entries[i - 1].1);
            }
            i = i - 1;
        }
        None
    }
}

/// Whether an encoded bundle (or its absence) may back an active validator under `cfg`.
pub open spec fn bundle_ready(cfg: &Config, bundle: Option<Seq<u8>>) -> bool {
    match bundle {
        None => false,
        Some(b) => b.len() > 0 && cfg.roles_complete() && b.len() >= cfg.min_encoded_len,
    }
}

/// Whether the registered keys of `v` may back an active validator under `cfg`.
pub open spec fn keys_ready(cfg: &Config, keys: &KeyRegistry, v: ValidatorId) -> bool {
    bundle_ready(cfg, keys.bundle_of(v))
}

/// Whether `k` is among `types`.
pub fn contains_key_type(types: &Vec<KeyTypeId>, k: KeyTypeId) -> (r: bool)
    ensures
        r == types@.contains(k),
{
    let mut i: usize = 0;
    while i < types.len()
        invariant
            i <= types@.len(),
            forall|j: int| 0 <= j < i ==> types@[j] != k,
        decreases types.len() - i,
    {
        if types[i] == k {
            return true;
        }
        i = i + 1;
    }
    false
}

/// Whether the roles that `cfg` declares meet its expectations.
pub fn check_roles(cfg: &Config) -> (r: bool)
    ensures
        r == cfg.roles_complete(),
{
    if cfg.key_types.len() < cfg.expected_key_count {
        return false;
    }
    let mut i: usize = 0;
    while i < cfg.required_key_types.len()
        invariant
            i <= cfg.required_key_types@.len(),
            forall|j: int| 0 <= j < i ==> cfg.key_types@.contains(#[trigger] cfg.required_key_types@[j]),
        decreases cfg.required_key_types.len() - i,
    {
        if !contains_key_type(&cfg.key_types, cfg.required_key_types[i]) {
            return false;
        }
        i = i + 1;
    }
    true
}

/// Decides whether an encoded bundle may back an active validator.
pub fn check_bundle(cfg: &Config, bundle: Option<&Vec<u8>>) -> (r: bool)
    ensures
        r == bundle_ready(cfg, match bundle { Some(b) => Some(b@), None => None }),
{
    match bundle {
        None => false,
        Some(b) => {
            if b.len() == 0 {
                return false;
            }
            if !check_roles(cfg) {
                return false;
            }
            b.len() >= cfg.min_encoded_len
        },
    }
}

/// Refuses `v` unless its registered keys are complete and well formed.
pub fn validate_session_keys(cfg: &Config, keys: &KeyRegistry, v: ValidatorId) -> (r: Result<(), Error>)
    ensures
        r == (if keys_ready(cfg, keys, v) { Ok(()) } else { Err::<(), Error>(Error::NoKeysRegistered) }),
{
    if check_bundle(cfg, keys.next_keys(v)) {
        Ok(())
    } else {
        Err(Error::NoKeysRegistered)
    }
}

} // verus!
