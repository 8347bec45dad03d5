use vstd::prelude::*;
use crate::config::Config;
use crate::keys::{keys_ready, validate_session_keys, KeyRegistry};
use crate::laws::lemma_enqueue_keeps_distinct;
use crate::merge::{contains_id, copy_ids, no_dups, reconcile, reconciled_in};
use crate::types::{
    ensure_privileged, is_privileged, validator_of, AccountId, Error, Event, RuntimeOrigin,
    SessionIndex, ValidatorId, ValidatorOf,
};

verus! {

/// The additions queue after appending `vs` one by one to `queue`: each must be new
/// to the queue and have ready keys, else the first that is not decides the error.
pub open spec fn enqueue_all(
    cfg: Config,
    keys: &KeyRegistry,
    queue: Seq<ValidatorId>,
    vs: Seq<ValidatorId>,
) -> Result<Seq<ValidatorId>, Error>
    decreases vs.len(),
{
    if vs.len() == 0 {
        Ok(queue)
    } else if queue.contains(vs[0]) {
        Err(Error::ValidatorAlreadyAdded)
    } else if !keys_ready(&cfg, keys, vs[0]) {
        Err(Error::NoKeysRegistered)
    } else {
        enqueue_all(cfg, keys, queue.push(vs[0]), vs.drop_first())
    }
}

/// What `register_validators` makes of the additions queue, or why it refuses.
pub open spec fn registration(
    cfg: Config,
    keys: &KeyRegistry,
    origin: RuntimeOrigin,
    queue: Seq<ValidatorId>,
    vs: Seq<ValidatorId>,
) -> Result<Seq<ValidatorId>, Error> {
    if !is_privileged(origin) {
        Err(Error::BadOrigin)
    } else {
        enqueue_all(cfg, keys, queue, vs)
    }
}

/// The active-set size expected once the queues and one more removal are applied.
/// It is negative where more removals are queued than the set and additions can cover.
pub open spec fn projected_count(active_len: int, additions_len: int, removals_len: int) -> int {
    active_len + additions_len - removals_len - 1
}

/// Whether `remove_validator` accepts `v`, or why it refuses.
pub open spec fn removal(
    cfg: Config,
    origin: RuntimeOrigin,
    active: Seq<ValidatorId>,
    additions: Seq<ValidatorId>,
    removals: Seq<ValidatorId>,
    v: ValidatorId,
) -> Result<(), Error> {
    if !is_privileged(origin) {
        Err(Error::BadOrigin)
    } else if !active.contains(v) {
        Err(Error::NotValidator)
    } else if projected_count(active.len() as int, additions.len() as int, removals.len() as int)
        < cfg.min_authorities {
        Err(Error::TooFewValidators)
    } else if removals.contains(v) {
        Err(Error::ValidatorAlreadyAdded)
    } else {
        Ok(())
    }
}

/// Whether the session `index` drains the queues: every session after the bootstrap window.
pub open spec fn drains(cfg: Config, index: SessionIndex) -> bool {
    index != 0 && !cfg.in_bootstrap(index)
}

/// The set that the session `index` puts in force, or `None` for no change.
pub open spec fn session_result(
    cfg: Config,
    index: SessionIndex,
    active: Seq<ValidatorId>,
    additions: Seq<ValidatorId>,
    removals: Seq<ValidatorId>,
) -> Option<Seq<ValidatorId>> {
    if index == 0 {
        if additions.len() > 0 {
            Some(additions)
        } else {
            None
        }
    } else if cfg.in_bootstrap(index) {
        None
    } else {
        let r = reconciled_in(cfg.merge_order, active, removals, additions);
        if r.len() < cfg.min_authorities {
            None
        } else {
            Some(r)
        }
    }
}

/// The identities of an optional set.
pub open spec fn opt_view(r: Option<Vec<ValidatorId>>) -> Option<Seq<ValidatorId>> {
    match r {
        Some(v) => Some(v@),
        None => None,
    }
}

/// The validator identities of `accounts`, in order.
pub open spec fn validators_of(accounts: Seq<AccountId>) -> Seq<ValidatorId> {
    accounts.map_values(|a: AccountId| validator_of(a))
}

/// The validator manager: its configuration, the two queues of pending changes and
/// the notifications it has left.
pub struct Pallet {
    config: Config,
    validators_to_add: Vec<ValidatorId>,
    validators_to_remove: Vec<ValidatorId>,
    events: Vec<Event>,
}

impl Pallet {
    /// The configuration the manager was built with.
    pub closed spec fn cfg(&self) -> Config {
        self.config
    }

    /// The identities queued for activation.
    pub closed spec fn additions(&self) -> Seq<ValidatorId> {
        self.validators_to_add@
    }

    /// The identities queued for deactivation.
    pub closed spec fn removals(&self) -> Seq<ValidatorId> {
        self.validators_to_remove@
    }

    /// The notifications left so far, oldest first.
    pub closed spec fn emitted(&self) -> Seq<Event> {
        self.events@
    }

    /// A manager with empty queues.
    pub fn new(config: Config) -> (r: Pallet)
        ensures
            r.cfg() == config,
            r.additions() == Seq::<ValidatorId>::empty(),
            r.removals() == Seq::<ValidatorId>::empty(),
            r.emitted() == Seq::<Event>::empty(),
    {
        Pallet {
            config,
            validators_to_add: Vec::new(),
            validators_to_remove: Vec::new(),
            events: Vec::new(),
        }
    }

    pub fn config(&self) -> (r: &Config)
        ensures
            *r == self.cfg(),
    {
        &self.config
    }

    pub fn validators_to_add(&self) -> (r: &Vec<ValidatorId>)
        ensures
            r@ == self.additions(),
    {
        &self.validators_to_add
    }

    pub fn validators_to_remove(&self) -> (r: &Vec<ValidatorId>)
        ensures
            r@ == self.removals(),
    {
        &self.validators_to_remove
    }

    pub fn events(&self) -> (r: &Vec<Event>)
        ensures
            r@ == self.emitted(),
    {
        &self.events
    }

    /// Queues `validators` for activation at the next reconciliation, all or none.
    /// Each must be new to the queue and have ready session keys in `keys`.
    pub fn register_validators(
        &mut self,
        origin: RuntimeOrigin,
        validators: Vec<ValidatorId>,
        keys: &KeyRegistry,
    ) -> (r: Result<(), Error>)
        ensures
            final(self).cfg() == old(self).cfg(),
            final(self).removals() == old(self).removals(),
            match registration(old(self).cfg(), keys, origin, old(self).additions(), validators@) {
                Ok(q) => {
                    &&& r == Ok::<(), Error>(())
                    &&& final(self).additions() == q
                    &&& final(self).emitted() == old(self).emitted().push(
                        Event::ValidatorsRegistered { validators },
                    )
                },
                Err(e) => {
                    &&& r == Err::<(), Error>(e)
                    &&& final(self).additions() == old(self).additions()
                    &&& final(self).emitted() == old(self).emitted()
                },
            },
            no_dups(old(self).additions()) && r is Ok ==> no_dups(final(self).additions()),
    {
        proof {
            lemma_enqueue_keeps_distinct(
                self.config,
                keys,
                self.validators_to_add@,
                validators@,
            );
        }
        ensure_privileged(origin)?;
        let ghost start = self.validators_to_add@;
        let mut queue = copy_ids(&self.validators_to_add);
        let mut i: usize = 0;
        assert(validators@.subrange(0, 0) =~= Seq::<ValidatorId>::empty());
        assert(validators@.subrange(0, validators@.len() as int) =~= validators@);
        while i < validators.len()
            invariant
                i <= validators@.len(),
                start == self.validators_to_add@,
                is_privileged(origin),
                enqueue_all(self.config, keys, start, validators@) == enqueue_all(
                    self.config,
                    keys,
                    queue@,
                    validators@.subrange(i as int, validators@.len() as int),
                ),
            decreases validators.len() - i,
        {
            let v = validators[i];
            let ghost rest = validators@.subrange(i as int, validators@.len() as int);
            assert(rest[0] == v);
            assert(rest.drop_first() =~= validators@.subrange(i + 1, validators@.len() as int));
            assert(rest.len() > 0);
            if contains_id(&queue, v) {
                assert(enqueue_all(self.config, keys, queue@, rest) == Err::<Seq<ValidatorId>, Error>(
                    Error::ValidatorAlreadyAdded,
                ));
                return Err(Error::ValidatorAlreadyAdded);
            }
            if let Err(e) = validate_session_keys(&self.config, keys, v) {
                assert(enqueue_all(self.config, keys, queue@, rest) == Err::<Seq<ValidatorId>, Error>(
                    Error::NoKeysRegistered,
                ));
                return Err(e);
            }
            queue.push(v);
            i = i + 1;
        }
        assert(validators@.subrange(i as int, validators@.len() as int) =~= Seq::<
            ValidatorId,
        >::empty());
        self.validators_to_add = queue;
        self.events.push(Event::ValidatorsRegistered { validators });
        Ok(())
    }

    /// Queues `validator`, a member of `active`, for deactivation at the next
    /// reconciliation, unless that would leave fewer than the minimum.
    pub fn remove_validator(
        &mut self,
        origin: RuntimeOrigin,
        validator: ValidatorId,
        active: &Vec<ValidatorId>,
    ) -> (r: Result<(), Error>)
        ensures
            final(self).cfg() == old(self).cfg(),
            final(self).additions() == old(self).additions(),
            r == removal(
                old(self).cfg(),
                origin,
                active@,
                old(self).additions(),
                old(self).removals(),
                validator,
            ),
            r is Ok ==> {
                &&& final(self).removals() == old(self).removals().push(validator)
                &&& final(self).emitted() == old(self).emitted().push(
                    Event::ValidatorRemoved { validator },
                )
            },
            r is Err ==> {
                &&& final(self).removals() == old(self).removals()
                &&& final(self).emitted() == old(self).emitted()
            },
            r is Ok ==> projected_count(
                active@.len() as int,
                old(self).additions().len() as int,
                old(self).removals().len() as int,
            ) >= old(self).cfg().min_authorities,
    {
        ensure_privileged(origin)?;
        if !contains_id(active, validator) {
            return Err(Error::NotValidator);
        }
        let total: u128 = active.len() as u128 + self.validators_to_add.len() as u128;
        let needed: u128 = self.validators_to_remove.len() as u128 + 1
            + self.config.min_authorities as u128;
        if total < needed {
            return Err(Error::TooFewValidators);
        }
        if contains_id(&self.validators_to_remove, validator) {
            return Err(Error::ValidatorAlreadyAdded);
        }
        self.validators_to_remove.push(validator);
        self.events.push(Event::ValidatorRemoved { validator });
        Ok(())
    }

    /// Seeds the additions queue with the validator identities of `accounts`, as
    /// genesis does; an empty list leaves the queue as it is.
    pub fn put_validators(&mut self, accounts: &Vec<AccountId>)
        ensures
            final(self).cfg() == old(self).cfg(),
            final(self).removals() == old(self).removals(),
            final(self).emitted() == old(self).emitted(),
            accounts@.len() > 0 ==> final(self).additions() == validators_of(accounts@),
            accounts@.len() == 0 ==> final(self).additions() == old(self).additions(),
    {
        if accounts.len() == 0 {
            return;
        }
        let mut converted: Vec<ValidatorId> = Vec::new();
        let mut i: usize = 0;
        while i < accounts.len()
            invariant
                i <= accounts@.len(),
                converted@ == validators_of(accounts@.subrange(0, i as int)),
            decreases accounts.len() - i,
        {
            assert(validators_of(accounts@.subrange(0, i + 1)) =~= validators_of(
                accounts@.subrange(0, i as int),
            ).push(validator_of(accounts@[i as int])));
            if let Some(v) = ValidatorOf::convert(accounts[i]) {
                converted.push(v);
            }
            i = i + 1;
        }
        assert(accounts@.subrange(0, accounts@.len() as int) =~= accounts@);
        if converted.len() > 0 {
            self.validators_to_add = converted;
        }
    }

    /// Decides the validator set for the session `index`: at genesis the additions
    /// queue, which it consumes; inside the bootstrap window no change; afterwards the
    /// active set with both queues drained into it, or no change where that would
    /// leave fewer than the minimum. Drained queues stay drained either way.
    pub fn new_session(&mut self, index: SessionIndex, active: &Vec<ValidatorId>) -> (r: Option<
        Vec<ValidatorId>,
    >)
        ensures
            opt_view(r) == session_result(
                old(self).cfg(),
                index,
                active@,
                old(self).additions(),
                old(self).removals(),
            ),
            final(self).cfg() == old(self).cfg(),
            final(self).emitted() == old(self).emitted(),
            index == 0 ==> final(self).additions() == Seq::<ValidatorId>::empty()
                && final(self).removals() == old(self).removals(),
            old(self).cfg().in_bootstrap(index) ==> final(self).additions() == old(
                self,
            ).additions() && final(self).removals() == old(self).removals(),
            drains(old(self).cfg(), index) ==> final(self).additions() == Seq::<
                ValidatorId,
            >::empty() && final(self).removals() == Seq::<ValidatorId>::empty(),
    {
        if index == 0 {
            let initial = copy_ids(&self.validators_to_add);
            self.validators_to_add = Vec::new();
            if initial.len() > 0 {
                return Some(initial);
            }
            return None;
        }
        if index <= self.config.bootstrap_sessions {
            return None;
        }
        let removals = copy_ids(&self.validators_to_remove);
        let additions = copy_ids(&self.validators_to_add);
        self.validators_to_remove = Vec::new();
        self.validators_to_add = Vec::new();
        let validators = reconcile(active, &removals, &additions, self.config.merge_order);
        if validators.len() < self.config.min_authorities as usize {
            None
        } else {
            Some(validators)
        }
    }

    /// The set that genesis puts in force: the seeded additions queue, if any, which
    /// is consumed.
    pub fn process_queue(&mut self) -> (r: Option<Vec<ValidatorId>>)
        ensures
            opt_view(r) == session_result(
                old(self).cfg(),
                0,
                Seq::empty(),
                old(self).additions(),
                old(self).removals(),
            ),
            final(self).cfg() == old(self).cfg(),
            final(self).additions() == Seq::<ValidatorId>::empty(),
            final(self).removals() == old(self).removals(),
            final(self).emitted() == old(self).emitted(),
    {
        let none: Vec<ValidatorId> = Vec::new();
        self.new_session(0, &none)
    }

    /// Called when a session ends; the manager has nothing to do then.
    pub fn end_session(&self, _index: SessionIndex) {
    }

    /// Called when a session starts; the manager has nothing to do then.
    pub fn start_session(&self, _index: SessionIndex) {
    }
}

/// The validators that a chain starts with.
pub struct GenesisConfig {
    pub initial_validators: Vec<AccountId>,
}

impl GenesisConfig {
    /// Seeds `pallet`'s additions queue with the initial validators, bypassing the
    /// key check: the genesis configuration is trusted.
    pub fn build(&self, pallet: &mut Pallet)
        ensures
            final(pallet).cfg() == old(pallet).cfg(),
            final(pallet).removals() == old(pallet).removals(),
            final(pallet).emitted() == old(pallet).emitted(),
            self.initial_validators@.len() > 0 ==> final(pallet).additions() == validators_of(
                self.initial_validators@,
            ),
            self.initial_validators@.len() == 0 ==> final(pallet).additions() == old(
                pallet,
            ).additions(),
    {
        if self.initial_validators.len() > 0 {
            pallet.put_validators(&self.initial_validators);
        }
    }
}

impl Default for GenesisConfig {
    fn default() -> (r: GenesisConfig)
        ensures
            r.initial_validators@ == Seq::<AccountId>::empty(),
    {
        GenesisConfig { initial_validators: Vec::new() }
    }
}

} // verus!
