//! The guild factory: deploys guild instances from a source template, tracks
//! the deployed and active sets, enforces the global cap on concurrently
//! active guilds, and keeps the bidirectional address-to-id tables that the
//! whole system uses instead of raw addresses.
//!
//! The id tables are arenas: a dense vector of addresses where the id is the
//! slot index plus one, deletion leaves a tombstone, and the bijection
//! between live ids and addresses is an invariant checked on every insert
//! and remove. Actual code deployment and the remote calls into a guild are
//! the host platform's work; the functions here decide and record, and hand
//! the host the data it needs.

use std::collections::HashMap;
use vstd::prelude::*;
use crate::config::GuildConfig;
use crate::errors::GuildError;

verus! {

broadcast use vstd::std_specs::hash::group_hash_axioms;

/// The configuration a new guild instance is deployed with.
#[derive(Clone, Copy, Debug, PartialEq, Eq, Structural)]
pub struct GuildLocalConfig {
    pub farming_token_id: u64,
    pub division_safety_constant: u128,
}

/// One entry of the deployed-guild listing: the guild and its master.
#[derive(Clone, Copy, Debug, PartialEq, Eq, Structural)]
pub struct GetGuildResultType {
    pub guild: u64,
    pub guild_master: u64,
}

/// No value occurs twice in the sequence.
pub open spec fn seq_unique(s: Seq<u64>) -> bool {
    forall|i: int, j: int| 0 <= i < j < s.len() ==> s[i] != s[j]
}

/// The first slot holding the address.
pub open spec fn first_index_of(s: Seq<u64>, addr: u64) -> int
    decreases s.len(),
{
    if s.len() == 0 {
        0
    } else if s[0] == addr {
        0
    } else {
        1 + first_index_of(s.drop_first(), addr)
    }
}

/// If every slot before `j` misses the address and slot `j` holds it, `j` is
/// the first index.
proof fn lemma_first_index_of_prefix(s: Seq<u64>, addr: u64, j: int)
    requires
        0 <= j < s.len(),
        s[j] == addr,
        forall|k: int| 0 <= k < j ==> s[k] != addr,
    ensures
        first_index_of(s, addr) == j,
    decreases j,
{
    if j > 0 {
        assert(s.drop_first()[j - 1] == s[j]);
        assert(forall|k: int| 0 <= k < j - 1 ==> #[trigger] s.drop_first()[k] == s[k + 1]);
        lemma_first_index_of_prefix(s.drop_first(), addr, j - 1);
    }
}

/// When the sequence contains the address, the first index is in range and
/// holds it.
pub proof fn lemma_first_index_of_contains(s: Seq<u64>, addr: u64)
    requires
        s.contains(addr),
    ensures
        0 <= first_index_of(s, addr) < s.len(),
        s[first_index_of(s, addr)] == addr,
    decreases s.len(),
{
    if s.len() > 0 && s[0] != addr {
        let sub = s.drop_first();
        let w = choose|i: int| 0 <= i < s.len() && s[i] == addr;
        assert(sub[w - 1] == s[w]);
        assert(sub.contains(addr));
        lemma_first_index_of_contains(sub, addr);
        assert(s[1 + first_index_of(sub, addr)] == sub[first_index_of(sub, addr)]);
    }
}

/// A bidirectional address-to-id arena. Ids are slot indices plus one; a
/// removed entry leaves a zero tombstone and its id is never reused. The
/// address zero is reserved as "no address".
pub struct IdTable {
    pub slots: Vec<u64>,
}

impl IdTable {
    /// The bijection invariant: every live address occupies exactly one slot.
    pub open spec fn wf(self) -> bool {
        forall|i: int, j: int|
            0 <= i < j < self.slots@.len() && #[trigger] self.slots@[i] != 0 ==> self.slots@[i]
                != #[trigger] self.slots@[j]
    }

    /// Whether the address has a live id.
    pub open spec fn spec_contains(self, addr: u64) -> bool {
        addr != 0 && self.slots@.contains(addr)
    }

    /// The id of an address: its slot index plus one, or zero when absent.
    pub open spec fn spec_id_of(self, addr: u64) -> int {
        if self.spec_contains(addr) {
            first_index_of(self.slots@, addr) + 1
        } else {
            0
        }
    }

    /// The address of an id, when the id is live.
    pub open spec fn spec_address_of(self, id: u64) -> Option<u64> {
        if 1 <= id <= self.slots@.len() && self.slots@[id - 1] != 0 {
            Some(self.slots@[id - 1])
        } else {
            None
        }
    }

    pub fn new() -> (t: IdTable)
        ensures
            t.slots@ == Seq::<u64>::empty(),
            t.wf(),
    {
        IdTable { slots: Vec::new() }
    }

    /// The id of the address, zero when it has none.
    pub fn get_id(&self, addr: u64) -> (r: u64)
        requires
            self.slots@.len() < u64::MAX,
        ensures
            r == self.spec_id_of(addr),
            r == 0 <==> !self.spec_contains(addr),
            r <= self.slots@.len(),
    {
        if addr == 0 {
            return 0;
        }
        let n = self.slots.len();
        let mut i: usize = 0;
        #[verifier::loop_isolation(false)]
        while i < n
            invariant
                0 <= i <= n,
                forall|k: int| 0 <= k < i ==> self.slots@[k] != addr,
            decreases n - i,
        {
            if self.slots[i] == addr {
                proof {
                    assert(self.slots@[i as int] == addr);
                    assert(self.slots@.contains(addr));
                    lemma_first_index_of_prefix(self.slots@, addr, i as int);
                    assert(self.spec_id_of(addr) == i + 1);
                }
                return (i as u64) + 1;
            }
            i += 1;
        }
        proof {
            assert(!self.slots@.contains(addr));
        }
        0
    }

    /// The id of the address; `UnknownGuild` when it has none.
    pub fn get_id_non_zero(&self, addr: u64) -> (r: Result<u64, GuildError>)
        requires
            self.slots@.len() < u64::MAX,
        ensures
            r is Ok <==> self.spec_contains(addr),
            r matches Ok(id) ==> id == self.spec_id_of(addr) && 1 <= id <= self.slots@.len(),
            r is Err ==> r == Result::<u64, GuildError>::Err(GuildError::UnknownGuild),
    {
        let id = self.get_id(addr);
        if id == 0 {
            Err(GuildError::UnknownGuild)
        } else {
            Ok(id)
        }
    }

    /// The id of the address, inserting a fresh slot on first use.
    pub fn get_id_or_insert(&mut self, addr: u64) -> (r: u64)
        requires
            addr != 0,
            old(self).wf(),
            old(self).slots@.len() + 1 < u64::MAX,
        ensures
            final(self).wf(),
            old(self).spec_contains(addr) ==> *final(self) == *old(self) && r == old(
                self,
            ).spec_id_of(addr),
            !old(self).spec_contains(addr) ==> final(self).slots@ == old(self).slots@.push(addr)
                && r == old(self).slots@.len() + 1,
            r == final(self).spec_id_of(addr),
            final(self).spec_contains(addr),
    {
        let id = self.get_id(addr);
        if id != 0 {
            return id;
        }
        let new_id = (self.slots.len() as u64) + 1;
        let ghost before = self.slots@;
        self.slots.push(addr);
        proof {
            let after = self.slots@;
            assert(after == before.push(addr));
            assert(after[after.len() - 1] == addr);
            assert(after.contains(addr));
            assert(forall|k: int| 0 <= k < before.len() ==> after[k] == before[k]);
            assert(!old(self).spec_contains(addr));
            assert(forall|k: int| 0 <= k < before.len() ==> #[trigger] before[k] != addr) by {
                assert(!before.contains(addr));
            }
            lemma_first_index_of_prefix(after, addr, after.len() - 1);
            assert forall|a: int, b: int|
                0 <= a < b < after.len() && #[trigger] after[a] != 0 implies after[a]
                != #[trigger] after[b] by {
                if b == after.len() - 1 {
                    assert(after[a] == before[a]);
                } else {
                    assert(after[a] == before[a] && after[b] == before[b]);
                }
            }
        }
        new_id
    }

    /// Registers a fresh address; its slot index plus one becomes its id.
    pub fn insert_new(&mut self, addr: u64) -> (r: u64)
        requires
            addr != 0,
            old(self).wf(),
            !old(self).spec_contains(addr),
            old(self).slots@.len() + 1 < u64::MAX,
        ensures
            final(self).wf(),
            final(self).slots@ == old(self).slots@.push(addr),
            r == old(self).slots@.len() + 1,
            r == final(self).spec_id_of(addr),
            final(self).spec_contains(addr),
    {
        self.get_id_or_insert(addr)
    }

    /// The address behind an id, when the id is live.
    pub fn get_address(&self, id: u64) -> (r: Option<u64>)
        ensures
            r == self.spec_address_of(id),
    {
        let n = self.slots.len();
        if id >= 1 && id <= (n as u64) {
            let idx = (id - 1) as usize;
            let a = self.slots[idx];
            if a != 0 {
                Some(a)
            } else {
                None
            }
        } else {
            None
        }
    }

    /// Removes the address's mapping, leaving a tombstone, and returns its
    /// former id; zero when it had none.
    pub fn remove_by_address(&mut self, addr: u64) -> (r: u64)
        requires
            old(self).wf(),
            old(self).slots@.len() < u64::MAX,
        ensures
            final(self).wf(),
            r == old(self).spec_id_of(addr),
            old(self).spec_contains(addr) ==> 1 <= r <= old(self).slots@.len(),
            old(self).spec_contains(addr) ==> final(self).slots@ == old(self).slots@.update(
                r - 1,
                0u64,
            ),
            !old(self).spec_contains(addr) ==> *final(self) == *old(self),
            !final(self).spec_contains(addr),
    {
        let id = self.get_id(addr);
        if id == 0 {
            return 0;
        }
        proof {
            lemma_first_index_of_contains(self.slots@, addr);
            assert(id - 1 < self.slots@.len());
        }
        let ghost before = self.slots@;
        let n = self.slots.len();
        let idx = (id - 1) as usize;
        proof {
            assert(id - 1 < n);
            assert(idx == id - 1);
        }
        self.slots.set(idx, 0);
        proof {
            let after = self.slots@;
            assert(after == before.update(id - 1, 0u64));
            assert(before[id - 1] == addr);
            assert forall|i: int| 0 <= i < after.len() implies after[i] != addr by {
                if i != id - 1 {
                    assert(after[i] == before[i]);
                    if after[i] == addr {
                        assert(before[i] == before[id - 1]);
                    }
                }
            }
            assert(!after.contains(addr));
        }
        id
    }
}

/// Whether a vector of ids contains a value.
pub fn vec_contains(v: &Vec<u64>, x: u64) -> (r: bool)
    ensures
        r == v@.contains(x),
{
    let n = v.len();
    let mut i: usize = 0;
    while i < n
        invariant
            0 <= i <= n,
            n == v@.len(),
            forall|k: int| 0 <= k < i ==> v@[k] != x,
        decreases n - i,
    {
        if v[i] == x {
            return true;
        }
        i += 1;
    }
    false
}

/// Removes one value from a duplicate-free vector by swapping the last
/// element into its place; reports whether it was present.
pub fn swap_remove_value(v: &mut Vec<u64>, x: u64) -> (r: bool)
    requires
        seq_unique(old(v)@),
    ensures
        r == old(v)@.contains(x),
        seq_unique(final(v)@),
        forall|y: u64| #[trigger] final(v)@.contains(y) <==> (old(v)@.contains(y) && y != x),
        r ==> final(v)@.len() == old(v)@.len() - 1,
        !r ==> *final(v) == *old(v),
{
    let n = v.len();
    let mut i: usize = 0;
    #[verifier::loop_isolation(false)]
    while i < n
        invariant
            0 <= i <= n,
            *v == *old(v),
            forall|k: int| 0 <= k < i ==> v@[k] != x,
        decreases n - i,
    {
        if v[i] == x {
            let ghost before = v@;
            let ghost n1 = before.len();
            v.swap_remove(i);
            proof {
                let after = v@;
                assert(before[i as int] == x);
                assert(before.contains(x));
                assert(after =~= before.update(i as int, before[n1 - 1]).drop_last());
                assert forall|y: u64| #[trigger] after.contains(y) implies (before.contains(y) && y
                    != x) by {
                    let k = choose|k: int| 0 <= k < after.len() && after[k] == y;
                    if k == i {
                        assert(before[n1 - 1] == y);
                        assert(before.contains(y));
                        if y == x {
                            // uniqueness: x sits only at slot i, so i == n1 - 1,
                            // but k == i is inside the shortened sequence.
                            assert(k < after.len() && after.len() == n1 - 1);
                            assert((i as int) < n1 - 1);
                            assert(seq_unique(before));
                            assert(before[i as int] != before[n1 - 1]);
                        }
                    } else {
                        assert(before[k] == y);
                        assert(before.contains(y));
                        if y == x {
                            assert(k != i as int && before[k] == before[i as int]);
                        }
                    }
                }
                assert forall|y: u64| before.contains(y) && y != x implies #[trigger] after.contains(
                    y,
                ) by {
                    let k = choose|k: int| 0 <= k < n1 && before[k] == y;
                    if k == n1 - 1 {
                        if (i as int) < n1 - 1 {
                            assert(after[i as int] == y);
                        } else {
                            assert(before[i as int] == x);
                        }
                    } else if k == i {
                        assert(before[i as int] == x);
                    } else {
                        assert(after[k] == y);
                    }
                }
                assert forall|a: int, b: int|
                    0 <= a < b < after.len() implies #[trigger] after[a] != #[trigger] after[b] by {
                    let va = if a == i { before[n1 - 1] } else { before[a] };
                    let vb = if b == i { before[n1 - 1] } else { before[b] };
                    assert(after[a] == va && after[b] == vb);
                    if a == i {
                        assert(b != i && b < n1 - 1);
                        assert(before[b] != before[n1 - 1]);
                    } else if b == i {
                        assert(a < n1 - 1);
                        assert(before[a] != before[n1 - 1]);
                    } else {
                        assert(before[a] != before[b]);
                    }
                }
            }
            return true;
        }
        i += 1;
    }
    proof {
        assert(!old(v)@.contains(x));
    }
    false
}

/// The factory's persistent state.
pub struct Factory {
    pub owner: u64,
    /// The template a new guild's code is deployed from; zero when unset.
    pub guild_sc_source_address: u64,
    pub guild_local_config: Option<GuildLocalConfig>,
    /// The shared configuration registry's address; zero when unset.
    pub config_sc_address: u64,
    pub max_active_guilds: usize,
    /// Ids of every guild ever deployed and not yet removed.
    pub deployed_guilds: Vec<u64>,
    /// Ids of the guilds currently producing rewards.
    pub active_guilds: Vec<u64>,
    /// The one guild a user may have deployed, by user id.
    pub guild_sc_for_user: HashMap<u64, u64>,
    /// The master of each guild, by guild id.
    pub guild_master_for_guild: HashMap<u64, u64>,
    pub user_ids: IdTable,
    pub guild_ids: IdTable,
}

impl Factory {
    pub open spec fn wf(self) -> bool {
        &&& seq_unique(self.deployed_guilds@)
        &&& seq_unique(self.active_guilds@)
        &&& forall|i: int|
            0 <= i < self.deployed_guilds@.len() ==> 1 <= #[trigger] self.deployed_guilds@[i]
                <= self.guild_ids.slots@.len()
        &&& forall|i: int|
            0 <= i < self.active_guilds@.len() ==> 1 <= #[trigger] self.active_guilds@[i]
                <= self.guild_ids.slots@.len()
        &&& self.user_ids.wf()
        &&& self.guild_ids.wf()
        &&& self.user_ids.slots@.len() + 1 < u64::MAX
        &&& self.guild_ids.slots@.len() + 1 < u64::MAX
    }

    pub fn new(owner: u64) -> (f: Factory)
        ensures
            f.wf(),
            f.owner == owner,
            f.guild_sc_source_address == 0,
            f.guild_local_config is None,
            f.config_sc_address == 0,
            f.max_active_guilds == 0,
            f.deployed_guilds@ == Seq::<u64>::empty(),
            f.active_guilds@ == Seq::<u64>::empty(),
            f.guild_sc_for_user@ == Map::<u64, u64>::empty(),
            f.guild_master_for_guild@ == Map::<u64, u64>::empty(),
            f.user_ids.slots@ == Seq::<u64>::empty(),
            f.guild_ids.slots@ == Seq::<u64>::empty(),
    {
        Factory {
            owner,
            guild_sc_source_address: 0,
            guild_local_config: None,
            config_sc_address: 0,
            max_active_guilds: 0,
            deployed_guilds: Vec::new(),
            active_guilds: Vec::new(),
            guild_sc_for_user: HashMap::new(),
            guild_master_for_guild: HashMap::new(),
            user_ids: IdTable::new(),
            guild_ids: IdTable::new(),
        }
    }

    pub fn get_current_active_guilds(&self) -> (r: usize)
        ensures
            r == self.active_guilds@.len(),
    {
        self.active_guilds.len()
    }

    /// Owner-only: sets the cap on concurrently active guilds; it may never
    /// fall below the number already active.
    pub fn set_max_active_guilds(&mut self, caller: u64, max_active_guilds: usize) -> (r: Result<
        (),
        GuildError,
    >)
        ensures
            r is Ok <==> caller == old(self).owner && max_active_guilds >= old(
                self,
            ).active_guilds@.len(),
            r matches Ok(()) ==> *final(self) == (Factory {
                max_active_guilds,
                ..*old(self)
            }),
            r is Err ==> *final(self) == *old(self),
            r is Err ==> (caller != old(self).owner ==> r == Result::<(), GuildError>::Err(
                GuildError::NotOwner,
            )),
            r is Err ==> (caller == old(self).owner ==> r == Result::<(), GuildError>::Err(
                GuildError::MaxActiveGuildsBelowCurrent,
            )),
    {
        if caller != self.owner {
            return Err(GuildError::NotOwner);
        }
        let current_active_guilds = self.get_current_active_guilds();
        if max_active_guilds < current_active_guilds {
            return Err(GuildError::MaxActiveGuildsBelowCurrent);
        }
        self.max_active_guilds = max_active_guilds;
        Ok(())
    }

    /// Owner-only: sets the source template new guilds are deployed from.
    pub fn set_guild_sc_source_address(&mut self, caller: u64, sc_addr: u64) -> (r: Result<
        (),
        GuildError,
    >)
        ensures
            r is Ok <==> caller == old(self).owner,
            r matches Ok(()) ==> *final(self) == (Factory {
                guild_sc_source_address: sc_addr,
                ..*old(self)
            }),
            r is Err ==> *final(self) == *old(self) && r == Result::<(), GuildError>::Err(
                GuildError::NotOwner,
            ),
    {
        if caller != self.owner {
            return Err(GuildError::NotOwner);
        }
        self.guild_sc_source_address = sc_addr;
        Ok(())
    }

    /// Known guild: deployed and not yet removed.
    pub fn require_known_guild(&self, guild_id: u64) -> (r: Result<(), GuildError>)
        ensures
            r is Ok <==> self.deployed_guilds@.contains(guild_id),
            r is Err ==> r == Result::<(), GuildError>::Err(GuildError::UnknownGuild),
    {
        if vec_contains(&self.deployed_guilds, guild_id) {
            Ok(())
        } else {
            Err(GuildError::UnknownGuild)
        }
    }

    /// The registry must be deployed and both tier tables published before
    /// guilds can be deployed or resumed.
    pub fn require_config_setup_complete(&self, cfg: &GuildConfig) -> (r: Result<(), GuildError>)
        ensures
            r is Ok <==> self.config_sc_address != 0 && cfg.guild_master_tiers@.len() > 0
                && cfg.user_tiers@.len() > 0,
            r is Err ==> r == Result::<(), GuildError>::Err(GuildError::ConfigNotComplete),
    {
        if self.config_sc_address == 0 {
            return Err(GuildError::ConfigNotComplete);
        }
        if cfg.is_setup_complete() {
            Ok(())
        } else {
            Err(GuildError::ConfigNotComplete)
        }
    }

    /// Owner-only: re-deploys a known guild's code in place from the current
    /// template. The host performs the upgrade; the returned address is the
    /// template to deploy from.
    pub fn upgrade_guild(&self, caller: u64, guild_address: u64) -> (r: Result<u64, GuildError>)
        requires
            self.wf(),
        ensures
            r is Ok <==> caller == self.owner && self.guild_ids.spec_contains(guild_address)
                && self.deployed_guilds@.contains(
                self.guild_ids.spec_id_of(guild_address) as u64,
            ),
            r matches Ok(src) ==> src == self.guild_sc_source_address,
            r is Err ==> (caller != self.owner ==> r == Result::<u64, GuildError>::Err(
                GuildError::NotOwner,
            )),
            r is Err ==> (caller == self.owner ==> r == Result::<u64, GuildError>::Err(
                GuildError::UnknownGuild,
            )),
    {
        if caller != self.owner {
            return Err(GuildError::NotOwner);
        }
        let guild_id = match self.guild_ids.get_id_non_zero(guild_address) {
            Ok(id) => id,
            Err(e) => {
                return Err(e);
            },
        };
        match self.require_known_guild(guild_id) {
            Ok(()) => {},
            Err(e) => {
                return Err(e);
            },
        }
        Ok(self.guild_sc_source_address)
    }
}

} // verus!

verus! {

impl Factory {
    /// Whether a user already has a guild deployed.
    pub open spec fn spec_user_has_guild(self, caller: u64) -> bool {
        let uid = self.user_ids.spec_id_of(caller);
        uid != 0 && self.guild_sc_for_user@.contains_key(uid as u64)
    }

    /// Whether the registry is deployed and fully configured.
    pub open spec fn spec_config_complete(self, cfg: GuildConfig) -> bool {
        self.config_sc_address != 0 && cfg.guild_master_tiers@.len() > 0 && cfg.user_tiers@.len()
            > 0
    }

    /// Registers a freshly deployed guild. The host has already deployed the
    /// instance from the source template at `new_guild_address`; this
    /// records the bidirectional id mappings, adds the guild to the deployed
    /// set and marks the caller as its master. One guild per caller; the
    /// registry must be configured first. The new guild starts not active:
    /// deployment is never constrained by the active-guild cap.
    pub fn deploy_guild(&mut self, cfg: &GuildConfig, caller: u64, new_guild_address: u64) -> (r:
        Result<u64, GuildError>)
        requires
            old(self).wf(),
            caller != 0,
            new_guild_address != 0,
            !old(self).guild_ids.spec_contains(new_guild_address),
            old(self).user_ids.slots@.len() + 2 < u64::MAX,
            old(self).guild_ids.slots@.len() + 2 < u64::MAX,
        ensures
            final(self).wf(),
            r is Ok <==> !old(self).spec_user_has_guild(caller) && old(self).spec_config_complete(
                *cfg,
            ),
            r is Err ==> *final(self) == *old(self),
            r is Err ==> (old(self).spec_user_has_guild(caller) ==> r == Result::<
                u64,
                GuildError,
            >::Err(GuildError::AlreadyHaveGuild)),
            r is Err ==> (!old(self).spec_user_has_guild(caller) ==> r == Result::<
                u64,
                GuildError,
            >::Err(GuildError::ConfigNotComplete)),
            r matches Ok(addr) ==> {
                let gid = (old(self).guild_ids.slots@.len() + 1) as u64;
                let uid = final(self).user_ids.spec_id_of(caller) as u64;
                &&& addr == new_guild_address
                &&& final(self).guild_ids.slots@ == old(self).guild_ids.slots@.push(
                    new_guild_address,
                )
                &&& final(self).user_ids.slots@ == if old(self).user_ids.spec_contains(caller) {
                    old(self).user_ids.slots@
                } else {
                    old(self).user_ids.slots@.push(caller)
                }
                &&& final(self).deployed_guilds@ == old(self).deployed_guilds@.push(gid)
                &&& final(self).deployed_guilds@.contains(gid)
                &&& final(self).active_guilds@ == old(self).active_guilds@
                &&& !final(self).active_guilds@.contains(gid)
                &&& final(self).guild_master_for_guild@ == old(
                    self,
                ).guild_master_for_guild@.insert(gid, uid)
                &&& final(self).guild_sc_for_user@ == old(self).guild_sc_for_user@.insert(uid, gid)
                &&& *final(self) == (Factory {
                    deployed_guilds: final(self).deployed_guilds,
                    guild_sc_for_user: final(self).guild_sc_for_user,
                    guild_master_for_guild: final(self).guild_master_for_guild,
                    user_ids: final(self).user_ids,
                    guild_ids: final(self).guild_ids,
                    ..*old(self)
                })
            },
    {
        let existing_user_id = self.user_ids.get_id(caller);
        if existing_user_id != 0 && self.guild_sc_for_user.contains_key(&existing_user_id) {
            return Err(GuildError::AlreadyHaveGuild);
        }
        match self.require_config_setup_complete(cfg) {
            Ok(()) => {},
            Err(e) => {
                return Err(e);
            },
        }
        let caller_id = self.user_ids.get_id_or_insert(caller);
        let guild_id = self.guild_ids.insert_new(new_guild_address);
        let ghost dep_before = self.deployed_guilds@;
        self.deployed_guilds.push(guild_id);
        proof {
            let dep = self.deployed_guilds@;
            assert(dep == dep_before.push(guild_id));
            assert forall|a: int, b: int| 0 <= a < b < dep.len() implies #[trigger] dep[a]
                != #[trigger] dep[b] by {
                if b == dep.len() - 1 {
                    assert(dep[a] == dep_before[a]);
                    assert(dep_before[a] <= old(self).guild_ids.slots@.len());
                } else {
                    assert(dep[a] == dep_before[a] && dep[b] == dep_before[b]);
                }
            }
            assert forall|i: int| 0 <= i < dep.len() implies 1 <= #[trigger] dep[i]
                <= self.guild_ids.slots@.len() by {
                if i < dep.len() - 1 {
                    assert(dep[i] == dep_before[i]);
                    assert(1 <= dep_before[i] <= old(self).guild_ids.slots@.len());
                }
                assert(self.guild_ids.slots@.len() == old(self).guild_ids.slots@.len() + 1);
            }
        }
        self.guild_master_for_guild.insert(guild_id, caller_id);
        self.guild_sc_for_user.insert(caller_id, guild_id);
        proof {
            // The fresh id exceeds every id the active set can hold, so the
            // new guild starts inactive.
            assert(self.deployed_guilds@.contains(guild_id)) by {
                assert(self.deployed_guilds@[self.deployed_guilds@.len() - 1] == guild_id);
            }
            assert(!self.active_guilds@.contains(guild_id)) by {
                if self.active_guilds@.contains(guild_id) {
                    let k = choose|k: int|
                        0 <= k < self.active_guilds@.len() && self.active_guilds@[k] == guild_id;
                    assert(old(self).active_guilds@[k] <= old(self).guild_ids.slots@.len());
                }
            }
        }
        Ok(new_guild_address)
    }

    /// Activates a deployed guild. The caller is the guild itself; it must
    /// be known, not already active, the active-guild cap must leave room,
    /// the registry must be configured and the guild's own local role setup
    /// complete (`guild_setup_complete` is the answer of that remote check).
    /// On success the host triggers the guild's reward production.
    pub fn resume_guild_endpoint(
        &mut self,
        cfg: &GuildConfig,
        caller: u64,
        guild_setup_complete: bool,
    ) -> (r: Result<(), GuildError>)
        requires
            old(self).wf(),
        ensures
            final(self).wf(),
            r is Err ==> *final(self) == *old(self),
            ({
                let gid = old(self).guild_ids.spec_id_of(caller) as u64;
                let known = old(self).guild_ids.spec_contains(caller)
                    && old(self).deployed_guilds@.contains(gid);
                let room = old(self).active_guilds@.len() < old(self).max_active_guilds;
                let already = old(self).active_guilds@.contains(gid);
                let config_ok = old(self).spec_config_complete(*cfg);
                &&& r is Ok <==> known && room && !already && config_ok && guild_setup_complete
                &&& r matches Ok(()) ==> *final(self) == (Factory {
                    active_guilds: final(self).active_guilds,
                    ..*old(self)
                }) && final(self).active_guilds@ == old(self).active_guilds@.push(gid)
                &&& !known ==> r == Result::<(), GuildError>::Err(GuildError::UnknownGuild)
                &&& known && !room ==> r == Result::<(), GuildError>::Err(
                    GuildError::ActiveGuildLimitReached,
                )
                &&& known && room && already ==> r == Result::<(), GuildError>::Err(
                    GuildError::GuildAlreadyActive,
                )
                &&& known && room && !already && !config_ok ==> r == Result::<(), GuildError>::Err(
                    GuildError::ConfigNotComplete,
                )
                &&& known && room && !already && config_ok && !guild_setup_complete ==> r
                    == Result::<(), GuildError>::Err(GuildError::InvalidSetup)
            }),
    {
        let guild_id = match self.guild_ids.get_id_non_zero(caller) {
            Ok(id) => id,
            Err(e) => {
                return Err(e);
            },
        };
        match self.require_known_guild(guild_id) {
            Ok(()) => {},
            Err(e) => {
                return Err(e);
            },
        }
        let current_active_guilds = self.get_current_active_guilds();
        if current_active_guilds >= self.max_active_guilds {
            return Err(GuildError::ActiveGuildLimitReached);
        }
        if vec_contains(&self.active_guilds, guild_id) {
            return Err(GuildError::GuildAlreadyActive);
        }
        match self.require_config_setup_complete(cfg) {
            Ok(()) => {},
            Err(e) => {
                return Err(e);
            },
        }
        if !guild_setup_complete {
            return Err(GuildError::InvalidSetup);
        }
        self.active_guilds.push(guild_id);
        Ok(())
    }

    /// The id of a known guild address.
    pub fn get_guild_id(&self, guild_address: u64) -> (r: Result<u64, GuildError>)
        requires
            self.wf(),
        ensures
            r is Ok <==> self.guild_ids.spec_contains(guild_address),
            r matches Ok(id) ==> id == self.guild_ids.spec_id_of(guild_address),
            r is Err ==> r == Result::<u64, GuildError>::Err(GuildError::UnknownGuild),
    {
        self.guild_ids.get_id_non_zero(guild_address)
    }

    /// The master id recorded for a guild id; zero when none is recorded.
    pub open spec fn spec_master_of(self, gid: u64) -> u64 {
        if self.guild_master_for_guild@.contains_key(gid) {
            self.guild_master_for_guild@[gid]
        } else {
            0
        }
    }

    /// Whether one deployed guild id resolves to a guild address and a
    /// master address.
    pub open spec fn spec_guild_resolvable(self, gid: u64) -> bool {
        self.guild_ids.spec_address_of(gid) is Some && self.user_ids.spec_address_of(
            self.spec_master_of(gid),
        ) is Some
    }

    /// The resolved listing entry of a deployed guild id.
    pub open spec fn spec_guild_entry(self, gid: u64) -> GetGuildResultType {
        GetGuildResultType {
            guild: self.guild_ids.spec_address_of(gid).unwrap(),
            guild_master: self.user_ids.spec_address_of(self.spec_master_of(gid)).unwrap(),
        }
    }

    /// Enumerates the deployed guilds, resolving the guild and master
    /// addresses of each. A deployed guild whose id mappings have drifted
    /// apart is a fatal inconsistency: the identity tables and the deployed
    /// set must never disagree.
    pub fn get_all_guilds(&self) -> (r: Result<Vec<GetGuildResultType>, GuildError>)
        requires
            self.wf(),
        ensures
            r is Ok <==> (forall|i: int|
                0 <= i < self.deployed_guilds@.len() ==> self.spec_guild_resolvable(
                    #[trigger] self.deployed_guilds@[i],
                )),
            r matches Ok(v) ==> v@.len() == self.deployed_guilds@.len() && (forall|i: int|
                0 <= i < v@.len() ==> #[trigger] v@[i] == self.spec_guild_entry(
                    self.deployed_guilds@[i],
                )),
            r is Err ==> r == Result::<Vec<GetGuildResultType>, GuildError>::Err(
                GuildError::InvalidSetup,
            ),
    {
        let mut result: Vec<GetGuildResultType> = Vec::new();
        let n = self.deployed_guilds.len();
        let mut i: usize = 0;
        #[verifier::loop_isolation(false)]
        while i < n
            invariant
                0 <= i <= n,
                result@.len() == i,
                forall|k: int|
                    0 <= k < i ==> self.spec_guild_resolvable(#[trigger] self.deployed_guilds@[k]),
                forall|k: int|
                    0 <= k < i ==> #[trigger] result@[k] == self.spec_guild_entry(
                        self.deployed_guilds@[k],
                    ),
            decreases n - i,
        {
            let guild_id = self.deployed_guilds[i];
            let guild_master_id = match self.guild_master_for_guild.get(&guild_id) {
                Some(m) => *m,
                None => 0,
            };
            let opt_guild_address = self.guild_ids.get_address(guild_id);
            let opt_guild_master_address = self.user_ids.get_address(guild_master_id);
            let guild_address = match opt_guild_address {
                Some(a) => a,
                None => {
                    return Err(GuildError::InvalidSetup);
                },
            };
            let guild_master_address = match opt_guild_master_address {
                Some(a) => a,
                None => {
                    return Err(GuildError::InvalidSetup);
                },
            };
            result.push(GetGuildResultType { guild: guild_address, guild_master: guild_master_address });
            i += 1;
        }
        Ok(result)
    }

    /// The shared tail of the close, migrate and remove flows: removes both
    /// id mappings, takes the guild out of the deployed set and clears the
    /// master's guild mapping. The master address is read from the guild's
    /// own storage by the caller.
    pub fn remove_guild_common(&mut self, guild: u64, guild_master: u64) -> (r: Result<
        (),
        GuildError,
    >)
        requires
            old(self).wf(),
        ensures
            final(self).wf(),
            r is Err ==> *final(self) == *old(self),
            ({
                let gid = old(self).guild_ids.spec_id_of(guild) as u64;
                let uid = old(self).user_ids.spec_id_of(guild_master) as u64;
                let known = old(self).deployed_guilds@.contains(gid) && gid != 0;
                let master_known = uid != 0 && old(self).guild_sc_for_user@.contains_key(uid);
                &&& r is Ok <==> known && master_known
                &&& !known ==> r == Result::<(), GuildError>::Err(GuildError::UnknownGuild)
                &&& known && !master_known ==> r == Result::<(), GuildError>::Err(
                    GuildError::UnknownGuildMaster,
                )
                &&& r matches Ok(()) ==> {
                    &&& final(self).guild_ids.slots@ == old(self).guild_ids.slots@.update(
                        gid - 1,
                        0u64,
                    )
                    &&& final(self).user_ids.slots@ == old(self).user_ids.slots@.update(
                        uid - 1,
                        0u64,
                    )
                    &&& (forall|y: u64|
                        #[trigger] final(self).deployed_guilds@.contains(y) <==> (old(
                            self,
                        ).deployed_guilds@.contains(y) && y != gid))
                    &&& final(self).guild_sc_for_user@ == old(self).guild_sc_for_user@.remove(uid)
                    &&& final(self).guild_master_for_guild@ == old(
                        self,
                    ).guild_master_for_guild@.remove(gid)
                    &&& final(self).active_guilds@ == old(self).active_guilds@
                    &&& *final(self) == (Factory {
                        deployed_guilds: final(self).deployed_guilds,
                        guild_sc_for_user: final(self).guild_sc_for_user,
                        guild_master_for_guild: final(self).guild_master_for_guild,
                        user_ids: final(self).user_ids,
                        guild_ids: final(self).guild_ids,
                        ..*old(self)
                    })
                }
            }),
    {
        let guild_id = self.guild_ids.get_id(guild);
        let user_id = self.user_ids.get_id(guild_master);
        if guild_id == 0 || !vec_contains(&self.deployed_guilds, guild_id) {
            return Err(GuildError::UnknownGuild);
        }
        if user_id == 0 || !self.guild_sc_for_user.contains_key(&user_id) {
            return Err(GuildError::UnknownGuildMaster);
        }
        let removed_guild_id = self.guild_ids.remove_by_address(guild);
        let removed_user_id = self.user_ids.remove_by_address(guild_master);
        proof {
            assert(self.guild_ids.slots@.len() == old(self).guild_ids.slots@.len());
            assert(self.user_ids.slots@.len() == old(self).user_ids.slots@.len());
        }
        let ghost dep_before = self.deployed_guilds@;
        let removed = swap_remove_value(&mut self.deployed_guilds, removed_guild_id);
        assert(removed);
        proof {
            let dep = self.deployed_guilds@;
            assert forall|i: int| 0 <= i < dep.len() implies 1 <= #[trigger] dep[i]
                <= self.guild_ids.slots@.len() by {
                assert(dep.contains(dep[i]));
                assert(dep_before.contains(dep[i]));
                let j = choose|j: int| 0 <= j < dep_before.len() && dep_before[j] == dep[i];
                assert(1 <= dep_before[j] <= old(self).guild_ids.slots@.len());
            }
        }
        self.guild_sc_for_user.remove(&removed_user_id);
        self.guild_master_for_guild.remove(&removed_guild_id);
        Ok(())
    }
}

} // verus!
