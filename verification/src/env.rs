use vstd::prelude::*;

use crate::address::Address;
use crate::model::AdminModel;
use crate::types::{
    action_index, action_slot, addresses, AdminKey, CriticalAction, Proposal, Role,
    CRITICAL_ACTION_COUNT,
};

verus! {

/// The admin module's storage, and the addresses whose authorization the
/// operations performed on it have required (in order). A host runs an
/// operation, demands each of those authorizations, and keeps the new
/// storage only when all of them are given.
pub struct AdminEnv {
    admin: Option<Address>,
    roles: Vec<(Role, Address)>,
    pool: Option<Vec<Address>>,
    threshold: Option<u32>,
    multi_sig: Vec<Option<bool>>,
    proposals: Vec<Proposal>,
    auths: Vec<Address>,
}

/// The role assignments of a list of entries.
pub open spec fn role_entries(v: Seq<(Role, Address)>) -> Seq<(Role, Seq<u8>)> {
    v.map_values(|e: (Role, Address)| (e.0, e.1@))
}

/// The abstract contents of a list of proposals.
pub open spec fn proposal_views(v: Seq<Proposal>) -> Seq<crate::types::ProposalView> {
    v.map_values(|p: Proposal| p@)
}

impl View for AdminEnv {
    type V = AdminModel;

    closed spec fn view(&self) -> AdminModel {
        AdminModel {
            admin: match self.admin {
                Some(a) => Some(a@),
                None => None,
            },
            roles: role_entries(self.roles@).to_set(),
            pool: match self.pool {
                Some(p) => Some(addresses(p@)),
                None => None,
            },
            threshold: self.threshold,
            multi_sig: Map::new(
                |a: CriticalAction| self.multi_sig@[action_slot(a)] is Some,
                |a: CriticalAction| self.multi_sig@[action_slot(a)]->0,
            ),
            proposals: proposal_views(self.proposals@),
            auths: addresses(self.auths@),
        }
    }
}

impl AdminEnv {
    /// The storage is in a reachable state: its abstract state is valid, and
    /// it keeps one multi-signature entry per critical action.
    ///
    /// This is a predicate that operations require and ensure, not a type
    /// invariant: it ties fields together (a threshold is stored exactly when a
    /// pool is), which `store_pool` and `restore` write one after another, and
    /// a type invariant would have to hold after each of those writes. The
    /// laws also need it as a predicate on the abstract state.
    pub open spec fn wf(&self) -> bool {
        &&& self.has_action_slots()
        &&& self@.valid()
    }

    /// One multi-signature entry is kept per critical action.
    pub closed spec fn has_action_slots(&self) -> bool {
        self.multi_sig.len() == CRITICAL_ACTION_COUNT
    }

    /// Empty storage, with no authorization required yet.
    pub fn new() -> (env: AdminEnv)
        ensures
            env.wf(),
            env@ == AdminModel::empty(),
    {
        let mut multi_sig: Vec<Option<bool>> = Vec::new();
        let mut i: usize = 0;
        while i < CRITICAL_ACTION_COUNT
            invariant
                i <= CRITICAL_ACTION_COUNT,
                multi_sig.len() == i,
                forall|j: int| 0 <= j < i ==> multi_sig@[j] is None,
            decreases CRITICAL_ACTION_COUNT - i,
        {
            multi_sig.push(None);
            i = i + 1;
        }
        let env = AdminEnv {
            admin: None,
            roles: Vec::new(),
            pool: None,
            threshold: None,
            multi_sig,
            proposals: Vec::new(),
            auths: Vec::new(),
        };
        assert(env@.multi_sig =~= Map::<CriticalAction, bool>::empty());
        assert(env@.roles =~= Set::<(Role, Seq<u8>)>::empty());
        assert(env@.proposals =~= Seq::empty());
        assert(env@.auths =~= Seq::empty());
        env
    }

    /// The addresses whose authorization the operations so far have required, in order.
    pub fn required_auths(&self) -> (r: &Vec<Address>)
        ensures
            addresses(r@) == self@.auths,
    {
        &self.auths
    }

    /// Whether storage holds a value under `key`.
    pub fn has_key(&self, key: &AdminKey) -> (r: bool)
        requires
            self.wf(),
        ensures
            r == self@.holds(*key),
    {
        match key {
            AdminKey::Admin => self.admin.is_some(),
            AdminKey::Role(role, address) => self.has_role_entry(*role, address),
            AdminKey::MultiSigRequired(action) => self.multi_sig[action_index(*action)].is_some(),
            AdminKey::AdminPool => self.pool.is_some(),
            AdminKey::Threshold => self.threshold.is_some(),
            AdminKey::Proposal(id) => *id < self.proposals.len() as u64,
            AdminKey::ProposalIdCounter => self.proposals.len() > 0,
        }
    }

    fn has_role_entry(&self, role: Role, address: &Address) -> (r: bool)
        ensures
            r == self@.roles.contains((role, address@)),
    {
        let mut i: usize = 0;
        while i < self.roles.len()
            invariant
                i <= self.roles.len(),
                forall|j: int| 0 <= j < i ==> role_entries(self.roles@)[j] != (role, address@),
            decreases self.roles.len() - i,
        {
            if self.roles[i].0 == role && self.roles[i].1.equals(address) {
                assert(role_entries(self.roles@)[i as int] == (role, address@));
                return true;
            }
            i = i + 1;
        }
        false
    }
}


// Storage primitives: each reads or writes one entry of the storage.
impl AdminEnv {
    /// The stored administrator.
    pub(crate) fn admin_entry(&self) -> (r: Option<&Address>)
        ensures
            r matches Some(a) ==> self@.admin == Some(a@),
            r is None ==> self@.admin is None,
    {
        match &self.admin {
            Some(a) => Some(a),
            None => None,
        }
    }

    /// Stores the administrator.
    pub(crate) fn store_admin(&mut self, a: &Address)
        requires
            old(self).wf(),
        ensures
            final(self).wf(),
            final(self)@ == (AdminModel { admin: Some(a@), ..old(self)@ }),
    {
        self.admin = Some(a.duplicate());
        assert(self@.proposals == old(self)@.proposals);
        assert(self@.multi_sig =~= old(self)@.multi_sig);
    }

    /// Requires `a`'s authorization.
    pub(crate) fn push_auth(&mut self, a: &Address)
        requires
            old(self).wf(),
        ensures
            final(self).wf(),
            final(self)@ == old(self)@.authorize(a@),
    {
        let ghost before = self.auths@;
        self.auths.push(a.duplicate());
        assert(addresses(self.auths@) =~= addresses(before).push(a@));
        assert(self@.multi_sig =~= old(self)@.multi_sig);
    }

    /// Stores the role assignment `(role, a)`.
    pub(crate) fn insert_role(&mut self, role: Role, a: &Address)
        requires
            old(self).wf(),
        ensures
            final(self).wf(),
            final(self)@ == (AdminModel { roles: old(self)@.roles.insert((role, a@)), ..old(self)@ }),
    {
        broadcast use vstd::seq_lib::lemma_seq_contains_after_push;
        if !self.has_role_entry(role, a) {
            let ghost before = self.roles@;
            self.roles.push((role, a.duplicate()));
            assert(role_entries(self.roles@) =~= role_entries(before).push((role, a@)));
        }
        assert(self@.roles =~= old(self)@.roles.insert((role, a@)));
        assert(self@.multi_sig =~= old(self)@.multi_sig);
    }

    /// Removes the role assignment `(role, a)`.
    pub(crate) fn remove_role(&mut self, role: Role, a: &Address)
        requires
            old(self).wf(),
        ensures
            final(self).wf(),
            final(self)@ == (AdminModel { roles: old(self)@.roles.remove((role, a@)), ..old(self)@ }),
    {
        broadcast use vstd::seq_lib::lemma_seq_contains_after_push;
        let mut kept: Vec<(Role, Address)> = Vec::new();
        let mut i: usize = 0;
        assert(role_entries(self.roles@).subrange(0, 0) =~= Seq::empty());
        assert(role_entries(kept@) =~= Seq::empty());
        while i < self.roles.len()
            invariant
                i <= self.roles.len(),
                forall|e: (Role, Seq<u8>)| role_entries(kept@).contains(e) <==>
                    (e != (role, a@) && role_entries(self.roles@).subrange(0, i as int).contains(e)),
            decreases self.roles.len() - i,
        {
            let ghost before = kept@;
            let ghost seen = role_entries(self.roles@).subrange(0, i as int);
            let ghost x = role_entries(self.roles@)[i as int];
            assert(role_entries(self.roles@).subrange(0, i + 1) =~= seen.push(x));
            assert(x == (self.roles@[i as int].0, self.roles@[i as int].1@));
            let matched = self.roles[i].0 == role && self.roles[i].1.equals(a);
            if !matched {
                let entry = (self.roles[i].0, self.roles[i].1.duplicate());
                kept.push(entry);
                assert(role_entries(kept@) =~= role_entries(before).push(x));
            }
            proof {
                assert forall|e: (Role, Seq<u8>)| role_entries(kept@).contains(e) <==>
                    (e != (role, a@) && seen.push(x).contains(e)) by {
                    vstd::seq_lib::lemma_seq_contains_after_push(seen, x, e);
                    vstd::seq_lib::lemma_seq_contains_after_push(role_entries(before), x, e);
                }
            }
            i = i + 1;
        }
        assert(role_entries(self.roles@).subrange(0, self.roles.len() as int) =~= role_entries(self.roles@));
        self.roles = kept;
        assert(self@.roles =~= old(self)@.roles.remove((role, a@)));
        assert(self@.multi_sig =~= old(self)@.multi_sig);
    }

    /// The stored pool.
    pub(crate) fn pool_entry(&self) -> (r: Option<&Vec<Address>>)
        ensures
            r matches Some(p) ==> self@.pool == Some(addresses(p@)),
            r is None ==> self@.pool is None,
    {
        match &self.pool {
            Some(p) => Some(p),
            None => None,
        }
    }

    /// The stored threshold.
    pub(crate) fn threshold_entry(&self) -> (r: Option<u32>)
        ensures
            r == self@.threshold,
    {
        self.threshold
    }

    /// Stores the pool and its threshold.
    pub(crate) fn store_pool(&mut self, pool: Vec<Address>, threshold: u32)
        requires
            old(self).wf(),
            1 <= threshold <= pool.len(),
        ensures
            final(self).wf(),
            final(self)@ == (AdminModel {
                pool: Some(addresses(pool@)),
                threshold: Some(threshold),
                ..old(self)@
            }),
    {
        self.pool = Some(pool);
        self.threshold = Some(threshold);
        assert(self@.multi_sig =~= old(self)@.multi_sig);
    }

    /// The stored multi-signature requirement of `action`.
    pub(crate) fn multi_sig_entry(&self, action: CriticalAction) -> (r: Option<bool>)
        requires
            self.wf(),
        ensures
            r matches Some(b) ==> self@.multi_sig.dom().contains(action) && self@.multi_sig[action] == b,
            r is None ==> !self@.multi_sig.dom().contains(action),
    {
        self.multi_sig[action_index(action)]
    }

    /// Stores the multi-signature requirement of `action`.
    pub(crate) fn store_multi_sig(&mut self, action: CriticalAction, required: bool)
        requires
            old(self).wf(),
        ensures
            final(self).wf(),
            final(self)@ == (AdminModel {
                multi_sig: old(self)@.multi_sig.insert(action, required),
                ..old(self)@
            }),
    {
        let k = action_index(action);
        self.multi_sig.set(k, Some(required));
        assert forall|b: CriticalAction| action_slot(b) == k implies b == action by {
            crate::types::lemma_action_slot_injective(b, action);
        }
        assert(self@.multi_sig =~= old(self)@.multi_sig.insert(action, required));
    }

    /// The number of proposals created so far, which is the next proposal's id.
    pub(crate) fn proposal_count(&self) -> (r: u64)
        requires
            self.wf(),
        ensures
            r == self@.proposals.len(),
    {
        self.proposals.len() as u64
    }

    /// The stored proposal with id `id`.
    pub(crate) fn proposal_entry(&self, id: u64) -> (r: Option<&Proposal>)
        ensures
            r matches Some(p) ==> id < self@.proposals.len() && p@ == self@.proposals[id as int],
            r is None ==> id >= self@.proposals.len(),
    {
        if id < self.proposals.len() as u64 {
            Some(&self.proposals[id as usize])
        } else {
            None
        }
    }

    /// Stores a new proposal under the next id.
    pub(crate) fn push_proposal(&mut self, p: Proposal)
        requires
            old(self).wf(),
            p@.valid(),
            old(self)@.proposals.len() < u64::MAX,
        ensures
            final(self).wf(),
            final(self)@ == (AdminModel { proposals: old(self)@.proposals.push(p@), ..old(self)@ }),
    {
        let ghost before = self.proposals@;
        self.proposals.push(p);
        assert(proposal_views(self.proposals@) =~= proposal_views(before).push(p@));
        assert(self@.multi_sig =~= old(self)@.multi_sig);
    }

    /// Replaces the stored proposal with id `id`.
    pub(crate) fn replace_proposal(&mut self, id: u64, p: Proposal)
        requires
            old(self).wf(),
            p@.valid(),
            id < old(self)@.proposals.len(),
        ensures
            final(self).wf(),
            final(self)@ == (AdminModel {
                proposals: old(self)@.proposals.update(id as int, p@),
                ..old(self)@
            }),
    {
        let ghost before = self.proposals@;
        assert(self.proposals.len() == old(self)@.proposals.len());
        self.proposals.set(id as usize, p);
        assert(proposal_views(self.proposals@) =~= proposal_views(before).update(id as int, p@));
        assert(self@.multi_sig =~= old(self)@.multi_sig);
    }
}


/// The multi-signature requirements that a list of settings leaves, later
/// settings overriding earlier ones.
pub open spec fn multi_sig_of(settings: Seq<(CriticalAction, bool)>) -> Map<CriticalAction, bool>
    decreases settings.len(),
{
    if settings.len() == 0 {
        Map::empty()
    } else {
        multi_sig_of(settings.drop_last()).insert(settings.last().0, settings.last().1)
    }
}

/// The stored entries of the admin module, as plain values: what a host
/// persists between invocations.
pub struct AdminSnapshot {
    pub admin: Option<Address>,
    pub roles: Vec<(Role, Address)>,
    pub pool: Option<Vec<Address>>,
    pub threshold: Option<u32>,
    pub multi_sig: Vec<(CriticalAction, bool)>,
    pub proposals: Vec<Proposal>,
}

impl AdminSnapshot {
    /// The storage state these entries describe, with no authorization required.
    pub open spec fn model(&self) -> AdminModel {
        AdminModel {
            admin: match self.admin {
                Some(a) => Some(a@),
                None => None,
            },
            roles: role_entries(self.roles@).to_set(),
            pool: match self.pool {
                Some(p) => Some(addresses(p@)),
                None => None,
            },
            threshold: self.threshold,
            multi_sig: multi_sig_of(self.multi_sig@),
            proposals: proposal_views(self.proposals@),
            auths: Seq::empty(),
        }
    }
}

/// A copy of a list of role assignments.
fn copy_roles(v: &Vec<(Role, Address)>) -> (r: Vec<(Role, Address)>)
    ensures
        role_entries(r@) == role_entries(v@),
{
    let mut r: Vec<(Role, Address)> = Vec::with_capacity(v.len());
    let mut i: usize = 0;
    while i < v.len()
        invariant
            i <= v.len(),
            r.len() == i,
            role_entries(r@) =~= role_entries(v@).subrange(0, i as int),
        decreases v.len() - i,
    {
        let e = (v[i].0, v[i].1.duplicate());
        let ghost before = r@;
        r.push(e);
        assert forall|j: int| 0 <= j < i implies role_entries(r@)[j] == role_entries(v@)[j] by {
            assert(r@[j] == before[j]);
            assert(role_entries(before)[j] == role_entries(v@).subrange(0, i as int)[j]);
        }
        assert(role_entries(r@) =~= role_entries(v@).subrange(0, i + 1));
        i = i + 1;
    }
    assert(role_entries(r@) =~= role_entries(v@));
    r
}

/// A copy of a list of proposals.
fn copy_proposals(v: &Vec<Proposal>) -> (r: Vec<Proposal>)
    ensures
        proposal_views(r@) == proposal_views(v@),
{
    let mut r: Vec<Proposal> = Vec::with_capacity(v.len());
    let mut i: usize = 0;
    while i < v.len()
        invariant
            i <= v.len(),
            r.len() == i,
            proposal_views(r@) =~= proposal_views(v@).subrange(0, i as int),
        decreases v.len() - i,
    {
        let p = v[i].duplicate();
        let ghost before = r@;
        r.push(p);
        assert forall|j: int| 0 <= j < i implies proposal_views(r@)[j] == proposal_views(v@)[j] by {
            assert(r@[j] == before[j]);
            assert(proposal_views(before)[j] == proposal_views(v@).subrange(0, i as int)[j]);
        }
        assert(proposal_views(r@) =~= proposal_views(v@).subrange(0, i + 1));
        i = i + 1;
    }
    assert(proposal_views(r@) =~= proposal_views(v@));
    r
}

/// Whether a proposal's approvals start with its creator and hold nobody twice.
fn proposal_is_valid(p: &Proposal) -> (r: bool)
    ensures
        r == p@.valid(),
{
    let n = p.approvals.len();
    if n == 0 || !p.approvals[0].equals(&p.creator) {
        return false;
    }
    let mut i: usize = 0;
    while i < n
        invariant
            n == p.approvals.len(),
            i <= n,
            forall|x: int, y: int| 0 <= x < y < n && x < i ==> p@.approvals[x] != p@.approvals[y],
        decreases n - i,
    {
        let mut j: usize = i + 1;
        while j < n
            invariant
                n == p.approvals.len(),
                i < n,
                i < j <= n,
                forall|x: int, y: int| 0 <= x < y < n && x < i ==> p@.approvals[x] != p@.approvals[y],
                forall|y: int| i < y < j ==> p@.approvals[i as int] != p@.approvals[y],
            decreases n - j,
        {
            if p.approvals[i].equals(&p.approvals[j]) {
                assert(p@.approvals[i as int] == p@.approvals[j as int]);
                return false;
            }
            j = j + 1;
        }
        i = i + 1;
    }
    true
}

impl AdminEnv {
    /// The stored entries, to be persisted by a host.
    pub fn snapshot(&self) -> (r: AdminSnapshot)
        requires
            self.wf(),
        ensures
            r.model() == (AdminModel { auths: Seq::empty(), ..self@ }),
    {
        let mut multi_sig: Vec<(CriticalAction, bool)> = Vec::new();
        let actions: [CriticalAction; 8] = [
            CriticalAction::ChangeAdmin,
            CriticalAction::ModifyAdminPool,
            CriticalAction::PauseContract,
            CriticalAction::UpgradeContract,
            CriticalAction::ChangeParameters,
            CriticalAction::MintTokens,
            CriticalAction::BurnTokens,
            CriticalAction::TransferOwnership,
        ];
        assert forall|k: int| 0 <= k < 8 implies action_slot(#[trigger] actions@[k]) == k by {}
        let mut i: usize = 0;
        while i < CRITICAL_ACTION_COUNT
            invariant
                self.wf(),
                i <= CRITICAL_ACTION_COUNT,
                forall|k: int| 0 <= k < 8 ==> action_slot(#[trigger] actions@[k]) == k,
                forall|a: CriticalAction| #![trigger multi_sig_of(multi_sig@).dom().contains(a)]
                    multi_sig_of(multi_sig@).dom().contains(a) <==> (action_slot(a) < i && self@.multi_sig.dom().contains(a)),
                forall|a: CriticalAction| #![trigger multi_sig_of(multi_sig@)[a]]
                    multi_sig_of(multi_sig@).dom().contains(a) ==> multi_sig_of(multi_sig@)[a] == self@.multi_sig[a],
            decreases CRITICAL_ACTION_COUNT - i,
        {
            let action = actions[i];
            let ghost before = multi_sig@;
            assert forall|a: CriticalAction| action_slot(a) == i implies a == action by {
                crate::types::lemma_action_slot_injective(a, action);
            }
            match self.multi_sig_entry(action) {
                Some(required) => {
                    multi_sig.push((action, required));
                    assert(multi_sig@.drop_last() == before);
                    assert(multi_sig_of(multi_sig@) == multi_sig_of(before).insert(action, required));
                },
                None => {},
            }
            i = i + 1;
        }
        assert(multi_sig_of(multi_sig@) =~= self@.multi_sig);
        let r = AdminSnapshot {
            admin: match &self.admin {
                Some(a) => Some(a.duplicate()),
                None => None,
            },
            roles: copy_roles(&self.roles),
            pool: match &self.pool {
                Some(p) => Some(crate::types::copy_addresses(p)),
                None => None,
            },
            threshold: self.threshold,
            multi_sig,
            proposals: copy_proposals(&self.proposals),
        };
        r
    }

    /// Storage holding the given entries, when they describe a valid state;
    /// no authorization is required yet.
    pub fn restore(snapshot: AdminSnapshot) -> (r: Option<AdminEnv>)
        ensures
            r is Some <==> snapshot.model().valid(),
            r matches Some(env) ==> env.wf() && env@ == snapshot.model(),
    {
        let ghost model = snapshot.model();
        let AdminSnapshot { admin, roles, pool, threshold, multi_sig, proposals } = snapshot;
        match (&pool, threshold) {
            (Some(p), Some(t)) => {
                if t == 0 || t as usize > p.len() {
                    return None;
                }
            },
            (None, None) => {},
            _ => return None,
        }
        let mut i: usize = 0;
        while i < proposals.len()
            invariant
                i <= proposals.len(),
                model == snapshot.model(),
                proposal_views(proposals@) == model.proposals,
                forall|k: int| 0 <= k < i ==> #[trigger] model.proposals[k].valid(),
            decreases proposals.len() - i,
        {
            if !proposal_is_valid(&proposals[i]) {
                assert(!model.proposals[i as int].valid());
                assert(!model.valid());
                return None;
            }
            i = i + 1;
        }
        let mut env = AdminEnv::new();
        let mut k: usize = 0;
        while k < multi_sig.len()
            invariant
                env.wf(),
                k <= multi_sig.len(),
                env@ == (AdminModel { multi_sig: multi_sig_of(multi_sig@.subrange(0, k as int)), ..AdminModel::empty() }),
            decreases multi_sig.len() - k,
        {
            let (action, required) = multi_sig[k];
            assert(multi_sig@.subrange(0, k + 1).drop_last() =~= multi_sig@.subrange(0, k as int));
            env.store_multi_sig(action, required);
            k = k + 1;
        }
        assert(multi_sig@.subrange(0, multi_sig.len() as int) =~= multi_sig@);
        env.admin = admin;
        env.roles = roles;
        env.pool = pool;
        env.threshold = threshold;
        env.proposals = proposals;
        assert(env@.multi_sig == model.multi_sig);
        assert(env@ =~= model);
        Some(env)
    }
}

} // verus!
