use vstd::prelude::*;

use crate::types::{AdminError, AdminKey, CriticalAction, ProposalView, Role};

verus! {

/// The abstract state of the admin module's storage, together with the
/// addresses whose authorization the operations so far have required.
pub struct AdminModel {
    /// The stored administrator.
    pub admin: Option<Seq<u8>>,
    /// The stored role assignments.
    pub roles: Set<(Role, Seq<u8>)>,
    /// The stored multi-signature admin pool.
    pub pool: Option<Seq<Seq<u8>>>,
    /// The stored quorum threshold.
    pub threshold: Option<u32>,
    /// The stored multi-signature requirements, by action.
    pub multi_sig: Map<CriticalAction, bool>,
    /// The stored proposals; a proposal's id is its position.
    pub proposals: Seq<ProposalView>,
    /// The addresses whose authorization has been required, in order.
    pub auths: Seq<Seq<u8>>,
}

impl AdminModel {
    /// The state in which nothing has been stored.
    pub open spec fn empty() -> AdminModel {
        AdminModel {
            admin: None,
            roles: Set::empty(),
            pool: None,
            threshold: None,
            multi_sig: Map::empty(),
            proposals: Seq::empty(),
            auths: Seq::empty(),
        }
    }

    /// What every reachable state satisfies: a threshold is stored exactly
    /// when a pool is, and lies between 1 and the pool's size; a proposal's
    /// first approval is its creator's and no admin approves it twice; and
    /// proposal ids fit in a `u64`.
    pub open spec fn valid(self) -> bool {
        &&& (self.threshold is Some <==> self.pool is Some)
        &&& (self.threshold matches Some(t) ==> 1 <= t <= self.pool->0.len())
        &&& self.proposals.len() <= u64::MAX
        &&& forall|i: int| 0 <= i < self.proposals.len() ==> #[trigger] self.proposals[i].valid()
    }

    /// Whether storage holds a value under `key`.
    pub open spec fn holds(self, key: AdminKey) -> bool {
        match key {
            AdminKey::Admin => self.admin is Some,
            AdminKey::Role(role, address) => self.roles.contains((role, address@)),
            AdminKey::MultiSigRequired(action) => self.multi_sig.dom().contains(action),
            AdminKey::AdminPool => self.pool is Some,
            AdminKey::Threshold => self.threshold is Some,
            AdminKey::Proposal(id) => id < self.proposals.len(),
            AdminKey::ProposalIdCounter => self.proposals.len() > 0,
        }
    }

    /// The same state, with `a`'s authorization also required.
    pub open spec fn authorize(self, a: Seq<u8>) -> AdminModel {
        AdminModel { auths: self.auths.push(a), ..self }
    }
}

impl ProposalView {
    /// The creator approves first, and nobody approves twice.
    pub open spec fn valid(self) -> bool {
        &&& self.approvals.len() >= 1
        &&& self.approvals[0] == self.creator
        &&& self.approvals.no_duplicates()
    }
}

// ─── Reads ───────────────────────────────────────────────────────────────────

/// The stored administrator.
pub open spec fn get_admin_spec(m: AdminModel) -> Result<Seq<u8>, AdminError> {
    match m.admin {
        Some(a) => Ok(a),
        None => Err(AdminError::NotInitialized),
    }
}

/// Whether an administrator is stored.
pub open spec fn has_admin_spec(m: AdminModel) -> bool {
    m.admin is Some
}

/// An address has a role when it was granted that role or the Admin role.
pub open spec fn has_role_spec(m: AdminModel, role: Role, a: Seq<u8>) -> bool {
    m.roles.contains((Role::Admin, a)) || m.roles.contains((role, a))
}

/// The stored pool; else the administrator alone; else nobody.
pub open spec fn get_admin_pool_spec(m: AdminModel) -> Seq<Seq<u8>> {
    match m.pool {
        Some(pool) => pool,
        None => match m.admin {
            Some(a) => seq![a],
            None => Seq::empty(),
        },
    }
}

/// The stored threshold, 1 when none is stored.
pub open spec fn get_threshold_spec(m: AdminModel) -> u32 {
    match m.threshold {
        Some(t) => t,
        None => 1,
    }
}

/// Whether `action` is stored as requiring multi-signature approval.
pub open spec fn is_multi_sig_required_spec(m: AdminModel, action: CriticalAction) -> bool {
    m.multi_sig.dom().contains(action) && m.multi_sig[action]
}

/// Whether a multi-signature pool is stored.
pub open spec fn is_multi_sig_enabled_spec(m: AdminModel) -> bool {
    m.pool is Some
}

/// The proposal with id `id`.
pub open spec fn get_proposal_spec(m: AdminModel, id: u64) -> Result<ProposalView, AdminError> {
    if id < m.proposals.len() {
        Ok(m.proposals[id as int])
    } else {
        Err(AdminError::ProposalNotFound)
    }
}

/// Whether a proposal has at least as many approvals as the threshold.
pub open spec fn is_proposal_ready_spec(m: AdminModel, id: u64) -> Result<bool, AdminError> {
    match get_proposal_spec(m, id) {
        Ok(p) => Ok(p.approvals.len() >= get_threshold_spec(m)),
        Err(e) => Err(e),
    }
}

// ─── Transitions ─────────────────────────────────────────────────────────────

/// Stores the administrator and grants it the Admin role; the new
/// administrator's authorization is required.
pub open spec fn set_admin_spec(m: AdminModel, a: Seq<u8>) -> AdminModel {
    AdminModel { admin: Some(a), roles: m.roles.insert((Role::Admin, a)), ..m }.authorize(a)
}

/// Grants a role; once an administrator is stored, its authorization is required.
pub open spec fn grant_role_spec(m: AdminModel, role: Role, a: Seq<u8>) -> AdminModel {
    let granted = AdminModel { roles: m.roles.insert((role, a)), ..m };
    match m.admin {
        Some(admin) => granted.authorize(admin),
        None => granted,
    }
}

/// Requires the administrator's authorization.
pub open spec fn require_admin_spec(m: AdminModel) -> Result<AdminModel, AdminError> {
    match m.admin {
        Some(admin) => Ok(m.authorize(admin)),
        None => Err(AdminError::NotInitialized),
    }
}

/// Revokes a role, with the administrator's authorization.
pub open spec fn revoke_role_spec(m: AdminModel, role: Role, a: Seq<u8>) -> Result<AdminModel, AdminError> {
    match require_admin_spec(m) {
        Ok(m1) => Ok(AdminModel { roles: m1.roles.remove((role, a)), ..m1 }),
        Err(e) => Err(e),
    }
}

/// Stores the pool and threshold, when the threshold is between 1 and the pool's size.
pub open spec fn set_admin_pool_spec(m: AdminModel, pool: Seq<Seq<u8>>, threshold: u32) -> Result<AdminModel, AdminError> {
    if threshold == 0 || threshold > pool.len() {
        Err(AdminError::InvalidThreshold)
    } else {
        Ok(AdminModel { pool: Some(pool), threshold: Some(threshold), ..m })
    }
}

/// Stores whether `action` requires multi-signature approval; once an
/// administrator is stored, its authorization is required.
pub open spec fn set_multi_sig_required_spec(m: AdminModel, action: CriticalAction, required: bool) -> AdminModel {
    let set = AdminModel { multi_sig: m.multi_sig.insert(action, required), ..m };
    match m.admin {
        Some(admin) => set.authorize(admin),
        None => set,
    }
}

/// Whether `action` goes through multi-signature approval: it is marked as
/// requiring it, and an admin pool is configured.
pub open spec fn uses_multi_sig_spec(m: AdminModel, action: CriticalAction) -> bool {
    is_multi_sig_required_spec(m, action) && is_multi_sig_enabled_spec(m)
}

/// Requires that `a` holds `role`, and `a`'s authorization.
pub open spec fn require_role_spec(m: AdminModel, role: Role, a: Seq<u8>) -> Result<AdminModel, AdminError> {
    if !has_role_spec(m, role, a) {
        Err(AdminError::MissingRole)
    } else {
        Ok(m.authorize(a))
    }
}

/// The multi-signature checks on a proposal for `action`: it exists, has
/// reached the threshold, and is for `action`.
pub open spec fn check_proposal_spec(m: AdminModel, action: CriticalAction, id: u64) -> Result<(), AdminError> {
    match is_proposal_ready_spec(m, id) {
        Err(e) => Err(e),
        Ok(ready) => if !ready {
            Err(AdminError::ThresholdNotMet)
        } else if m.proposals[id as int].action_type != action {
            Err(AdminError::ActionMismatch)
        } else {
            Ok(())
        },
    }
}

/// When `action` goes through multi-signature approval, the proposal checks;
/// otherwise the administrator's authorization.
pub open spec fn require_multi_sig_spec(m: AdminModel, action: CriticalAction, id: u64) -> Result<AdminModel, AdminError> {
    if uses_multi_sig_spec(m, action) {
        match check_proposal_spec(m, action, id) {
            Ok(_) => Ok(m),
            Err(e) => Err(e),
        }
    } else {
        require_admin_spec(m)
    }
}

/// As [`require_multi_sig_spec`], and when multi-signature approval is
/// used, the caller must be in the admin pool.
pub open spec fn require_multi_sig_with_caller_spec(m: AdminModel, action: CriticalAction, id: u64, caller: Seq<u8>) -> Result<AdminModel, AdminError> {
    if uses_multi_sig_spec(m, action) {
        match check_proposal_spec(m, action, id) {
            Err(e) => Err(e),
            Ok(_) => if !get_admin_pool_spec(m).contains(caller) {
                Err(AdminError::CallerNotInPool)
            } else {
                Ok(m)
            },
        }
    } else {
        require_admin_spec(m)
    }
}

/// The proposal that `creator` opens for `action`: approved by its creator alone.
pub open spec fn new_proposal(creator: Seq<u8>, action: CriticalAction, description: Seq<u8>) -> ProposalView {
    ProposalView { creator, action_type: action, description, approvals: seq![creator], executed: false }
}

/// Creates a proposal under the next id, with the creator's authorization;
/// the creator must be in the admin pool. The authorization is demanded
/// before the checks: a refusal leaves `m.authorize(creator)`.
pub open spec fn create_proposal_spec(m: AdminModel, creator: Seq<u8>, action: CriticalAction, description: Seq<u8>) -> Result<(AdminModel, u64), AdminError> {
    if !get_admin_pool_spec(m).contains(creator) {
        Err(AdminError::ProposerNotAdmin)
    } else if m.proposals.len() >= u64::MAX {
        Err(AdminError::ProposalIdOverflow)
    } else {
        Ok((
            AdminModel { proposals: m.proposals.push(new_proposal(creator, action, description)), ..m }.authorize(creator),
            m.proposals.len() as u64,
        ))
    }
}

/// Adds `admin`'s approval to an open proposal, with `admin`'s authorization;
/// `admin` must be in the pool and must not have approved it already. The
/// authorization is demanded before the checks: a refusal leaves
/// `m.authorize(admin)`.
pub open spec fn approve_proposal_spec(m: AdminModel, admin: Seq<u8>, id: u64) -> Result<AdminModel, AdminError> {
    if !get_admin_pool_spec(m).contains(admin) {
        Err(AdminError::ApproverNotAdmin)
    } else if id >= m.proposals.len() {
        Err(AdminError::ProposalNotFound)
    } else if m.proposals[id as int].executed {
        Err(AdminError::AlreadyExecuted)
    } else if m.proposals[id as int].approvals.contains(admin) {
        Err(AdminError::AlreadyApproved)
    } else {
        let p = m.proposals[id as int];
        let approved = ProposalView { approvals: p.approvals.push(admin), ..p };
        Ok(AdminModel { proposals: m.proposals.update(id as int, approved), ..m }.authorize(admin))
    }
}

/// The state with proposal `id` marked as executed.
pub open spec fn with_executed(m: AdminModel, id: u64) -> AdminModel {
    let p = m.proposals[id as int];
    AdminModel { proposals: m.proposals.update(id as int, ProposalView { executed: true, ..p }), ..m }
}

/// Marks a proposal that has reached the threshold as executed; it must not
/// have been executed already.
pub open spec fn mark_executed_spec(m: AdminModel, id: u64) -> Result<AdminModel, AdminError> {
    if id >= m.proposals.len() {
        Err(AdminError::ProposalNotFound)
    } else if m.proposals[id as int].executed {
        Err(AdminError::MarkAlreadyExecuted)
    } else if m.proposals[id as int].approvals.len() < get_threshold_spec(m) {
        Err(AdminError::MarkThresholdNotMet)
    } else {
        Ok(with_executed(m, id))
    }
}

/// Executes a proposal that has reached the threshold, marking it executed
/// and giving its action; it must not have been executed already.
pub open spec fn execute_proposal_spec(m: AdminModel, id: u64) -> Result<(AdminModel, CriticalAction), AdminError> {
    if id >= m.proposals.len() {
        Err(AdminError::ProposalNotFound)
    } else if m.proposals[id as int].executed {
        Err(AdminError::AlreadyExecuted)
    } else if m.proposals[id as int].approvals.len() < get_threshold_spec(m) {
        Err(AdminError::ExecutionThresholdNotMet)
    } else {
        Ok((with_executed(m, id), m.proposals[id as int].action_type))
    }
}

// ─── Sequences of operations ─────────────────────────────────────────────────

/// An operation of the module that can change the storage or the required
/// authorizations, with its arguments.
pub enum Operation {
    SetAdmin(Seq<u8>),
    GrantRole(Role, Seq<u8>),
    RevokeRole(Role, Seq<u8>),
    SetAdminPool(Seq<Seq<u8>>, u32),
    SetMultiSigRequired(CriticalAction, bool),
    RequireAdmin,
    RequireRole(Role, Seq<u8>),
    RequireMultiSig(CriticalAction, u64),
    RequireMultiSigWithCaller(CriticalAction, u64, Seq<u8>),
    CreateProposal(Seq<u8>, CriticalAction, Seq<u8>),
    ApproveProposal(Seq<u8>, u64),
    MarkExecuted(u64),
    ExecuteProposal(u64),
}

/// The state after `op`. A refused operation leaves the storage as it was;
/// only the authorization that proposing and approving demand first stays
/// demanded.
pub open spec fn step(m: AdminModel, op: Operation) -> AdminModel {
    match op {
        Operation::SetAdmin(a) => set_admin_spec(m, a),
        Operation::GrantRole(role, a) => grant_role_spec(m, role, a),
        Operation::RevokeRole(role, a) => match revoke_role_spec(m, role, a) {
            Ok(m2) => m2,
            Err(_) => m,
        },
        Operation::SetAdminPool(pool, threshold) => match set_admin_pool_spec(m, pool, threshold) {
            Ok(m2) => m2,
            Err(_) => m,
        },
        Operation::SetMultiSigRequired(action, required) => set_multi_sig_required_spec(m, action, required),
        Operation::RequireAdmin => match require_admin_spec(m) {
            Ok(m2) => m2,
            Err(_) => m,
        },
        Operation::RequireRole(role, a) => match require_role_spec(m, role, a) {
            Ok(m2) => m2,
            Err(_) => m,
        },
        Operation::RequireMultiSig(action, id) => match require_multi_sig_spec(m, action, id) {
            Ok(m2) => m2,
            Err(_) => m,
        },
        Operation::RequireMultiSigWithCaller(action, id, caller) => match require_multi_sig_with_caller_spec(m, action, id, caller) {
            Ok(m2) => m2,
            Err(_) => m,
        },
        Operation::CreateProposal(creator, action, description) => match create_proposal_spec(m, creator, action, description) {
            Ok((m2, _)) => m2,
            Err(_) => m.authorize(creator),
        },
        Operation::ApproveProposal(admin, id) => match approve_proposal_spec(m, admin, id) {
            Ok(m2) => m2,
            Err(_) => m.authorize(admin),
        },
        Operation::MarkExecuted(id) => match mark_executed_spec(m, id) {
            Ok(m2) => m2,
            Err(_) => m,
        },
        Operation::ExecuteProposal(id) => match execute_proposal_spec(m, id) {
            Ok((m2, _)) => m2,
            Err(_) => m,
        },
    }
}

/// The state after the operations `ops`, in order.
pub open spec fn run(m: AdminModel, ops: Seq<Operation>) -> AdminModel
    decreases ops.len(),
{
    if ops.len() == 0 {
        m
    } else {
        step(run(m, ops.drop_last()), ops.last())
    }
}

/// Whether `op` stores a pool (a pool with a threshold between 1 and its size).
pub open spec fn stores_pool(op: Operation) -> bool {
    op matches Operation::SetAdminPool(pool, threshold) && 1 <= threshold <= pool.len()
}

/// Whether `op` revokes `role` from `a`.
pub open spec fn revokes(op: Operation, role: Role, a: Seq<u8>) -> bool {
    op matches Operation::RevokeRole(r, b) && r == role && b == a
}

/// Whether `op` sets the multi-signature requirement of `action`.
pub open spec fn sets_multi_sig(op: Operation, action: CriticalAction) -> bool {
    op matches Operation::SetMultiSigRequired(b, _) && b == action
}

} // verus!
