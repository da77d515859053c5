//! What each operation does, stated directly over the fields of the storage
//! state and the operation's inputs: when it succeeds, what it returns, which
//! entries it writes and with what, which authorization it demands, and that
//! it writes nothing else.
use vstd::prelude::*;

use crate::model::{
    approve_proposal_spec, create_proposal_spec, execute_proposal_spec, get_admin_pool_spec,
    get_admin_spec, get_proposal_spec, get_threshold_spec, grant_role_spec, has_admin_spec,
    has_role_spec, is_multi_sig_enabled_spec, is_multi_sig_required_spec, is_proposal_ready_spec,
    mark_executed_spec, require_admin_spec, require_multi_sig_spec,
    require_multi_sig_with_caller_spec, require_role_spec, revoke_role_spec, set_admin_pool_spec,
    set_admin_spec, set_multi_sig_required_spec, AdminModel,
};
use crate::address::Address;
use crate::env::{multi_sig_of, proposal_views, role_entries, AdminSnapshot};
use crate::types::{addresses, error_message, AdminError, AdminKey, CriticalAction, Proposal, ProposalView, Role};

verus! {

/// Two states hold the same entries (the required authorizations aside).
pub open spec fn same_entries(m1: AdminModel, m2: AdminModel) -> bool {
    &&& m1.admin == m2.admin
    &&& m1.roles == m2.roles
    &&& m1.pool == m2.pool
    &&& m1.threshold == m2.threshold
    &&& m1.multi_sig == m2.multi_sig
    &&& m1.proposals == m2.proposals
}

// ─── Reads ───────────────────────────────────────────────────────────────────

/// The admin is the stored one; it exists exactly when one is stored.
pub proof fn reading_the_admin(m: AdminModel)
    ensures
        get_admin_spec(m) is Ok <==> m.admin is Some,
        m.admin matches Some(a) ==> get_admin_spec(m) == Ok::<Seq<u8>, AdminError>(a),
        m.admin is None ==> get_admin_spec(m) == Err::<Seq<u8>, AdminError>(AdminError::NotInitialized),
        has_admin_spec(m) <==> m.admin is Some,
{
}

/// An address holds a role exactly when it was assigned that role or the
/// Admin role; neither the admin nor the pool gives a role otherwise.
pub proof fn holding_a_role(m: AdminModel, role: Role, a: Seq<u8>)
    ensures
        has_role_spec(m, role, a) <==> (m.roles.contains((Role::Admin, a)) || m.roles.contains((role, a))),
{
}

/// The admin pool is the stored pool; with none stored, the stored admin
/// alone; with neither, nobody. The threshold is the stored one, else 1.
pub proof fn reading_the_pool(m: AdminModel, a: Seq<u8>)
    ensures
        m.pool matches Some(p) ==> get_admin_pool_spec(m) == p,
        m.pool is None && m.admin is Some ==> get_admin_pool_spec(m) == seq![m.admin->0],
        m.pool is None && m.admin is None ==> get_admin_pool_spec(m).len() == 0,
        get_admin_pool_spec(m).contains(a) <==> (match m.pool {
            Some(p) => p.contains(a),
            None => m.admin == Some(a),
        }),
        m.threshold matches Some(t) ==> get_threshold_spec(m) == t,
        m.threshold is None ==> get_threshold_spec(m) == 1,
        is_multi_sig_enabled_spec(m) <==> m.pool is Some,
{
    if m.pool is None && m.admin is Some {
        assert(seq![m.admin->0][0] == m.admin->0);
    }
}

/// An action requires multi-signature exactly when `true` is stored for it.
pub proof fn reading_a_requirement(m: AdminModel, action: CriticalAction)
    ensures
        is_multi_sig_required_spec(m, action) <==> (m.multi_sig.dom().contains(action) && m.multi_sig[action]),
{
}

/// A proposal is found exactly when its id is below the number created; it
/// is ready exactly when its approvals reach the threshold.
pub proof fn reading_a_proposal(m: AdminModel, id: u64)
    ensures
        id < m.proposals.len() ==> get_proposal_spec(m, id) == Ok::<ProposalView, AdminError>(m.proposals[id as int]),
        id >= m.proposals.len() ==> get_proposal_spec(m, id) == Err::<ProposalView, AdminError>(AdminError::ProposalNotFound),
        id < m.proposals.len() ==> is_proposal_ready_spec(m, id) == Ok::<bool, AdminError>(
            m.proposals[id as int].approvals.len() >= (match m.threshold {
                Some(t) => t as int,
                None => 1,
            }),
        ),
        id >= m.proposals.len() ==> is_proposal_ready_spec(m, id) == Err::<bool, AdminError>(AdminError::ProposalNotFound),
{
}

// ─── Admin and roles ────────────────────────────────────────────────────────

/// Setting the admin stores it, assigns it the Admin role, demands its
/// authorization, and writes nothing else.
pub proof fn setting_the_admin(m: AdminModel, a: Seq<u8>)
    ensures
        set_admin_spec(m, a).admin == Some(a),
        set_admin_spec(m, a).roles == m.roles.insert((Role::Admin, a)),
        set_admin_spec(m, a).pool == m.pool,
        set_admin_spec(m, a).threshold == m.threshold,
        set_admin_spec(m, a).multi_sig == m.multi_sig,
        set_admin_spec(m, a).proposals == m.proposals,
        set_admin_spec(m, a).auths == m.auths.push(a),
{
}

/// Granting assigns the role and writes nothing else; it demands the stored
/// admin's authorization, or none when no admin is stored.
pub proof fn granting_a_role(m: AdminModel, role: Role, a: Seq<u8>)
    ensures
        grant_role_spec(m, role, a).roles == m.roles.insert((role, a)),
        grant_role_spec(m, role, a).admin == m.admin,
        grant_role_spec(m, role, a).pool == m.pool,
        grant_role_spec(m, role, a).threshold == m.threshold,
        grant_role_spec(m, role, a).multi_sig == m.multi_sig,
        grant_role_spec(m, role, a).proposals == m.proposals,
        m.admin matches Some(admin) ==> grant_role_spec(m, role, a).auths == m.auths.push(admin),
        m.admin is None ==> grant_role_spec(m, role, a).auths == m.auths,
{
}

/// Revoking succeeds exactly when an admin is stored; it then removes the
/// one assignment, demands the admin's authorization, and writes nothing else.
pub proof fn revoking_a_role(m: AdminModel, role: Role, a: Seq<u8>)
    ensures
        revoke_role_spec(m, role, a) is Ok <==> m.admin is Some,
        m.admin is None ==> revoke_role_spec(m, role, a) == Err::<AdminModel, AdminError>(AdminError::NotInitialized),
        revoke_role_spec(m, role, a) matches Ok(m2) ==> {
            &&& m2.roles == m.roles.remove((role, a))
            &&& m2.admin == m.admin && m2.pool == m.pool && m2.threshold == m.threshold
            &&& m2.multi_sig == m.multi_sig && m2.proposals == m.proposals
            &&& m2.auths == m.auths.push(m.admin->0)
        },
{
}

/// The admin guard passes exactly when an admin is stored; it then demands
/// the admin's authorization and writes nothing.
pub proof fn admin_guard(m: AdminModel)
    ensures
        require_admin_spec(m) is Ok <==> m.admin is Some,
        m.admin is None ==> require_admin_spec(m) == Err::<AdminModel, AdminError>(AdminError::NotInitialized),
        require_admin_spec(m) matches Ok(m2) ==> same_entries(m2, m) && m2.auths == m.auths.push(m.admin->0),
{
}

/// The role guard passes exactly when `a` was assigned the role or the Admin
/// role; it then demands `a`'s authorization and writes nothing.
pub proof fn role_guard_outcome(m: AdminModel, role: Role, a: Seq<u8>)
    ensures
        require_role_spec(m, role, a) is Ok <==> (m.roles.contains((Role::Admin, a)) || m.roles.contains((role, a))),
        require_role_spec(m, role, a) is Err ==> require_role_spec(m, role, a) == Err::<AdminModel, AdminError>(AdminError::MissingRole),
        require_role_spec(m, role, a) matches Ok(m2) ==> same_entries(m2, m) && m2.auths == m.auths.push(a),
{
}

// ─── Pool and multi-signature settings ──────────────────────────────────────

/// A pool is stored exactly when its threshold is between 1 and its size;
/// it then stores the pool and threshold, demands nothing, and writes
/// nothing else.
pub proof fn storing_a_pool(m: AdminModel, pool: Seq<Seq<u8>>, threshold: u32)
    ensures
        set_admin_pool_spec(m, pool, threshold) is Ok <==> (1 <= threshold && threshold <= pool.len()),
        set_admin_pool_spec(m, pool, threshold) is Err ==> set_admin_pool_spec(m, pool, threshold)
            == Err::<AdminModel, AdminError>(AdminError::InvalidThreshold),
        set_admin_pool_spec(m, pool, threshold) matches Ok(m2) ==> {
            &&& m2.pool == Some(pool) && m2.threshold == Some(threshold)
            &&& m2.admin == m.admin && m2.roles == m.roles && m2.multi_sig == m.multi_sig
            &&& m2.proposals == m.proposals && m2.auths == m.auths
        },
{
}

/// Setting a requirement stores it for that action alone, writes nothing
/// else, and demands the stored admin's authorization, or none without one.
pub proof fn storing_a_requirement(m: AdminModel, action: CriticalAction, required: bool)
    ensures
        set_multi_sig_required_spec(m, action, required).multi_sig == m.multi_sig.insert(action, required),
        set_multi_sig_required_spec(m, action, required).admin == m.admin,
        set_multi_sig_required_spec(m, action, required).roles == m.roles,
        set_multi_sig_required_spec(m, action, required).pool == m.pool,
        set_multi_sig_required_spec(m, action, required).threshold == m.threshold,
        set_multi_sig_required_spec(m, action, required).proposals == m.proposals,
        m.admin matches Some(admin) ==> set_multi_sig_required_spec(m, action, required).auths == m.auths.push(admin),
        m.admin is None ==> set_multi_sig_required_spec(m, action, required).auths == m.auths,
{
}

/// The multi-signature guards. An action goes through multi-signature when
/// `true` is stored for it and a pool is stored. Then the guard passes
/// exactly when the proposal exists, its approvals reach the threshold, it is
/// for the action, and (with a caller) the caller is in the stored pool; it
/// writes nothing and demands no authorization, the proposal standing for
/// the signatures. Otherwise the guard is the admin guard.
pub proof fn multi_sig_guards(m: AdminModel, action: CriticalAction, id: u64, caller: Seq<u8>)
    ensures
        ({
            let uses = m.multi_sig.dom().contains(action) && m.multi_sig[action] && m.pool is Some;
            let passes = id < m.proposals.len()
                && m.proposals[id as int].approvals.len() >= (match m.threshold {
                    Some(t) => t as int,
                    None => 1,
                })
                && m.proposals[id as int].action_type == action;
            &&& uses ==> (require_multi_sig_spec(m, action, id) is Ok <==> passes)
            &&& uses ==> (require_multi_sig_with_caller_spec(m, action, id, caller) is Ok <==> (passes
                && m.pool->0.contains(caller)))
            &&& uses ==> (require_multi_sig_spec(m, action, id) matches Ok(m2) ==> m2 == m)
            &&& uses ==> (require_multi_sig_with_caller_spec(m, action, id, caller) matches Ok(m2) ==> m2 == m)
            &&& !uses ==> (require_multi_sig_spec(m, action, id) is Ok <==> m.admin is Some)
            &&& !uses ==> (require_multi_sig_with_caller_spec(m, action, id, caller) is Ok <==> m.admin is Some)
            &&& !uses ==> (require_multi_sig_spec(m, action, id) matches Ok(m2) ==> same_entries(m2, m)
                && m2.auths == m.auths.push(m.admin->0))
            &&& !uses ==> (require_multi_sig_with_caller_spec(m, action, id, caller) matches Ok(m2)
                ==> same_entries(m2, m) && m2.auths == m.auths.push(m.admin->0))
        }),
{
}

// ─── Proposals ──────────────────────────────────────────────────────────────

/// Proposing succeeds exactly when the creator is in the admin pool (the
/// stored pool, else the stored admin alone) and ids remain. It returns the
/// number of proposals so far as the id, appends a proposal approved by its
/// creator alone and not executed, writes nothing else, and demands the
/// creator's authorization.
pub proof fn proposing(m: AdminModel, creator: Seq<u8>, action: CriticalAction, description: Seq<u8>)
    ensures
        create_proposal_spec(m, creator, action, description) is Ok <==> ((match m.pool {
            Some(p) => p.contains(creator),
            None => m.admin == Some(creator),
        }) && m.proposals.len() < u64::MAX),
        !(match m.pool {
            Some(p) => p.contains(creator),
            None => m.admin == Some(creator),
        }) ==> create_proposal_spec(m, creator, action, description) == Err::<(AdminModel, u64), AdminError>(
            AdminError::ProposerNotAdmin,
        ),
        create_proposal_spec(m, creator, action, description) matches Ok((m2, id)) ==> {
            &&& id == m.proposals.len()
            &&& m2.proposals.len() == m.proposals.len() + 1
            &&& forall|j: int| 0 <= j < m.proposals.len() ==> m2.proposals[j] == m.proposals[j]
            &&& m2.proposals[id as int].creator == creator
            &&& m2.proposals[id as int].action_type == action
            &&& m2.proposals[id as int].description == description
            &&& m2.proposals[id as int].approvals == seq![creator]
            &&& !m2.proposals[id as int].executed
            &&& m2.admin == m.admin && m2.roles == m.roles && m2.pool == m.pool
            &&& m2.threshold == m.threshold && m2.multi_sig == m.multi_sig
            &&& m2.auths == m.auths.push(creator)
        },
{
    let in_pool = match m.pool {
        Some(p) => p.contains(creator),
        None => m.admin == Some(creator),
    };
    if m.pool is None && m.admin is Some {
        assert(seq![m.admin->0][0] == m.admin->0);
    }
    assert(get_admin_pool_spec(m).contains(creator) == in_pool);
}

/// Approving succeeds exactly when the approver is in the admin pool (the
/// stored pool, else the stored admin alone), the proposal exists, is not
/// executed, and the approver has not approved it yet; the number of
/// approvals and the threshold play no part. It appends the approver to that
/// proposal's approvals, changes nothing else in any proposal or entry, and
/// demands the approver's authorization.
pub proof fn approving(m: AdminModel, admin: Seq<u8>, id: u64)
    ensures
        approve_proposal_spec(m, admin, id) is Ok <==> ((match m.pool {
            Some(p) => p.contains(admin),
            None => m.admin == Some(admin),
        }) && id < m.proposals.len() && !m.proposals[id as int].executed
            && !m.proposals[id as int].approvals.contains(admin)),
        !(match m.pool {
            Some(p) => p.contains(admin),
            None => m.admin == Some(admin),
        }) ==> approve_proposal_spec(m, admin, id) == Err::<AdminModel, AdminError>(AdminError::ApproverNotAdmin),
        approve_proposal_spec(m, admin, id) matches Ok(m2) ==> {
            &&& m2.proposals.len() == m.proposals.len()
            &&& forall|j: int| 0 <= j < m.proposals.len() && j != id ==> m2.proposals[j] == m.proposals[j]
            &&& m2.proposals[id as int].approvals == m.proposals[id as int].approvals.push(admin)
            &&& m2.proposals[id as int].creator == m.proposals[id as int].creator
            &&& m2.proposals[id as int].action_type == m.proposals[id as int].action_type
            &&& m2.proposals[id as int].description == m.proposals[id as int].description
            &&& m2.proposals[id as int].executed == m.proposals[id as int].executed
            &&& m2.admin == m.admin && m2.roles == m.roles && m2.pool == m.pool
            &&& m2.threshold == m.threshold && m2.multi_sig == m.multi_sig
            &&& m2.auths == m.auths.push(admin)
        },
{
    let in_pool = match m.pool {
        Some(p) => p.contains(admin),
        None => m.admin == Some(admin),
    };
    if m.pool is None && m.admin is Some {
        assert(seq![m.admin->0][0] == m.admin->0);
    }
    assert(get_admin_pool_spec(m).contains(admin) == in_pool);
}

/// Executing, and marking as executed, succeed exactly when the proposal
/// exists, is not executed, and its approvals reach the threshold. They set
/// that proposal's executed flag and change nothing else, in that proposal
/// or elsewhere, and demand no authorization; executing returns the
/// proposal's action.
pub proof fn executing(m: AdminModel, id: u64)
    ensures
        ({
            let can = id < m.proposals.len() && !m.proposals[id as int].executed
                && m.proposals[id as int].approvals.len() >= (match m.threshold {
                    Some(t) => t as int,
                    None => 1,
                });
            &&& execute_proposal_spec(m, id) is Ok <==> can
            &&& mark_executed_spec(m, id) is Ok <==> can
        }),
        execute_proposal_spec(m, id) matches Ok((m2, action)) ==> {
            &&& action == m.proposals[id as int].action_type
            &&& m2.proposals.len() == m.proposals.len()
            &&& forall|j: int| 0 <= j < m.proposals.len() && j != id ==> m2.proposals[j] == m.proposals[j]
            &&& m2.proposals[id as int].executed
            &&& m2.proposals[id as int].creator == m.proposals[id as int].creator
            &&& m2.proposals[id as int].action_type == m.proposals[id as int].action_type
            &&& m2.proposals[id as int].description == m.proposals[id as int].description
            &&& m2.proposals[id as int].approvals == m.proposals[id as int].approvals
            &&& m2.admin == m.admin && m2.roles == m.roles && m2.pool == m.pool
            &&& m2.threshold == m.threshold && m2.multi_sig == m.multi_sig && m2.auths == m.auths
        },
        mark_executed_spec(m, id) matches Ok(m2) ==> {
            &&& m2.proposals.len() == m.proposals.len()
            &&& forall|j: int| 0 <= j < m.proposals.len() && j != id ==> m2.proposals[j] == m.proposals[j]
            &&& m2.proposals[id as int].executed
            &&& m2.proposals[id as int].creator == m.proposals[id as int].creator
            &&& m2.proposals[id as int].action_type == m.proposals[id as int].action_type
            &&& m2.proposals[id as int].description == m.proposals[id as int].description
            &&& m2.proposals[id as int].approvals == m.proposals[id as int].approvals
            &&& m2.admin == m.admin && m2.roles == m.roles && m2.pool == m.pool
            &&& m2.threshold == m.threshold && m2.multi_sig == m.multi_sig && m2.auths == m.auths
        },
{
}

// ─── Which refusal comes first ──────────────────────────────────────────────

/// Approving reports, in this order: an approver outside the pool, an
/// unknown proposal, an executed proposal, a repeated approval.
pub proof fn approval_refusals(m: AdminModel, admin: Seq<u8>, id: u64)
    ensures
        ({
            let in_pool = match m.pool {
                Some(p) => p.contains(admin),
                None => m.admin == Some(admin),
            };
            &&& in_pool && id >= m.proposals.len() ==> approve_proposal_spec(m, admin, id)
                == Err::<AdminModel, AdminError>(AdminError::ProposalNotFound)
            &&& in_pool && id < m.proposals.len() && m.proposals[id as int].executed ==> approve_proposal_spec(m, admin, id)
                == Err::<AdminModel, AdminError>(AdminError::AlreadyExecuted)
            &&& in_pool && id < m.proposals.len() && !m.proposals[id as int].executed
                && m.proposals[id as int].approvals.contains(admin) ==> approve_proposal_spec(m, admin, id)
                == Err::<AdminModel, AdminError>(AdminError::AlreadyApproved)
        }),
{
    if m.pool is None && m.admin is Some {
        assert(seq![m.admin->0][0] == m.admin->0);
    }
}

/// Proposing with every id used is refused as an id overflow.
pub proof fn proposal_refusals(m: AdminModel, creator: Seq<u8>, action: CriticalAction, description: Seq<u8>)
    ensures
        (match m.pool {
            Some(p) => p.contains(creator),
            None => m.admin == Some(creator),
        }) && m.proposals.len() >= u64::MAX ==> create_proposal_spec(m, creator, action, description)
            == Err::<(AdminModel, u64), AdminError>(AdminError::ProposalIdOverflow),
{
    if m.pool is None && m.admin is Some {
        assert(seq![m.admin->0][0] == m.admin->0);
    }
}

/// Executing and marking report, in this order: an unknown proposal, an
/// executed proposal, approvals below the threshold; each with its own error.
pub proof fn execution_refusals(m: AdminModel, id: u64)
    ensures
        id >= m.proposals.len() ==> execute_proposal_spec(m, id)
            == Err::<(AdminModel, CriticalAction), AdminError>(AdminError::ProposalNotFound)
            && mark_executed_spec(m, id) == Err::<AdminModel, AdminError>(AdminError::ProposalNotFound),
        id < m.proposals.len() && m.proposals[id as int].executed ==> execute_proposal_spec(m, id)
            == Err::<(AdminModel, CriticalAction), AdminError>(AdminError::AlreadyExecuted)
            && mark_executed_spec(m, id) == Err::<AdminModel, AdminError>(AdminError::MarkAlreadyExecuted),
        id < m.proposals.len() && !m.proposals[id as int].executed && m.proposals[id as int].approvals.len() < (
        match m.threshold {
            Some(t) => t as int,
            None => 1,
        }) ==> execute_proposal_spec(m, id) == Err::<(AdminModel, CriticalAction), AdminError>(
            AdminError::ExecutionThresholdNotMet,
        ) && mark_executed_spec(m, id) == Err::<AdminModel, AdminError>(AdminError::MarkThresholdNotMet),
{
}

/// When an action goes through multi-signature, its guards report, in this
/// order: an unknown proposal, approvals below the threshold, a proposal for
/// another action, and (with a caller) a caller outside the pool. Otherwise
/// they report a missing admin.
pub proof fn multi_sig_guard_refusals(m: AdminModel, action: CriticalAction, id: u64, caller: Seq<u8>)
    ensures
        ({
            let uses = m.multi_sig.dom().contains(action) && m.multi_sig[action] && m.pool is Some;
            let threshold = match m.threshold {
                Some(t) => t as int,
                None => 1,
            };
            let e1 = if id >= m.proposals.len() {
                Some(AdminError::ProposalNotFound)
            } else if m.proposals[id as int].approvals.len() < threshold {
                Some(AdminError::ThresholdNotMet)
            } else if m.proposals[id as int].action_type != action {
                Some(AdminError::ActionMismatch)
            } else {
                None::<AdminError>
            };
            &&& uses && e1 is Some ==> require_multi_sig_spec(m, action, id) == Err::<AdminModel, AdminError>(e1->0)
            &&& uses && e1 is Some ==> require_multi_sig_with_caller_spec(m, action, id, caller)
                == Err::<AdminModel, AdminError>(e1->0)
            &&& uses && e1 is None && !m.pool->0.contains(caller) ==> require_multi_sig_with_caller_spec(m, action, id, caller)
                == Err::<AdminModel, AdminError>(AdminError::CallerNotInPool)
            &&& !uses && m.admin is None ==> require_multi_sig_spec(m, action, id)
                == Err::<AdminModel, AdminError>(AdminError::NotInitialized)
                && require_multi_sig_with_caller_spec(m, action, id, caller)
                == Err::<AdminModel, AdminError>(AdminError::NotInitialized)
        }),
{
}

// ─── Storage keys, messages, and representations ────────────────────────────

/// Which keys hold a value: the admin when stored; an assignment when made;
/// an action's requirement when set; pool and threshold when stored; a
/// proposal id below the number created; the id counter once a proposal exists.
pub proof fn stored_keys(m: AdminModel, role: Role, a: Address, action: CriticalAction, id: u64)
    ensures
        m.holds(AdminKey::Admin) <==> m.admin is Some,
        m.holds(AdminKey::Role(role, a)) <==> m.roles.contains((role, a@)),
        m.holds(AdminKey::MultiSigRequired(action)) <==> m.multi_sig.dom().contains(action),
        m.holds(AdminKey::AdminPool) <==> m.pool is Some,
        m.holds(AdminKey::Threshold) <==> m.threshold is Some,
        m.holds(AdminKey::Proposal(id)) <==> id < m.proposals.len(),
        m.holds(AdminKey::ProposalIdCounter) <==> m.proposals.len() != 0,
{
}

/// Nothing is stored in the empty state, and no authorization is required.
pub proof fn nothing_stored_initially(role: Role, a: Seq<u8>, action: CriticalAction)
    ensures
        AdminModel::empty().admin is None,
        !AdminModel::empty().roles.contains((role, a)),
        AdminModel::empty().pool is None,
        AdminModel::empty().threshold is None,
        !AdminModel::empty().multi_sig.dom().contains(action),
        AdminModel::empty().proposals.len() == 0,
        AdminModel::empty().auths.len() == 0,
{
}

/// The message of each refusal.
pub proof fn refusal_messages()
    ensures
        error_message(AdminError::NotInitialized) == "contract not initialized: admin not set"@,
        error_message(AdminError::InvalidThreshold) == "invalid threshold for admin pool"@,
        error_message(AdminError::MissingRole) == "unauthorized: missing role"@,
        error_message(AdminError::ThresholdNotMet) == "multi-signature threshold not met for critical action"@,
        error_message(AdminError::ExecutionThresholdNotMet) == "threshold not met for execution"@,
        error_message(AdminError::MarkThresholdNotMet) == "threshold not met"@,
        error_message(AdminError::ProposalNotFound) == "proposal not found"@,
        error_message(AdminError::ActionMismatch) == "proposal action type does not match required action"@,
        error_message(AdminError::CallerNotInPool) == "caller is not in admin pool"@,
        error_message(AdminError::ProposerNotAdmin) == "only admins can create proposals"@,
        error_message(AdminError::ApproverNotAdmin) == "only admins can approve proposals"@,
        error_message(AdminError::AlreadyExecuted) == "proposal already executed"@,
        error_message(AdminError::MarkAlreadyExecuted) == "already executed"@,
        error_message(AdminError::AlreadyApproved) == "admin already approved this proposal"@,
        error_message(AdminError::ProposalIdOverflow) == "proposal id counter overflow"@,
{
}

/// The abstract values of lists keep their length and take each item's
/// abstract value; a proposal's abstract value takes each field's.
pub proof fn abstract_values(v: Seq<Address>, r: Seq<(Role, Address)>, ps: Seq<Proposal>, p: Proposal, i: int)
    ensures
        addresses(v).len() == v.len(),
        0 <= i < v.len() ==> addresses(v)[i] == v[i]@,
        role_entries(r).len() == r.len(),
        0 <= i < r.len() ==> role_entries(r)[i] == (r[i].0, r[i].1@),
        proposal_views(ps).len() == ps.len(),
        0 <= i < ps.len() ==> proposal_views(ps)[i] == ps[i]@,
        p@.creator == p.creator@,
        p@.action_type == p.action_type,
        p@.description == p.description@,
        p@.approvals == addresses(p.approvals@),
        p@.executed == p.executed,
{
}

/// Requirement settings apply in order, a later one overriding an earlier
/// one for the same action.
pub proof fn requirement_settings(settings: Seq<(CriticalAction, bool)>, action: CriticalAction, required: bool)
    ensures
        multi_sig_of(Seq::empty()) == Map::<CriticalAction, bool>::empty(),
        multi_sig_of(settings.push((action, required))) == multi_sig_of(settings).insert(action, required),
{
    assert(settings.push((action, required)).drop_last() == settings);
}

/// The state persisted entries describe holds exactly those entries, with no
/// authorization required.
pub proof fn persisted_entries(s: AdminSnapshot)
    ensures
        s.model().admin == (match s.admin {
            Some(a) => Some(a@),
            None => None,
        }),
        s.model().roles == role_entries(s.roles@).to_set(),
        s.model().pool == (match s.pool {
            Some(p) => Some(addresses(p@)),
            None => None,
        }),
        s.model().threshold == s.threshold,
        s.model().multi_sig == multi_sig_of(s.multi_sig@),
        s.model().proposals == proposal_views(s.proposals@),
        s.model().auths.len() == 0,
{
}

} // verus!
