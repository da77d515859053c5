//! Properties of the admin module that span operations, proved over the
//! abstract model that every operation's contract refers to.
use vstd::prelude::*;

use crate::model::{
    approve_proposal_spec, create_proposal_spec, execute_proposal_spec, get_admin_pool_spec,
    get_admin_spec, get_proposal_spec, get_threshold_spec, grant_role_spec, has_admin_spec,
    has_role_spec, is_multi_sig_enabled_spec, is_multi_sig_required_spec, is_proposal_ready_spec,
    mark_executed_spec, new_proposal, require_admin_spec, require_multi_sig_spec,
    require_multi_sig_with_caller_spec, require_role_spec, revoke_role_spec, uses_multi_sig_spec, set_admin_pool_spec,
    set_admin_spec, set_multi_sig_required_spec, AdminModel, Operation, step, run, stores_pool,
    revokes, sets_multi_sig,
};
use crate::env::{AdminEnv, AdminSnapshot};
use crate::types::{AdminError, CriticalAction, Role};

verus! {

/// After `set_admin(a)`, the admin is `a`, `a` holds every role, and `a`
/// alone forms the admin pool unless a pool is set; the new admin's own
/// authorization is the one required. Setting the admin does not enable
/// multi-signature.
pub proof fn set_admin_installs_admin(m: AdminModel, a: Seq<u8>)
    ensures
        get_admin_spec(set_admin_spec(m, a)) == Ok::<Seq<u8>, AdminError>(a),
        has_admin_spec(set_admin_spec(m, a)),
        forall|role: Role| has_role_spec(set_admin_spec(m, a), role, a),
        m.pool is None ==> get_admin_pool_spec(set_admin_spec(m, a)) == seq![a],
        set_admin_spec(m, a).auths == m.auths.push(a),
        is_multi_sig_enabled_spec(set_admin_spec(m, a)) == is_multi_sig_enabled_spec(m),
{
}

/// Admins implicitly hold every role.
pub proof fn admins_hold_every_role(m: AdminModel, a: Seq<u8>, role: Role)
    requires
        m.roles.contains((Role::Admin, a)),
    ensures
        has_role_spec(m, role, a),
{
}

/// A granted role is held, and once an admin is set, granting requires the
/// admin's authorization.
pub proof fn granted_role_is_held(m: AdminModel, role: Role, a: Seq<u8>)
    ensures
        has_role_spec(grant_role_spec(m, role, a), role, a),
        m.admin matches Some(admin) ==> grant_role_spec(m, role, a).auths == m.auths.push(admin),
        m.admin is None ==> grant_role_spec(m, role, a).auths == m.auths,
{
}

/// Revoking needs an admin. After revoking `role` from `a`, `a` holds `role`
/// only when `role` is not Admin and `a` still holds the Admin role: admins
/// implicitly hold every other role.
pub proof fn revoked_role_is_lost(m: AdminModel, role: Role, a: Seq<u8>)
    ensures
        revoke_role_spec(m, role, a) is Err <==> m.admin is None,
        revoke_role_spec(m, role, a) matches Ok(m2) ==> has_role_spec(m2, role, a) == (role != Role::Admin
            && m.roles.contains((Role::Admin, a))),
{
}

/// A pool is accepted exactly when its threshold is between 1 and its size;
/// once accepted it is the admin pool, its threshold is the threshold, and
/// multi-signature is enabled.
pub proof fn admin_pool_round_trip(m: AdminModel, pool: Seq<Seq<u8>>, threshold: u32)
    ensures
        set_admin_pool_spec(m, pool, threshold) is Ok <==> 1 <= threshold <= pool.len(),
        set_admin_pool_spec(m, pool, threshold) matches Ok(m2) ==> {
            &&& get_admin_pool_spec(m2) == pool
            &&& get_threshold_spec(m2) == threshold
            &&& is_multi_sig_enabled_spec(m2)
        },
{
}

/// Without a pool, the threshold is 1 and multi-signature is not enabled.
pub proof fn defaults_without_pool(m: AdminModel)
    requires
        m.valid(),
        m.pool is None,
    ensures
        get_threshold_spec(m) == 1,
        !is_multi_sig_enabled_spec(m),
{
}

/// A stored multi-signature requirement is read back, other actions keep
/// theirs, and the pool is untouched. Once an admin is set, the admin's
/// authorization is required.
pub proof fn multi_sig_requirement_round_trip(m: AdminModel, action: CriticalAction, required: bool, other: CriticalAction)
    ensures
        is_multi_sig_required_spec(set_multi_sig_required_spec(m, action, required), action) == required,
        other != action ==> is_multi_sig_required_spec(set_multi_sig_required_spec(m, action, required), other)
            == is_multi_sig_required_spec(m, other),
        is_multi_sig_enabled_spec(set_multi_sig_required_spec(m, action, required)) == is_multi_sig_enabled_spec(m),
        m.admin matches Some(admin) ==> set_multi_sig_required_spec(m, action, required).auths == m.auths.push(admin),
{
}

/// When `action` is not marked as requiring multi-signature approval, or no
/// admin pool is configured, its guard is the admin's authorization. When
/// both hold, the guard passes exactly when the proposal exists, has met the
/// threshold and is for `action`, and then no authorization is required.
pub proof fn multi_sig_guard(m: AdminModel, action: CriticalAction, id: u64)
    ensures
        !uses_multi_sig_spec(m, action) ==> require_multi_sig_spec(m, action, id) == require_admin_spec(m),
        m.pool is None ==> require_multi_sig_spec(m, action, id) == require_admin_spec(m),
        uses_multi_sig_spec(m, action) ==> (require_multi_sig_spec(m, action, id) is Ok <==> {
            &&& is_proposal_ready_spec(m, id) == Ok::<bool, AdminError>(true)
            &&& m.proposals[id as int].action_type == action
        }),
        uses_multi_sig_spec(m, action) ==> (require_multi_sig_spec(m, action, id) matches Ok(m2) ==> m2 == m),
{
}

/// The guard with a caller passes exactly when the guard without one passes
/// and, if multi-signature approval is required, the caller is in the pool.
pub proof fn multi_sig_guard_with_caller(m: AdminModel, action: CriticalAction, id: u64, caller: Seq<u8>)
    ensures
        require_multi_sig_with_caller_spec(m, action, id, caller) is Ok <==> (require_multi_sig_spec(m, action, id) is Ok
            && (uses_multi_sig_spec(m, action) ==> get_admin_pool_spec(m).contains(caller))),
{
}

/// A role guard passes exactly when the address holds the role, and then
/// requires that address's authorization.
pub proof fn role_guard(m: AdminModel, role: Role, a: Seq<u8>)
    ensures
        require_role_spec(m, role, a) is Ok <==> has_role_spec(m, role, a),
        require_role_spec(m, role, a) matches Ok(m2) ==> m2.auths == m.auths.push(a),
{
}

/// Only pool members create proposals. A new proposal gets the next id, is
/// approved by its creator alone, is not executed, and is ready exactly when
/// the threshold is 1; the creator's authorization is required.
pub proof fn created_proposal(m: AdminModel, creator: Seq<u8>, action: CriticalAction, description: Seq<u8>)
    requires
        m.valid(),
    ensures
        create_proposal_spec(m, creator, action, description) is Ok <==> (get_admin_pool_spec(m).contains(creator)
            && m.proposals.len() < u64::MAX),
        create_proposal_spec(m, creator, action, description) matches Ok((m2, id)) ==> {
            &&& id == m.proposals.len()
            &&& get_proposal_spec(m2, id) == Ok::<_, AdminError>(new_proposal(creator, action, description))
            &&& is_proposal_ready_spec(m2, id) == Ok::<bool, AdminError>(get_threshold_spec(m) <= 1)
            &&& forall|j: u64| j < id ==> get_proposal_spec(m2, j) == get_proposal_spec(m, j)
            &&& m2.auths == m.auths.push(creator)
        },
{
}

/// Proposing and approving demand the proposer's or approver's
/// authorization before any check: whether or not the operation is refused,
/// that authorization is demanded, and a refusal leaves the storage as it was.
pub proof fn signer_demanded_first(m: AdminModel, a: Seq<u8>, action: CriticalAction, description: Seq<u8>, id: u64)
    ensures
        step(m, Operation::CreateProposal(a, action, description)).auths == m.auths.push(a),
        create_proposal_spec(m, a, action, description) is Err
            ==> step(m, Operation::CreateProposal(a, action, description)) == m.authorize(a),
        step(m, Operation::ApproveProposal(a, id)).auths == m.auths.push(a),
        approve_proposal_spec(m, a, id) is Err ==> step(m, Operation::ApproveProposal(a, id)) == m.authorize(a),
{
}

/// Proposal ids are unique: two proposals created one after the other get
/// consecutive ids.
pub proof fn proposal_ids_are_consecutive(
    m: AdminModel,
    c1: Seq<u8>,
    a1: CriticalAction,
    d1: Seq<u8>,
    c2: Seq<u8>,
    a2: CriticalAction,
    d2: Seq<u8>,
)
    requires
        m.valid(),
    ensures
        create_proposal_spec(m, c1, a1, d1) matches Ok((m1, id1)) ==> (create_proposal_spec(m1, c2, a2, d2) matches Ok((
            m2,
            id2,
        )) ==> id2 == id1 + 1 && get_proposal_spec(m2, id1) == get_proposal_spec(m1, id1)),
{
}

/// An approval adds one distinct approval; the proposal is then ready
/// exactly when its approvals reach the threshold, and the same admin cannot
/// approve it again.
pub proof fn approval_counts_once(m: AdminModel, admin: Seq<u8>, id: u64)
    requires
        m.valid(),
    ensures
        approve_proposal_spec(m, admin, id) matches Ok(m2) ==> {
            &&& m2.proposals[id as int].approvals.len() == m.proposals[id as int].approvals.len() + 1
            &&& is_proposal_ready_spec(m2, id) == Ok::<bool, AdminError>(
                m.proposals[id as int].approvals.len() + 1 >= get_threshold_spec(m),
            )
            &&& approve_proposal_spec(m2, admin, id) == Err::<AdminModel, AdminError>(AdminError::AlreadyApproved)
            &&& m2.auths == m.auths.push(admin)
        },
{
    if let Ok(m2) = approve_proposal_spec(m, admin, id) {
        let approvals = m.proposals[id as int].approvals;
        assert(approvals.push(admin)[approvals.len() as int] == admin);
        assert(m2.proposals[id as int].approvals.contains(admin));
    }
}

/// Executing gives the proposal's action and marks it executed; an executed
/// proposal stays ready, and can be neither executed, marked, nor approved
/// again.
pub proof fn executed_proposal_is_final(m: AdminModel, id: u64, admin: Seq<u8>)
    requires
        m.valid(),
    ensures
        execute_proposal_spec(m, id) is Ok <==> is_proposal_ready_spec(m, id) == Ok::<bool, AdminError>(true)
            && !m.proposals[id as int].executed,
        execute_proposal_spec(m, id) matches Ok((m2, action)) ==> {
            &&& action == m.proposals[id as int].action_type
            &&& m2.proposals[id as int].executed
            &&& is_proposal_ready_spec(m2, id) == Ok::<bool, AdminError>(true)
            &&& execute_proposal_spec(m2, id) == Err::<(AdminModel, CriticalAction), AdminError>(AdminError::AlreadyExecuted)
            &&& mark_executed_spec(m2, id) == Err::<AdminModel, AdminError>(AdminError::MarkAlreadyExecuted)
            &&& approve_proposal_spec(m2, admin, id) is Err
            &&& m2.auths == m.auths
        },
{
}

/// Marking a proposal as executed fails exactly where executing it does,
/// each with its own message, and otherwise changes the storage exactly as
/// executing does.
pub proof fn marking_matches_execution(m: AdminModel, id: u64)
    ensures
        mark_executed_spec(m, id) is Err <==> execute_proposal_spec(m, id) is Err,
        execute_proposal_spec(m, id) == Err::<(AdminModel, CriticalAction), AdminError>(AdminError::ProposalNotFound)
            <==> mark_executed_spec(m, id) == Err::<AdminModel, AdminError>(AdminError::ProposalNotFound),
        execute_proposal_spec(m, id) == Err::<(AdminModel, CriticalAction), AdminError>(AdminError::AlreadyExecuted)
            <==> mark_executed_spec(m, id) == Err::<AdminModel, AdminError>(AdminError::MarkAlreadyExecuted),
        execute_proposal_spec(m, id) == Err::<(AdminModel, CriticalAction), AdminError>(AdminError::ExecutionThresholdNotMet)
            <==> mark_executed_spec(m, id) == Err::<AdminModel, AdminError>(AdminError::MarkThresholdNotMet),
        mark_executed_spec(m, id) matches Ok(m2) ==> execute_proposal_spec(m, id) == Ok::<_, AdminError>((m2, m.proposals[id as int].action_type)),
{
}

/// Every operation keeps the model valid: thresholds stay within the pool,
/// and every proposal's approvals start with its creator and hold nobody twice.
pub proof fn operations_preserve_validity(
    m: AdminModel,
    a: Seq<u8>,
    role: Role,
    pool: Seq<Seq<u8>>,
    threshold: u32,
    action: CriticalAction,
    required: bool,
    id: u64,
    description: Seq<u8>,
)
    requires
        m.valid(),
    ensures
        set_admin_spec(m, a).valid(),
        grant_role_spec(m, role, a).valid(),
        revoke_role_spec(m, role, a) matches Ok(m2) ==> m2.valid(),
        set_admin_pool_spec(m, pool, threshold) matches Ok(m2) ==> m2.valid(),
        set_multi_sig_required_spec(m, action, required).valid(),
        require_admin_spec(m) matches Ok(m2) ==> m2.valid(),
        require_role_spec(m, role, a) matches Ok(m2) ==> m2.valid(),
        require_multi_sig_spec(m, action, id) matches Ok(m2) ==> m2.valid(),
        require_multi_sig_with_caller_spec(m, action, id, a) matches Ok(m2) ==> m2.valid(),
        create_proposal_spec(m, a, action, description) matches Ok((m2, _)) ==> m2.valid(),
        approve_proposal_spec(m, a, id) matches Ok(m2) ==> m2.valid(),
        mark_executed_spec(m, id) matches Ok(m2) ==> m2.valid(),
        execute_proposal_spec(m, id) matches Ok((m2, _)) ==> m2.valid(),
{
    if let Ok(m2) = approve_proposal_spec(m, a, id) {
        let p = m.proposals[id as int];
        assert(p.valid());
        let q = m2.proposals[id as int];
        assert(q.approvals == p.approvals.push(a));
        assert(q.approvals[0] == p.approvals[0]);
        assert forall|i: int, j: int| 0 <= i < j < q.approvals.len() implies q.approvals[i] != q.approvals[j] by {
            if j == p.approvals.len() {
                assert(p.approvals[i] == q.approvals[i]);
            }
        }
        assert(q.valid());
        assert forall|i: int| 0 <= i < m2.proposals.len() implies #[trigger] m2.proposals[i].valid() by {
            if i != id {
                assert(m2.proposals[i] == m.proposals[i]);
            }
        }
    }
    if let Ok(m2) = mark_executed_spec(m, id) {
        assert(m.proposals[id as int].valid());
        assert forall|i: int| 0 <= i < m2.proposals.len() implies #[trigger] m2.proposals[i].valid() by {
            if i != id {
                assert(m2.proposals[i] == m.proposals[i]);
            }
        }
    }
}

/// Nothing stored is a valid state, and the entries persisted from valid
/// storage restore to the same storage: `AdminEnv::restore` accepts
/// every snapshot that `AdminEnv::snapshot` takes.
pub proof fn persisted_storage_restores(env: AdminEnv, snapshot: AdminSnapshot)
    requires
        env.wf(),
        snapshot.model() == (AdminModel { auths: Seq::empty(), ..env@ }),
    ensures
        AdminModel::empty().valid(),
        snapshot.model().valid(),
{
}

// ─── Over sequences of operations ────────────────────────────────────────────

/// Each operation leaves alone every entry that it does not write: only
/// `set_admin` writes the admin; only `set_admin`, `grant_role` and
/// `revoke_role` write role assignments, and only revoking removes one; only
/// a stored pool writes the pool and threshold; only `set_multi_sig_required`
/// writes an action's requirement; no operation removes a proposal or clears
/// its executed flag.
pub proof fn step_frame(m: AdminModel, op: Operation)
    ensures
        !(op is SetAdmin) ==> step(m, op).admin == m.admin,
        !(op is SetAdmin || op is GrantRole || op is RevokeRole) ==> step(m, op).roles == m.roles,
        forall|e: (Role, Seq<u8>)| m.roles.contains(e) && !revokes(op, e.0, e.1) ==> #[trigger] step(m, op).roles.contains(e),
        !stores_pool(op) ==> step(m, op).pool == m.pool && step(m, op).threshold == m.threshold,
        forall|action: CriticalAction| !sets_multi_sig(op, action) ==> #[trigger] is_multi_sig_required_spec(step(m, op), action)
            == is_multi_sig_required_spec(m, action),
        step(m, op).proposals.len() >= m.proposals.len(),
        forall|id: int| 0 <= id < m.proposals.len() && m.proposals[id].executed ==> #[trigger] step(m, op).proposals[id].executed,
{
    match op {
        Operation::SetMultiSigRequired(b, v) => {
            assert forall|action: CriticalAction| !sets_multi_sig(op, action) implies #[trigger] is_multi_sig_required_spec(step(m, op), action)
                == is_multi_sig_required_spec(m, action) by {
                assert(action != b);
            }
        },
        Operation::ApproveProposal(admin, pid) => {
            if let Ok(m2) = approve_proposal_spec(m, admin, pid) {
                assert forall|id: int| 0 <= id < m.proposals.len() && m.proposals[id].executed implies #[trigger] m2.proposals[id].executed by {
                    if id == pid {
                        assert(!m.proposals[pid as int].executed);
                    }
                }
            }
        },
        _ => {},
    }
}

/// An executed proposal stays executed whatever operations follow; it can
/// then be neither executed, marked as executed, nor approved.
pub proof fn executed_stays_executed(m: AdminModel, ops: Seq<Operation>, id: u64, admin: Seq<u8>)
    requires
        id < m.proposals.len(),
        m.proposals[id as int].executed,
    ensures
        id < run(m, ops).proposals.len(),
        run(m, ops).proposals[id as int].executed,
        execute_proposal_spec(run(m, ops), id) == Err::<(AdminModel, CriticalAction), AdminError>(AdminError::AlreadyExecuted),
        mark_executed_spec(run(m, ops), id) == Err::<AdminModel, AdminError>(AdminError::MarkAlreadyExecuted),
        approve_proposal_spec(run(m, ops), admin, id) is Err,
    decreases ops.len(),
{
    if ops.len() > 0 {
        executed_stays_executed(m, ops.drop_last(), id, admin);
        step_frame(run(m, ops.drop_last()), ops.last());
    }
}

/// After a pool is stored, it stays the admin pool with its threshold, and
/// multi-signature stays enabled, until another pool is stored.
pub proof fn pool_persists(m: AdminModel, pool: Seq<Seq<u8>>, threshold: u32, ops: Seq<Operation>)
    requires
        set_admin_pool_spec(m, pool, threshold) is Ok,
        forall|i: int| 0 <= i < ops.len() ==> !stores_pool(#[trigger] ops[i]),
    ensures
        get_admin_pool_spec(run(set_admin_pool_spec(m, pool, threshold)->Ok_0, ops)) == pool,
        get_threshold_spec(run(set_admin_pool_spec(m, pool, threshold)->Ok_0, ops)) == threshold,
        is_multi_sig_enabled_spec(run(set_admin_pool_spec(m, pool, threshold)->Ok_0, ops)),
{
    let m1 = set_admin_pool_spec(m, pool, threshold)->Ok_0;
    pool_unchanged(m1, ops);
}

/// Without a stored pool among the operations, the pool and threshold do not change.
pub proof fn pool_unchanged(m: AdminModel, ops: Seq<Operation>)
    requires
        forall|i: int| 0 <= i < ops.len() ==> !stores_pool(#[trigger] ops[i]),
    ensures
        run(m, ops).pool == m.pool,
        run(m, ops).threshold == m.threshold,
    decreases ops.len(),
{
    if ops.len() > 0 {
        assert forall|i: int| 0 <= i < ops.drop_last().len() implies !stores_pool(#[trigger] ops.drop_last()[i]) by {
            assert(ops.drop_last()[i] == ops[i]);
        }
        pool_unchanged(m, ops.drop_last());
        assert(!stores_pool(ops[ops.len() - 1]));
        step_frame(run(m, ops.drop_last()), ops.last());
    }
}

/// An assignment stays stored until it is revoked.
pub proof fn assignment_persists(m: AdminModel, role: Role, a: Seq<u8>, ops: Seq<Operation>)
    requires
        m.roles.contains((role, a)),
        forall|i: int| 0 <= i < ops.len() ==> !revokes(#[trigger] ops[i], role, a),
    ensures
        run(m, ops).roles.contains((role, a)),
    decreases ops.len(),
{
    if ops.len() > 0 {
        assert forall|i: int| 0 <= i < ops.drop_last().len() implies !revokes(#[trigger] ops.drop_last()[i], role, a) by {
            assert(ops.drop_last()[i] == ops[i]);
        }
        assignment_persists(m, role, a, ops.drop_last());
        assert(!revokes(ops[ops.len() - 1], role, a));
        step_frame(run(m, ops.drop_last()), ops.last());
    }
}

/// A granted role stays held until it is revoked from that address.
pub proof fn granted_role_persists(m: AdminModel, role: Role, a: Seq<u8>, ops: Seq<Operation>)
    requires
        forall|i: int| 0 <= i < ops.len() ==> !revokes(#[trigger] ops[i], role, a),
    ensures
        has_role_spec(run(grant_role_spec(m, role, a), ops), role, a),
{
    assignment_persists(grant_role_spec(m, role, a), role, a, ops);
}

/// An action's multi-signature requirement does not change while no
/// operation sets it.
pub proof fn multi_sig_unchanged(m: AdminModel, action: CriticalAction, ops: Seq<Operation>)
    requires
        forall|i: int| 0 <= i < ops.len() ==> !sets_multi_sig(#[trigger] ops[i], action),
    ensures
        is_multi_sig_required_spec(run(m, ops), action) == is_multi_sig_required_spec(m, action),
    decreases ops.len(),
{
    if ops.len() > 0 {
        assert forall|i: int| 0 <= i < ops.drop_last().len() implies !sets_multi_sig(#[trigger] ops.drop_last()[i], action) by {
            assert(ops.drop_last()[i] == ops[i]);
        }
        multi_sig_unchanged(m, action, ops.drop_last());
        assert(!sets_multi_sig(ops[ops.len() - 1], action));
        step_frame(run(m, ops.drop_last()), ops.last());
    }
}

/// A stored multi-signature requirement persists until that action is set
/// again, and an action that is never set does not require multi-signature.
pub proof fn multi_sig_requirement_persists(
    m: AdminModel,
    action: CriticalAction,
    required: bool,
    ops: Seq<Operation>,
    never_set: CriticalAction,
    all_ops: Seq<Operation>,
)
    requires
        forall|i: int| 0 <= i < ops.len() ==> !sets_multi_sig(#[trigger] ops[i], action),
        forall|i: int| 0 <= i < all_ops.len() ==> !sets_multi_sig(#[trigger] all_ops[i], never_set),
    ensures
        is_multi_sig_required_spec(run(set_multi_sig_required_spec(m, action, required), ops), action) == required,
        !is_multi_sig_required_spec(run(AdminModel::empty(), all_ops), never_set),
{
    multi_sig_unchanged(set_multi_sig_required_spec(m, action, required), action, ops);
    multi_sig_unchanged(AdminModel::empty(), never_set, all_ops);
}

} // verus!
