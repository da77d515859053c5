//! The admin module's operations on [`AdminEnv`]: admin storage, role
//! management, multi-signature configuration, guards, and proposals.
//!
//! Each operation's contract equates its effect with the corresponding
//! transition of [`crate::model`]. A refused operation returns its error and
//! leaves the storage unchanged. The authorizations it demands before its
//! first check (those of a proposal's creator or approver) stay demanded, so
//! that a host reports a missing signature before any other refusal; a
//! refused operation demands nothing else.
use vstd::prelude::*;

use crate::address::Address;
use crate::env::AdminEnv;
use crate::model::{
    approve_proposal_spec, check_proposal_spec, create_proposal_spec, execute_proposal_spec,
    get_admin_pool_spec, get_admin_spec, get_proposal_spec, get_threshold_spec, grant_role_spec,
    has_admin_spec, has_role_spec, is_multi_sig_enabled_spec, is_multi_sig_required_spec,
    is_proposal_ready_spec, mark_executed_spec, new_proposal, require_admin_spec,
    require_multi_sig_spec, require_multi_sig_with_caller_spec, require_role_spec,
    revoke_role_spec, set_admin_pool_spec, set_admin_spec, set_multi_sig_required_spec,
};
use crate::types::{
    addresses, contains_address, copy_addresses, AdminError, AdminKey, CriticalAction, Proposal,
    Role,
};

verus! {

/// The abstract value of a result that carries an address.
pub open spec fn address_result(r: Result<Address, AdminError>) -> Result<Seq<u8>, AdminError> {
    match r {
        Ok(a) => Ok(a@),
        Err(e) => Err(e),
    }
}

/// The abstract value of a result that carries a proposal.
pub open spec fn proposal_result(r: Result<Proposal, AdminError>) -> Result<crate::types::ProposalView, AdminError> {
    match r {
        Ok(p) => Ok(p@),
        Err(e) => Err(e),
    }
}

// ─── Read / Write ────────────────────────────────────────────────────────────

/// Stores the admin address, and grants it the Admin role.
pub fn set_admin(env: &mut AdminEnv, admin: &Address)
    requires
        old(env).wf(),
    ensures
        final(env).wf(),
        final(env)@ == set_admin_spec(old(env)@, admin@),
{
    env.store_admin(admin);
    // Automatically grant the Admin role to the administrator.
    grant_role(env, Role::Admin, admin);
}

/// Retrieves the current admin address.
pub fn get_admin(env: &AdminEnv) -> (r: Result<Address, AdminError>)
    ensures
        address_result(r) == get_admin_spec(env@),
{
    match env.admin_entry() {
        Some(a) => Ok(a.duplicate()),
        None => Err(AdminError::NotInitialized),
    }
}

/// Returns `true` if an admin address has been configured.
pub fn has_admin(env: &AdminEnv) -> (r: bool)
    requires
        env.wf(),
    ensures
        r == has_admin_spec(env@),
{
    env.has_key(&AdminKey::Admin)
}

/// Grants a role to an address. Once an admin is configured, the admin's
/// authorization is required.
pub fn grant_role(env: &mut AdminEnv, role: Role, address: &Address)
    requires
        old(env).wf(),
    ensures
        final(env).wf(),
        final(env)@ == grant_role_spec(old(env)@, role, address@),
{
    // If the contract is already initialized, ensure only an Admin can grant roles.
    if has_admin(env) {
        let checked = require_admin(env);
        assert(checked is Ok);
    }
    env.insert_role(role, address);
}

/// Revokes a role from an address, with the admin's authorization.
pub fn revoke_role(env: &mut AdminEnv, role: Role, address: &Address) -> (r: Result<(), AdminError>)
    requires
        old(env).wf(),
    ensures
        final(env).wf(),
        match revoke_role_spec(old(env)@, role, address@) {
            Ok(m) => r is Ok && final(env)@ == m,
            Err(e) => r == Err::<(), AdminError>(e) && final(env)@ == old(env)@,
        },
{
    match require_admin(env) {
        Ok(()) => {},
        Err(e) => return Err(e),
    }
    env.remove_role(role, address);
    Ok(())
}

/// Returns `true` if the address has the specified role. Admins implicitly
/// have all roles.
pub fn has_role(env: &AdminEnv, role: Role, address: &Address) -> (r: bool)
    requires
        env.wf(),
    ensures
        r == has_role_spec(env@, role, address@),
{
    if env.has_key(&AdminKey::Role(Role::Admin, address.duplicate())) {
        return true;
    }
    env.has_key(&AdminKey::Role(role, address.duplicate()))
}

// ─── Multi-Sig Primitives ───────────────────────────────────────────────────

/// Configures the multi-signature admin pool. The threshold must be at
/// least 1 and at most the pool's size.
pub fn set_admin_pool(env: &mut AdminEnv, pool: Vec<Address>, threshold: u32) -> (r: Result<(), AdminError>)
    requires
        old(env).wf(),
    ensures
        final(env).wf(),
        match set_admin_pool_spec(old(env)@, addresses(pool@), threshold) {
            Ok(m) => r is Ok && final(env)@ == m,
            Err(e) => r == Err::<(), AdminError>(e) && final(env)@ == old(env)@,
        },
{
    if threshold == 0 || threshold as usize > pool.len() {
        return Err(AdminError::InvalidThreshold);
    }
    env.store_pool(pool, threshold);
    Ok(())
}

/// Retrieves the admin pool. Defaults to the singular admin if no pool is set,
/// and to nobody if no admin is set either.
pub fn get_admin_pool(env: &AdminEnv) -> (r: Vec<Address>)
    ensures
        addresses(r@) == get_admin_pool_spec(env@),
{
    match env.pool_entry() {
        Some(pool) => copy_addresses(pool),
        None => match env.admin_entry() {
            Some(admin) => {
                let mut r: Vec<Address> = Vec::new();
                r.push(admin.duplicate());
                assert(addresses(r@) =~= seq![admin@]);
                r
            },
            None => {
                let r: Vec<Address> = Vec::new();
                assert(addresses(r@) =~= Seq::empty());
                r
            },
        },
    }
}

/// Retrieves the quorum threshold for the admin pool; 1 when none is set.
pub fn get_threshold(env: &AdminEnv) -> (r: u32)
    ensures
        r == get_threshold_spec(env@),
{
    match env.threshold_entry() {
        Some(t) => t,
        None => 1,
    }
}

/// Configures whether a specific critical action requires multi-signature
/// approval. Once an admin is configured, the admin's authorization is required.
pub fn set_multi_sig_required(env: &mut AdminEnv, action: CriticalAction, required: bool)
    requires
        old(env).wf(),
    ensures
        final(env).wf(),
        final(env)@ == set_multi_sig_required_spec(old(env)@, action, required),
{
    if has_admin(env) {
        let checked = require_admin(env);
        assert(checked is Ok);
    }
    env.store_multi_sig(action, required);
}

/// Checks if a specific critical action requires multi-signature approval.
pub fn is_multi_sig_required(env: &AdminEnv, action: CriticalAction) -> (r: bool)
    requires
        env.wf(),
    ensures
        r == is_multi_sig_required_spec(env@, action),
{
    match env.multi_sig_entry(action) {
        Some(required) => required,
        None => false,
    }
}

/// Checks if multi-signature is enabled, that is, whether an admin pool is set.
pub fn is_multi_sig_enabled(env: &AdminEnv) -> (r: bool)
    requires
        env.wf(),
    ensures
        r == is_multi_sig_enabled_spec(env@),
{
    env.has_key(&AdminKey::AdminPool)
}

// ─── Guards ──────────────────────────────────────────────────────────────────

/// Requires that the stored admin authorizes the current invocation.
pub fn require_admin(env: &mut AdminEnv) -> (r: Result<(), AdminError>)
    requires
        old(env).wf(),
    ensures
        final(env).wf(),
        match require_admin_spec(old(env)@) {
            Ok(m) => r is Ok && final(env)@ == m,
            Err(e) => r == Err::<(), AdminError>(e) && final(env)@ == old(env)@,
        },
{
    match get_admin(env) {
        Ok(admin) => {
            env.push_auth(&admin);
            Ok(())
        },
        Err(e) => Err(e),
    }
}

/// Requires that the specified address has the given role and authorizes the invocation.
pub fn require_role(env: &mut AdminEnv, role: Role, address: &Address) -> (r: Result<(), AdminError>)
    requires
        old(env).wf(),
    ensures
        final(env).wf(),
        match require_role_spec(old(env)@, role, address@) {
            Ok(m) => r is Ok && final(env)@ == m,
            Err(e) => r == Err::<(), AdminError>(e) && final(env)@ == old(env)@,
        },
{
    if !has_role(env, role, address) {
        return Err(AdminError::MissingRole);
    }
    env.push_auth(address);
    Ok(())
}

/// The checks on a proposal that stands for `action`: it exists, has met the
/// threshold, and is for `action`.
fn check_proposal(env: &AdminEnv, action: CriticalAction, proposal_id: u64) -> (r: Result<(), AdminError>)
    requires
        env.wf(),
    ensures
        r == check_proposal_spec(env@, action, proposal_id),
{
    match is_proposal_ready(env, proposal_id) {
        Ok(ready) => {
            if !ready {
                return Err(AdminError::ThresholdNotMet);
            }
        },
        Err(e) => return Err(e),
    }
    match get_proposal(env, proposal_id) {
        Ok(proposal) => {
            if proposal.action_type != action {
                return Err(AdminError::ActionMismatch);
            }
            Ok(())
        },
        Err(e) => Err(e),
    }
}

/// Requires multi-signature approval for a critical action.
/// If multi-sig is not required for the action, or no admin pool is
/// configured, falls back to single admin approval.
pub fn require_multi_sig(env: &mut AdminEnv, action: CriticalAction, proposal_id: u64) -> (r: Result<(), AdminError>)
    requires
        old(env).wf(),
    ensures
        final(env).wf(),
        match require_multi_sig_spec(old(env)@, action, proposal_id) {
            Ok(m) => r is Ok && final(env)@ == m,
            Err(e) => r == Err::<(), AdminError>(e) && final(env)@ == old(env)@,
        },
{
    if is_multi_sig_required(env, action) && is_multi_sig_enabled(env) {
        check_proposal(env, action, proposal_id)
    } else {
        require_admin(env)
    }
}

/// Requires multi-signature approval for a critical action with a specific caller,
/// who must be part of the admin pool. If multi-sig is not required for the
/// action, or no admin pool is configured, falls back to single admin approval.
pub fn require_multi_sig_with_caller(
    env: &mut AdminEnv,
    action: CriticalAction,
    proposal_id: u64,
    caller: &Address,
) -> (r: Result<(), AdminError>)
    requires
        old(env).wf(),
    ensures
        final(env).wf(),
        match require_multi_sig_with_caller_spec(old(env)@, action, proposal_id, caller@) {
            Ok(m) => r is Ok && final(env)@ == m,
            Err(e) => r == Err::<(), AdminError>(e) && final(env)@ == old(env)@,
        },
{
    if is_multi_sig_required(env, action) && is_multi_sig_enabled(env) {
        match check_proposal(env, action, proposal_id) {
            Ok(()) => {},
            Err(e) => return Err(e),
        }
        let pool = get_admin_pool(env);
        if !contains_address(&pool, caller) {
            return Err(AdminError::CallerNotInPool);
        }
        Ok(())
    } else {
        require_admin(env)
    }
}

// ─── Proposals ──────────────────────────────────────────────────────────────

/// Creates a new proposal for an administrative action. The creator's
/// authorization is demanded first, before any check; the creator must be in
/// the admin pool. Returns its id.
pub fn create_proposal(
    env: &mut AdminEnv,
    creator: Address,
    action_type: CriticalAction,
    description: Vec<u8>,
) -> (r: Result<u64, AdminError>)
    requires
        old(env).wf(),
    ensures
        final(env).wf(),
        match create_proposal_spec(old(env)@, creator@, action_type, description@) {
            Ok((m, id)) => r == Ok::<u64, AdminError>(id) && final(env)@ == m,
            Err(e) => r == Err::<u64, AdminError>(e) && final(env)@ == old(env)@.authorize(creator@),
        },
{
    env.push_auth(&creator);
    let pool = get_admin_pool(env);
    if !contains_address(&pool, &creator) {
        return Err(AdminError::ProposerNotAdmin);
    }
    let id = env.proposal_count();
    if id == u64::MAX {
        return Err(AdminError::ProposalIdOverflow);
    }
    let mut approvals: Vec<Address> = Vec::new();
    approvals.push(creator.duplicate());
    assert(addresses(approvals@) =~= seq![creator@]);
    let proposal = Proposal {
        creator: creator.duplicate(),
        action_type,
        description,
        approvals,
        executed: false,
    };
    assert(proposal@ == new_proposal(creator@, action_type, description@));
    env.push_proposal(proposal);
    Ok(id)
}

/// Adds an approval to an existing proposal. The approver's authorization is
/// demanded first, before any check; the approver must be in the admin pool,
/// the proposal must not be executed, and nobody approves a proposal twice.
pub fn approve_proposal(env: &mut AdminEnv, admin: Address, proposal_id: u64) -> (r: Result<(), AdminError>)
    requires
        old(env).wf(),
    ensures
        final(env).wf(),
        match approve_proposal_spec(old(env)@, admin@, proposal_id) {
            Ok(m) => r is Ok && final(env)@ == m,
            Err(e) => r == Err::<(), AdminError>(e) && final(env)@ == old(env)@.authorize(admin@),
        },
{
    env.push_auth(&admin);
    let pool = get_admin_pool(env);
    if !contains_address(&pool, &admin) {
        return Err(AdminError::ApproverNotAdmin);
    }
    let mut proposal = match get_proposal(env, proposal_id) {
        Ok(p) => p,
        Err(e) => return Err(e),
    };
    if proposal.executed {
        return Err(AdminError::AlreadyExecuted);
    }
    if contains_address(&proposal.approvals, &admin) {
        return Err(AdminError::AlreadyApproved);
    }
    let ghost before = proposal@;
    proposal.approvals.push(admin.duplicate());
    assert(proposal@.approvals =~= before.approvals.push(admin@));
    proof {
        let old_m = old(env)@;
        assert(old_m.proposals[proposal_id as int].valid());
    }
    env.replace_proposal(proposal_id, proposal);
    Ok(())
}

/// Checks if a proposal has met its quorum threshold.
pub fn is_proposal_ready(env: &AdminEnv, proposal_id: u64) -> (r: Result<bool, AdminError>)
    ensures
        r == is_proposal_ready_spec(env@, proposal_id),
{
    match env.proposal_entry(proposal_id) {
        Some(proposal) => Ok(proposal.approvals.len() >= get_threshold(env) as usize),
        None => Err(AdminError::ProposalNotFound),
    }
}

/// Marks a proposal as executed, preventing re-execution. The proposal must
/// have met the threshold and must not be executed already.
pub fn mark_executed(env: &mut AdminEnv, proposal_id: u64) -> (r: Result<(), AdminError>)
    requires
        old(env).wf(),
    ensures
        final(env).wf(),
        match mark_executed_spec(old(env)@, proposal_id) {
            Ok(m) => r is Ok && final(env)@ == m,
            Err(e) => r == Err::<(), AdminError>(e) && final(env)@ == old(env)@,
        },
{
    let mut proposal = match get_proposal(env, proposal_id) {
        Ok(p) => p,
        Err(e) => return Err(e),
    };
    if proposal.executed {
        return Err(AdminError::MarkAlreadyExecuted);
    }
    match is_proposal_ready(env, proposal_id) {
        Ok(ready) => {
            if !ready {
                return Err(AdminError::MarkThresholdNotMet);
            }
        },
        Err(e) => return Err(e),
    }
    proposal.executed = true;
    proof {
        let old_m = old(env)@;
        assert(old_m.proposals[proposal_id as int].valid());
    }
    env.replace_proposal(proposal_id, proposal);
    Ok(())
}

/// Executes a proposal after it has met the threshold, marking it executed.
/// Returns the action type of the executed proposal.
pub fn execute_proposal(env: &mut AdminEnv, proposal_id: u64) -> (r: Result<CriticalAction, AdminError>)
    requires
        old(env).wf(),
    ensures
        final(env).wf(),
        match execute_proposal_spec(old(env)@, proposal_id) {
            Ok((m, action)) => r == Ok::<CriticalAction, AdminError>(action) && final(env)@ == m,
            Err(e) => r == Err::<CriticalAction, AdminError>(e) && final(env)@ == old(env)@,
        },
{
    let mut proposal = match get_proposal(env, proposal_id) {
        Ok(p) => p,
        Err(e) => return Err(e),
    };
    if proposal.executed {
        return Err(AdminError::AlreadyExecuted);
    }
    match is_proposal_ready(env, proposal_id) {
        Ok(ready) => {
            if !ready {
                return Err(AdminError::ExecutionThresholdNotMet);
            }
        },
        Err(e) => return Err(e),
    }
    proposal.executed = true;
    let action_type = proposal.action_type;
    proof {
        let old_m = old(env)@;
        assert(old_m.proposals[proposal_id as int].valid());
    }
    env.replace_proposal(proposal_id, proposal);
    Ok(action_type)
}

/// Gets the proposal details by ID.
pub fn get_proposal(env: &AdminEnv, proposal_id: u64) -> (r: Result<Proposal, AdminError>)
    ensures
        proposal_result(r) == get_proposal_spec(env@, proposal_id),
{
    match env.proposal_entry(proposal_id) {
        Some(proposal) => Ok(proposal.duplicate()),
        None => Err(AdminError::ProposalNotFound),
    }
}

} // verus!
