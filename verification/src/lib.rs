//! Access-control primitives for a contract: a single administrator, role
//! assignments, and multi-signature proposals over critical actions.
//!
//! The contract's storage is held by [`AdminEnv`], which also records whose
//! authorization each operation requires; the host demands those
//! authorizations and persists the storage. Every operation is verified
//! against a transition of the abstract state in [`model`], and [`laws`]
//! proves the properties that span operations.

mod address;
mod admin;
mod env;
pub mod laws;
pub mod model;
pub mod outcomes;
mod types;

pub use address::Address;
pub use admin::{
    address_result, approve_proposal, create_proposal, execute_proposal, get_admin,
    get_admin_pool, get_proposal, get_threshold, grant_role, has_admin, has_role,
    is_multi_sig_enabled, is_multi_sig_required, is_proposal_ready, mark_executed,
    proposal_result, require_admin, require_multi_sig, require_multi_sig_with_caller,
    require_role, revoke_role, set_admin, set_admin_pool, set_multi_sig_required,
};
pub use env::{multi_sig_of, proposal_views, role_entries, AdminEnv, AdminSnapshot};
pub use types::{
    addresses, error_message, AdminError, AdminKey, CriticalAction, Proposal, ProposalView,
    Role,
};
