use vstd::prelude::*;

use crate::address::Address;

verus! {

/// Enumeration of available roles.
#[derive(Clone, Copy, PartialEq, Eq, Debug, Structural)]
pub enum Role {
    /// Global administrator with full control.
    Admin,
    /// Account authorized to mint tokens.
    Minter,
    /// A role named after the multi-sig admin pool. It is granted and checked
    /// like any other role; the pool itself is set with `set_admin_pool`.
    AdminPool,
    /// A role named after the multi-sig threshold. It is granted and checked
    /// like any other role; the threshold itself is set with `set_admin_pool`.
    Threshold,
    /// A role named after a proposal id. It is granted and checked like any
    /// other role and gives no rights over the proposal.
    Proposal(u64),
    /// A role named after the proposal id counter. It is granted and checked
    /// like any other role.
    ProposalIdCounter,
}

/// Types of critical administrative actions that require multi-signature approval.
#[derive(Clone, Copy, PartialEq, Eq, Debug, Structural)]
pub enum CriticalAction {
    /// Change the contract administrator.
    ChangeAdmin,
    /// Modify the admin pool or threshold.
    ModifyAdminPool,
    /// Pause or unpause contract operations.
    PauseContract,
    /// Upgrade contract implementation.
    UpgradeContract,
    /// Change critical contract parameters.
    ChangeParameters,
    /// Mint tokens (if applicable).
    MintTokens,
    /// Burn tokens (if applicable).
    BurnTokens,
    /// Transfer ownership of contract.
    TransferOwnership,
}

/// The number of critical actions.
pub const CRITICAL_ACTION_COUNT: usize = 8;

/// The position of an action in the declaration of [`CriticalAction`].
pub open spec fn action_slot(action: CriticalAction) -> int {
    match action {
        CriticalAction::ChangeAdmin => 0,
        CriticalAction::ModifyAdminPool => 1,
        CriticalAction::PauseContract => 2,
        CriticalAction::UpgradeContract => 3,
        CriticalAction::ChangeParameters => 4,
        CriticalAction::MintTokens => 5,
        CriticalAction::BurnTokens => 6,
        CriticalAction::TransferOwnership => 7,
    }
}

/// Distinct actions have distinct positions.
pub proof fn lemma_action_slot_injective(a: CriticalAction, b: CriticalAction)
    ensures
        action_slot(a) == action_slot(b) ==> a == b,
{
}

/// The position of an action in the declaration of [`CriticalAction`].
pub fn action_index(action: CriticalAction) -> (r: usize)
    ensures
        r == action_slot(action),
        r < CRITICAL_ACTION_COUNT,
{
    match action {
        CriticalAction::ChangeAdmin => 0,
        CriticalAction::ModifyAdminPool => 1,
        CriticalAction::PauseContract => 2,
        CriticalAction::UpgradeContract => 3,
        CriticalAction::ChangeParameters => 4,
        CriticalAction::MintTokens => 5,
        CriticalAction::BurnTokens => 6,
        CriticalAction::TransferOwnership => 7,
    }
}

/// Storage keys used by the admin module.
#[derive(Clone)]
pub enum AdminKey {
    /// The contract administrator address (singular).
    Admin,
    /// Role assignments: (Role, Address) -> bool
    Role(Role, Address),
    /// Multi-sig required for specific critical actions: CriticalAction -> bool
    MultiSigRequired(CriticalAction),
    /// The pool of administrator addresses for multi-sig.
    AdminPool,
    /// Minimum signatures required for multi-sig actions.
    Threshold,
    /// A proposal, by its id.
    Proposal(u64),
    /// Counter for generating unique proposal IDs.
    ProposalIdCounter,
}

/// Why an operation was refused. A refused operation leaves the storage unchanged.
#[derive(Clone, Copy, PartialEq, Eq, Debug, Structural)]
pub enum AdminError {
    /// No administrator has been stored.
    NotInitialized,
    /// A pool threshold was zero or larger than the pool.
    InvalidThreshold,
    /// The address holds neither the role nor the Admin role.
    MissingRole,
    /// A multi-signature guard's proposal has fewer approvals than the threshold.
    ThresholdNotMet,
    /// A proposal to execute has fewer approvals than the threshold.
    ExecutionThresholdNotMet,
    /// A proposal to mark as executed has fewer approvals than the threshold.
    MarkThresholdNotMet,
    /// No proposal has the given id.
    ProposalNotFound,
    /// The proposal is for another action than the one requested.
    ActionMismatch,
    /// The caller is not in the admin pool.
    CallerNotInPool,
    /// Only members of the admin pool can create proposals.
    ProposerNotAdmin,
    /// Only members of the admin pool can approve proposals.
    ApproverNotAdmin,
    /// The proposal to approve or execute has already been executed.
    AlreadyExecuted,
    /// The proposal to mark as executed has already been executed.
    MarkAlreadyExecuted,
    /// The admin has already approved the proposal.
    AlreadyApproved,
    /// Proposal ids are exhausted.
    ProposalIdOverflow,
}

/// The message with which a host aborts a refused invocation.
pub open spec fn error_message(e: AdminError) -> Seq<char> {
    match e {
        AdminError::NotInitialized => "contract not initialized: admin not set"@,
        AdminError::InvalidThreshold => "invalid threshold for admin pool"@,
        AdminError::MissingRole => "unauthorized: missing role"@,
        AdminError::ThresholdNotMet => "multi-signature threshold not met for critical action"@,
        AdminError::ExecutionThresholdNotMet => "threshold not met for execution"@,
        AdminError::MarkThresholdNotMet => "threshold not met"@,
        AdminError::ProposalNotFound => "proposal not found"@,
        AdminError::ActionMismatch => "proposal action type does not match required action"@,
        AdminError::CallerNotInPool => "caller is not in admin pool"@,
        AdminError::ProposerNotAdmin => "only admins can create proposals"@,
        AdminError::ApproverNotAdmin => "only admins can approve proposals"@,
        AdminError::AlreadyExecuted => "proposal already executed"@,
        AdminError::MarkAlreadyExecuted => "already executed"@,
        AdminError::AlreadyApproved => "admin already approved this proposal"@,
        AdminError::ProposalIdOverflow => "proposal id counter overflow"@,
    }
}

impl AdminError {
    /// The message with which a host aborts a refused invocation.
    pub fn message(&self) -> (r: &'static str)
        ensures
            r@ == error_message(*self),
    {
        match self {
            AdminError::NotInitialized => "contract not initialized: admin not set",
            AdminError::InvalidThreshold => "invalid threshold for admin pool",
            AdminError::MissingRole => "unauthorized: missing role",
            AdminError::ThresholdNotMet => "multi-signature threshold not met for critical action",
            AdminError::ExecutionThresholdNotMet => "threshold not met for execution",
            AdminError::MarkThresholdNotMet => "threshold not met",
            AdminError::ProposalNotFound => "proposal not found",
            AdminError::ActionMismatch => "proposal action type does not match required action",
            AdminError::CallerNotInPool => "caller is not in admin pool",
            AdminError::ProposerNotAdmin => "only admins can create proposals",
            AdminError::ApproverNotAdmin => "only admins can approve proposals",
            AdminError::AlreadyExecuted => "proposal already executed",
            AdminError::MarkAlreadyExecuted => "already executed",
            AdminError::AlreadyApproved => "admin already approved this proposal",
            AdminError::ProposalIdOverflow => "proposal id counter overflow",
        }
    }
}

/// The abstract contents of a proposal.
pub struct ProposalView {
    pub creator: Seq<u8>,
    pub action_type: CriticalAction,
    pub description: Seq<u8>,
    pub approvals: Seq<Seq<u8>>,
    pub executed: bool,
}

/// The encodings of a sequence of addresses.
pub open spec fn addresses(v: Seq<Address>) -> Seq<Seq<u8>> {
    v.map_values(|a: Address| a@)
}

/// A proposal for a multi-signature action.
#[derive(Clone, Debug)]
pub struct Proposal {
    /// The admin who created the proposal.
    pub creator: Address,
    /// The type of critical action this proposal addresses.
    pub action_type: CriticalAction,
    /// Description or metadata about the proposal, as the bytes of its text.
    pub description: Vec<u8>,
    /// List of admins who have approved this proposal.
    pub approvals: Vec<Address>,
    /// Whether the proposal has been executed.
    pub executed: bool,
}

impl View for Proposal {
    type V = ProposalView;

    open spec fn view(&self) -> ProposalView {
        ProposalView {
            creator: self.creator@,
            action_type: self.action_type,
            description: self.description@,
            approvals: addresses(self.approvals@),
            executed: self.executed,
        }
    }
}

/// A copy of a byte string.
pub fn copy_bytes(v: &Vec<u8>) -> (r: Vec<u8>)
    ensures
        r@ == v@,
{
    let mut r: Vec<u8> = Vec::with_capacity(v.len());
    let mut i: usize = 0;
    while i < v.len()
        invariant
            i <= v.len(),
            r@ =~= v@.subrange(0, i as int),
        decreases v.len() - i,
    {
        r.push(v[i]);
        i = i + 1;
    }
    assert(r@ =~= v@);
    r
}

/// A copy of a sequence of addresses.
pub fn copy_addresses(v: &Vec<Address>) -> (r: Vec<Address>)
    ensures
        addresses(r@) == addresses(v@),
{
    let mut r: Vec<Address> = Vec::with_capacity(v.len());
    let mut i: usize = 0;
    while i < v.len()
        invariant
            i <= v.len(),
            r.len() == i,
            addresses(r@) =~= addresses(v@).subrange(0, i as int),
        decreases v.len() - i,
    {
        let a = v[i].duplicate();
        let ghost before = r@;
        r.push(a);
        assert(r@ == before.push(a));
        assert forall|j: int| 0 <= j < i implies addresses(r@)[j] == addresses(v@)[j] by {
            assert(addresses(before)[j] == addresses(v@).subrange(0, i as int)[j]);
        }
        assert(addresses(r@) =~= addresses(v@).subrange(0, i + 1));
        i = i + 1;
    }
    assert(addresses(r@) =~= addresses(v@));
    r
}

/// Whether `a` is among the addresses of `v`.
pub fn contains_address(v: &Vec<Address>, a: &Address) -> (r: bool)
    ensures
        r == addresses(v@).contains(a@),
{
    let mut i: usize = 0;
    while i < v.len()
        invariant
            i <= v.len(),
            forall|j: int| 0 <= j < i ==> v@[j]@ != a@,
        decreases v.len() - i,
    {
        if v[i].equals(a) {
            assert(addresses(v@)[i as int] == a@);
            return true;
        }
        i = i + 1;
    }
    false
}

impl Proposal {
    /// A copy of this proposal.
    pub fn duplicate(&self) -> (r: Proposal)
        ensures
            r@ == self@,
    {
        Proposal {
            creator: self.creator.duplicate(),
            action_type: self.action_type,
            description: copy_bytes(&self.description),
            approvals: copy_addresses(&self.approvals),
            executed: self.executed,
        }
    }
}

} // verus!
