use bc_forge_admin::{
    approve_proposal, create_proposal, execute_proposal, get_admin, get_admin_pool,
    get_proposal, get_threshold, grant_role, has_admin, has_role, is_multi_sig_enabled,
    is_multi_sig_required, is_proposal_ready, mark_executed, require_admin, require_multi_sig,
    require_multi_sig_with_caller, require_role, revoke_role, set_admin, set_admin_pool,
    set_multi_sig_required, Address, AdminEnv, AdminError, AdminKey, AdminSnapshot, CriticalAction,
    Proposal, Role,
};

/// A fresh account address; `n` tells addresses apart.
fn generate(n: u8) -> Address {
    let mut text = String::from("GADMINTESTACCOUNT");
    text.push_str(&format!("{:03}", n));
    Address::from_bytes(text.into_bytes())
}

fn same(a: &Address, b: &Address) -> bool {
    a.as_bytes() == b.as_bytes()
}

fn auths(env: &AdminEnv) -> Vec<Vec<u8>> {
    env.required_auths().iter().map(|a| a.as_bytes().to_vec()).collect()
}

#[test]
fn test_set_and_get_admin() {
    let mut env = AdminEnv::new();
    let admin = generate(1);

    set_admin(&mut env, &admin);

    assert!(has_admin(&env));
    assert!(same(&get_admin(&env).unwrap(), &admin));
}

#[test]
fn test_multi_sig() {
    let mut env = AdminEnv::new();
    let admin1 = generate(1);
    let admin2 = generate(2);
    let admin3 = generate(3);

    set_admin_pool(&mut env, vec![admin1.clone(), admin2.clone(), admin3.clone()], 2).unwrap();

    let id = create_proposal(&mut env, admin1.clone(), CriticalAction::ChangeAdmin, b"test".to_vec()).unwrap();
    assert!(!is_proposal_ready(&env, id).unwrap());

    approve_proposal(&mut env, admin2.clone(), id).unwrap();
    assert!(is_proposal_ready(&env, id).unwrap());
}

#[test]
fn test_multi_sig_with_critical_actions() {
    let mut env = AdminEnv::new();
    let admin1 = generate(1);
    let admin2 = generate(2);
    let admin3 = generate(3);

    // Set up admin pool with threshold of 2
    set_admin_pool(&mut env, vec![admin1.clone(), admin2.clone(), admin3.clone()], 2).unwrap();

    // Configure ChangeAdmin to require multi-sig
    set_multi_sig_required(&mut env, CriticalAction::ChangeAdmin, true);
    assert!(is_multi_sig_required(&env, CriticalAction::ChangeAdmin));

    // Create a proposal for changing admin
    let id = create_proposal(
        &mut env,
        admin1.clone(),
        CriticalAction::ChangeAdmin,
        b"Change admin to new address".to_vec(),
    )
    .unwrap();
    assert!(!is_proposal_ready(&env, id).unwrap());

    // Approve with second admin
    approve_proposal(&mut env, admin2.clone(), id).unwrap();
    assert!(is_proposal_ready(&env, id).unwrap());

    // Execute the proposal
    let action_type = execute_proposal(&mut env, id).unwrap();
    assert_eq!(action_type, CriticalAction::ChangeAdmin);

    // Verify proposal is marked as executed
    assert!(is_proposal_ready(&env, id).unwrap()); // Still ready but executed
}

#[test]
fn test_multi_sig_threshold_not_met() {
    let mut env = AdminEnv::new();
    let admin1 = generate(1);
    let admin2 = generate(2);
    let admin3 = generate(3);

    // Set up admin pool with threshold of 3
    set_admin_pool(&mut env, vec![admin1.clone(), admin2.clone(), admin3.clone()], 3).unwrap();

    // Create a proposal
    let id = create_proposal(&mut env, admin1.clone(), CriticalAction::UpgradeContract, b"Upgrade contract".to_vec()).unwrap();
    assert!(!is_proposal_ready(&env, id).unwrap());

    // Approve with second admin (still not enough)
    approve_proposal(&mut env, admin2.clone(), id).unwrap();
    assert!(!is_proposal_ready(&env, id).unwrap());

    // Approve with third admin (now meets threshold)
    approve_proposal(&mut env, admin3.clone(), id).unwrap();
    assert!(is_proposal_ready(&env, id).unwrap());
}

#[test]
fn test_multi_sig_different_action_types() {
    let mut env = AdminEnv::new();
    let admin1 = generate(1);
    let admin2 = generate(2);

    // Set up admin pool with threshold of 2
    set_admin_pool(&mut env, vec![admin1.clone(), admin2.clone()], 2).unwrap();

    // Create proposals for different action types
    let id1 = create_proposal(&mut env, admin1.clone(), CriticalAction::ChangeAdmin, b"Change admin".to_vec()).unwrap();
    let id2 = create_proposal(&mut env, admin1.clone(), CriticalAction::PauseContract, b"Pause contract".to_vec()).unwrap();
    let id3 = create_proposal(&mut env, admin1.clone(), CriticalAction::MintTokens, b"Mint tokens".to_vec()).unwrap();

    // Approve all proposals
    approve_proposal(&mut env, admin2.clone(), id1).unwrap();
    approve_proposal(&mut env, admin2.clone(), id2).unwrap();
    approve_proposal(&mut env, admin2.clone(), id3).unwrap();

    // All should be ready
    assert!(is_proposal_ready(&env, id1).unwrap());
    assert!(is_proposal_ready(&env, id2).unwrap());
    assert!(is_proposal_ready(&env, id3).unwrap());

    // Execute and verify action types
    assert_eq!(execute_proposal(&mut env, id1).unwrap(), CriticalAction::ChangeAdmin);
    assert_eq!(execute_proposal(&mut env, id2).unwrap(), CriticalAction::PauseContract);
    assert_eq!(execute_proposal(&mut env, id3).unwrap(), CriticalAction::MintTokens);
}

#[test]
fn test_multi_sig_fallback_to_single_admin() {
    let mut env = AdminEnv::new();
    let admin = generate(1);

    // Set single admin (no multi-sig pool)
    set_admin(&mut env, &admin);

    // Configure action to require multi-sig (but pool not set)
    set_multi_sig_required(&mut env, CriticalAction::ChangeAdmin, true);

    // Since multi-sig is not enabled (no pool), it falls back to single admin
    assert!(!is_multi_sig_enabled(&env));
    require_multi_sig(&mut env, CriticalAction::ChangeAdmin, 0).unwrap();
    assert_eq!(auths(&env).last().unwrap(), admin.as_bytes());
}

// ─── Admin and roles ────────────────────────────────────────────────────────

#[test]
fn get_admin_before_set_admin_is_refused() {
    let env = AdminEnv::new();
    assert!(!has_admin(&env));
    assert_eq!(get_admin(&env).unwrap_err(), AdminError::NotInitialized);
}

#[test]
fn set_admin_requires_the_new_admins_authorization() {
    let mut env = AdminEnv::new();
    let admin = generate(7);
    set_admin(&mut env, &admin);
    assert_eq!(auths(&env), vec![admin.as_bytes().to_vec()]);
    assert!(env.has_key(&AdminKey::Admin));
    assert!(env.has_key(&AdminKey::Role(Role::Admin, admin.clone())));
}

#[test]
fn admin_holds_every_role() {
    let mut env = AdminEnv::new();
    let admin = generate(1);
    let other = generate(2);
    set_admin(&mut env, &admin);
    assert!(has_role(&env, Role::Admin, &admin));
    assert!(has_role(&env, Role::Minter, &admin));
    assert!(has_role(&env, Role::Proposal(9), &admin));
    assert!(!has_role(&env, Role::Minter, &other));
}

#[test]
fn grant_before_initialization_requires_no_authorization() {
    let mut env = AdminEnv::new();
    let minter = generate(3);
    grant_role(&mut env, Role::Minter, &minter);
    assert!(has_role(&env, Role::Minter, &minter));
    assert!(!has_role(&env, Role::Admin, &minter));
    assert!(auths(&env).is_empty());
}

#[test]
fn grant_and_revoke_require_the_admin() {
    let mut env = AdminEnv::new();
    let admin = generate(1);
    let minter = generate(2);
    set_admin(&mut env, &admin);
    grant_role(&mut env, Role::Minter, &minter);
    assert!(has_role(&env, Role::Minter, &minter));
    revoke_role(&mut env, Role::Minter, &minter).unwrap();
    assert!(!has_role(&env, Role::Minter, &minter));
    assert!(!env.has_key(&AdminKey::Role(Role::Minter, minter.clone())));
    let admin_bytes = admin.as_bytes().to_vec();
    assert_eq!(auths(&env), vec![admin_bytes.clone(), admin_bytes.clone(), admin_bytes]);
}

#[test]
fn revoke_without_admin_is_refused() {
    let mut env = AdminEnv::new();
    let minter = generate(2);
    grant_role(&mut env, Role::Minter, &minter);
    assert_eq!(revoke_role(&mut env, Role::Minter, &minter), Err(AdminError::NotInitialized));
    assert!(has_role(&env, Role::Minter, &minter));
}

#[test]
fn revoking_a_role_from_an_admin_keeps_it_implicitly() {
    let mut env = AdminEnv::new();
    let admin = generate(1);
    set_admin(&mut env, &admin);
    grant_role(&mut env, Role::Minter, &admin);
    revoke_role(&mut env, Role::Minter, &admin).unwrap();
    assert!(has_role(&env, Role::Minter, &admin));
    revoke_role(&mut env, Role::Admin, &admin).unwrap();
    assert!(!has_role(&env, Role::Minter, &admin));
    assert!(!has_role(&env, Role::Admin, &admin));
}

#[test]
fn require_admin_and_role_guards() {
    let mut env = AdminEnv::new();
    assert_eq!(require_admin(&mut env), Err(AdminError::NotInitialized));
    let admin = generate(1);
    let minter = generate(2);
    let stranger = generate(3);
    set_admin(&mut env, &admin);
    grant_role(&mut env, Role::Minter, &minter);
    require_admin(&mut env).unwrap();
    require_role(&mut env, Role::Minter, &minter).unwrap();
    assert_eq!(auths(&env).last().unwrap(), minter.as_bytes());
    let before = auths(&env);
    assert_eq!(require_role(&mut env, Role::Minter, &stranger), Err(AdminError::MissingRole));
    assert_eq!(auths(&env), before);
}

// ─── Pool and threshold ─────────────────────────────────────────────────────

#[test]
fn pool_defaults() {
    let mut env = AdminEnv::new();
    assert!(get_admin_pool(&env).is_empty());
    assert_eq!(get_threshold(&env), 1);
    let admin = generate(1);
    set_admin(&mut env, &admin);
    let pool = get_admin_pool(&env);
    assert_eq!(pool.len(), 1);
    assert!(same(&pool[0], &admin));
    assert!(!is_multi_sig_enabled(&env));
}

#[test]
fn invalid_thresholds_are_refused() {
    let mut env = AdminEnv::new();
    let a = generate(1);
    let b = generate(2);
    assert_eq!(set_admin_pool(&mut env, vec![a.clone(), b.clone()], 0), Err(AdminError::InvalidThreshold));
    assert_eq!(set_admin_pool(&mut env, vec![a.clone(), b.clone()], 3), Err(AdminError::InvalidThreshold));
    assert_eq!(set_admin_pool(&mut env, vec![], 1), Err(AdminError::InvalidThreshold));
    assert!(!is_multi_sig_enabled(&env));
    set_admin_pool(&mut env, vec![a.clone(), b.clone()], 2).unwrap();
    assert!(is_multi_sig_enabled(&env));
    assert_eq!(get_threshold(&env), 2);
    let pool = get_admin_pool(&env);
    assert_eq!(pool.len(), 2);
    assert!(same(&pool[0], &a) && same(&pool[1], &b));
    assert!(env.has_key(&AdminKey::AdminPool));
    assert!(env.has_key(&AdminKey::Threshold));
}

#[test]
fn multi_sig_requirement_is_per_action() {
    let mut env = AdminEnv::new();
    let admin = generate(1);
    set_admin(&mut env, &admin);
    assert!(!is_multi_sig_required(&env, CriticalAction::BurnTokens));
    assert!(!env.has_key(&AdminKey::MultiSigRequired(CriticalAction::BurnTokens)));
    set_multi_sig_required(&mut env, CriticalAction::BurnTokens, true);
    assert!(is_multi_sig_required(&env, CriticalAction::BurnTokens));
    assert!(!is_multi_sig_required(&env, CriticalAction::MintTokens));
    set_multi_sig_required(&mut env, CriticalAction::BurnTokens, false);
    assert!(!is_multi_sig_required(&env, CriticalAction::BurnTokens));
    assert!(env.has_key(&AdminKey::MultiSigRequired(CriticalAction::BurnTokens)));
    assert_eq!(auths(&env).len(), 3);
}

// ─── Proposals ──────────────────────────────────────────────────────────────

#[test]
fn proposals_get_consecutive_ids() {
    let mut env = AdminEnv::new();
    let a = generate(1);
    set_admin_pool(&mut env, vec![a.clone()], 1).unwrap();
    assert!(!env.has_key(&AdminKey::ProposalIdCounter));
    assert_eq!(create_proposal(&mut env, a.clone(), CriticalAction::PauseContract, b"p".to_vec()), Ok(0));
    assert_eq!(create_proposal(&mut env, a.clone(), CriticalAction::PauseContract, b"q".to_vec()), Ok(1));
    assert!(env.has_key(&AdminKey::ProposalIdCounter));
    assert!(env.has_key(&AdminKey::Proposal(1)));
    assert!(!env.has_key(&AdminKey::Proposal(2)));
    let p = get_proposal(&env, 1).unwrap();
    assert!(same(&p.creator, &a));
    assert_eq!(p.action_type, CriticalAction::PauseContract);
    assert_eq!(p.description, b"q".to_vec());
    assert_eq!(p.approvals.len(), 1);
    assert!(!p.executed);
    // With a threshold of 1, a new proposal is ready at once.
    assert!(is_proposal_ready(&env, 1).unwrap());
}

#[test]
fn only_pool_members_propose_and_approve() {
    let mut env = AdminEnv::new();
    let a = generate(1);
    let b = generate(2);
    let outsider = generate(3);
    assert_eq!(
        create_proposal(&mut env, a.clone(), CriticalAction::ChangeAdmin, b"x".to_vec()),
        Err(AdminError::ProposerNotAdmin)
    );
    set_admin_pool(&mut env, vec![a.clone(), b.clone()], 2).unwrap();
    assert_eq!(
        create_proposal(&mut env, outsider.clone(), CriticalAction::ChangeAdmin, b"x".to_vec()),
        Err(AdminError::ProposerNotAdmin)
    );
    let id = create_proposal(&mut env, a.clone(), CriticalAction::ChangeAdmin, b"x".to_vec()).unwrap();
    // The proposer's signature is demanded before the checks, refused or not.
    let (ab, bb, ob) = (a.as_bytes().to_vec(), b.as_bytes().to_vec(), outsider.as_bytes().to_vec());
    assert_eq!(auths(&env), vec![ab.clone(), ob.clone(), ab.clone()]);
    assert_eq!(approve_proposal(&mut env, outsider.clone(), id), Err(AdminError::ApproverNotAdmin));
    assert_eq!(approve_proposal(&mut env, b.clone(), id + 1), Err(AdminError::ProposalNotFound));
    assert_eq!(approve_proposal(&mut env, a.clone(), id), Err(AdminError::AlreadyApproved));
    approve_proposal(&mut env, b.clone(), id).unwrap();
    assert_eq!(approve_proposal(&mut env, b.clone(), id), Err(AdminError::AlreadyApproved));
    assert_eq!(
        auths(&env),
        vec![ab.clone(), ob.clone(), ab.clone(), ob.clone(), bb.clone(), ab.clone(), bb.clone(), bb.clone()]
    );
    // Refusals leave the storage as it was.
    let p = get_proposal(&env, id).unwrap();
    assert_eq!(p.approvals.len(), 2);
    assert!(!has_admin(&env));
    assert!(!env.has_key(&AdminKey::Proposal(id + 1)));
}

#[test]
fn the_admin_alone_forms_the_default_pool() {
    let mut env = AdminEnv::new();
    let admin = generate(1);
    set_admin(&mut env, &admin);
    let id = create_proposal(&mut env, admin.clone(), CriticalAction::TransferOwnership, b"t".to_vec()).unwrap();
    assert!(is_proposal_ready(&env, id).unwrap());
    assert_eq!(execute_proposal(&mut env, id), Ok(CriticalAction::TransferOwnership));
}

#[test]
fn execution_happens_once() {
    let mut env = AdminEnv::new();
    let a = generate(1);
    let b = generate(2);
    set_admin_pool(&mut env, vec![a.clone(), b.clone()], 2).unwrap();
    let id = create_proposal(&mut env, a.clone(), CriticalAction::UpgradeContract, b"u".to_vec()).unwrap();
    assert_eq!(execute_proposal(&mut env, id), Err(AdminError::ExecutionThresholdNotMet));
    assert_eq!(mark_executed(&mut env, id), Err(AdminError::MarkThresholdNotMet));
    assert_eq!(execute_proposal(&mut env, 5), Err(AdminError::ProposalNotFound));
    approve_proposal(&mut env, b.clone(), id).unwrap();
    assert_eq!(execute_proposal(&mut env, id), Ok(CriticalAction::UpgradeContract));
    assert!(get_proposal(&env, id).unwrap().executed);
    assert_eq!(execute_proposal(&mut env, id), Err(AdminError::AlreadyExecuted));
    assert_eq!(mark_executed(&mut env, id), Err(AdminError::MarkAlreadyExecuted));
    assert_eq!(approve_proposal(&mut env, b.clone(), id), Err(AdminError::AlreadyExecuted));
}

#[test]
fn mark_executed_marks_a_ready_proposal() {
    let mut env = AdminEnv::new();
    let a = generate(1);
    set_admin_pool(&mut env, vec![a.clone()], 1).unwrap();
    let id = create_proposal(&mut env, a.clone(), CriticalAction::ChangeParameters, b"c".to_vec()).unwrap();
    mark_executed(&mut env, id).unwrap();
    assert!(get_proposal(&env, id).unwrap().executed);
    assert_eq!(mark_executed(&mut env, id), Err(AdminError::MarkAlreadyExecuted));
}

#[test]
fn get_proposal_of_unknown_id_is_refused() {
    let env = AdminEnv::new();
    assert_eq!(get_proposal(&env, 0).unwrap_err(), AdminError::ProposalNotFound);
    assert_eq!(is_proposal_ready(&env, 0), Err(AdminError::ProposalNotFound));
}

// ─── Multi-signature guards ─────────────────────────────────────────────────

#[test]
fn multi_sig_guard_checks_the_proposal() {
    let mut env = AdminEnv::new();
    let admin = generate(1);
    let a = generate(2);
    let b = generate(3);
    let outsider = generate(4);
    set_admin(&mut env, &admin);
    set_multi_sig_required(&mut env, CriticalAction::ChangeAdmin, true);
    set_admin_pool(&mut env, vec![a.clone(), b.clone()], 2).unwrap();
    assert_eq!(require_multi_sig(&mut env, CriticalAction::ChangeAdmin, 0), Err(AdminError::ProposalNotFound));
    let id = create_proposal(&mut env, a.clone(), CriticalAction::ChangeAdmin, b"x".to_vec()).unwrap();
    let other = create_proposal(&mut env, a.clone(), CriticalAction::MintTokens, b"y".to_vec()).unwrap();
    assert_eq!(require_multi_sig(&mut env, CriticalAction::ChangeAdmin, id), Err(AdminError::ThresholdNotMet));
    approve_proposal(&mut env, b.clone(), id).unwrap();
    approve_proposal(&mut env, b.clone(), other).unwrap();
    assert_eq!(require_multi_sig(&mut env, CriticalAction::ChangeAdmin, other), Err(AdminError::ActionMismatch));
    let before = auths(&env);
    require_multi_sig(&mut env, CriticalAction::ChangeAdmin, id).unwrap();
    assert_eq!(auths(&env), before);
    assert_eq!(
        require_multi_sig_with_caller(&mut env, CriticalAction::ChangeAdmin, id, &outsider),
        Err(AdminError::CallerNotInPool)
    );
    require_multi_sig_with_caller(&mut env, CriticalAction::ChangeAdmin, id, &b).unwrap();
    // Actions that do not require multi-sig fall back to the admin.
    require_multi_sig_with_caller(&mut env, CriticalAction::BurnTokens, id, &outsider).unwrap();
    assert_eq!(auths(&env).last().unwrap(), admin.as_bytes());
}

#[test]
fn guards_without_admin_are_refused() {
    let mut env = AdminEnv::new();
    let a = generate(1);
    assert_eq!(require_multi_sig(&mut env, CriticalAction::ChangeAdmin, 0), Err(AdminError::NotInitialized));
    assert_eq!(
        require_multi_sig_with_caller(&mut env, CriticalAction::ChangeAdmin, 0, &a),
        Err(AdminError::NotInitialized)
    );
}

// ─── Persisting the storage ─────────────────────────────────────────────────

#[test]
fn snapshot_restores_the_storage() {
    let mut env = AdminEnv::new();
    let admin = generate(1);
    let a = generate(2);
    let b = generate(3);
    set_admin(&mut env, &admin);
    grant_role(&mut env, Role::Minter, &a);
    set_multi_sig_required(&mut env, CriticalAction::PauseContract, true);
    set_admin_pool(&mut env, vec![a.clone(), b.clone()], 2).unwrap();
    let id = create_proposal(&mut env, a.clone(), CriticalAction::PauseContract, b"pause".to_vec()).unwrap();
    approve_proposal(&mut env, b.clone(), id).unwrap();

    let restored = AdminEnv::restore(env.snapshot()).unwrap();
    assert!(restored.required_auths().is_empty());
    assert!(same(&get_admin(&restored).unwrap(), &admin));
    assert!(has_role(&restored, Role::Minter, &a));
    assert!(!has_role(&restored, Role::Minter, &b));
    assert!(is_multi_sig_required(&restored, CriticalAction::PauseContract));
    assert!(!is_multi_sig_required(&restored, CriticalAction::MintTokens));
    assert_eq!(get_threshold(&restored), 2);
    assert_eq!(get_admin_pool(&restored).len(), 2);
    assert!(is_proposal_ready(&restored, id).unwrap());
    assert_eq!(get_proposal(&restored, id).unwrap().description, b"pause".to_vec());
}

#[test]
fn restore_refuses_inconsistent_entries() {
    let a = generate(1);
    let b = generate(2);
    let empty = || AdminSnapshot {
        admin: None,
        roles: vec![],
        pool: None,
        threshold: None,
        multi_sig: vec![],
        proposals: vec![],
    };
    assert!(AdminEnv::restore(empty()).is_some());
    assert!(AdminEnv::restore(AdminSnapshot { threshold: Some(1), ..empty() }).is_none());
    assert!(AdminEnv::restore(AdminSnapshot { pool: Some(vec![a.clone()]), ..empty() }).is_none());
    assert!(AdminEnv::restore(AdminSnapshot { pool: Some(vec![a.clone()]), threshold: Some(2), ..empty() }).is_none());
    assert!(AdminEnv::restore(AdminSnapshot { pool: Some(vec![a.clone()]), threshold: Some(1), ..empty() }).is_some());
    let proposal = |approvals: Vec<Address>| Proposal {
        creator: a.clone(),
        action_type: CriticalAction::BurnTokens,
        description: b"burn".to_vec(),
        approvals,
        executed: false,
    };
    assert!(AdminEnv::restore(AdminSnapshot { proposals: vec![proposal(vec![a.clone(), b.clone()])], ..empty() }).is_some());
    assert!(AdminEnv::restore(AdminSnapshot { proposals: vec![proposal(vec![])], ..empty() }).is_none());
    assert!(AdminEnv::restore(AdminSnapshot { proposals: vec![proposal(vec![b.clone()])], ..empty() }).is_none());
    assert!(AdminEnv::restore(AdminSnapshot {
        proposals: vec![proposal(vec![a.clone(), b.clone(), b.clone()])],
        ..empty()
    })
    .is_none());
    let later_wins = AdminEnv::restore(AdminSnapshot {
        multi_sig: vec![(CriticalAction::MintTokens, true), (CriticalAction::MintTokens, false)],
        ..empty()
    })
    .unwrap();
    assert!(!is_multi_sig_required(&later_wins, CriticalAction::MintTokens));
    assert!(later_wins.has_key(&AdminKey::MultiSigRequired(CriticalAction::MintTokens)));
}

#[test]
fn refusals_carry_their_messages() {
    let cases = [
        (AdminError::NotInitialized, "contract not initialized: admin not set"),
        (AdminError::InvalidThreshold, "invalid threshold for admin pool"),
        (AdminError::MissingRole, "unauthorized: missing role"),
        (AdminError::ThresholdNotMet, "multi-signature threshold not met for critical action"),
        (AdminError::ExecutionThresholdNotMet, "threshold not met for execution"),
        (AdminError::MarkThresholdNotMet, "threshold not met"),
        (AdminError::ProposalNotFound, "proposal not found"),
        (AdminError::ActionMismatch, "proposal action type does not match required action"),
        (AdminError::CallerNotInPool, "caller is not in admin pool"),
        (AdminError::ProposerNotAdmin, "only admins can create proposals"),
        (AdminError::ApproverNotAdmin, "only admins can approve proposals"),
        (AdminError::AlreadyExecuted, "proposal already executed"),
        (AdminError::MarkAlreadyExecuted, "already executed"),
        (AdminError::AlreadyApproved, "admin already approved this proposal"),
        (AdminError::ProposalIdOverflow, "proposal id counter overflow"),
    ];
    for (error, message) in cases {
        assert_eq!(error.message(), message);
    }
}

#[test]
fn each_refusal_names_its_operation() {
    let mut env = AdminEnv::new();
    let admin = generate(1);
    let a = generate(2);
    let b = generate(3);
    let c = generate(4);
    set_admin(&mut env, &admin);
    set_multi_sig_required(&mut env, CriticalAction::UpgradeContract, true);
    set_admin_pool(&mut env, vec![a.clone(), b.clone(), c.clone()], 3).unwrap();
    let id = create_proposal(&mut env, a.clone(), CriticalAction::UpgradeContract, b"Upgrade contract".to_vec()).unwrap();
    approve_proposal(&mut env, b.clone(), id).unwrap();
    let guard = require_multi_sig(&mut env, CriticalAction::UpgradeContract, id).unwrap_err();
    assert_eq!(guard.message(), "multi-signature threshold not met for critical action");
    let guard = require_multi_sig_with_caller(&mut env, CriticalAction::UpgradeContract, id, &a).unwrap_err();
    assert_eq!(guard.message(), "multi-signature threshold not met for critical action");
    assert_eq!(execute_proposal(&mut env, id).unwrap_err().message(), "threshold not met for execution");
    assert_eq!(mark_executed(&mut env, id).unwrap_err().message(), "threshold not met");
    approve_proposal(&mut env, c.clone(), id).unwrap();
    require_multi_sig(&mut env, CriticalAction::UpgradeContract, id).unwrap();
    mark_executed(&mut env, id).unwrap();
    assert_eq!(mark_executed(&mut env, id).unwrap_err().message(), "already executed");
    assert_eq!(execute_proposal(&mut env, id).unwrap_err().message(), "proposal already executed");
    assert_eq!(approve_proposal(&mut env, a.clone(), id).unwrap_err().message(), "proposal already executed");
}

#[test]
fn settings_persist_across_later_operations() {
    let mut env = AdminEnv::new();
    let admin = generate(1);
    let a = generate(2);
    let b = generate(3);
    let minter = generate(4);
    set_admin_pool(&mut env, vec![a.clone(), b.clone()], 2).unwrap();
    set_admin(&mut env, &admin);
    grant_role(&mut env, Role::Minter, &minter);
    set_multi_sig_required(&mut env, CriticalAction::ChangeAdmin, true);
    let id = create_proposal(&mut env, a.clone(), CriticalAction::ChangeAdmin, b"x".to_vec()).unwrap();
    approve_proposal(&mut env, b.clone(), id).unwrap();
    execute_proposal(&mut env, id).unwrap();
    // A refused pool leaves the stored one in place.
    assert_eq!(set_admin_pool(&mut env, vec![a.clone()], 2), Err(AdminError::InvalidThreshold));
    grant_role(&mut env, Role::Admin, &b);
    revoke_role(&mut env, Role::Admin, &b).unwrap();
    create_proposal(&mut env, b.clone(), CriticalAction::MintTokens, b"y".to_vec()).unwrap();
    let pool = get_admin_pool(&env);
    assert_eq!(pool.len(), 2);
    assert!(same(&pool[0], &a) && same(&pool[1], &b));
    assert_eq!(get_threshold(&env), 2);
    assert!(has_role(&env, Role::Minter, &minter));
    assert!(is_multi_sig_required(&env, CriticalAction::ChangeAdmin));
    assert!(!is_multi_sig_required(&env, CriticalAction::MintTokens));
    assert!(get_proposal(&env, id).unwrap().executed);
}
