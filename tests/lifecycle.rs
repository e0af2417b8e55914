use anchor_lang::prelude::Pubkey;
use bounty_network::address::{Address, decimal_bytes};
use bounty_network::derivation::{bounty_address, find_vault_authority, submission_address, vault_authority};
use bounty_network::instructions::{
    AcceptBounty, CreateBounty, InitializeBountyNetwork, RejectBounty, SelectWinner, SubmitWork,
    accept_bounty, create_bounty, initialize_bounty_network, reject_bounty, select_winner, submit_work,
};
use bounty_network::state::{Bounty, BountyNetwork, ErrorCode, Submission, TokenVault};

const MODERATOR: [u8; 32] = [1; 32];
const CREATOR: [u8; 32] = [2; 32];
const SUBMITTER: [u8; 32] = [3; 32];
const MINT: [u8; 32] = [4; 32];
const REWARD_VAULT: [u8; 32] = [5; 32];
const PAYOUT_VAULT: [u8; 32] = [6; 32];
const PROJECT_VAULT: [u8; 32] = [8; 32];

fn a(b: [u8; 32]) -> Address {
    Address::new(b)
}

struct Net {
    program: Address,
    key: Address,
    signer: Address,
    record: BountyNetwork,
}

/// A network registered by MODERATOR with bump 7.
fn network() -> Net {
    let program = a([9; 32]);
    let mut fill: u8 = 10;
    loop {
        let key = a([fill; 32]);
        if let Some(signer) = vault_authority(&program, &key, 7) {
            let mut ctx = InitializeBountyNetwork {
                program_id: program,
                bounty_network_key: key,
                bounty_network: BountyNetwork::zeroed(),
                moderator: a(MODERATOR),
                pool_signer: signer,
            };
            assert_eq!(initialize_bounty_network(&mut ctx, 7), Ok(()));
            return Net { program, key, signer, record: ctx.bounty_network };
        }
        fill += 1;
    }
}

fn reward_vault(net: &Net, amount: u64) -> TokenVault {
    TokenVault { key: a(REWARD_VAULT), mint: a(MINT), owner: net.signer, amount }
}

fn create_ctx(net: &Net, creator: [u8; 32]) -> (CreateBounty, u8) {
    let (key, bump) = bounty_address(&net.program, &net.key, net.record.bounty_count).unwrap();
    let ctx = CreateBounty {
        program_id: net.program,
        bounty_network_key: net.key,
        bounty_network: net.record,
        bounty_key: key,
        bounty: None,
        bounty_authority: a(creator),
        reward_token_mint: a(MINT),
        reward_token_vault: reward_vault(net, 5000),
        pool_signer: net.signer,
    };
    (ctx, bump)
}

fn post(net: &mut Net, creator: [u8; 32], reward: u128) -> (Address, Bounty) {
    let (mut ctx, bump) = create_ctx(net, creator);
    let r = create_bounty(
        &mut ctx,
        "Title".to_string(),
        "Description".to_string(),
        "Project".to_string(),
        reward,
        1_700_000_000,
        bump,
    );
    assert_eq!(r, Ok(()));
    net.record = ctx.bounty_network;
    (ctx.bounty_key, ctx.bounty.unwrap())
}

fn accept_ctx(net: &Net, key: Address, bounty: &Bounty, caller: [u8; 32]) -> AcceptBounty {
    AcceptBounty {
        program_id: net.program,
        bounty_network_key: net.key,
        bounty_network: net.record,
        bounty_key: key,
        bounty: bounty.clone(),
        moderator: a(caller),
    }
}

fn submit_ctx(net: &Net, key: Address, bounty: &Bounty) -> (SubmitWork, u8) {
    let (skey, bump) = submission_address(&net.program, &net.key, &key, bounty.submission_count).unwrap();
    let ctx = SubmitWork {
        program_id: net.program,
        bounty_network_key: net.key,
        bounty_network: net.record,
        bounty_key: key,
        bounty: bounty.clone(),
        submission_key: skey,
        submission: None,
        submitter: a(SUBMITTER),
        token_vault: TokenVault { key: a(PAYOUT_VAULT), mint: a(MINT), owner: a(SUBMITTER), amount: 0 },
        pool_signer: net.signer,
    };
    (ctx, bump)
}

fn submit(ctx: &mut SubmitWork, number: u128, bump: u8) -> Result<(), ErrorCode> {
    submit_work(
        ctx,
        number,
        "Sam".to_string(),
        "https://example.org/work".to_string(),
        "sam@example.org".to_string(),
        "sam#1".to_string(),
        "@sam".to_string(),
        "".to_string(),
        bump,
    )
}

fn select_ctx(net: &Net, key: Address, bounty: &Bounty, sub: &Submission, caller: [u8; 32]) -> SelectWinner {
    let (skey, _) = submission_address(&net.program, &net.key, &key, 0).unwrap();
    SelectWinner {
        program_id: net.program,
        bounty_network_key: net.key,
        bounty_network: net.record,
        bounty_key: key,
        bounty: bounty.clone(),
        submission_key: skey,
        submission_index: 0,
        submission: sub.clone(),
        bounty_authority: a(caller),
        reward_token_vault: reward_vault(net, 5000),
        token_vault: TokenVault { key: a(PAYOUT_VAULT), mint: a(MINT), owner: a(SUBMITTER), amount: 0 },
        pool_signer: net.signer,
    }
}

fn reject_ctx(net: &Net, key: Address, bounty: &Bounty, caller: [u8; 32]) -> RejectBounty {
    RejectBounty {
        program_id: net.program,
        bounty_network_key: net.key,
        bounty_network: net.record,
        bounty_key: key,
        bounty: bounty.clone(),
        reward_token_vault: reward_vault(net, 5000),
        project_token_vault: TokenVault { key: a(PROJECT_VAULT), mint: a(MINT), owner: a(CREATOR), amount: 0 },
        pool_signer: net.signer,
        moderator: a(caller),
    }
}

/// A bounty by CREATOR with one submission by SUBMITTER.
fn bounty_with_submission(net: &mut Net, reward: u128) -> (Address, Bounty, Submission) {
    let (key, bounty) = post(net, CREATOR, reward);
    let (mut s, bump) = submit_ctx(net, key, &bounty);
    assert_eq!(submit(&mut s, bounty.bounty_number, bump), Ok(()));
    (key, s.bounty, s.submission.unwrap())
}

#[test]
fn full_lifecycle_pays_winner_once() {
    let mut net = network();
    assert_eq!(net.record.moderator.to_bytes(), MODERATOR);
    assert_eq!(net.record.bounty_count, 0);
    assert_eq!(net.record.nonce, 7);

    let (key, b0) = post(&mut net, CREATOR, 1000);
    assert_eq!(b0.bounty_number, 0);
    assert!(!b0.accepted);
    assert_eq!(net.record.bounty_count, 1);

    let mut acc = accept_ctx(&net, key, &b0, MODERATOR);
    assert_eq!(accept_bounty(&mut acc, 0), Ok(()));
    assert!(acc.bounty.accepted);

    let (mut s, bump) = submit_ctx(&net, key, &acc.bounty);
    let expected_key = submission_address(&net.program, &net.key, &key, 0).unwrap().0;
    assert_eq!(s.submission_key.to_bytes(), expected_key.to_bytes());
    assert_eq!(submit(&mut s, 0, bump), Ok(()));
    assert_eq!(s.bounty.submission_count, 1);
    let sub = s.submission.clone().unwrap();
    assert_eq!(sub.wallet.to_bytes(), SUBMITTER);
    assert_eq!(sub.token_vault.to_bytes(), PAYOUT_VAULT);

    let mut vault_balance: u64 = 5000;
    let mut payout_balance: u64 = 0;
    let mut sel = select_ctx(&net, key, &s.bounty, &sub, CREATOR);
    let t = select_winner(&mut sel, 0).unwrap();
    assert!(sel.bounty.completed);
    assert_eq!(t.from.to_bytes(), REWARD_VAULT);
    assert_eq!(t.to.to_bytes(), PAYOUT_VAULT);
    assert_eq!(t.authority.to_bytes(), net.signer.to_bytes());
    assert_eq!(t.authority_bump, 7);
    vault_balance -= t.amount;
    payout_balance += t.amount;
    assert_eq!(vault_balance, 4000);
    assert_eq!(payout_balance, 1000);

    let before = format!("{:?}", sel);
    assert_eq!(select_winner(&mut sel, 0).err(), Some(ErrorCode::BountyAlreadyCompleted));
    assert_eq!(format!("{:?}", sel), before);
    assert_eq!(vault_balance, 4000);
}

#[test]
fn moderator_bounty_is_accepted_at_creation() {
    let mut net = network();
    let (_, b1) = post(&mut net, MODERATOR, 250);
    assert!(b1.accepted);
    assert!(!b1.completed);
    assert_eq!(b1.bounty_authority.to_bytes(), MODERATOR);
}

#[test]
fn bounty_numbers_are_sequential() {
    let mut net = network();
    for i in 0..4u128 {
        let (key, b) = post(&mut net, CREATOR, 10);
        assert_eq!(b.bounty_number, i);
        let expected = bounty_address(&net.program, &net.key, i).unwrap().0;
        assert_eq!(key.to_bytes(), expected.to_bytes());
    }
    assert_eq!(net.record.bounty_count, 4);
}

#[test]
fn accept_twice_is_idempotent() {
    let mut net = network();
    let (key, b) = post(&mut net, CREATOR, 10);
    let mut acc = accept_ctx(&net, key, &b, MODERATOR);
    assert_eq!(accept_bounty(&mut acc, 0), Ok(()));
    let once = format!("{:?}", acc);
    assert_eq!(accept_bounty(&mut acc, 0), Ok(()));
    assert!(acc.bounty.accepted);
    assert_eq!(format!("{:?}", acc), once);
}

#[test]
fn reject_returns_exact_reward_once() {
    let mut net = network();
    let (key, b) = post(&mut net, CREATOR, 1200);
    let mut rej = reject_ctx(&net, key, &b, MODERATOR);
    let t = reject_bounty(&mut rej, 0).unwrap();
    assert_eq!(t.amount, 1200);
    assert_eq!(t.from.to_bytes(), REWARD_VAULT);
    assert_eq!(t.to.to_bytes(), PROJECT_VAULT);
    let before: u64 = 5000;
    assert_eq!(before - (before - t.amount), 1200);
    assert!(rej.bounty.rejected);
    assert!(!rej.bounty.completed);
    let snapshot = format!("{:?}", rej);
    assert_eq!(reject_bounty(&mut rej, 0).err(), Some(ErrorCode::BountyRejected));
    assert_eq!(format!("{:?}", rej), snapshot);
}

#[test]
fn select_after_reject_is_refused() {
    let mut net = network();
    let (key, b, sub) = bounty_with_submission(&mut net, 300);
    let mut rej = reject_ctx(&net, key, &b, MODERATOR);
    assert!(reject_bounty(&mut rej, 0).is_ok());
    let mut sel = select_ctx(&net, key, &rej.bounty, &sub, CREATOR);
    assert_eq!(select_winner(&mut sel, 0).err(), Some(ErrorCode::BountyRejected));
    assert!(!sel.bounty.completed);
}

#[test]
fn reject_after_completion_is_refused() {
    let mut net = network();
    let (key, b, sub) = bounty_with_submission(&mut net, 300);
    let mut sel = select_ctx(&net, key, &b, &sub, CREATOR);
    assert!(select_winner(&mut sel, 0).is_ok());
    let mut rej = reject_ctx(&net, key, &sel.bounty, MODERATOR);
    assert_eq!(reject_bounty(&mut rej, 0).err(), Some(ErrorCode::BountyAlreadyCompleted));
}

#[test]
fn wrong_roles_are_unauthorized_without_effect() {
    let mut net = network();
    let (key, b, sub) = bounty_with_submission(&mut net, 300);

    let mut acc = accept_ctx(&net, key, &b, CREATOR);
    let snap = format!("{:?}", acc);
    assert_eq!(accept_bounty(&mut acc, 0), Err(ErrorCode::Unauthorized));
    assert_eq!(format!("{:?}", acc), snap);

    let mut rej = reject_ctx(&net, key, &b, SUBMITTER);
    let snap = format!("{:?}", rej);
    assert_eq!(reject_bounty(&mut rej, 0).err(), Some(ErrorCode::Unauthorized));
    assert_eq!(format!("{:?}", rej), snap);

    let mut sel = select_ctx(&net, key, &b, &sub, MODERATOR);
    let snap = format!("{:?}", sel);
    assert_eq!(select_winner(&mut sel, 0).err(), Some(ErrorCode::Unauthorized));
    assert_eq!(format!("{:?}", sel), snap);
}

#[test]
fn network_cannot_be_initialized_twice() {
    let net = network();
    let mut ctx = InitializeBountyNetwork {
        program_id: net.program,
        bounty_network_key: net.key,
        bounty_network: net.record,
        moderator: a(CREATOR),
        pool_signer: net.signer,
    };
    assert_eq!(initialize_bounty_network(&mut ctx, 7), Err(ErrorCode::AccountAlreadyInitialized));
    assert_eq!(ctx.bounty_network.moderator.to_bytes(), MODERATOR);
}

#[test]
fn wrong_nonce_is_invalid_derivation() {
    let net = network();
    let mut ctx = InitializeBountyNetwork {
        program_id: net.program,
        bounty_network_key: net.key,
        bounty_network: BountyNetwork::zeroed(),
        moderator: a(MODERATOR),
        pool_signer: net.signer,
    };
    assert_eq!(initialize_bounty_network(&mut ctx, 8), Err(ErrorCode::InvalidDerivation));
    assert_eq!(ctx.bounty_network.bounty_count, 0);
}

#[test]
fn bounty_record_cannot_be_created_twice() {
    let mut net = network();
    let (key, b) = post(&mut net, CREATOR, 10);
    let (mut ctx, bump) = create_ctx(&net, CREATOR);
    ctx.bounty_key = key;
    ctx.bounty = Some(b);
    let r = create_bounty(&mut ctx, "t".to_string(), "d".to_string(), "p".to_string(), 1, 0, bump);
    assert_eq!(r, Err(ErrorCode::AccountAlreadyInitialized));
    assert_eq!(ctx.bounty_network.bounty_count, 1);
}

#[test]
fn stale_bounty_address_is_refused() {
    let mut net = network();
    let (key, _) = post(&mut net, CREATOR, 10);
    let (mut ctx, bump) = create_ctx(&net, CREATOR);
    ctx.bounty_key = key;
    let r = create_bounty(&mut ctx, "t".to_string(), "d".to_string(), "p".to_string(), 1, 0, bump);
    assert_eq!(r, Err(ErrorCode::InvalidDerivation));
    assert!(ctx.bounty.is_none());
}

#[test]
fn reward_vault_of_other_mint_is_refused() {
    let net = network();
    let (mut ctx, bump) = create_ctx(&net, CREATOR);
    ctx.reward_token_vault.mint = a([42; 32]);
    let r = create_bounty(&mut ctx, "t".to_string(), "d".to_string(), "p".to_string(), 1, 0, bump);
    assert_eq!(r, Err(ErrorCode::ConstraintViolation));
    assert_eq!(ctx.bounty_network.bounty_count, 0);
}

#[test]
fn full_counter_overflows() {
    let mut net = network();
    net.record.bounty_count = u128::MAX;
    let program = net.program;
    let mut ctx = CreateBounty {
        program_id: program,
        bounty_network_key: net.key,
        bounty_network: net.record,
        bounty_key: a([0; 32]),
        bounty: None,
        bounty_authority: a(CREATOR),
        reward_token_mint: a(MINT),
        reward_token_vault: reward_vault(&net, 1),
        pool_signer: net.signer,
    };
    let r = create_bounty(&mut ctx, "t".to_string(), "d".to_string(), "p".to_string(), 1, 0, 255);
    assert_eq!(r, Err(ErrorCode::CounterOverflow));
}

#[test]
fn oversized_reward_is_refused() {
    let mut net = network();
    let (key, b, sub) = bounty_with_submission(&mut net, (u64::MAX as u128) + 1);
    let mut sel = select_ctx(&net, key, &b, &sub, CREATOR);
    assert_eq!(select_winner(&mut sel, 0).err(), Some(ErrorCode::RewardTooLarge));
    assert!(!sel.bounty.completed);
}

#[test]
fn substituted_payout_vault_is_refused() {
    let mut net = network();
    let (key, b, sub) = bounty_with_submission(&mut net, 10);
    let mut sel = select_ctx(&net, key, &b, &sub, CREATOR);
    sel.token_vault.key = a([77; 32]);
    assert_eq!(select_winner(&mut sel, 0).err(), Some(ErrorCode::ConstraintViolation));
}

#[test]
fn project_vault_must_belong_to_creator() {
    let mut net = network();
    let (key, b) = post(&mut net, CREATOR, 10);
    let mut rej = reject_ctx(&net, key, &b, MODERATOR);
    rej.project_token_vault.owner = a(SUBMITTER);
    assert_eq!(reject_bounty(&mut rej, 0).err(), Some(ErrorCode::ConstraintViolation));
    assert!(!rej.bounty.rejected);
}

#[test]
fn work_on_completed_bounty_is_refused() {
    let mut net = network();
    let (key, b, sub) = bounty_with_submission(&mut net, 10);
    let mut sel = select_ctx(&net, key, &b, &sub, CREATOR);
    assert!(select_winner(&mut sel, 0).is_ok());
    let (mut s, bump) = submit_ctx(&net, key, &sel.bounty);
    assert_eq!(submit(&mut s, 0, bump), Err(ErrorCode::BountyAlreadyCompleted));
    let mut acc = accept_ctx(&net, key, &sel.bounty, MODERATOR);
    assert_eq!(accept_bounty(&mut acc, 0), Err(ErrorCode::BountyAlreadyCompleted));
}

#[test]
fn second_submission_gets_next_index() {
    let mut net = network();
    let (key, b, _) = bounty_with_submission(&mut net, 10);
    assert_eq!(b.submission_count, 1);
    let (mut s, bump) = submit_ctx(&net, key, &b);
    let first = submission_address(&net.program, &net.key, &key, 0).unwrap().0;
    assert_ne!(s.submission_key.to_bytes(), first.to_bytes());
    assert_eq!(submit(&mut s, 0, bump), Ok(()));
    assert_eq!(s.bounty.submission_count, 2);
}

#[test]
fn decimal_text_of_numbers() {
    assert_eq!(decimal_bytes(0), b"0".to_vec());
    assert_eq!(decimal_bytes(7), b"7".to_vec());
    assert_eq!(decimal_bytes(1234), b"1234".to_vec());
    assert_eq!(decimal_bytes(u128::MAX), u128::MAX.to_string().into_bytes());
}

#[test]
fn derivations_match_the_ledger() {
    let program = a([9; 32]);
    let net = a([21; 32]);
    let pid = Pubkey::new_from_array([9; 32]);
    let (pk, bump) = Pubkey::find_program_address(&[&[21u8; 32]], &pid);
    let (found, fbump) = find_vault_authority(&program, &net).unwrap();
    assert_eq!(found.to_bytes(), pk.to_bytes());
    assert_eq!(fbump, bump);
    let direct = vault_authority(&program, &net, bump).unwrap();
    assert_eq!(direct.to_bytes(), pk.to_bytes());
    assert_ne!(direct.to_bytes(), net.to_bytes());

    let (bk, bb) = Pubkey::find_program_address(&[&[21u8; 32], b"12"], &pid);
    let (key, b) = bounty_address(&program, &net, 12).unwrap();
    assert_eq!(key.to_bytes(), bk.to_bytes());
    assert_eq!(b, bb);

    let (sk, sb) = Pubkey::find_program_address(&[&[21u8; 32], &bk.to_bytes(), b"3"], &pid);
    let (skey, s) = submission_address(&program, &net, &key, 3).unwrap();
    assert_eq!(skey.to_bytes(), sk.to_bytes());
    assert_eq!(s, sb);
}

#[test]
fn submitter_must_own_payout_vault() {
    let mut net = network();
    let (key, b) = post(&mut net, CREATOR, 10);
    let (mut s, bump) = submit_ctx(&net, key, &b);
    s.token_vault.owner = a(CREATOR);
    let snap = format!("{:?}", s);
    assert_eq!(submit(&mut s, 0, bump), Err(ErrorCode::Unauthorized));
    assert_eq!(format!("{:?}", s), snap);
}

#[test]
fn submission_number_must_match_bounty() {
    let mut net = network();
    let (key, b) = post(&mut net, CREATOR, 10);
    let (mut s, bump) = submit_ctx(&net, key, &b);
    assert_eq!(submit(&mut s, 1, bump), Err(ErrorCode::ConstraintViolation));
    assert!(s.submission.is_none());
}

#[test]
fn submission_of_another_bounty_is_refused() {
    let mut net = network();
    let (key0, b0, _) = bounty_with_submission(&mut net, 10);
    let (key1, _b1, sub1) = bounty_with_submission(&mut net, 10);
    // the submission to bounty 1, offered as the winner of bounty 0
    let mut sel = select_ctx(&net, key0, &b0, &sub1, CREATOR);
    sel.submission_key = submission_address(&net.program, &net.key, &key1, 0).unwrap().0;
    let mut forged = sub1.clone();
    forged.bounty_number = 0;
    sel.submission = forged;
    assert_eq!(select_winner(&mut sel, 0).err(), Some(ErrorCode::ConstraintViolation));
    assert!(!sel.bounty.completed);
}

#[test]
fn submission_index_beyond_count_is_refused() {
    let mut net = network();
    let (key, b, sub) = bounty_with_submission(&mut net, 10);
    let mut sel = select_ctx(&net, key, &b, &sub, CREATOR);
    sel.submission_index = 1;
    sel.submission_key = submission_address(&net.program, &net.key, &key, 1).unwrap().0;
    assert_eq!(select_winner(&mut sel, 0).err(), Some(ErrorCode::ConstraintViolation));
}

#[test]
fn payout_to_the_reward_vault_itself_is_refused() {
    let mut net = network();
    let (key, b) = post(&mut net, CREATOR, 10);
    let mut rej = reject_ctx(&net, key, &b, MODERATOR);
    rej.project_token_vault.key = a(REWARD_VAULT);
    assert_eq!(reject_bounty(&mut rej, 0).err(), Some(ErrorCode::ConstraintViolation));
}
