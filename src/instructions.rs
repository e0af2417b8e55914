use vstd::prelude::*;
use crate::address::{Address, same_address};
use crate::authorization::{Operation, authorize, permits};
use crate::derivation::{
    bounty_address, bounty_seeds, derives, is_vault_authority, matches_derivation,
    submission_address, submission_seeds, vault_authority,
};
use crate::state::{Bounty, BountyNetwork, ErrorCode, Submission, TokenTransfer, TokenVault};

verus! {

/// The change that paying a bounty's winner makes: only an open bounty is paid,
/// and it is then completed.
pub open spec fn pays_out(before: Bounty, after: Bounty) -> bool {
    !before.completed && !before.rejected && after == (Bounty { completed: true, ..before })
}

/// The changes that one operation may make to an existing bounty record: none,
/// acceptance, one more submission, rejection, or the payout.
pub open spec fn bounty_step(before: Bounty, after: Bounty) -> bool {
    ||| after == before
    ||| !before.completed && after == (Bounty { accepted: true, ..before })
    ||| !before.completed && !before.rejected
        && after == (Bounty { submission_count: (before.submission_count + 1) as u64, ..before })
    ||| !before.completed && !before.rejected && after == (Bounty { rejected: true, ..before })
    ||| pays_out(before, after)
}

/// The records that registering a network reads and writes.
#[derive(Clone, Debug)]
pub struct InitializeBountyNetwork {
    pub program_id: Address,
    pub bounty_network_key: Address,
    pub bounty_network: BountyNetwork,
    pub moderator: Address,
    pub pool_signer: Address,
}

/// Why registering a network fails, if it does.
pub open spec fn initialize_check(ctx: InitializeBountyNetwork, nonce: u8) -> Result<(), ErrorCode> {
    if !ctx.bounty_network.is_zeroed() {
        Err(ErrorCode::AccountAlreadyInitialized)
    } else if !is_vault_authority(ctx.program_id@, ctx.bounty_network_key@, ctx.pool_signer@, nonce) {
        Err(ErrorCode::InvalidDerivation)
    } else {
        Ok(())
    }
}

/// The vault authority of the network at `key` is `signer` with bump `nonce`.
fn check_vault_authority(program_id: &Address, key: &Address, signer: &Address, nonce: u8) -> (r: bool)
    ensures
        r == is_vault_authority(program_id@, key@, signer@, nonce),
{
    match vault_authority(program_id, key, nonce) {
        Some(a) => same_address(&a, signer),
        None => false,
    }
}

/// The bounty record at `key` with bump `nonce` is bounty `number` of the network at `network`.
fn check_bounty_address(program_id: &Address, network: &Address, number: u128, key: &Address, nonce: u8) -> (r: bool)
    ensures
        r == derives(bounty_seeds(network@, number as nat), program_id@, key@, nonce),
{
    let found = bounty_address(program_id, network, number);
    matches_derivation(&found, key, nonce)
}

/// Registers a network: the signer becomes its moderator for good, and `nonce`
/// fixes its vault authority.
pub fn initialize_bounty_network(ctx: &mut InitializeBountyNetwork, nonce: u8) -> (r: Result<(), ErrorCode>)
    ensures
        r == initialize_check(*old(ctx), nonce),
        r is Ok ==> *final(ctx) == (InitializeBountyNetwork {
            bounty_network: BountyNetwork { moderator: old(ctx).moderator, bounty_count: 0, nonce },
            ..*old(ctx)
        }),
        r is Err ==> *final(ctx) == *old(ctx),
{
    let n = &ctx.bounty_network;
    if !(same_address(&n.moderator, &Address::zero()) && n.bounty_count == 0 && n.nonce == 0) {
        return Err(ErrorCode::AccountAlreadyInitialized);
    }
    if !check_vault_authority(&ctx.program_id, &ctx.bounty_network_key, &ctx.pool_signer, nonce) {
        return Err(ErrorCode::InvalidDerivation);
    }
    ctx.bounty_network = BountyNetwork { moderator: ctx.moderator, bounty_count: 0, nonce };
    Ok(())
}

/// The records that accepting a bounty reads and writes.
#[derive(Clone, Debug)]
pub struct AcceptBounty {
    pub program_id: Address,
    pub bounty_network_key: Address,
    pub bounty_network: BountyNetwork,
    pub bounty_key: Address,
    pub bounty: Bounty,
    pub moderator: Address,
}

/// Why accepting bounty `number` fails, if it does.
pub open spec fn accept_check(ctx: AcceptBounty, number: u128) -> Result<(), ErrorCode> {
    if !permits(Operation::AcceptBounty, ctx.moderator, ctx.bounty_network, ctx.bounty) {
        Err(ErrorCode::Unauthorized)
    } else if ctx.bounty.bounty_network@ != ctx.bounty_network_key@ {
        Err(ErrorCode::ConstraintViolation)
    } else if !derives(bounty_seeds(ctx.bounty_network_key@, number as nat), ctx.program_id@, ctx.bounty_key@, ctx.bounty.nonce) {
        Err(ErrorCode::InvalidDerivation)
    } else if ctx.bounty.completed {
        Err(ErrorCode::BountyAlreadyCompleted)
    } else {
        Ok(())
    }
}

/// The records after a successful acceptance: the bounty is accepted, nothing else changes.
pub open spec fn accepted(ctx: AcceptBounty) -> AcceptBounty {
    AcceptBounty { bounty: Bounty { accepted: true, ..ctx.bounty }, ..ctx }
}

/// The moderator accepts bounty `number`; accepting an accepted bounty changes nothing.
pub fn accept_bounty(ctx: &mut AcceptBounty, bounty_number: u128) -> (r: Result<(), ErrorCode>)
    ensures
        r == accept_check(*old(ctx), bounty_number),
        r is Ok ==> *final(ctx) == accepted(*old(ctx)),
        r is Err ==> *final(ctx) == *old(ctx),
        bounty_step(old(ctx).bounty, final(ctx).bounty),
{
    if !authorize(Operation::AcceptBounty, &ctx.moderator, &ctx.bounty_network, &ctx.bounty) {
        return Err(ErrorCode::Unauthorized);
    }
    if !same_address(&ctx.bounty.bounty_network, &ctx.bounty_network_key) {
        return Err(ErrorCode::ConstraintViolation);
    }
    if !check_bounty_address(&ctx.program_id, &ctx.bounty_network_key, bounty_number, &ctx.bounty_key, ctx.bounty.nonce) {
        return Err(ErrorCode::InvalidDerivation);
    }
    if ctx.bounty.completed {
        return Err(ErrorCode::BountyAlreadyCompleted);
    }
    ctx.bounty.accepted = true;
    Ok(())
}

/// The records that posting a bounty reads and writes; `bounty` is `None`
/// until the record exists.
#[derive(Clone, Debug)]
pub struct CreateBounty {
    pub program_id: Address,
    pub bounty_network_key: Address,
    pub bounty_network: BountyNetwork,
    pub bounty_key: Address,
    pub bounty: Option<Bounty>,
    pub bounty_authority: Address,
    pub reward_token_mint: Address,
    pub reward_token_vault: TokenVault,
    pub pool_signer: Address,
}

/// Why posting a bounty with bump `nonce` fails, if it does.
pub open spec fn create_check(ctx: CreateBounty, nonce: u8) -> Result<(), ErrorCode> {
    if ctx.bounty is Some {
        Err(ErrorCode::AccountAlreadyInitialized)
    } else if ctx.bounty_network.bounty_count == u128::MAX {
        Err(ErrorCode::CounterOverflow)
    } else if !derives(bounty_seeds(ctx.bounty_network_key@, ctx.bounty_network.bounty_count as nat), ctx.program_id@, ctx.bounty_key@, nonce) {
        Err(ErrorCode::InvalidDerivation)
    } else if !is_vault_authority(ctx.program_id@, ctx.bounty_network_key@, ctx.pool_signer@, ctx.bounty_network.nonce) {
        Err(ErrorCode::InvalidDerivation)
    } else if ctx.reward_token_vault.mint@ != ctx.reward_token_mint@ || ctx.reward_token_vault.owner@ != ctx.pool_signer@ {
        Err(ErrorCode::ConstraintViolation)
    } else {
        Ok(())
    }
}

/// The bounty record that a successful posting writes.
pub open spec fn new_bounty(
    ctx: CreateBounty,
    title: String,
    description: String,
    project: String,
    reward_amount: u128,
    deadline: u64,
    nonce: u8,
) -> Bounty {
    Bounty {
        bounty_authority: ctx.bounty_authority,
        bounty_network: ctx.bounty_network_key,
        bounty_number: ctx.bounty_network.bounty_count,
        title,
        description,
        project,
        accepted: ctx.bounty_authority@ == ctx.bounty_network.moderator@,
        completed: false,
        rejected: false,
        reward_amount,
        reward_token_mint: ctx.reward_token_mint,
        reward_token_vault: ctx.reward_token_vault.key,
        submission_count: 0,
        deadline,
        nonce,
    }
}

/// `after` is what a successful posting makes of `before`, for some text,
/// reward, deadline and bump.
pub open spec fn posts(before: CreateBounty, after: CreateBounty) -> bool {
    after.bounty matches Some(b) && create_check(before, b.nonce) is Ok && after == (CreateBounty {
        bounty: Some(new_bounty(before, b.title, b.description, b.project, b.reward_amount, b.deadline, b.nonce)),
        bounty_network: BountyNetwork {
            bounty_count: (before.bounty_network.bounty_count + 1) as u128,
            ..before.bounty_network
        },
        ..before
    })
}

/// Posts bounty number `bounty_count` of the network, escrowed in a vault of the
/// network's vault authority, and counts it. A bounty posted by the moderator
/// is accepted from the start.
pub fn create_bounty(
    ctx: &mut CreateBounty,
    title: String,
    description: String,
    project: String,
    reward_amount: u128,
    deadline: u64,
    nonce: u8,
) -> (r: Result<(), ErrorCode>)
    ensures
        r == create_check(*old(ctx), nonce),
        r is Ok ==> *final(ctx) == (CreateBounty {
            bounty: Some(new_bounty(*old(ctx), title, description, project, reward_amount, deadline, nonce)),
            bounty_network: BountyNetwork {
                bounty_count: (old(ctx).bounty_network.bounty_count + 1) as u128,
                ..old(ctx).bounty_network
            },
            ..*old(ctx)
        }),
        r is Ok ==> posts(*old(ctx), *final(ctx)),
        r is Err ==> *final(ctx) == *old(ctx),
{
    if ctx.bounty.is_some() {
        return Err(ErrorCode::AccountAlreadyInitialized);
    }
    let count = ctx.bounty_network.bounty_count;
    if count == u128::MAX {
        return Err(ErrorCode::CounterOverflow);
    }
    if !check_bounty_address(&ctx.program_id, &ctx.bounty_network_key, count, &ctx.bounty_key, nonce) {
        return Err(ErrorCode::InvalidDerivation);
    }
    if !check_vault_authority(&ctx.program_id, &ctx.bounty_network_key, &ctx.pool_signer, ctx.bounty_network.nonce) {
        return Err(ErrorCode::InvalidDerivation);
    }
    if !same_address(&ctx.reward_token_vault.mint, &ctx.reward_token_mint)
        || !same_address(&ctx.reward_token_vault.owner, &ctx.pool_signer) {
        return Err(ErrorCode::ConstraintViolation);
    }
    let accepted = same_address(&ctx.bounty_authority, &ctx.bounty_network.moderator);
    ctx.bounty = Some(Bounty {
        bounty_authority: ctx.bounty_authority,
        bounty_network: ctx.bounty_network_key,
        bounty_number: count,
        title,
        description,
        project,
        accepted,
        completed: false,
        rejected: false,
        reward_amount,
        reward_token_mint: ctx.reward_token_mint,
        reward_token_vault: ctx.reward_token_vault.key,
        submission_count: 0,
        deadline,
        nonce,
    });
    ctx.bounty_network.bounty_count = count + 1;
    Ok(())
}

/// The records that submitting work reads and writes; `submission` is `None`
/// until the record exists.
#[derive(Clone, Debug)]
pub struct SubmitWork {
    pub program_id: Address,
    pub bounty_network_key: Address,
    pub bounty_network: BountyNetwork,
    pub bounty_key: Address,
    pub bounty: Bounty,
    pub submission_key: Address,
    pub submission: Option<Submission>,
    pub submitter: Address,
    pub token_vault: TokenVault,
    pub pool_signer: Address,
}

/// Why submitting work against bounty `number` with bump `nonce` fails, if it does.
pub open spec fn submit_check(ctx: SubmitWork, number: u128, nonce: u8) -> Result<(), ErrorCode> {
    if ctx.token_vault.owner@ != ctx.submitter@ {
        Err(ErrorCode::Unauthorized)
    } else if ctx.submission is Some {
        Err(ErrorCode::AccountAlreadyInitialized)
    } else if ctx.bounty.bounty_network@ != ctx.bounty_network_key@ || ctx.bounty.bounty_number != number {
        Err(ErrorCode::ConstraintViolation)
    } else if !derives(bounty_seeds(ctx.bounty_network_key@, number as nat), ctx.program_id@, ctx.bounty_key@, ctx.bounty.nonce) {
        Err(ErrorCode::InvalidDerivation)
    } else if ctx.bounty.completed {
        Err(ErrorCode::BountyAlreadyCompleted)
    } else if ctx.bounty.rejected {
        Err(ErrorCode::BountyRejected)
    } else if ctx.bounty.submission_count == u64::MAX {
        Err(ErrorCode::CounterOverflow)
    } else if !derives(
        submission_seeds(ctx.bounty_network_key@, ctx.bounty_key@, ctx.bounty.submission_count as nat),
        ctx.program_id@,
        ctx.submission_key@,
        nonce,
    ) {
        Err(ErrorCode::InvalidDerivation)
    } else if ctx.token_vault.mint@ != ctx.bounty.reward_token_mint@ {
        Err(ErrorCode::ConstraintViolation)
    } else if !is_vault_authority(ctx.program_id@, ctx.bounty_network_key@, ctx.pool_signer@, ctx.bounty_network.nonce) {
        Err(ErrorCode::InvalidDerivation)
    } else {
        Ok(())
    }
}

/// Records work against bounty `bounty_number` as submission number
/// `submission_count` of the bounty, paid out to the submitter's own vault, and
/// counts it.
pub fn submit_work(
    ctx: &mut SubmitWork,
    bounty_number: u128,
    name: String,
    link_to_submission: String,
    email: String,
    discord: String,
    twitter: String,
    anything_else: String,
    nonce: u8,
) -> (r: Result<(), ErrorCode>)
    ensures
        r == submit_check(*old(ctx), bounty_number, nonce),
        r is Ok ==> *final(ctx) == (SubmitWork {
            bounty: Bounty {
                submission_count: (old(ctx).bounty.submission_count + 1) as u64,
                ..old(ctx).bounty
            },
            submission: Some(Submission {
                bounty_number,
                name,
                link_to_submission,
                wallet: old(ctx).submitter,
                token_vault: old(ctx).token_vault.key,
                email,
                discord,
                twitter,
                anything_else,
                nonce,
            }),
            ..*old(ctx)
        }),
        r is Err ==> *final(ctx) == *old(ctx),
        bounty_step(old(ctx).bounty, final(ctx).bounty),
{
    if !same_address(&ctx.token_vault.owner, &ctx.submitter) {
        return Err(ErrorCode::Unauthorized);
    }
    if ctx.submission.is_some() {
        return Err(ErrorCode::AccountAlreadyInitialized);
    }
    if !same_address(&ctx.bounty.bounty_network, &ctx.bounty_network_key) || ctx.bounty.bounty_number != bounty_number {
        return Err(ErrorCode::ConstraintViolation);
    }
    if !check_bounty_address(&ctx.program_id, &ctx.bounty_network_key, bounty_number, &ctx.bounty_key, ctx.bounty.nonce) {
        return Err(ErrorCode::InvalidDerivation);
    }
    if ctx.bounty.completed {
        return Err(ErrorCode::BountyAlreadyCompleted);
    }
    if ctx.bounty.rejected {
        return Err(ErrorCode::BountyRejected);
    }
    let index = ctx.bounty.submission_count;
    if index == u64::MAX {
        return Err(ErrorCode::CounterOverflow);
    }
    let found = submission_address(&ctx.program_id, &ctx.bounty_network_key, &ctx.bounty_key, index);
    if !matches_derivation(&found, &ctx.submission_key, nonce) {
        return Err(ErrorCode::InvalidDerivation);
    }
    if !same_address(&ctx.token_vault.mint, &ctx.bounty.reward_token_mint) {
        return Err(ErrorCode::ConstraintViolation);
    }
    if !check_vault_authority(&ctx.program_id, &ctx.bounty_network_key, &ctx.pool_signer, ctx.bounty_network.nonce) {
        return Err(ErrorCode::InvalidDerivation);
    }
    ctx.submission = Some(Submission {
        bounty_number,
        name,
        link_to_submission,
        wallet: ctx.submitter,
        token_vault: ctx.token_vault.key,
        email,
        discord,
        twitter,
        anything_else,
        nonce,
    });
    ctx.bounty.submission_count = index + 1;
    Ok(())
}

/// The transfer that pays `bounty`'s whole reward out of `reward_vault` to `to`,
/// signed by the network's vault authority.
pub open spec fn payout(network_key: Address, network: BountyNetwork, bounty: Bounty, reward_vault: Address, signer: Address, to: Address) -> TokenTransfer {
    TokenTransfer {
        from: reward_vault,
        to,
        authority: signer,
        authority_seed: network_key,
        authority_bump: network.nonce,
        amount: bounty.reward_amount as u64,
    }
}

/// Builds the transfer of a bounty's whole reward; the token program moves
/// at most `u64::MAX` units at once.
fn reward_transfer(
    network_key: &Address,
    network: &BountyNetwork,
    bounty: &Bounty,
    reward_vault: &Address,
    signer: &Address,
    to: &Address,
) -> (r: TokenTransfer)
    requires
        bounty.reward_amount <= u64::MAX,
    ensures
        r == payout(*network_key, *network, *bounty, *reward_vault, *signer, *to),
        r.amount == bounty.reward_amount,
{
    TokenTransfer {
        from: *reward_vault,
        to: *to,
        authority: *signer,
        authority_seed: *network_key,
        authority_bump: network.nonce,
        amount: bounty.reward_amount as u64,
    }
}

/// The records that rejecting a bounty reads and writes.
#[derive(Clone, Debug)]
pub struct RejectBounty {
    pub program_id: Address,
    pub bounty_network_key: Address,
    pub bounty_network: BountyNetwork,
    pub bounty_key: Address,
    pub bounty: Bounty,
    pub reward_token_vault: TokenVault,
    pub project_token_vault: TokenVault,
    pub pool_signer: Address,
    pub moderator: Address,
}

/// Why rejecting bounty `number` fails, if it does.
pub open spec fn reject_check(ctx: RejectBounty, number: u128) -> Result<(), ErrorCode> {
    if !permits(Operation::RejectBounty, ctx.moderator, ctx.bounty_network, ctx.bounty) {
        Err(ErrorCode::Unauthorized)
    } else if ctx.bounty.bounty_network@ != ctx.bounty_network_key@ {
        Err(ErrorCode::ConstraintViolation)
    } else if !derives(bounty_seeds(ctx.bounty_network_key@, number as nat), ctx.program_id@, ctx.bounty_key@, ctx.bounty.nonce) {
        Err(ErrorCode::InvalidDerivation)
    } else if !is_vault_authority(ctx.program_id@, ctx.bounty_network_key@, ctx.pool_signer@, ctx.bounty_network.nonce) {
        Err(ErrorCode::InvalidDerivation)
    } else if ctx.reward_token_vault.key@ != ctx.bounty.reward_token_vault@
        || ctx.reward_token_vault.mint@ != ctx.bounty.reward_token_mint@
        || ctx.reward_token_vault.owner@ != ctx.pool_signer@ {
        Err(ErrorCode::ConstraintViolation)
    } else if ctx.project_token_vault.mint@ != ctx.bounty.reward_token_mint@
        || ctx.project_token_vault.owner@ != ctx.bounty.bounty_authority@
        || ctx.project_token_vault.key@ == ctx.reward_token_vault.key@ {
        Err(ErrorCode::ConstraintViolation)
    } else if ctx.bounty.completed {
        Err(ErrorCode::BountyAlreadyCompleted)
    } else if ctx.bounty.rejected {
        Err(ErrorCode::BountyRejected)
    } else if ctx.bounty.reward_amount > u64::MAX {
        Err(ErrorCode::RewardTooLarge)
    } else {
        Ok(())
    }
}

/// The moderator rejects bounty `bounty_number`: its whole reward goes back to
/// a vault of its creator, once. The returned transfer is to be carried out in
/// the same atomic operation.
pub fn reject_bounty(ctx: &mut RejectBounty, bounty_number: u128) -> (r: Result<TokenTransfer, ErrorCode>)
    ensures
        r is Ok <==> reject_check(*old(ctx), bounty_number) is Ok,
        r matches Err(e) ==> reject_check(*old(ctx), bounty_number) == Err::<(), ErrorCode>(e),
        r matches Ok(t) ==> t == payout(
            old(ctx).bounty_network_key,
            old(ctx).bounty_network,
            old(ctx).bounty,
            old(ctx).reward_token_vault.key,
            old(ctx).pool_signer,
            old(ctx).project_token_vault.key,
        ) && t.amount == old(ctx).bounty.reward_amount,
        r is Ok ==> *final(ctx) == (RejectBounty { bounty: Bounty { rejected: true, ..old(ctx).bounty }, ..*old(ctx) }),
        r is Err ==> *final(ctx) == *old(ctx),
        bounty_step(old(ctx).bounty, final(ctx).bounty),
{
    if !authorize(Operation::RejectBounty, &ctx.moderator, &ctx.bounty_network, &ctx.bounty) {
        return Err(ErrorCode::Unauthorized);
    }
    if !same_address(&ctx.bounty.bounty_network, &ctx.bounty_network_key) {
        return Err(ErrorCode::ConstraintViolation);
    }
    if !check_bounty_address(&ctx.program_id, &ctx.bounty_network_key, bounty_number, &ctx.bounty_key, ctx.bounty.nonce) {
        return Err(ErrorCode::InvalidDerivation);
    }
    if !check_vault_authority(&ctx.program_id, &ctx.bounty_network_key, &ctx.pool_signer, ctx.bounty_network.nonce) {
        return Err(ErrorCode::InvalidDerivation);
    }
    if !same_address(&ctx.reward_token_vault.key, &ctx.bounty.reward_token_vault)
        || !same_address(&ctx.reward_token_vault.mint, &ctx.bounty.reward_token_mint)
        || !same_address(&ctx.reward_token_vault.owner, &ctx.pool_signer) {
        return Err(ErrorCode::ConstraintViolation);
    }
    if !same_address(&ctx.project_token_vault.mint, &ctx.bounty.reward_token_mint)
        || !same_address(&ctx.project_token_vault.owner, &ctx.bounty.bounty_authority)
        || same_address(&ctx.project_token_vault.key, &ctx.reward_token_vault.key) {
        return Err(ErrorCode::ConstraintViolation);
    }
    if ctx.bounty.completed {
        return Err(ErrorCode::BountyAlreadyCompleted);
    }
    if ctx.bounty.rejected {
        return Err(ErrorCode::BountyRejected);
    }
    if ctx.bounty.reward_amount > u64::MAX as u128 {
        return Err(ErrorCode::RewardTooLarge);
    }
    let t = reward_transfer(
        &ctx.bounty_network_key,
        &ctx.bounty_network,
        &ctx.bounty,
        &ctx.reward_token_vault.key,
        &ctx.pool_signer,
        &ctx.project_token_vault.key,
    );
    ctx.bounty.rejected = true;
    Ok(t)
}

/// The records that selecting a winner reads and writes.
#[derive(Clone, Debug)]
pub struct SelectWinner {
    pub program_id: Address,
    pub bounty_network_key: Address,
    pub bounty_network: BountyNetwork,
    pub bounty_key: Address,
    pub bounty: Bounty,
    pub submission_key: Address,
    /// Which of the bounty's submissions `submission` is.
    pub submission_index: u64,
    pub submission: Submission,
    pub bounty_authority: Address,
    pub reward_token_vault: TokenVault,
    pub token_vault: TokenVault,
    pub pool_signer: Address,
}

/// Why selecting a winner of bounty `number` fails, if it does.
pub open spec fn select_check(ctx: SelectWinner, number: u128) -> Result<(), ErrorCode> {
    if !permits(Operation::SelectWinner, ctx.bounty_authority, ctx.bounty_network, ctx.bounty) {
        Err(ErrorCode::Unauthorized)
    } else if ctx.bounty.bounty_network@ != ctx.bounty_network_key@ {
        Err(ErrorCode::ConstraintViolation)
    } else if !derives(bounty_seeds(ctx.bounty_network_key@, number as nat), ctx.program_id@, ctx.bounty_key@, ctx.bounty.nonce) {
        Err(ErrorCode::InvalidDerivation)
    } else if ctx.reward_token_vault.key@ != ctx.bounty.reward_token_vault@ {
        Err(ErrorCode::ConstraintViolation)
    } else if ctx.submission_index >= ctx.bounty.submission_count || !derives(
        submission_seeds(ctx.bounty_network_key@, ctx.bounty_key@, ctx.submission_index as nat),
        ctx.program_id@,
        ctx.submission_key@,
        ctx.submission.nonce,
    ) {
        Err(ErrorCode::ConstraintViolation)
    } else if ctx.submission.token_vault@ != ctx.token_vault.key@
        || ctx.submission.bounty_number != ctx.bounty.bounty_number
        || ctx.token_vault.mint@ != ctx.bounty.reward_token_mint@
        || ctx.token_vault.key@ == ctx.reward_token_vault.key@ {
        Err(ErrorCode::ConstraintViolation)
    } else if !is_vault_authority(ctx.program_id@, ctx.bounty_network_key@, ctx.pool_signer@, ctx.bounty_network.nonce) {
        Err(ErrorCode::InvalidDerivation)
    } else if ctx.bounty.completed {
        Err(ErrorCode::BountyAlreadyCompleted)
    } else if ctx.bounty.rejected {
        Err(ErrorCode::BountyRejected)
    } else if ctx.bounty.reward_amount > u64::MAX {
        Err(ErrorCode::RewardTooLarge)
    } else {
        Ok(())
    }
}

/// The records after a successful selection: the bounty is completed, nothing else changes.
pub open spec fn completed(ctx: SelectWinner) -> SelectWinner {
    SelectWinner { bounty: Bounty { completed: true, ..ctx.bounty }, ..ctx }
}

/// The bounty's creator picks the winning submission: the bounty is completed
/// and its whole reward goes to the vault the submission names, once. The
/// returned transfer is to be carried out in the same atomic operation.
pub fn select_winner(ctx: &mut SelectWinner, bounty_number: u128) -> (r: Result<TokenTransfer, ErrorCode>)
    ensures
        r is Ok <==> select_check(*old(ctx), bounty_number) is Ok,
        r matches Err(e) ==> select_check(*old(ctx), bounty_number) == Err::<(), ErrorCode>(e),
        r matches Ok(t) ==> t == payout(
            old(ctx).bounty_network_key,
            old(ctx).bounty_network,
            old(ctx).bounty,
            old(ctx).reward_token_vault.key,
            old(ctx).pool_signer,
            old(ctx).token_vault.key,
        ) && t.amount == old(ctx).bounty.reward_amount,
        r is Ok ==> *final(ctx) == completed(*old(ctx)),
        r is Err ==> *final(ctx) == *old(ctx),
        r is Ok <==> pays_out(old(ctx).bounty, final(ctx).bounty),
        bounty_step(old(ctx).bounty, final(ctx).bounty),
{
    if !authorize(Operation::SelectWinner, &ctx.bounty_authority, &ctx.bounty_network, &ctx.bounty) {
        return Err(ErrorCode::Unauthorized);
    }
    if !same_address(&ctx.bounty.bounty_network, &ctx.bounty_network_key) {
        return Err(ErrorCode::ConstraintViolation);
    }
    if !check_bounty_address(&ctx.program_id, &ctx.bounty_network_key, bounty_number, &ctx.bounty_key, ctx.bounty.nonce) {
        return Err(ErrorCode::InvalidDerivation);
    }
    if !same_address(&ctx.reward_token_vault.key, &ctx.bounty.reward_token_vault) {
        return Err(ErrorCode::ConstraintViolation);
    }
    if ctx.submission_index >= ctx.bounty.submission_count {
        return Err(ErrorCode::ConstraintViolation);
    }
    let found = submission_address(&ctx.program_id, &ctx.bounty_network_key, &ctx.bounty_key, ctx.submission_index);
    if !matches_derivation(&found, &ctx.submission_key, ctx.submission.nonce) {
        return Err(ErrorCode::ConstraintViolation);
    }
    if !same_address(&ctx.submission.token_vault, &ctx.token_vault.key)
        || ctx.submission.bounty_number != ctx.bounty.bounty_number
        || !same_address(&ctx.token_vault.mint, &ctx.bounty.reward_token_mint)
        || same_address(&ctx.token_vault.key, &ctx.reward_token_vault.key) {
        return Err(ErrorCode::ConstraintViolation);
    }
    if !check_vault_authority(&ctx.program_id, &ctx.bounty_network_key, &ctx.pool_signer, ctx.bounty_network.nonce) {
        return Err(ErrorCode::InvalidDerivation);
    }
    if ctx.bounty.completed {
        return Err(ErrorCode::BountyAlreadyCompleted);
    }
    if ctx.bounty.rejected {
        return Err(ErrorCode::BountyRejected);
    }
    if ctx.bounty.reward_amount > u64::MAX as u128 {
        return Err(ErrorCode::RewardTooLarge);
    }
    let t = reward_transfer(
        &ctx.bounty_network_key,
        &ctx.bounty_network,
        &ctx.bounty,
        &ctx.reward_token_vault.key,
        &ctx.pool_signer,
        &ctx.token_vault.key,
    );
    ctx.bounty.completed = true;
    Ok(t)
}

} // verus!
