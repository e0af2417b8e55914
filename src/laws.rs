use vstd::prelude::*;
use crate::address::Address;
use crate::authorization::{Operation, permits};
use crate::derivation::{bounty_seeds, derives};
use crate::instructions::{
    AcceptBounty, CreateBounty, RejectBounty, SelectWinner, SubmitWork, accept_check, accepted,
    bounty_step, completed, pays_out, payout, posts, reject_check, select_check, submit_check,
};
use crate::state::{Bounty, ErrorCode};

verus! {

/// Posting bounties one after another on a fresh network numbers them 0, 1,
/// 2, ... in order: after `runs.len()` postings the network counts exactly
/// that many bounties, no two of them share a number, and bounty `i` lies at
/// the address derived from the network and `i`.
pub proof fn lemma_bounty_numbers_sequential(runs: Seq<(CreateBounty, CreateBounty)>)
    requires
        runs.len() > 0 ==> runs[0].0.bounty_network.bounty_count == 0,
        forall|i: int| 0 <= i < runs.len() ==> posts(#[trigger] runs[i].0, runs[i].1),
        forall|i: int| 0 <= i < runs.len() - 1 ==> #[trigger] runs[i + 1].0.bounty_network == runs[i].1.bounty_network,
    ensures
        runs.len() > 0 ==> runs.last().1.bounty_network.bounty_count == runs.len(),
        forall|i: int| 0 <= i < runs.len() ==> (#[trigger] runs[i].1.bounty) is Some && runs[i].1.bounty->Some_0.bounty_number == i,
        forall|i: int| 0 <= i < runs.len() ==> derives(
            bounty_seeds(runs[i].0.bounty_network_key@, i as nat),
            runs[i].0.program_id@,
            (#[trigger] runs[i].1).bounty_key@,
            runs[i].1.bounty->Some_0.nonce,
        ),
        forall|i: int, j: int|
            0 <= i < runs.len() && 0 <= j < runs.len() && i != j ==> #[trigger] runs[i].1.bounty->Some_0.bounty_number
                != #[trigger] runs[j].1.bounty->Some_0.bounty_number,
    decreases runs.len(),
{
    if runs.len() > 0 {
        let prefix = runs.drop_last();
        assert forall|i: int| 0 <= i < prefix.len() - 1 implies #[trigger] prefix[i + 1].0.bounty_network
            == prefix[i].1.bounty_network by {
            assert(prefix[i + 1] == runs[i + 1]);
        }
        assert forall|i: int| 0 <= i < prefix.len() implies posts(#[trigger] prefix[i].0, prefix[i].1) by {
            assert(prefix[i] == runs[i]);
        }
        lemma_bounty_numbers_sequential(prefix);
        let k = runs.len() - 1;
        assert(posts(runs[k].0, runs[k].1));
        if k > 0 {
            assert(runs[(k - 1) + 1].0.bounty_network == runs[k - 1].1.bounty_network);
            assert(prefix[k - 1] == runs[k - 1]);
        }
        assert forall|i: int| 0 <= i < runs.len() implies (#[trigger] runs[i].1.bounty) is Some
            && runs[i].1.bounty->Some_0.bounty_number == i by {
            if i < k {
                assert(prefix[i] == runs[i]);
            }
        }
    }
}

/// Once a winner has been paid, the same selection again fails with
/// `BountyAlreadyCompleted`, and so makes no transfer and changes nothing.
pub proof fn lemma_single_payout(ctx: SelectWinner, number: u128)
    requires
        select_check(ctx, number) is Ok,
    ensures
        !ctx.bounty.completed,
        completed(ctx).bounty.completed,
        select_check(completed(ctx), number) == Err::<(), ErrorCode>(ErrorCode::BountyAlreadyCompleted),
{
}

/// Accepting twice succeeds both times and leaves the records as the first
/// acceptance did.
pub proof fn lemma_accept_idempotent(ctx: AcceptBounty, number: u128)
    requires
        accept_check(ctx, number) is Ok,
    ensures
        accepted(ctx).bounty.accepted,
        accept_check(accepted(ctx), number) is Ok,
        accepted(accepted(ctx)) == accepted(ctx),
{
    assert(accepted(accepted(ctx)).bounty == accepted(ctx).bounty);
}

/// A rejection's transfer takes exactly the reward from the bounty's vault,
/// gives it to the project's vault, and leaves every other balance alone.
pub proof fn lemma_reject_moves_reward(ctx: RejectBounty, number: u128, balances: Map<Seq<u8>, int>)
    requires
        reject_check(ctx, number) is Ok,
    ensures
        ({
            let t = payout(
                ctx.bounty_network_key,
                ctx.bounty_network,
                ctx.bounty,
                ctx.reward_token_vault.key,
                ctx.pool_signer,
                ctx.project_token_vault.key,
            );
            let after = t.settle(balances);
            &&& t.amount == ctx.bounty.reward_amount
            &&& balances[ctx.reward_token_vault.key@] - after[ctx.reward_token_vault.key@] == ctx.bounty.reward_amount
            &&& after[ctx.project_token_vault.key@] - balances[ctx.project_token_vault.key@] == ctx.bounty.reward_amount
            &&& forall|k: Seq<u8>|
                k != ctx.reward_token_vault.key@ && k != ctx.project_token_vault.key@ && balances.contains_key(k)
                    ==> after.contains_key(k) && #[trigger] after[k] == balances[k]
        }),
{
}

/// A caller without the role that an operation asks for, or a submitter who
/// does not own the payout vault, is turned away with `Unauthorized`; the
/// operations then leave every record as it was.
pub proof fn lemma_roles_enforced(
    accept: AcceptBounty,
    reject: RejectBounty,
    select: SelectWinner,
    submit: SubmitWork,
    number: u128,
    nonce: u8,
)
    ensures
        submit.token_vault.owner@ != submit.submitter@
            ==> submit_check(submit, number, nonce) == Err::<(), ErrorCode>(ErrorCode::Unauthorized),
        !permits(Operation::AcceptBounty, accept.moderator, accept.bounty_network, accept.bounty)
            ==> accept_check(accept, number) == Err::<(), ErrorCode>(ErrorCode::Unauthorized),
        !permits(Operation::RejectBounty, reject.moderator, reject.bounty_network, reject.bounty)
            ==> reject_check(reject, number) == Err::<(), ErrorCode>(ErrorCode::Unauthorized),
        !permits(Operation::SelectWinner, select.bounty_authority, select.bounty_network, select.bounty)
            ==> select_check(select, number) == Err::<(), ErrorCode>(ErrorCode::Unauthorized),
{
}

proof fn lemma_stays_completed(bs: Seq<Bounty>, i: int, j: int)
    requires
        0 <= i <= j < bs.len(),
        bs[i].completed,
        forall|k: int| 0 <= k < bs.len() - 1 ==> bounty_step(#[trigger] bs[k], bs[k + 1]),
    ensures
        bs[j].completed,
    decreases j - i,
{
    if i < j {
        lemma_stays_completed(bs, i, j - 1);
        assert(bounty_step(bs[j - 1], bs[(j - 1) + 1]));
    }
}

/// Over any run of operations on one bounty, a completed bounty stays
/// completed, and the payout happens at most once.
pub proof fn lemma_completed_at_most_once(bs: Seq<Bounty>)
    requires
        forall|k: int| 0 <= k < bs.len() - 1 ==> bounty_step(#[trigger] bs[k], bs[k + 1]),
    ensures
        forall|i: int, j: int| 0 <= i <= j < bs.len() && (#[trigger] bs[i]).completed ==> (#[trigger] bs[j]).completed,
        forall|i: int, j: int|
            0 <= i < j < bs.len() - 1 && pays_out(#[trigger] bs[i], bs[i + 1]) ==> !pays_out(#[trigger] bs[j], bs[j + 1]),
{
    assert forall|i: int, j: int| 0 <= i <= j < bs.len() && (#[trigger] bs[i]).completed implies (#[trigger] bs[j]).completed by {
        lemma_stays_completed(bs, i, j);
    }
    assert forall|i: int, j: int|
        0 <= i < j < bs.len() - 1 && pays_out(#[trigger] bs[i], bs[i + 1]) implies !pays_out(#[trigger] bs[j], bs[j + 1]) by {
        lemma_stays_completed(bs, i + 1, j);
    }
}

} // verus!
