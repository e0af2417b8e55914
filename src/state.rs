use vstd::prelude::*;
use crate::address::Address;

verus! {

/// A bounty network: its moderator, how many bounties it has, and the bump
/// seed of its vault authority.
#[derive(Clone, Copy, Debug)]
pub struct BountyNetwork {
    pub moderator: Address,
    pub bounty_count: u128,
    pub nonce: u8,
}

impl BountyNetwork {
    /// A freshly allocated, zero-valued network record.
    pub open spec fn is_zeroed(&self) -> bool {
        &&& self.moderator@ == Seq::new(32, |i: int| 0u8)
        &&& self.bounty_count == 0
        &&& self.nonce == 0
    }

    pub fn zeroed() -> (r: BountyNetwork)
        ensures
            r.is_zeroed(),
    {
        BountyNetwork { moderator: Address::zero(), bounty_count: 0, nonce: 0 }
    }
}

/// A funded task of a network, with its escrow and its progress flags.
#[derive(Clone, Debug)]
pub struct Bounty {
    pub bounty_authority: Address,
    pub bounty_network: Address,
    pub bounty_number: u128,
    pub title: String,
    pub description: String,
    pub project: String,
    pub accepted: bool,
    pub completed: bool,
    /// Set once the moderator has sent the reward back to the project.
    pub rejected: bool,
    pub reward_amount: u128,
    pub reward_token_mint: Address,
    pub reward_token_vault: Address,
    pub submission_count: u64,
    pub deadline: u64,
    pub nonce: u8,
}

/// A candidate's work against a bounty, with the vault that a payout goes to.
#[derive(Clone, Debug)]
pub struct Submission {
    pub bounty_number: u128,
    pub name: String,
    pub link_to_submission: String,
    pub wallet: Address,
    pub token_vault: Address,
    pub email: String,
    pub discord: String,
    pub twitter: String,
    pub anything_else: String,
    pub nonce: u8,
}

/// What the logic reads of a token account: its key, the asset type it holds,
/// its owner and its balance.
#[derive(Clone, Copy, Debug)]
pub struct TokenVault {
    pub key: Address,
    pub mint: Address,
    pub owner: Address,
    pub amount: u64,
}

/// A transfer that the token program is to carry out, signed by the vault
/// authority of the network `authority_seed` with bump `authority_bump`.
#[derive(Clone, Copy, Debug)]
pub struct TokenTransfer {
    pub from: Address,
    pub to: Address,
    pub authority: Address,
    pub authority_seed: Address,
    pub authority_bump: u8,
    pub amount: u64,
}

impl TokenTransfer {
    /// Balances after this transfer: `amount` leaves `from` and reaches `to`,
    /// every other record keeps its balance.
    pub open spec fn settle(self, balances: Map<Seq<u8>, int>) -> Map<Seq<u8>, int> {
        balances.insert(self.from@, balances[self.from@] - self.amount).insert(
            self.to@,
            balances.insert(self.from@, balances[self.from@] - self.amount)[self.to@] + self.amount,
        )
    }
}

#[derive(Clone, Copy, Debug, PartialEq, Eq, Structural)]
pub enum ErrorCode {
    /// The bounty has already paid out its reward.
    BountyAlreadyCompleted,
    /// The bounty's reward has already gone back to the project.
    BountyRejected,
    /// The caller does not hold the role that the operation asks for.
    Unauthorized,
    /// A record or an authority is not the canonical derivation of its seeds.
    InvalidDerivation,
    /// A supplied record's owner, asset type or back-reference is not the expected one.
    ConstraintViolation,
    /// The record to create already exists.
    AccountAlreadyInitialized,
    /// The reward does not fit in one token transfer.
    RewardTooLarge,
    /// A counter has reached its largest value.
    CounterOverflow,
}

} // verus!
