use vstd::prelude::*;
use crate::address::{Address, same_address};
use crate::state::{Bounty, BountyNetwork};

verus! {

/// The operations of the ledger, for the role check.
#[derive(Clone, Copy, Debug, PartialEq, Eq, Structural)]
pub enum Operation {
    InitializeNetwork,
    CreateBounty,
    AcceptBounty,
    RejectBounty,
    SubmitWork,
    SelectWinner,
}

/// Who may perform `op` on `bounty` of `network`: the moderator accepts and
/// rejects, the bounty's creator selects the winner, any signer may register a
/// network, post a bounty or submit work.
pub open spec fn permits(op: Operation, caller: Address, network: BountyNetwork, bounty: Bounty) -> bool {
    match op {
        Operation::AcceptBounty | Operation::RejectBounty => caller@ == network.moderator@,
        Operation::SelectWinner => caller@ == bounty.bounty_authority@,
        _ => true,
    }
}

/// The role check of every operation, read afresh from the records on each call.
pub fn authorize(op: Operation, caller: &Address, network: &BountyNetwork, bounty: &Bounty) -> (r: bool)
    ensures
        r == permits(op, *caller, *network, *bounty),
{
    match op {
        Operation::AcceptBounty | Operation::RejectBounty => same_address(caller, &network.moderator),
        Operation::SelectWinner => same_address(caller, &bounty.bounty_authority),
        _ => true,
    }
}

} // verus!
