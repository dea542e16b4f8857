use vstd::prelude::*;

verus! {

/// Every way a raffle operation can be refused.
#[derive(Clone, Copy, Debug, PartialEq, Eq, Structural)]
pub enum RaffleError {
    MaxEntrantsTooLarge,
    RaffleEnded,
    InvalidCalculation,
    InvalidPrizeIndex,
    NoPrize,
    NotEnoughTicketsLeft,
    UnclaimedPrizes,
    RaffleStillRunning,
    WinnerNotDrawn,
    TokenAccountNotOwnedByWinner,
    TicketHasNotWon,
    WinnersAlreadyDrawn,
    InvalidAccountData,
}

} // verus!
