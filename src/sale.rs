use crate::errors::RaffleError;
use crate::metadata::Metadata;
use crate::raffle::Raffle;
use vstd::prelude::*;

verus! {

/// What one accepted purchase asks of the ledger and of the certificate log;
/// both parts are carried out together or not at all.
pub struct Purchase {
    /// Units moved from the buyer's account into the raffle's escrow.
    pub cost: u64,
    /// How many certificates are appended to the log.
    pub tickets: u16,
    /// Owner and delegate of every new certificate.
    pub owner: [u8; 32],
    /// The template every new certificate is built from.
    pub metadata: Metadata,
}

/// The price of `amount` tickets at `price` each, as an exact integer.
pub open spec fn ticket_cost(price: u64, amount: u16) -> int {
    price * amount
}

/// Why a purchase of `amount` tickets at time `now` is refused before either
/// collaborator is involved; `None` where it is accepted.
pub open spec fn buy_error(raffle: Raffle, now: i64, amount: u16) -> Option<RaffleError> {
    if now > raffle.end_timestamp {
        Some(RaffleError::RaffleEnded)
    } else if ticket_cost(raffle.ticket_price, amount) > u64::MAX {
        Some(RaffleError::InvalidCalculation)
    } else {
        None
    }
}

/// Decides a purchase of `amount` tickets by `buyer` at time `now`: refused once
/// the sale has ended or when the price of the tickets overflows, and otherwise
/// the payment and the certificates that the purchase consists of.
pub fn buy_tickets(raffle: &Raffle, now: i64, amount: u16, buyer: [u8; 32], metadata: Metadata) -> (r:
    Result<Purchase, RaffleError>)
    ensures
        match buy_error(*raffle, now, amount) {
            Some(e) => r == Err::<Purchase, RaffleError>(e),
            None => r matches Ok(p) && p.cost == ticket_cost(raffle.ticket_price, amount)
                && p.tickets == amount && p.owner == buyer && p.metadata == metadata,
        },
{
    if now > raffle.end_timestamp {
        return Err(RaffleError::RaffleEnded);
    }
    let cost = match raffle.ticket_price.checked_mul(amount as u64) {
        Some(c) => c,
        None => return Err(RaffleError::InvalidCalculation),
    };
    Ok(Purchase { cost, tickets: amount, owner: buyer, metadata })
}

} // verus!
