use crate::errors::RaffleError;
use crate::metadata::Metadata;
use crate::raffle::Raffle;
use crate::sale::{buy_error, buy_tickets, ticket_cost, Purchase};
use vstd::prelude::*;

verus! {

/// The state that the sales of one raffle move, as one buyer sees it: the
/// escrow's balance, the buyer's balance, and the certificate log, given by
/// the owners of its certificates in log order and by its capacity.
pub struct SaleBook {
    pub escrow_balance: u64,
    pub buyer_balance: u64,
    pub certificates: Vec<[u8; 32]>,
    pub capacity: u64,
}

/// Why a purchase is refused.
#[derive(Clone, Copy, Debug, PartialEq, Eq, Structural)]
pub enum SaleError {
    /// Refused by the raffle's own rules.
    Raffle(RaffleError),
    /// The buyer's balance is below the cost.
    InsufficientFunds,
    /// The escrow's balance would leave its range.
    Overflow,
    /// The certificate log has no room for the new certificates.
    LogFull,
}

/// Why the collaborators refuse to carry out a purchase of `tickets`
/// certificates costing `cost`; `None` where they accept it.
pub open spec fn settle_error(book: SaleBook, cost: u64, tickets: u16) -> Option<SaleError> {
    if (book.buyer_balance as int) < cost {
        Some(SaleError::InsufficientFunds)
    } else if book.escrow_balance + cost > u64::MAX {
        Some(SaleError::Overflow)
    } else if book.certificates@.len() + tickets > book.capacity {
        Some(SaleError::LogFull)
    } else {
        None
    }
}

/// `count` certificates owned by `owner`.
pub open spec fn issued(owner: [u8; 32], count: nat) -> Seq<[u8; 32]> {
    Seq::new(count, |_i: int| owner)
}

/// `after` is `before` with `cost` moved from the buyer into the escrow and
/// `tickets` certificates owned by `owner` appended to the log.
pub open spec fn settled(before: SaleBook, after: SaleBook, cost: int, tickets: nat, owner: [u8; 32]) -> bool {
    &&& after.escrow_balance == before.escrow_balance + cost
    &&& after.buyer_balance == before.buyer_balance - cost
    &&& after.certificates@ == before.certificates@ + issued(owner, tickets)
    &&& after.capacity == before.capacity
}

/// Why a whole purchase is refused; `None` where it goes through.
pub open spec fn purchase_error(book: SaleBook, raffle: Raffle, now: i64, amount: u16) -> Option<
    SaleError,
> {
    match buy_error(raffle, now, amount) {
        Some(e) => Some(SaleError::Raffle(e)),
        None => settle_error(book, ticket_cost(raffle.ticket_price, amount) as u64, amount),
    }
}

/// Carries out an accepted purchase on `book`: the payment and the new
/// certificates together, or, when a collaborator refuses, nothing.
pub fn settle(book: &mut SaleBook, purchase: &Purchase) -> (r: Result<(), SaleError>)
    ensures
        match settle_error(*old(book), purchase.cost, purchase.tickets) {
            Some(e) => r == Err::<(), SaleError>(e) && *final(book) == *old(book),
            None => r is Ok && settled(
                *old(book),
                *final(book),
                purchase.cost as int,
                purchase.tickets as nat,
                purchase.owner,
            ),
        },
{
    if book.buyer_balance < purchase.cost {
        return Err(SaleError::InsufficientFunds);
    }
    if book.escrow_balance > u64::MAX - purchase.cost {
        return Err(SaleError::Overflow);
    }
    let held: u64 = book.certificates.len() as u64;
    if held > book.capacity || purchase.tickets as u64 > book.capacity - held {
        return Err(SaleError::LogFull);
    }
    let ghost start = book.certificates@;
    let mut i: u16 = 0;
    while i < purchase.tickets
        invariant
            i <= purchase.tickets,
            book.certificates@ == start + issued(purchase.owner, i as nat),
            book.escrow_balance == old(book).escrow_balance,
            book.buyer_balance == old(book).buyer_balance,
            book.capacity == old(book).capacity,
        decreases purchase.tickets - i,
    {
        book.certificates.push(purchase.owner);
        i = i + 1;
        assert(book.certificates@ =~= start + issued(purchase.owner, i as nat));
    }
    book.buyer_balance = book.buyer_balance - purchase.cost;
    book.escrow_balance = book.escrow_balance + purchase.cost;
    Ok(())
}

/// A purchase of `amount` tickets by `buyer` at time `now`, from the decision to
/// its settlement: either the escrow gains exactly the price of the tickets and
/// the log gains exactly `amount` certificates owned by the buyer, or the call
/// fails and `book` is left as it was.
pub fn purchase_tickets(
    book: &mut SaleBook,
    raffle: &Raffle,
    now: i64,
    amount: u16,
    buyer: [u8; 32],
    metadata: Metadata,
) -> (r: Result<(), SaleError>)
    ensures
        match purchase_error(*old(book), *raffle, now, amount) {
            Some(e) => r == Err::<(), SaleError>(e) && *final(book) == *old(book),
            None => r is Ok && settled(
                *old(book),
                *final(book),
                ticket_cost(raffle.ticket_price, amount),
                amount as nat,
                buyer,
            ),
        },
{
    match buy_tickets(raffle, now, amount, buyer, metadata) {
        Ok(purchase) => settle(book, &purchase),
        Err(e) => Err(SaleError::Raffle(e)),
    }
}

/// A purchase refused only for want of funds goes through once the buyer's
/// balance covers the price, and leaves the escrow and the log exactly as a
/// first-time success would have.
pub proof fn retry_after_top_up(
    book: SaleBook,
    topped_up: SaleBook,
    after: SaleBook,
    raffle: Raffle,
    now: i64,
    amount: u16,
    buyer: [u8; 32],
)
    requires
        purchase_error(book, raffle, now, amount) == Some(SaleError::InsufficientFunds),
        book.escrow_balance + ticket_cost(raffle.ticket_price, amount) <= u64::MAX,
        book.certificates@.len() + amount <= book.capacity,
        topped_up.escrow_balance == book.escrow_balance,
        topped_up.certificates@ == book.certificates@,
        topped_up.capacity == book.capacity,
        topped_up.buyer_balance >= ticket_cost(raffle.ticket_price, amount),
        settled(topped_up, after, ticket_cost(raffle.ticket_price, amount), amount as nat, buyer),
    ensures
        purchase_error(topped_up, raffle, now, amount) is None,
        after.escrow_balance == book.escrow_balance + ticket_cost(raffle.ticket_price, amount),
        after.certificates@ == book.certificates@ + issued(buyer, amount as nat),
{
}

/// Of two purchases against a buyer balance that covers only one of them, the
/// first goes through and the second is refused for want of funds.
pub proof fn only_one_of_two_purchases(
    book: SaleBook,
    between: SaleBook,
    raffle: Raffle,
    now: i64,
    amount: u16,
    buyer: [u8; 32],
)
    requires
        purchase_error(book, raffle, now, amount) is None,
        book.buyer_balance < 2 * ticket_cost(raffle.ticket_price, amount),
        settled(book, between, ticket_cost(raffle.ticket_price, amount), amount as nat, buyer),
    ensures
        purchase_error(between, raffle, now, amount) == Some(SaleError::InsufficientFunds),
{
}

} // verus!
