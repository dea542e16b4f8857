use craffles::{
    buy_tickets, purchase_tickets, settle, Metadata, Raffle, RaffleError, SaleBook, SaleError,
    TokenProgramVersion,
};

fn template() -> Metadata {
    Metadata {
        name: String::from("Ticket"),
        symbol: String::from("TIX"),
        uri: String::from("https://example.com/ticket.json"),
        seller_fee_basis_points: 500,
        primary_sale_happened: false,
        is_mutable: true,
        edition_nonce: None,
        token_standard: None,
        collection: None,
        uses: None,
        token_program_version: TokenProgramVersion::Original,
        creators: Vec::new(),
    }
}

fn raffle(price: u64, end: i64) -> Raffle {
    Raffle { creator: [1u8; 32], end_timestamp: end, ticket_price: price, merkle_tree: [2u8; 32] }
}

fn book(buyer_balance: u64) -> SaleBook {
    SaleBook { escrow_balance: 0, buyer_balance, certificates: Vec::new(), capacity: 1024 }
}

const BUYER: [u8; 32] = [9u8; 32];

#[test]
fn three_tickets_before_the_deadline() {
    let r = raffle(100, 1_000);
    let mut b = book(1_000);
    assert_eq!(purchase_tickets(&mut b, &r, 999, 3, BUYER, template()), Ok(()));
    assert_eq!(b.escrow_balance, 300);
    assert_eq!(b.buyer_balance, 700);
    assert_eq!(b.certificates, vec![BUYER, BUYER, BUYER]);
}

#[test]
fn three_tickets_after_the_deadline() {
    let r = raffle(100, 1_000);
    let mut b = book(1_000);
    assert_eq!(
        purchase_tickets(&mut b, &r, 1_001, 3, BUYER, template()),
        Err(SaleError::Raffle(RaffleError::RaffleEnded))
    );
    assert_eq!(b.escrow_balance, 0);
    assert_eq!(b.buyer_balance, 1_000);
    assert!(b.certificates.is_empty());
}

#[test]
fn buying_at_the_deadline_is_allowed() {
    let r = raffle(7, 50);
    let p = buy_tickets(&r, 50, 2, BUYER, template()).unwrap();
    assert_eq!(p.cost, 14);
    assert_eq!(p.tickets, 2);
    assert_eq!(p.owner, BUYER);
    assert_eq!(p.metadata, template());
}

#[test]
fn price_overflow_is_refused() {
    let r = raffle(u64::MAX, 1_000);
    assert!(matches!(
        buy_tickets(&r, 0, 2, BUYER, template()),
        Err(RaffleError::InvalidCalculation)
    ));
    let mut b = book(u64::MAX);
    assert_eq!(
        purchase_tickets(&mut b, &r, 0, 2, BUYER, template()),
        Err(SaleError::Raffle(RaffleError::InvalidCalculation))
    );
    assert_eq!(b.escrow_balance, 0);
    assert_eq!(b.buyer_balance, u64::MAX);
    assert!(b.certificates.is_empty());
}

#[test]
fn largest_price_for_one_ticket() {
    let r = raffle(u64::MAX, 1_000);
    let p = buy_tickets(&r, 0, 1, BUYER, template()).unwrap();
    assert_eq!(p.cost, u64::MAX);
}

#[test]
fn retry_after_top_up_matches_first_success() {
    let r = raffle(100, 1_000);
    let mut b = book(250);
    assert_eq!(
        purchase_tickets(&mut b, &r, 10, 3, BUYER, template()),
        Err(SaleError::InsufficientFunds)
    );
    assert_eq!(b.escrow_balance, 0);
    assert!(b.certificates.is_empty());
    b.buyer_balance = 300;
    assert_eq!(purchase_tickets(&mut b, &r, 10, 3, BUYER, template()), Ok(()));
    let mut first = book(300);
    assert_eq!(purchase_tickets(&mut first, &r, 10, 3, BUYER, template()), Ok(()));
    assert_eq!(b.escrow_balance, first.escrow_balance);
    assert_eq!(b.certificates, first.certificates);
    assert_eq!(b.buyer_balance, 0);
}

#[test]
fn two_purchases_with_funds_for_one() {
    let r = raffle(100, 1_000);
    let mut b = book(150);
    assert_eq!(purchase_tickets(&mut b, &r, 10, 1, BUYER, template()), Ok(()));
    assert_eq!(
        purchase_tickets(&mut b, &r, 10, 1, BUYER, template()),
        Err(SaleError::InsufficientFunds)
    );
    assert_eq!(b.escrow_balance, 100);
    assert_eq!(b.buyer_balance, 50);
    assert_eq!(b.certificates.len(), 1);
}

#[test]
fn full_log_refuses_the_purchase() {
    let r = raffle(1, 1_000);
    let mut b = SaleBook { escrow_balance: 5, buyer_balance: 100, certificates: vec![[3u8; 32]; 7], capacity: 8 };
    assert_eq!(purchase_tickets(&mut b, &r, 0, 2, BUYER, template()), Err(SaleError::LogFull));
    assert_eq!(b.escrow_balance, 5);
    assert_eq!(b.buyer_balance, 100);
    assert_eq!(b.certificates.len(), 7);
    assert_eq!(purchase_tickets(&mut b, &r, 0, 1, BUYER, template()), Ok(()));
    assert_eq!(b.certificates.len(), 8);
    assert_eq!(b.certificates[7], BUYER);
}

#[test]
fn escrow_overflow_refuses_the_purchase() {
    let r = raffle(10, 1_000);
    let mut b = SaleBook { escrow_balance: u64::MAX - 5, buyer_balance: 100, certificates: Vec::new(), capacity: 8 };
    assert_eq!(purchase_tickets(&mut b, &r, 0, 1, BUYER, template()), Err(SaleError::Overflow));
    assert_eq!(b.escrow_balance, u64::MAX - 5);
    assert_eq!(b.buyer_balance, 100);
}

#[test]
fn settle_applies_a_decided_purchase() {
    let r = raffle(25, 1_000);
    let p = buy_tickets(&r, 0, 4, BUYER, template()).unwrap();
    let mut b = book(100);
    assert_eq!(settle(&mut b, &p), Ok(()));
    assert_eq!(b.escrow_balance, 100);
    assert_eq!(b.buyer_balance, 0);
    assert_eq!(b.certificates.len(), 4);
}

#[test]
fn zero_tickets_cost_nothing() {
    let r = raffle(100, 1_000);
    let mut b = book(0);
    assert_eq!(purchase_tickets(&mut b, &r, 0, 0, BUYER, template()), Ok(()));
    assert_eq!(b.escrow_balance, 0);
    assert!(b.certificates.is_empty());
}
