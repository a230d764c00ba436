use ticketing::errors::TicketError;
use ticketing::nft_service::MockNFTService;
use ticketing::payment::MockPaymentGateway;
use ticketing::ticketing::Event;
use ticketing::ticketing::EventPlatform;
use ticketing::ticketing::EventStatus;
use ticketing::ticketing::EventType;
use ticketing::ticketing::NFTAttribute;
use ticketing::ticketing::NFTMetadata;
use ticketing::ticketing::Perk;
use ticketing::ticketing::PerkCategory;
use ticketing::ticketing::ResaleStatus;
use ticketing::ticketing::Ticket;
use ticketing::ticketing::TicketPurchaseRequest;
use ticketing::ticketing::TicketStatus;
use ticketing::ticketing::TicketType;
use ticketing::ticketing::Venue;
use ticketing::ticketing_service::CreateEventOutcome;
use ticketing::ticketing_service::TicketingService;

fn sample_venue() -> Venue {
    Venue {
        name: "Grand Hall".to_string(),
        address: "1 Harbour Road".to_string(),
        city: "Hong Kong".to_string(),
        country: "HK".to_string(),
        capacity: 5000,
        coordinates: None,
    }
}

fn sample_ticket_type(capacity: u32, price_minor: u64, with_nft: bool) -> TicketType {
    TicketType {
        id: 7,
        name: "General".to_string(),
        price: price_minor,
        currency: "HKD".to_string(),
        quantity_available: capacity,
        quantity_sold: 0,
        perks: vec![Perk {
            name: "Early entry".to_string(),
            description: "Doors open early".to_string(),
            category: PerkCategory::EarlyEntry,
        }],
        nft_metadata: if with_nft {
            Some(NFTMetadata {
                name: "Token".to_string(),
                description: "Event token".to_string(),
                image: "img".to_string(),
                animation_url: None,
                attributes: vec![NFTAttribute {
                    trait_type: "tier".to_string(),
                    value: "general".to_string(),
                }],
                external_url: None,
            })
        } else {
            None
        },
        sales_start: 0,
        sales_end: 10_000,
    }
}

fn sample_event(capacity: u32, price_minor: u64, with_nft: bool) -> Event {
    Event {
        id: 0,
        title: "Summer Concert".to_string(),
        description: "An evening of music".to_string(),
        organizer: "organizer_wallet".to_string(),
        venue: sample_venue(),
        event_date: 2_000,
        door_time: 1_900,
        event_type: EventType::Concert,
        ticket_types: vec![sample_ticket_type(capacity, price_minor, with_nft)],
        external_event_id: None,
        platform: EventPlatform::Internal,
        status: EventStatus::OnSale,
        created_at: 0,
        updated_at: 0,
    }
}

fn service_with_event(
    capacity: u32,
    price_minor: u64,
    with_nft: bool,
) -> (TicketingService<MockNFTService, MockPaymentGateway>, u128) {
    let mut svc = TicketingService::new(MockPaymentGateway::new());
    let outcome = svc
        .create_event_at(sample_event(capacity, price_minor, with_nft), 100)
        .unwrap();
    match outcome {
        CreateEventOutcome::Stored(e) => (svc, e.id),
        CreateEventOutcome::PendingEventbriteSync(_) => panic!("no sync expected"),
    }
}

fn purchase_request(event_id: u128, quantity: u32) -> TicketPurchaseRequest {
    TicketPurchaseRequest {
        event_id,
        ticket_type_id: 7,
        quantity,
        buyer_wallet: "buyer_wallet".to_string(),
        payment_currency: "HKD".to_string(),
    }
}

#[test]
fn purchase_three_of_ten_succeeds() {
    // Capacity 10, sold 0, price 100.00 HKD; buying 3 yields 3 Active
    // tickets, total 300.00, and quantity_sold becomes 3.
    let (mut svc, event_id) = service_with_event(10, 10_000, false);
    let resp = svc.purchase_tickets(purchase_request(event_id, 3), 500).unwrap();
    assert_eq!(resp.tickets.len(), 3);
    assert_eq!(resp.total_amount, 30_000u128);
    for t in &resp.tickets {
        assert_eq!(t.status, TicketStatus::Active);
        assert_eq!(t.owner_wallet, "buyer_wallet");
        assert_eq!(t.purchase_price, 10_000);
    }
    let stored = svc.get_event(event_id).unwrap();
    assert_eq!(stored.ticket_types[0].quantity_sold, 3);
    assert!(stored.ticket_types[0].quantity_sold <= stored.ticket_types[0].quantity_available);
}

#[test]
fn last_ticket_goes_to_exactly_one_buyer() {
    // Two requests race for the last remaining ticket: one wins, the other
    // fails with InsufficientInventory.
    let (mut svc, event_id) = service_with_event(1, 10_000, false);
    let first = svc.purchase_tickets(purchase_request(event_id, 1), 500);
    let second = svc.purchase_tickets(purchase_request(event_id, 1), 501);
    assert!(first.is_ok());
    assert!(matches!(second, Err(TicketError::InsufficientInventory)));
    let stored = svc.get_event(event_id).unwrap();
    assert_eq!(stored.ticket_types[0].quantity_sold, 1);
}

#[test]
fn purchase_fills_capacity_exactly() {
    let (mut svc, event_id) = service_with_event(4, 2_500, false);
    let resp = svc.purchase_tickets(purchase_request(event_id, 4), 500).unwrap();
    assert_eq!(resp.tickets.len(), 4);
    let stored = svc.get_event(event_id).unwrap();
    assert_eq!(stored.ticket_types[0].quantity_sold, 4);
    let over = svc.purchase_tickets(purchase_request(event_id, 1), 501);
    assert!(matches!(over, Err(TicketError::InsufficientInventory)));
}

#[test]
fn purchase_zero_quantity_is_rejected() {
    let (mut svc, event_id) = service_with_event(10, 10_000, false);
    let r = svc.purchase_tickets(purchase_request(event_id, 0), 500);
    assert!(matches!(r, Err(TicketError::ValidationError)));
}

#[test]
fn purchase_unknown_event_is_rejected() {
    let (mut svc, _) = service_with_event(10, 10_000, false);
    let r = svc.purchase_tickets(purchase_request(999, 1), 500);
    assert!(matches!(r, Err(TicketError::EventNotFound(999))));
}

#[test]
fn purchase_unknown_ticket_type_is_rejected() {
    let (mut svc, event_id) = service_with_event(10, 10_000, false);
    let mut req = purchase_request(event_id, 1);
    req.ticket_type_id = 42;
    let r = svc.purchase_tickets(req, 500);
    assert!(matches!(r, Err(TicketError::TicketTypeNotFound(42))));
}

#[test]
fn failed_mint_leaves_no_trace() {
    // A purchase whose mint step fails charges nobody, issues nothing, and
    // leaves the inventory counter untouched.
    let mut minter = MockNFTService::new();
    minter.fail_minting = true;
    let mut svc =
        TicketingService::new(MockPaymentGateway::new()).with_nft_minter(minter);
    let outcome = svc.create_event_at(sample_event(10, 10_000, true), 100).unwrap();
    let event_id = match outcome {
        CreateEventOutcome::Stored(e) => e.id,
        _ => panic!("no sync expected"),
    };
    let r = svc.purchase_tickets(purchase_request(event_id, 2), 500);
    assert!(matches!(r, Err(TicketError::ExternalServiceError(_))));
    assert!(svc.payment_gateway.entries.is_empty());
    assert!(svc.get_user_tickets(&"buyer_wallet".to_string()).is_empty());
    let stored = svc.get_event(event_id).unwrap();
    assert_eq!(stored.ticket_types[0].quantity_sold, 0);
}

#[test]
fn declined_payment_leaves_no_trace() {
    let mut gateway = MockPaymentGateway::new();
    gateway.fail_transfers = true;
    let mut svc = TicketingService::new(gateway);
    let outcome = svc.create_event_at(sample_event(10, 10_000, false), 100).unwrap();
    let event_id = match outcome {
        CreateEventOutcome::Stored(e) => e.id,
        _ => panic!("no sync expected"),
    };
    let r = svc.purchase_tickets(purchase_request(event_id, 2), 500);
    assert!(matches!(r, Err(TicketError::PaymentFailure)));
    assert!(svc.payment_gateway.entries.is_empty());
    assert!(svc.get_user_tickets(&"buyer_wallet".to_string()).is_empty());
}

#[test]
fn minted_purchase_attaches_tokens_and_charges_once() {
    let (mut svc, event_id) = service_with_event(5, 10_000, true);
    let resp = svc.purchase_tickets(purchase_request(event_id, 2), 500).unwrap();
    assert_eq!(resp.nft_mint_transactions.len(), 2);
    for (t, token) in resp.tickets.iter().zip(resp.nft_mint_transactions.iter()) {
        assert_eq!(t.nft_token_id.as_ref().unwrap(), token);
        // The in-memory minter draws 36-character token identifiers.
        assert_eq!(token.len(), 36);
    }
    assert_eq!(svc.payment_gateway.entries.len(), 1);
    let entry = &svc.payment_gateway.entries[0];
    assert_eq!(entry.from, "buyer_wallet");
    assert_eq!(entry.to, "organizer_wallet");
    assert_eq!(entry.amount, 20_000u128);
    assert_eq!(entry.currency, "HKD");
    assert_eq!(entry.memo, "Ticket purchase for Summer Concert");
    assert!(!entry.is_reversal);
}

#[test]
fn non_native_currency_skips_the_gateway() {
    let (mut svc, event_id) = service_with_event(5, 10_000, false);
    let mut req = purchase_request(event_id, 1);
    req.payment_currency = "USD".to_string();
    let resp = svc.purchase_tickets(req, 500).unwrap();
    assert_eq!(resp.transaction_hash.as_deref(), Some("external_payment_tx"));
    assert!(svc.payment_gateway.entries.is_empty());
}

#[test]
fn purchase_then_list_by_owner_returns_exactly_the_purchase() {
    // The buyer owned nothing before, so the ledger query returns exactly
    // the purchased tickets, in order, with distinct ids.
    let (mut svc, event_id) = service_with_event(10, 10_000, false);
    let resp = svc.purchase_tickets(purchase_request(event_id, 3), 500).unwrap();
    let owned = svc.get_user_tickets(&"buyer_wallet".to_string());
    assert_eq!(owned.len(), 3);
    for (mine, theirs) in owned.iter().zip(resp.tickets.iter()) {
        assert_eq!(mine.id, theirs.id);
        assert_eq!(mine.qr_code, theirs.qr_code);
    }
    let mut ids: Vec<u128> = owned.iter().map(|t| t.id).collect();
    ids.dedup();
    assert_eq!(ids.len(), 3);
    ids.sort();
    assert_eq!(ids, vec![1, 2, 3]);
}

#[test]
fn qr_codes_name_event_and_ticket() {
    let (mut svc, event_id) = service_with_event(10, 10_000, false);
    assert_eq!(event_id, 1);
    let resp = svc.purchase_tickets(purchase_request(event_id, 1), 500).unwrap();
    assert_eq!(resp.tickets[0].qr_code, "TICKET_1_1");
}

fn issued_ticket(resale_allowed: bool) -> Ticket {
    Ticket {
        id: 0,
        event_id: 1,
        ticket_type_id: 7,
        owner_wallet: "seller_wallet".to_string(),
        purchase_price: 10_000,
        purchase_currency: "HKD".to_string(),
        purchase_date: 500,
        status: TicketStatus::Active,
        nft_token_id: None,
        qr_code: "TICKET_1_1".to_string(),
        transferable: true,
        resale_allowed,
        resale_price: None,
    }
}

#[test]
fn resale_listing_respects_the_resale_flag() {
    // A ticket whose resale flag is off cannot be listed; one whose flag is
    // on produces a Listed entry owned by the ticket's current owner.
    let mut svc = TicketingService::new(MockPaymentGateway::new());
    let blocked = svc.issue_ticket(issued_ticket(false));
    let r = svc.list_ticket_for_resale(blocked.id, 12_000, "HKD".to_string(), 600);
    assert!(matches!(r, Err(TicketError::ResaleNotAllowed)));

    let allowed = svc.issue_ticket(issued_ticket(true));
    let listing = svc
        .list_ticket_for_resale(allowed.id, 12_000, "HKD".to_string(), 600)
        .unwrap();
    assert_eq!(listing.status, ResaleStatus::Listed);
    assert_eq!(listing.seller_wallet, "seller_wallet");
    assert_eq!(listing.ticket_id, allowed.id);
    assert_eq!(listing.asking_price, 12_000);
}

#[test]
fn resale_listing_unknown_ticket_fails() {
    let mut svc = TicketingService::new(MockPaymentGateway::new());
    let r = svc.list_ticket_for_resale(99, 12_000, "HKD".to_string(), 600);
    assert!(matches!(r, Err(TicketError::TicketNotFound(99))));
}

#[test]
fn resale_purchase_transfers_ownership_atomically() {
    let mut svc = TicketingService::new(MockPaymentGateway::new());
    let t = svc.issue_ticket(issued_ticket(true));
    let listing = svc
        .list_ticket_for_resale(t.id, 12_000, "HKD".to_string(), 600)
        .unwrap();
    let sold = svc
        .purchase_resale_ticket(listing.id, "new_owner".to_string())
        .unwrap();
    assert_eq!(sold.owner_wallet, "new_owner");
    assert_eq!(sold.status, TicketStatus::Resold);
    let stored = svc.get_ticket(t.id).unwrap();
    assert_eq!(stored.owner_wallet, "new_owner");
    assert_eq!(svc.payment_gateway.entries.len(), 1);
    assert_eq!(svc.payment_gateway.entries[0].from, "new_owner");
    assert_eq!(svc.payment_gateway.entries[0].to, "seller_wallet");
    assert_eq!(svc.payment_gateway.entries[0].amount, 12_000u128);
}

#[test]
fn resale_purchase_of_unknown_listing_fails() {
    let mut svc = TicketingService::new(MockPaymentGateway::new());
    let r = svc.purchase_resale_ticket(5, "new_owner".to_string());
    assert!(matches!(r, Err(TicketError::ListingNotFound(5))));
}

#[test]
fn resale_purchase_of_sold_listing_fails() {
    let mut svc = TicketingService::new(MockPaymentGateway::new());
    let t = svc.issue_ticket(issued_ticket(true));
    let listing = svc
        .list_ticket_for_resale(t.id, 12_000, "HKD".to_string(), 600)
        .unwrap();
    svc.purchase_resale_ticket(listing.id, "new_owner".to_string()).unwrap();
    let again = svc.purchase_resale_ticket(listing.id, "third_owner".to_string());
    assert!(matches!(again, Err(TicketError::ValidationError)));
}

#[test]
fn failed_token_transfer_reverses_the_payment() {
    // Payment settles, the token transfer fails, and the compensating
    // reversal makes the buyer whole; ownership and listing are untouched.
    let mut minter = MockNFTService::new();
    minter.fail_transfers = true;
    let mut svc =
        TicketingService::new(MockPaymentGateway::new()).with_nft_minter(minter);
    let mut ticket = issued_ticket(true);
    ticket.nft_token_id = Some("token_1".to_string());
    let t = svc.issue_ticket(ticket);
    let listing = svc
        .list_ticket_for_resale(t.id, 12_000, "HKD".to_string(), 600)
        .unwrap();
    let r = svc.purchase_resale_ticket(listing.id, "new_owner".to_string());
    assert!(matches!(r, Err(TicketError::ExternalServiceError(_))));
    assert_eq!(svc.payment_gateway.entries.len(), 2);
    assert!(!svc.payment_gateway.entries[0].is_reversal);
    assert!(svc.payment_gateway.entries[1].is_reversal);
    assert_eq!(svc.payment_gateway.entries[1].from, "seller_wallet");
    assert_eq!(svc.payment_gateway.entries[1].to, "new_owner");
    assert_eq!(svc.payment_gateway.entries[1].amount, 12_000u128);
    let stored = svc.get_ticket(t.id).unwrap();
    assert_eq!(stored.owner_wallet, "seller_wallet");
    assert_eq!(stored.status, TicketStatus::Active);
    assert_eq!(svc.get_events().len(), 0);
}

#[test]
fn update_ticket_status_changes_exactly_one_ticket() {
    let mut svc = TicketingService::new(MockPaymentGateway::new());
    let a = svc.issue_ticket(issued_ticket(true));
    let b = svc.issue_ticket(issued_ticket(true));
    svc.update_ticket_status(a.id, TicketStatus::Used).unwrap();
    assert_eq!(svc.get_ticket(a.id).unwrap().status, TicketStatus::Used);
    assert_eq!(svc.get_ticket(b.id).unwrap().status, TicketStatus::Active);
    let missing = svc.update_ticket_status(99, TicketStatus::Used);
    assert!(matches!(missing, Err(TicketError::TicketNotFound(99))));
}

#[test]
fn create_event_reads_the_clock() {
    let mut svc = TicketingService::new(MockPaymentGateway::new());
    let outcome = svc.create_event(sample_event(10, 10_000, false)).unwrap();
    let stored = match outcome {
        CreateEventOutcome::Stored(e) => e,
        _ => panic!("internal events need no sync"),
    };
    assert_eq!(stored.id, 1);
    assert_eq!(stored.created_at, stored.updated_at);
    assert!(svc.get_event(1).is_some());
}

#[test]
fn error_labels_are_stable() {
    assert_eq!(TicketError::InsufficientInventory.label(), "insufficient inventory");
    assert_eq!(TicketError::ResaleNotAllowed.label(), "resale not allowed");
    assert_eq!(TicketError::PaymentFailure.label(), "payment failure");
}
