use ticketing::errors::TicketError;
use ticketing::external_apis::CventClient;
use ticketing::external_apis::EventbriteClient;
use ticketing::external_apis::SyncStatus;
use ticketing::external_apis::TicketmasterClient;
use ticketing::nft_service::EthereumNFTService;
use ticketing::nft_service::MockNFTService;
use ticketing::nft_service::NFTMinter;
use ticketing::payment::MockPaymentGateway;
use ticketing::payment::PaymentGateway;
use ticketing::ticketing::Event;
use ticketing::ticketing::EventPlatform;
use ticketing::ticketing::EventStatus;
use ticketing::ticketing::EventType;
use ticketing::ticketing::NFTAttribute;
use ticketing::ticketing::NFTMetadata;
use ticketing::ticketing::Perk;
use ticketing::ticketing::PerkCategory;
use ticketing::ticketing::TicketType;
use ticketing::ticketing::Venue;
use ticketing::ticketing_service::CreateEventOutcome;
use ticketing::ticketing_service::TicketingService;
use ticketing::wire::event_from_external;
use ticketing::wire::event_to_external;

fn rich_event(platform: EventPlatform) -> Event {
    Event {
        id: 0,
        title: "Winter Gala".to_string(),
        description: "Formal dinner and show".to_string(),
        organizer: "org_wallet".to_string(),
        venue: Venue {
            name: "Opera House".to_string(),
            address: "2 Stage Lane".to_string(),
            city: "Hong Kong".to_string(),
            country: "HK".to_string(),
            capacity: 1200,
            coordinates: None,
        },
        event_date: 5_000,
        door_time: 4_800,
        event_type: EventType::Theater,
        ticket_types: vec![
            TicketType {
                id: 1,
                name: "Stalls".to_string(),
                price: 25_000,
                currency: "HKD".to_string(),
                quantity_available: 800,
                quantity_sold: 0,
                perks: vec![
                    Perk {
                        name: "Programme".to_string(),
                        description: "Printed programme".to_string(),
                        category: PerkCategory::Merchandise,
                    },
                    Perk {
                        name: "Lounge".to_string(),
                        description: "VIP lounge access".to_string(),
                        category: PerkCategory::VIP,
                    },
                ],
                nft_metadata: Some(NFTMetadata {
                    name: "Gala token".to_string(),
                    description: "Souvenir token".to_string(),
                    image: "ipfs://img".to_string(),
                    animation_url: Some("ipfs://anim".to_string()),
                    attributes: vec![NFTAttribute {
                        trait_type: "seat".to_string(),
                        value: "stalls".to_string(),
                    }],
                    external_url: None,
                }),
                sales_start: 100,
                sales_end: 4_000,
            },
            TicketType {
                id: 2,
                name: "Balcony".to_string(),
                price: 12_000,
                currency: "HKD".to_string(),
                quantity_available: 400,
                quantity_sold: 0,
                perks: vec![],
                nft_metadata: None,
                sales_start: 100,
                sales_end: 4_000,
            },
        ],
        external_event_id: None,
        platform,
        status: EventStatus::Published,
        created_at: 0,
        updated_at: 0,
    }
}

#[test]
fn external_representation_round_trips_field_for_field() {
    // An event with nested ticket types and perks survives the trip through
    // the external-facing representation unchanged.
    let e = rich_event(EventPlatform::Internal);
    let repr = event_to_external(&e);
    let back = event_from_external(&repr).unwrap();
    assert_eq!(back.id, e.id);
    assert_eq!(back.title, e.title);
    assert_eq!(back.description, e.description);
    assert_eq!(back.organizer, e.organizer);
    assert_eq!(back.venue.name, e.venue.name);
    assert_eq!(back.venue.capacity, e.venue.capacity);
    assert_eq!(back.event_date, e.event_date);
    assert_eq!(back.door_time, e.door_time);
    assert_eq!(back.event_type, e.event_type);
    assert_eq!(back.external_event_id, e.external_event_id);
    assert_eq!(back.platform, e.platform);
    assert_eq!(back.status, e.status);
    assert_eq!(back.created_at, e.created_at);
    assert_eq!(back.updated_at, e.updated_at);
    assert_eq!(back.ticket_types.len(), e.ticket_types.len());
    for (b, a) in back.ticket_types.iter().zip(e.ticket_types.iter()) {
        assert_eq!(b.id, a.id);
        assert_eq!(b.name, a.name);
        assert_eq!(b.price, a.price);
        assert_eq!(b.currency, a.currency);
        assert_eq!(b.quantity_available, a.quantity_available);
        assert_eq!(b.quantity_sold, a.quantity_sold);
        assert_eq!(b.sales_start, a.sales_start);
        assert_eq!(b.sales_end, a.sales_end);
        assert_eq!(b.perks.len(), a.perks.len());
        for (bp, ap) in b.perks.iter().zip(a.perks.iter()) {
            assert_eq!(bp.name, ap.name);
            assert_eq!(bp.description, ap.description);
            assert_eq!(bp.category, ap.category);
        }
        match (&b.nft_metadata, &a.nft_metadata) {
            (None, None) => {}
            (Some(bm), Some(am)) => {
                assert_eq!(bm.name, am.name);
                assert_eq!(bm.description, am.description);
                assert_eq!(bm.image, am.image);
                assert_eq!(bm.animation_url, am.animation_url);
                assert_eq!(bm.external_url, am.external_url);
                assert_eq!(bm.attributes.len(), am.attributes.len());
                for (ba, aa) in bm.attributes.iter().zip(am.attributes.iter()) {
                    assert_eq!(ba.trait_type, aa.trait_type);
                    assert_eq!(ba.value, aa.value);
                }
            }
            _ => panic!("metadata presence changed in the round trip"),
        }
    }
}

#[test]
fn corrupted_enum_code_fails_to_decode() {
    let e = rich_event(EventPlatform::Internal);
    let mut repr = event_to_external(&e);
    repr.status = 99;
    assert!(event_from_external(&repr).is_none());
}

#[test]
fn ticketmaster_sync_reports_prefixed_identity() {
    let client = TicketmasterClient::new("api_key".to_string());
    let mut e = rich_event(EventPlatform::Ticketmaster);
    e.id = 42;
    let resp = client.create_ticketmaster_event(&e).unwrap();
    assert_eq!(resp.external_id, "tm_42");
    assert_eq!(resp.event_url, "https://ticketmaster.com/event/42");
    assert_eq!(resp.platform, EventPlatform::Ticketmaster);
    assert_eq!(resp.sync_status, SyncStatus::Synced);
}

#[test]
fn cvent_sync_reports_prefixed_identity() {
    let client = CventClient::new("api_key".to_string(), "account".to_string());
    let mut e = rich_event(EventPlatform::Cvent);
    e.id = 7;
    let resp = client.create_cvent_event(&e).unwrap();
    assert_eq!(resp.external_id, "cv_7");
    assert_eq!(resp.event_url, "https://cvent.com/event/7");
    assert_eq!(resp.platform, EventPlatform::Cvent);
}

#[test]
fn create_event_assigns_identity_and_timestamps() {
    let mut svc = TicketingService::new(MockPaymentGateway::new());
    let outcome = svc.create_event_at(rich_event(EventPlatform::Internal), 777).unwrap();
    let stored = match outcome {
        CreateEventOutcome::Stored(e) => e,
        _ => panic!("internal events need no sync"),
    };
    assert_eq!(stored.id, 1);
    assert_eq!(stored.created_at, 777);
    assert_eq!(stored.updated_at, 777);
    assert_eq!(svc.get_events().len(), 1);
    let second = svc.create_event_at(rich_event(EventPlatform::Internal), 778).unwrap();
    match second {
        CreateEventOutcome::Stored(e) => assert_eq!(e.id, 2),
        _ => panic!("internal events need no sync"),
    }
}

#[test]
fn create_event_rejects_oversold_ticket_type() {
    let mut svc = TicketingService::new(MockPaymentGateway::new());
    let mut e = rich_event(EventPlatform::Internal);
    e.ticket_types[0].quantity_sold = e.ticket_types[0].quantity_available + 1;
    let r = svc.create_event_at(e, 777);
    assert!(matches!(r, Err(TicketError::ValidationError)));
    assert_eq!(svc.get_events().len(), 0);
}

#[test]
fn eventbrite_bound_event_waits_for_the_sync_outcome() {
    let mut svc = TicketingService::new(MockPaymentGateway::new())
        .with_eventbrite(EventbriteClient::new("api_key".to_string()));
    let outcome = svc.create_event_at(rich_event(EventPlatform::Eventbrite), 777).unwrap();
    let prepared = match outcome {
        CreateEventOutcome::PendingEventbriteSync(e) => e,
        _ => panic!("an Eventbrite event must wait for the sync"),
    };
    assert_eq!(svc.get_events().len(), 0);
    // The sync failed: the failure surfaces and nothing is stored.
    let failed = svc.record_event_sync(prepared, Err("boom".to_string()));
    assert!(matches!(failed, Err(TicketError::ExternalServiceError(_))));
    assert_eq!(svc.get_events().len(), 0);
}

#[test]
fn ticketmaster_bound_event_syncs_locally_and_stores() {
    let mut svc = TicketingService::new(MockPaymentGateway::new())
        .with_ticketmaster(TicketmasterClient::new("api_key".to_string()));
    let outcome = svc.create_event_at(rich_event(EventPlatform::Ticketmaster), 777).unwrap();
    assert!(matches!(outcome, CreateEventOutcome::Stored(_)));
    assert_eq!(svc.get_events().len(), 1);
}

#[test]
fn ethereum_minter_tokens_look_like_transaction_hashes() {
    let minter = EthereumNFTService::new(
        "https://rpc.example".to_string(),
        "0xcontract".to_string(),
        "SECRET-REDACTED".to_string(),
    );
    let e = rich_event(EventPlatform::Internal);
    let ticket = ticketing::ticketing::Ticket {
        id: 1,
        event_id: 1,
        ticket_type_id: 1,
        owner_wallet: "owner".to_string(),
        purchase_price: 100,
        purchase_currency: "HKD".to_string(),
        purchase_date: 0,
        status: ticketing::ticketing::TicketStatus::Active,
        nft_token_id: None,
        qr_code: "TICKET_1_1".to_string(),
        transferable: true,
        resale_allowed: true,
        resale_price: None,
    };
    let md = e.ticket_types[0].nft_metadata.as_ref().unwrap();
    let token = minter.mint_ticket_nft(&ticket, &e, md).unwrap();
    assert_eq!(token.len(), 66);
    assert!(token.starts_with("0x"));
    let tx = minter.transfer_nft(&token, "other_wallet").unwrap();
    assert_eq!(tx.len(), 66);
}

#[test]
fn mock_minter_metadata_lookup_is_not_supported() {
    let minter = MockNFTService::new();
    assert!(minter.get_nft_metadata("token").is_err());
}

#[test]
fn gateway_transaction_references_are_sequential() {
    let mut gw = MockPaymentGateway::new();
    let from = "a".to_string();
    let to = "b".to_string();
    let currency = "HKD".to_string();
    let memo = "memo".to_string();
    let tx0 = gw.transfer(&from, &to, 5, &currency, &memo).unwrap();
    assert_eq!(tx0, "tx_0");
    let tx1 = gw.transfer(&from, &to, 6, &currency, &memo).unwrap();
    assert_eq!(tx1, "tx_1");
    assert_eq!(gw.entries.len(), 2);
}
