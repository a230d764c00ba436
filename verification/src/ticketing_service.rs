//! The core of the library: the event catalog, the ticket ledger, the resale
//! market, and the purchase orchestrator that ties them to the payment and
//! minting capabilities.
//!
//! The service enforces the oversell-prevention invariant (`quantity_sold`
//! never exceeds `quantity_available`) and treats each purchase as one
//! transaction: tickets are constructed and minted first, funds move next,
//! and only then does anything become visible in the ledger, so a failure at
//! any step leaves the service exactly as it was.

use vstd::prelude::*;
use vstd::string::StringExecFns;

use crate::errors::TicketError;
use crate::external_apis::CventClient;
use crate::external_apis::EventbriteClient;
use crate::external_apis::ExternalEventResponse;
use crate::external_apis::TicketmasterClient;
use crate::nft_service::MockNFTService;
use crate::nft_service::NFTMinter;
use crate::payment::PaymentEntry;
use crate::payment::PaymentGateway;
use crate::strings::append_id;
use crate::strings::dec_str;
use crate::strings::make_qr_code;
use crate::strings::qr_code_chars;
use crate::ticketing::Event;
use crate::ticketing::EventPlatform;
use crate::ticketing::ResaleListing;
use crate::ticketing::ResaleStatus;
use crate::ticketing::Ticket;
use crate::ticketing::TicketPurchaseRequest;
use crate::ticketing::TicketPurchaseResponse;
use crate::ticketing::TicketStatus;
use crate::ticketing::TicketType;
use crate::ticketing::event_like;
use crate::ticketing::event_wf;
use crate::ticketing::ticket_type_wf;

verus! {

/// Relies on `chrono::Utc::now` for the current wall-clock time in Unix
/// milliseconds. The value depends on the environment; nothing is promised
/// of it.
#[verifier::external_body]
pub fn now_millis() -> i64 {
    chrono::Utc::now().timestamp_millis()
}

/// There is an event with this id.
pub open spec fn has_event(events: Seq<Event>, id: u128) -> bool {
    exists|i: int| 0 <= i < events.len() && events[i].id == id
}

/// The position of the event with this id (unique when ids are distinct).
pub open spec fn event_idx(events: Seq<Event>, id: u128) -> int {
    choose|i: int| 0 <= i < events.len() && events[i].id == id
}

/// The event with this id.
pub open spec fn event_of(events: Seq<Event>, id: u128) -> Event {
    events[event_idx(events, id)]
}

/// There is a ticket type with this id.
pub open spec fn has_tt(tts: Seq<TicketType>, id: u128) -> bool {
    exists|i: int| 0 <= i < tts.len() && tts[i].id == id
}

/// The position of the ticket type with this id.
pub open spec fn tt_idx(tts: Seq<TicketType>, id: u128) -> int {
    choose|i: int| 0 <= i < tts.len() && tts[i].id == id
}

/// The ticket type with this id.
pub open spec fn tt_of(tts: Seq<TicketType>, id: u128) -> TicketType {
    tts[tt_idx(tts, id)]
}

/// There is a ticket with this id.
pub open spec fn has_ticket(tickets: Seq<Ticket>, id: u128) -> bool {
    exists|i: int| 0 <= i < tickets.len() && tickets[i].id == id
}

/// The position of the ticket with this id.
pub open spec fn ticket_idx(tickets: Seq<Ticket>, id: u128) -> int {
    choose|i: int| 0 <= i < tickets.len() && tickets[i].id == id
}

/// The ticket with this id.
pub open spec fn ticket_of(tickets: Seq<Ticket>, id: u128) -> Ticket {
    tickets[ticket_idx(tickets, id)]
}

/// There is a listing with this id.
pub open spec fn has_listing(listings: Seq<ResaleListing>, id: u128) -> bool {
    exists|i: int| 0 <= i < listings.len() && listings[i].id == id
}

/// The position of the listing with this id.
pub open spec fn listing_idx(listings: Seq<ResaleListing>, id: u128) -> int {
    choose|i: int| 0 <= i < listings.len() && listings[i].id == id
}

/// The listing with this id.
pub open spec fn listing_of(listings: Seq<ResaleListing>, id: u128) -> ResaleListing {
    listings[listing_idx(listings, id)]
}

/// The ticket values behind a sequence of ticket references.
pub open spec fn deref_tickets(s: Seq<&Ticket>) -> Seq<Ticket> {
    s.map_values(|t: &Ticket| *t)
}

/// The tickets owned by a wallet, in ledger order.
pub open spec fn owned_tickets(tickets: Seq<Ticket>, wallet: Seq<char>) -> Seq<Ticket>
    decreases tickets.len(),
{
    if tickets.len() == 0 {
        Seq::empty()
    } else {
        let rest = owned_tickets(tickets.drop_last(), wallet);
        if tickets.last().owner_wallet@ == wallet {
            rest.push(tickets.last())
        } else {
            rest
        }
    }
}

/// The fields of one payment-log entry, with the memo described by its
/// characters.
pub open spec fn entry_fields(
    e: PaymentEntry,
    from: String,
    to: String,
    amount: u128,
    currency: String,
    memo_chars: Seq<char>,
    is_reversal: bool,
) -> bool {
    &&& e.from == from
    &&& e.to == to
    &&& e.amount == amount
    &&& e.currency == currency
    &&& e.memo@ == memo_chars
    &&& e.is_reversal == is_reversal
}

/// The gateway log grew by exactly one entry with the given fields.
pub open spec fn log_extended(
    pl: Seq<PaymentEntry>,
    lg: Seq<PaymentEntry>,
    from: String,
    to: String,
    amount: u128,
    currency: String,
    memo_chars: Seq<char>,
) -> bool {
    &&& lg.len() == pl.len() + 1
    &&& lg.subrange(0, pl.len() as int) == pl
    &&& entry_fields(lg.last(), from, to, amount, currency, memo_chars, false)
}

/// The gateway log grew by a transfer and its immediate reversal: the buyer
/// was charged and then made whole again.
pub open spec fn log_compensated(
    pl: Seq<PaymentEntry>,
    lg: Seq<PaymentEntry>,
    from: String,
    to: String,
    amount: u128,
    currency: String,
    memo_chars: Seq<char>,
) -> bool {
    &&& lg.len() == pl.len() + 2
    &&& lg.subrange(0, pl.len() as int) == pl
    &&& entry_fields(lg[pl.len() as int], from, to, amount, currency, memo_chars, false)
    &&& entry_fields(lg.last(), to, from, amount, currency, memo_chars, true)
}

/// The exact amount a purchase charges: unit price times quantity, in minor
/// currency units.
pub open spec fn purchase_total(tt: TicketType, quantity: u32) -> int {
    tt.price * quantity
}

/// Why a purchase request is rejected before any work is done, if it is:
/// zero quantity, unknown event or ticket type, or not enough remaining
/// inventory.
pub open spec fn purchase_rejection<M, P>(
    pre: TicketingService<M, P>,
    request: TicketPurchaseRequest,
) -> Option<TicketError> {
    if request.quantity == 0 {
        Some(TicketError::ValidationError)
    } else if !has_event(pre.events@, request.event_id) {
        Some(TicketError::EventNotFound(request.event_id))
    } else if !has_tt(
        event_of(pre.events@, request.event_id).ticket_types@,
        request.ticket_type_id,
    ) {
        Some(TicketError::TicketTypeNotFound(request.ticket_type_id))
    } else {
        let tt = tt_of(
            event_of(pre.events@, request.event_id).ticket_types@,
            request.ticket_type_id,
        );
        if tt.quantity_available - tt.quantity_sold < request.quantity {
            Some(TicketError::InsufficientInventory)
        } else {
            None
        }
    }
}

/// What each ticket issued by a purchase looks like: owned by the buyer,
/// Active, priced at the unit price, carrying its redemption code, and
/// carrying a token reference exactly when the type mints.
pub open spec fn is_purchased_ticket(
    t: Ticket,
    request: TicketPurchaseRequest,
    price: u64,
    now_ms: i64,
    id: u128,
    has_nft: bool,
) -> bool {
    &&& t.id == id
    &&& t.event_id == request.event_id
    &&& t.ticket_type_id == request.ticket_type_id
    &&& t.owner_wallet == request.buyer_wallet
    &&& t.purchase_price == price
    &&& t.purchase_currency == request.payment_currency
    &&& t.purchase_date == now_ms
    &&& t.status == TicketStatus::Active
    &&& (t.nft_token_id is Some <==> has_nft)
    &&& t.qr_code@ == qr_code_chars(request.event_id, id)
    &&& t.transferable
    &&& t.resale_allowed
    &&& t.resale_price is None
}

/// Everything a successful purchase guarantees: the response's contents,
/// the tickets appended to the ledger, the advanced sold counter, the
/// payment made (when paying in the native settlement currency), and that
/// nothing else moved.
pub open spec fn purchase_success_post<M, P: PaymentGateway>(
    pre: TicketingService<M, P>,
    post: TicketingService<M, P>,
    request: TicketPurchaseRequest,
    now_ms: i64,
    resp: TicketPurchaseResponse,
) -> bool {
    let ei = event_idx(pre.events@, request.event_id);
    let ev = pre.events@[ei];
    let ti = tt_idx(ev.ticket_types@, request.ticket_type_id);
    let tt = ev.ticket_types@[ti];
    let qty = request.quantity as int;
    let has_nft = tt.nft_metadata is Some;
    let pays_hkd = request.payment_currency@ == "HKD"@;
    &&& resp.purchase_id == pre.next_purchase_id
    &&& resp.total_amount == purchase_total(tt, request.quantity)
    &&& resp.tickets@.len() == qty
    &&& forall|k: int|
        0 <= k < qty ==> is_purchased_ticket(
            #[trigger] resp.tickets@[k],
            request,
            tt.price,
            now_ms,
            (pre.tickets@.len() + 1 + k) as u128,
            has_nft,
        )
    &&& resp.nft_mint_transactions@.len() == (if has_nft {
        qty
    } else {
        0
    })
    &&& (has_nft ==> forall|k: int|
        0 <= k < qty ==> resp.tickets@[k].nft_token_id == Some(
            #[trigger] resp.nft_mint_transactions@[k],
        ))
    &&& resp.transaction_hash is Some
    &&& (!pays_hkd ==> resp.transaction_hash->Some_0@ == "external_payment_tx"@
        && post.payment_gateway.log() == pre.payment_gateway.log())
    &&& (pays_hkd ==> log_extended(
        pre.payment_gateway.log(),
        post.payment_gateway.log(),
        request.buyer_wallet,
        ev.organizer,
        purchase_total(tt, request.quantity) as u128,
        request.payment_currency,
        "Ticket purchase for "@ + ev.title@,
    ))
    &&& post.tickets@ == pre.tickets@ + resp.tickets@
    &&& post.events@.len() == pre.events@.len()
    &&& (forall|i: int|
        0 <= i < pre.events@.len() && i != ei ==> post.events@[i] == #[trigger] pre.events@[i])
    &&& post.events@[ei] == (Event { ticket_types: post.events@[ei].ticket_types, ..ev })
    &&& post.events@[ei].ticket_types@ == ev.ticket_types@.update(
        ti,
        (TicketType { quantity_sold: (tt.quantity_sold + request.quantity) as u32, ..tt }),
    )
    &&& post.listings@ == pre.listings@
    &&& post.next_event_id == pre.next_event_id
    &&& post.next_purchase_id == pre.next_purchase_id + 1
    &&& post.eventbrite_client == pre.eventbrite_client
    &&& post.ticketmaster_client == pre.ticketmaster_client
    &&& post.cvent_client == pre.cvent_client
    &&& post.nft_minter == pre.nft_minter
}

/// Why a resale purchase is rejected before any work is done, if it is:
/// unknown listing, listing no longer active, or the referenced ticket
/// missing from the ledger.
pub open spec fn resale_rejection<M, P>(
    pre: TicketingService<M, P>,
    listing_id: u128,
) -> Option<TicketError> {
    if !has_listing(pre.listings@, listing_id) {
        Some(TicketError::ListingNotFound(listing_id))
    } else if listing_of(pre.listings@, listing_id).status != ResaleStatus::Listed {
        Some(TicketError::ValidationError)
    } else if !has_ticket(pre.tickets@, listing_of(pre.listings@, listing_id).ticket_id) {
        Some(TicketError::TicketNotFound(listing_of(pre.listings@, listing_id).ticket_id))
    } else {
        None
    }
}

/// Everything a completed resale guarantees: funds moved from buyer to
/// seller, ownership and ticket status updated, the listing marked sold,
/// and nothing else moved.
pub open spec fn resale_success_post<M, P: PaymentGateway>(
    pre: TicketingService<M, P>,
    post: TicketingService<M, P>,
    listing_id: u128,
    buyer_wallet: String,
    sold: Ticket,
) -> bool {
    let li = listing_idx(pre.listings@, listing_id);
    let listing = pre.listings@[li];
    let ti = ticket_idx(pre.tickets@, listing.ticket_id);
    let t = pre.tickets@[ti];
    &&& post.listings@ == pre.listings@.update(
        li,
        (ResaleListing { status: ResaleStatus::Sold, ..listing }),
    )
    &&& post.tickets@ == pre.tickets@.update(
        ti,
        (Ticket { owner_wallet: buyer_wallet, status: TicketStatus::Resold, ..t }),
    )
    &&& sold == post.tickets@[ti]
    &&& log_extended(
        pre.payment_gateway.log(),
        post.payment_gateway.log(),
        buyer_wallet,
        listing.seller_wallet,
        listing.asking_price as u128,
        listing.currency,
        "Resale of ticket "@ + dec_str(listing.ticket_id),
    )
    &&& post.events@ == pre.events@
    &&& post.next_event_id == pre.next_event_id
    &&& post.next_purchase_id == pre.next_purchase_id
    &&& post.eventbrite_client == pre.eventbrite_client
    &&& post.ticketmaster_client == pre.ticketmaster_client
    &&& post.cvent_client == pre.cvent_client
    &&& post.nft_minter == pre.nft_minter
}

/// A resale whose token transfer failed after payment settled leaves the
/// stores untouched and the buyer compensated: the payment and its reversal
/// both stand in the log.
pub open spec fn resale_compensated_post<M, P: PaymentGateway>(
    pre: TicketingService<M, P>,
    post: TicketingService<M, P>,
    listing_id: u128,
    buyer_wallet: String,
) -> bool {
    let listing = listing_of(pre.listings@, listing_id);
    &&& post.listings@ == pre.listings@
    &&& post.tickets@ == pre.tickets@
    &&& post.events@ == pre.events@
    &&& post.next_event_id == pre.next_event_id
    &&& post.next_purchase_id == pre.next_purchase_id
    &&& post.eventbrite_client == pre.eventbrite_client
    &&& post.ticketmaster_client == pre.ticketmaster_client
    &&& post.cvent_client == pre.cvent_client
    &&& post.nft_minter == pre.nft_minter
    &&& log_compensated(
        pre.payment_gateway.log(),
        post.payment_gateway.log(),
        buyer_wallet,
        listing.seller_wallet,
        listing.asking_price as u128,
        listing.currency,
        "Resale of ticket "@ + dec_str(listing.ticket_id),
    )
}

/// What creating an event produced: either the stored record, or a prepared
/// event awaiting the Eventbrite sync that the application must perform
/// (its outcome goes to `record_event_sync`).
pub enum CreateEventOutcome {
    Stored(Event),
    PendingEventbriteSync(Event),
}

/// What creating an event at instant `now_ms` guarantees: a malformed event
/// is rejected outright; an Eventbrite-bound event (with a client
/// configured) is prepared and handed back; anything else is stored, after
/// any local platform sync.
pub open spec fn create_event_post<M, P>(
    pre: TicketingService<M, P>,
    post: TicketingService<M, P>,
    event: Event,
    now_ms: i64,
    r: Result<CreateEventOutcome, TicketError>,
) -> bool {
    let prepared = Event {
        id: pre.next_event_id,
        created_at: now_ms,
        updated_at: now_ms,
        ..event
    };
    if !event_wf(event) {
        r == Err::<CreateEventOutcome, TicketError>(TicketError::ValidationError) && post == pre
    } else if event.platform == EventPlatform::Eventbrite && pre.eventbrite_client is Some {
        &&& r == Ok::<CreateEventOutcome, TicketError>(
            CreateEventOutcome::PendingEventbriteSync(prepared),
        )
        &&& post == (TicketingService { next_event_id: post.next_event_id, ..pre })
        &&& post.next_event_id == pre.next_event_id + 1
    } else {
        &&& post.events@ == pre.events@.push(prepared)
        &&& post.next_event_id == pre.next_event_id + 1
        &&& post == (TicketingService {
            events: post.events,
            next_event_id: post.next_event_id,
            ..pre
        })
        &&& r is Ok
        &&& r->Ok_0 is Stored
        &&& event_like(r->Ok_0->Stored_0, prepared)
    }
}

/// Finds the position of a ticket type within an event's list.
fn find_tt_index(tts: &Vec<TicketType>, id: u128) -> (r: Option<usize>)
    requires
        forall|i: int, j: int|
            0 <= i < tts@.len() && 0 <= j < tts@.len() && i != j ==> tts@[i].id != tts@[j].id,
    ensures
        r is Some <==> has_tt(tts@, id),
        r is Some ==> r->Some_0 == tt_idx(tts@, id) && 0 <= r->Some_0 < tts@.len()
            && tts@[r->Some_0 as int].id == id,
{
    let n = tts.len();
    let mut i: usize = 0;
    while i < n
        invariant
            forall|a: int, b: int|
                0 <= a < tts@.len() && 0 <= b < tts@.len() && a != b ==> tts@[a].id != tts@[b].id,
            n == tts@.len(),
            i <= n,
            forall|k: int| 0 <= k < i ==> (#[trigger] tts@[k]).id != id,
        decreases n - i,
    {
        if tts[i].id == id {
            proof {
                let j = tt_idx(tts@, id);
                assert(0 <= j < tts@.len() && tts@[j].id == id);
                if j != i as int {
                    assert(tts@[j].id != tts@[i as int].id);
                }
                assert(j == i as int);
            }
            return Some(i);
        }
        i += 1;
    }
    None
}

/// Checks the event well-formedness predicate at run time: distinct
/// ticket-type ids and the oversell-prevention invariant on each.
fn check_event_wf(e: &Event) -> (b: bool)
    ensures
        b == event_wf(*e),
{
    let n = e.ticket_types.len();
    let mut i: usize = 0;
    while i < n
        invariant
            n == e.ticket_types@.len(),
            i <= n,
            forall|k: int|
                0 <= k < i ==> ticket_type_wf(#[trigger] e.ticket_types@[k]),
            forall|k: int, l: int|
                0 <= k < i && k < l < n ==> e.ticket_types@[k].id != e.ticket_types@[l].id,
        decreases n - i,
    {
        if e.ticket_types[i].quantity_sold > e.ticket_types[i].quantity_available {
            return false;
        }
        let id_i = e.ticket_types[i].id;
        let mut j: usize = i + 1;
        while j < n
            invariant
                n == e.ticket_types@.len(),
                i < n,
                i < j <= n,
                id_i == e.ticket_types@[i as int].id,
                forall|l: int| i < l < j ==> e.ticket_types@[i as int].id != (
                #[trigger] e.ticket_types@[l]).id,
            decreases n - j,
        {
            if e.ticket_types[j].id == id_i {
                return false;
            }
            j += 1;
        }
        i += 1;
    }
    proof {
        assert forall|k: int, l: int|
            0 <= k < n && 0 <= l < n && k != l implies e.ticket_types@[k].id != e.ticket_types@[l].id
        by {
            if k < l {
                assert(e.ticket_types@[k].id != e.ticket_types@[l].id);
            } else {
                assert(e.ticket_types@[l].id != e.ticket_types@[k].id);
            }
        }
    }
    true
}

/// The event catalog, ticket ledger, and resale market, orchestrated over a
/// minting capability `M` and a payment capability `P`.
pub struct TicketingService<M, P> {
    /// The catalog: every event, with its ticket types and their counters.
    pub events: Vec<Event>,
    /// The ledger: every issued ticket, in order of issuance; the ticket at
    /// position `i` has id `i + 1`.
    pub tickets: Vec<Ticket>,
    /// The resale market: every listing ever created; the listing at
    /// position `i` has id `i + 1`.
    pub listings: Vec<ResaleListing>,
    /// The next identity the catalog will assign.
    pub next_event_id: u128,
    /// The next purchase identity the orchestrator will assign.
    pub next_purchase_id: u128,
    pub eventbrite_client: Option<EventbriteClient>,
    pub ticketmaster_client: Option<TicketmasterClient>,
    pub cvent_client: Option<CventClient>,
    pub nft_minter: M,
    pub payment_gateway: P,
}

impl<M, P> TicketingService<M, P> {
    /// Catalog invariant: event ids are distinct, below the next id to be
    /// assigned, and every event is well formed (the oversell-prevention
    /// invariant holds of each of its ticket types).
    pub open spec fn events_wf(self) -> bool {
        &&& forall|i: int, j: int|
            0 <= i < self.events@.len() && 0 <= j < self.events@.len() && i != j
                ==> self.events@[i].id != self.events@[j].id
        &&& forall|i: int|
            0 <= i < self.events@.len() ==> (#[trigger] self.events@[i]).id < self.next_event_id
        &&& forall|i: int| 0 <= i < self.events@.len() ==> event_wf(#[trigger] self.events@[i])
    }

    /// Ledger invariant: tickets are stored in order of issuance and the
    /// ticket at position `i` has id `i + 1`, so ids are distinct.
    pub open spec fn tickets_wf(self) -> bool {
        forall|i: int| 0 <= i < self.tickets@.len() ==> (#[trigger] self.tickets@[i]).id == i + 1
    }

    /// Market invariant: the listing at position `i` has id `i + 1`.
    pub open spec fn listings_wf(self) -> bool {
        forall|i: int| 0 <= i < self.listings@.len() ==> (#[trigger] self.listings@[i]).id == i + 1
    }

    /// The service invariant, established by `new` and preserved by every
    /// operation.
    pub open spec fn wf(self) -> bool {
        &&& self.events_wf()
        &&& self.tickets_wf()
        &&& self.listings_wf()
        &&& self.next_event_id >= 1
    }
}

impl<P: PaymentGateway> TicketingService<MockNFTService, P> {
    /// A fresh service over the given payment gateway, with the in-memory
    /// minter, empty stores, and no external platform clients.
    pub fn new(payment_gateway: P) -> (r: TicketingService<MockNFTService, P>)
        ensures
            r.wf(),
            r.events@ == Seq::<Event>::empty(),
            r.tickets@ == Seq::<Ticket>::empty(),
            r.listings@ == Seq::<ResaleListing>::empty(),
            r.next_event_id == 1,
            r.next_purchase_id == 1,
            r.eventbrite_client is None,
            r.ticketmaster_client is None,
            r.cvent_client is None,
            !r.nft_minter.fail_minting,
            !r.nft_minter.fail_transfers,
            r.payment_gateway == payment_gateway,
    {
        TicketingService {
            events: Vec::new(),
            tickets: Vec::new(),
            listings: Vec::new(),
            next_event_id: 1,
            next_purchase_id: 1,
            eventbrite_client: None,
            ticketmaster_client: None,
            cvent_client: None,
            nft_minter: MockNFTService::new(),
            payment_gateway,
        }
    }
}

impl<M: NFTMinter, P: PaymentGateway> TicketingService<M, P> {
    /// Configures the Eventbrite client; everything else is unchanged.
    pub fn with_eventbrite(self, client: EventbriteClient) -> (r: Self)
        ensures
            r == (TicketingService { eventbrite_client: Some(client), ..self }),
    {
        TicketingService { eventbrite_client: Some(client), ..self }
    }

    /// Configures the Ticketmaster client; everything else is unchanged.
    pub fn with_ticketmaster(self, client: TicketmasterClient) -> (r: Self)
        ensures
            r == (TicketingService { ticketmaster_client: Some(client), ..self }),
    {
        TicketingService { ticketmaster_client: Some(client), ..self }
    }

    /// Configures the Cvent client; everything else is unchanged.
    pub fn with_cvent(self, client: CventClient) -> (r: Self)
        ensures
            r == (TicketingService { cvent_client: Some(client), ..self }),
    {
        TicketingService { cvent_client: Some(client), ..self }
    }

    /// Replaces the minting capability; everything else is unchanged.
    pub fn with_nft_minter<M2: NFTMinter>(self, minter: M2) -> (r: TicketingService<M2, P>)
        ensures
            r.events == self.events,
            r.tickets == self.tickets,
            r.listings == self.listings,
            r.next_event_id == self.next_event_id,
            r.next_purchase_id == self.next_purchase_id,
            r.eventbrite_client == self.eventbrite_client,
            r.ticketmaster_client == self.ticketmaster_client,
            r.cvent_client == self.cvent_client,
            r.nft_minter == minter,
            r.payment_gateway == self.payment_gateway,
    {
        TicketingService {
            events: self.events,
            tickets: self.tickets,
            listings: self.listings,
            next_event_id: self.next_event_id,
            next_purchase_id: self.next_purchase_id,
            eventbrite_client: self.eventbrite_client,
            ticketmaster_client: self.ticketmaster_client,
            cvent_client: self.cvent_client,
            nft_minter: minter,
            payment_gateway: self.payment_gateway,
        }
    }

    /// Finds the position of an event in the catalog.
    fn find_event_index(&self, event_id: u128) -> (r: Option<usize>)
        requires
            self.events_wf(),
        ensures
            r is Some <==> has_event(self.events@, event_id),
            r is Some ==> r->Some_0 == event_idx(self.events@, event_id)
                && 0 <= r->Some_0 < self.events@.len()
                && self.events@[r->Some_0 as int].id == event_id,
    {
        let n = self.events.len();
        let mut i: usize = 0;
        while i < n
            invariant
                self.events_wf(),
                n == self.events@.len(),
                i <= n,
                forall|k: int| 0 <= k < i ==> (#[trigger] self.events@[k]).id != event_id,
            decreases n - i,
        {
            if self.events[i].id == event_id {
                proof {
                    let j = event_idx(self.events@, event_id);
                    assert(0 <= j < self.events@.len() && self.events@[j].id == event_id);
                    if j != i as int {
                        assert(self.events@[j].id != self.events@[i as int].id);
                    }
                    assert(j == i as int);
                }
                return Some(i);
            }
            i += 1;
        }
        None
    }

    /// Finds the position of a ticket in the ledger.
    fn find_ticket_index(&self, ticket_id: u128) -> (r: Option<usize>)
        requires
            self.tickets_wf(),
        ensures
            r is Some <==> has_ticket(self.tickets@, ticket_id),
            r is Some ==> r->Some_0 == ticket_idx(self.tickets@, ticket_id)
                && 0 <= r->Some_0 < self.tickets@.len()
                && self.tickets@[r->Some_0 as int].id == ticket_id,
    {
        let n = self.tickets.len();
        let mut i: usize = 0;
        while i < n
            invariant
                self.tickets_wf(),
                n == self.tickets@.len(),
                i <= n,
                forall|k: int| 0 <= k < i ==> (#[trigger] self.tickets@[k]).id != ticket_id,
            decreases n - i,
        {
            if self.tickets[i].id == ticket_id {
                proof {
                    let j = ticket_idx(self.tickets@, ticket_id);
                    assert(0 <= j < self.tickets@.len() && self.tickets@[j].id == ticket_id);
                    assert(self.tickets@[j].id == j + 1);
                    assert(self.tickets@[i as int].id == i as int + 1);
                    assert(j == i as int);
                }
                return Some(i);
            }
            i += 1;
        }
        None
    }

    /// Finds the position of a listing in the market.
    fn find_listing_index(&self, listing_id: u128) -> (r: Option<usize>)
        requires
            self.listings_wf(),
        ensures
            r is Some <==> has_listing(self.listings@, listing_id),
            r is Some ==> r->Some_0 == listing_idx(self.listings@, listing_id)
                && 0 <= r->Some_0 < self.listings@.len()
                && self.listings@[r->Some_0 as int].id == listing_id,
    {
        let n = self.listings.len();
        let mut i: usize = 0;
        while i < n
            invariant
                self.listings_wf(),
                n == self.listings@.len(),
                i <= n,
                forall|k: int| 0 <= k < i ==> (#[trigger] self.listings@[k]).id != listing_id,
            decreases n - i,
        {
            if self.listings[i].id == listing_id {
                proof {
                    let j = listing_idx(self.listings@, listing_id);
                    assert(0 <= j < self.listings@.len() && self.listings@[j].id == listing_id);
                    assert(self.listings@[j].id == j + 1);
                    assert(self.listings@[i as int].id == i as int + 1);
                    assert(j == i as int);
                }
                return Some(i);
            }
            i += 1;
        }
        None
    }

    /// Looks an event up by id.
    pub fn get_event(&self, event_id: u128) -> (r: Option<&Event>)
        requires
            self.events_wf(),
        ensures
            r is Some <==> has_event(self.events@, event_id),
            r is Some ==> *r->Some_0 == event_of(self.events@, event_id),
    {
        match self.find_event_index(event_id) {
            Some(i) => Some(&self.events[i]),
            None => None,
        }
    }

    /// Every event in the catalog, in creation order.
    pub fn get_events(&self) -> (r: Vec<&Event>)
        ensures
            r@.len() == self.events@.len(),
            forall|i: int| 0 <= i < r@.len() ==> *(#[trigger] r@[i]) == self.events@[i],
    {
        let mut out: Vec<&Event> = Vec::new();
        let mut i: usize = 0;
        while i < self.events.len()
            invariant
                i <= self.events@.len(),
                out@.len() == i,
                forall|k: int| 0 <= k < i ==> *(#[trigger] out@[k]) == self.events@[k],
            decreases self.events@.len() - i,
        {
            out.push(&self.events[i]);
            i += 1;
        }
        out
    }

    /// Looks a ticket up by id.
    pub fn get_ticket(&self, ticket_id: u128) -> (r: Option<&Ticket>)
        requires
            self.tickets_wf(),
        ensures
            r is Some <==> has_ticket(self.tickets@, ticket_id),
            r is Some ==> *r->Some_0 == ticket_of(self.tickets@, ticket_id),
    {
        match self.find_ticket_index(ticket_id) {
            Some(i) => Some(&self.tickets[i]),
            None => None,
        }
    }

    /// The tickets owned by a wallet, in ledger order.
    pub fn get_user_tickets(&self, wallet_address: &String) -> (r: Vec<&Ticket>)
        ensures
            deref_tickets(r@) == owned_tickets(self.tickets@, wallet_address@),
    {
        let mut out: Vec<&Ticket> = Vec::new();
        let mut i: usize = 0;
        while i < self.tickets.len()
            invariant
                i <= self.tickets@.len(),
                deref_tickets(out@) == owned_tickets(
                    self.tickets@.subrange(0, i as int),
                    wallet_address@,
                ),
            decreases self.tickets@.len() - i,
        {
            proof {
                assert(self.tickets@.subrange(0, (i + 1) as int).drop_last() =~= self.tickets@
                    .subrange(0, i as int));
                assert(self.tickets@.subrange(0, (i + 1) as int).last() == self.tickets@[i as int]);
            }
            if self.tickets[i].owner_wallet == *wallet_address {
                let ghost prev = deref_tickets(out@);
                out.push(&self.tickets[i]);
                proof {
                    assert(deref_tickets(out@) =~= prev.push(self.tickets@[i as int]));
                }
            }
            i += 1;
        }
        proof {
            assert(self.tickets@.subrange(0, self.tickets@.len() as int) =~= self.tickets@);
        }
        out
    }

    /// Looks a resale listing up by id.
    pub fn get_listing(&self, listing_id: u128) -> (r: Option<&ResaleListing>)
        requires
            self.listings_wf(),
        ensures
            r is Some <==> has_listing(self.listings@, listing_id),
            r is Some ==> *r->Some_0 == listing_of(self.listings@, listing_id),
    {
        match self.find_listing_index(listing_id) {
            Some(i) => Some(&self.listings[i]),
            None => None,
        }
    }

    /// Inserts a ticket into the ledger under a freshly assigned identity
    /// (the input's id is replaced, which keeps identities unique) and
    /// returns the stored record.
    pub fn issue_ticket(&mut self, ticket: Ticket) -> (r: Ticket)
        requires
            old(self).wf(),
        ensures
            final(self).wf(),
            final(self).tickets@ == old(self).tickets@.push(
                (Ticket { id: (old(self).tickets@.len() + 1) as u128, ..ticket }),
            ),
            r == (Ticket { id: (old(self).tickets@.len() + 1) as u128, ..ticket }),
            *final(self) == (TicketingService { tickets: final(self).tickets, ..*old(self) }),
    {
        let mut t = ticket;
        t.id = self.tickets.len() as u128 + 1;
        let r = t.clone();
        self.tickets.push(t);
        r
    }

    /// Sets the status of the ticket with the given id; fails with
    /// `TicketNotFound` if and only if no such ticket exists, changing
    /// nothing.
    pub fn update_ticket_status(&mut self, ticket_id: u128, new_status: TicketStatus) -> (r: Result<
        (),
        TicketError,
    >)
        requires
            old(self).wf(),
        ensures
            final(self).wf(),
            r is Ok <==> has_ticket(old(self).tickets@, ticket_id),
            r is Err ==> r == Err::<(), TicketError>(TicketError::TicketNotFound(ticket_id))
                && *final(self) == *old(self),
            r is Ok ==> final(self).tickets@ == old(self).tickets@.update(
                ticket_idx(old(self).tickets@, ticket_id),
                (Ticket {
                    status: new_status,
                    ..old(self).tickets@[ticket_idx(old(self).tickets@, ticket_id)]
                }),
            ) && *final(self) == (TicketingService { tickets: final(self).tickets, ..*old(self) }),
    {
        let i = match self.find_ticket_index(ticket_id) {
            Some(i) => i,
            None => {
                return Err(TicketError::TicketNotFound(ticket_id));
            },
        };
        let mut t = self.tickets.remove(i);
        t.status = new_status;
        self.tickets.insert(i, t);
        proof {
            assert(self.tickets@ =~= old(self).tickets@.update(
                i as int,
                (Ticket { status: new_status, ..old(self).tickets@[i as int] }),
            ));
        }
        Ok(())
    }

    /// The core purchase transaction: resolves the event and ticket type,
    /// checks availability, constructs and (when the type mints) mints every
    /// ticket, settles payment, and only then issues the tickets and
    /// advances the sold counter — all or nothing.
    ///
    /// Every rejection and every mid-transaction failure leaves the service
    /// exactly as it was: the buyer is never charged without receiving all
    /// the tickets, and the inventory counter never moves on failure.
    #[verifier::loop_isolation(false)]
    pub fn purchase_tickets(&mut self, request: TicketPurchaseRequest, now_ms: i64) -> (r: Result<
        TicketPurchaseResponse,
        TicketError,
    >)
        requires
            old(self).wf(),
            old(self).next_purchase_id < u128::MAX,
        ensures
            final(self).wf(),
            match purchase_rejection(*old(self), request) {
                Some(e) => r == Err::<TicketPurchaseResponse, TicketError>(e) && *final(self)
                    == *old(self),
                None => {
                    let ev = event_of(old(self).events@, request.event_id);
                    let tt = tt_of(ev.ticket_types@, request.ticket_type_id);
                    let has_nft = tt.nft_metadata is Some;
                    let pays_hkd = request.payment_currency@ == "HKD"@;
                    &&& (r is Ok <==> ((has_nft ==> old(self).nft_minter.mint_ok()) && (pays_hkd
                        ==> old(self).payment_gateway.transfer_ok())))
                    &&& (r is Err ==> *final(self) == *old(self))
                    &&& ((r is Err && (has_nft ==> old(self).nft_minter.mint_ok())) ==> r == Err::<
                        TicketPurchaseResponse,
                        TicketError,
                    >(TicketError::PaymentFailure))
                    &&& (r is Ok ==> purchase_success_post(
                        *old(self),
                        *final(self),
                        request,
                        now_ms,
                        r->Ok_0,
                    ))
                },
            },
    {
        if request.quantity == 0 {
            return Err(TicketError::ValidationError);
        }
        let ei = match self.find_event_index(request.event_id) {
            Some(i) => i,
            None => {
                return Err(TicketError::EventNotFound(request.event_id));
            },
        };
        proof {
            assert(event_wf(self.events@[ei as int]));
        }
        let ti = match find_tt_index(&self.events[ei].ticket_types, request.ticket_type_id) {
            Some(i) => i,
            None => {
                return Err(TicketError::TicketTypeNotFound(request.ticket_type_id));
            },
        };
        let price = self.events[ei].ticket_types[ti].price;
        let available = self.events[ei].ticket_types[ti].quantity_available;
        let sold = self.events[ei].ticket_types[ti].quantity_sold;
        proof {
            assert(ticket_type_wf(self.events@[ei as int].ticket_types@[ti as int]));
        }
        if available - sold < request.quantity {
            return Err(TicketError::InsufficientInventory);
        }
        let has_nft = match &self.events[ei].ticket_types[ti].nft_metadata {
            Some(_) => true,
            None => false,
        };
        proof {
            assert((price as int) * (request.quantity as int) <= (u64::MAX as int) * (u32::MAX
                as int)) by (nonlinear_arith)
                requires
                    price <= u64::MAX,
                    request.quantity <= u32::MAX,
            ;
        }
        let total: u128 = (price as u128) * (request.quantity as u128);

        // Construct (and mint) every ticket before any money moves or
        // anything becomes visible: a mint failure aborts with no side
        // effects at all.
        let base = self.tickets.len();
        let mut built: Vec<Ticket> = Vec::new();
        let mut minted: Vec<String> = Vec::new();
        let mut k: u32 = 0;
        while k < request.quantity
            invariant
                *self == *old(self),
                self.wf(),
                old(self).next_purchase_id < u128::MAX,
                k <= request.quantity,
                0 <= ei < self.events@.len(),
                0 <= ti < self.events@[ei as int].ticket_types@.len(),
                price == self.events@[ei as int].ticket_types@[ti as int].price,
                has_nft == (self.events@[ei as int].ticket_types@[ti as int].nft_metadata
                    is Some),
                base == self.tickets@.len(),
                built@.len() == k,
                forall|x: int|
                    0 <= x < k ==> is_purchased_ticket(
                        #[trigger] built@[x],
                        request,
                        price,
                        now_ms,
                        (base + 1 + x) as u128,
                        has_nft,
                    ),
                minted@.len() == (if has_nft {
                    k as int
                } else {
                    0
                }),
                (has_nft ==> forall|x: int|
                    0 <= x < k ==> built@[x].nft_token_id == Some(#[trigger] minted@[x])),
                (has_nft && k > 0 ==> self.nft_minter.mint_ok()),
            decreases request.quantity - k,
        {
            let id: u128 = base as u128 + 1 + k as u128;
            let qr = make_qr_code(request.event_id, id);
            let mut ticket = Ticket {
                id,
                event_id: request.event_id,
                ticket_type_id: request.ticket_type_id,
                owner_wallet: request.buyer_wallet.clone(),
                purchase_price: price,
                purchase_currency: request.payment_currency.clone(),
                purchase_date: now_ms,
                status: TicketStatus::Active,
                nft_token_id: None,
                qr_code: qr,
                transferable: true,
                resale_allowed: true,
                resale_price: None,
            };
            if has_nft {
                let md = match &self.events[ei].ticket_types[ti].nft_metadata {
                    Some(m) => m,
                    None => unreached(),
                };
                let token = match self.nft_minter.mint_ticket_nft(&ticket, &self.events[ei], md) {
                    Ok(t) => t,
                    Err(e) => {
                        return Err(e);
                    },
                };
                ticket.nft_token_id = Some(token.clone());
                minted.push(token);
            }
            built.push(ticket);
            k += 1;
        }

        // Settle payment; a declined transfer aborts with nothing issued.
        let hkd = String::from_str("HKD");
        let pays_hkd = request.payment_currency == hkd;
        let payment_tx: String;
        if pays_hkd {
            let memo = String::from_str("Ticket purchase for ").concat(
                self.events[ei].title.as_str(),
            );
            let organizer = self.events[ei].organizer.clone();
            payment_tx =
            match self.payment_gateway.transfer(
                &request.buyer_wallet,
                &organizer,
                total,
                &request.payment_currency,
                &memo,
            ) {
                Ok(tx) => tx,
                Err(e) => {
                    return Err(e);
                },
            };
            proof {
                assert(self.payment_gateway.log().subrange(
                    0,
                    old(self).payment_gateway.log().len() as int,
                ) =~= old(self).payment_gateway.log());
            }
        } else {
            payment_tx = String::from_str("external_payment_tx");
        }

        // Commit: issue every ticket and advance the sold counter. Nothing
        // below can fail.
        let ghost mid = *self;
        let mut idx: usize = 0;
        while idx < built.len()
            invariant
                idx <= built@.len(),
                base == mid.tickets@.len(),
                self.tickets@ == mid.tickets@ + built@.subrange(0, idx as int),
                *self == (TicketingService { tickets: self.tickets, ..mid }),
            decreases built@.len() - idx,
        {
            let t = built[idx].clone();
            self.tickets.push(t);
            proof {
                assert(built@.subrange(0, (idx + 1) as int) =~= built@.subrange(
                    0,
                    idx as int,
                ).push(built@[idx as int]));
                assert(self.tickets@ =~= mid.tickets@ + built@.subrange(0, (idx + 1) as int));
            }
            idx += 1;
        }
        proof {
            assert(built@.subrange(0, built@.len() as int) =~= built@);
        }
        let mut ev = self.events.remove(ei);
        let mut tt = ev.ticket_types.remove(ti);
        tt.quantity_sold = tt.quantity_sold + request.quantity;
        ev.ticket_types.insert(ti, tt);
        self.events.insert(ei, ev);
        let purchase_id = self.next_purchase_id;
        self.next_purchase_id = self.next_purchase_id + 1;
        proof {
            let pre = *old(self);
            let eidx = event_idx(pre.events@, request.event_id);
            let evp = pre.events@[eidx];
            let tidx = tt_idx(evp.ticket_types@, request.ticket_type_id);
            let ttp = evp.ticket_types@[tidx];
            assert(self.events@[eidx].ticket_types@ =~= evp.ticket_types@.update(
                tidx,
                (TicketType {
                    quantity_sold: (ttp.quantity_sold + request.quantity) as u32,
                    ..ttp
                }),
            ));
            assert(self.events@ =~= pre.events@.update(eidx, self.events@[eidx]));
            assert forall|i: int| 0 <= i < self.events@.len() implies event_wf(
                #[trigger] self.events@[i],
            ) by {
                assert(event_wf(pre.events@[i]));
                if i == eidx {
                    assert(forall|x: int|
                        0 <= x < self.events@[i].ticket_types@.len() ==> ticket_type_wf(
                            #[trigger] self.events@[i].ticket_types@[x],
                        ));
                }
            }
        }
        Ok(
            TicketPurchaseResponse {
                purchase_id,
                tickets: built,
                total_amount: total,
                transaction_hash: Some(payment_tx),
                nft_mint_transactions: minted,
            },
        )
    }

    /// Creates a resale listing for an issued ticket: fails with
    /// `TicketNotFound` for an unknown ticket and `ResaleNotAllowed` when
    /// the ticket's resale flag is off (changing nothing either way);
    /// otherwise stores and returns a Listed entry owned by the ticket's
    /// current owner.
    pub fn list_ticket_for_resale(
        &mut self,
        ticket_id: u128,
        asking_price: u64,
        currency: String,
        now_ms: i64,
    ) -> (r: Result<ResaleListing, TicketError>)
        requires
            old(self).wf(),
        ensures
            final(self).wf(),
            r is Err ==> *final(self) == *old(self),
            !has_ticket(old(self).tickets@, ticket_id) ==> r == Err::<ResaleListing, TicketError>(
                TicketError::TicketNotFound(ticket_id),
            ),
            (has_ticket(old(self).tickets@, ticket_id) && !ticket_of(
                old(self).tickets@,
                ticket_id,
            ).resale_allowed) ==> r == Err::<ResaleListing, TicketError>(
                TicketError::ResaleNotAllowed,
            ),
            (has_ticket(old(self).tickets@, ticket_id) && ticket_of(
                old(self).tickets@,
                ticket_id,
            ).resale_allowed) ==> {
                let listing = ResaleListing {
                    id: (old(self).listings@.len() + 1) as u128,
                    ticket_id: ticket_id,
                    seller_wallet: ticket_of(old(self).tickets@, ticket_id).owner_wallet,
                    asking_price: asking_price,
                    currency: currency,
                    listed_at: now_ms,
                    status: ResaleStatus::Listed,
                };
                &&& r == Ok::<ResaleListing, TicketError>(listing)
                &&& final(self).listings@ == old(self).listings@.push(listing)
                &&& *final(self) == (TicketingService {
                    listings: final(self).listings,
                    ..*old(self)
                })
            },
    {
        let i = match self.find_ticket_index(ticket_id) {
            Some(i) => i,
            None => {
                return Err(TicketError::TicketNotFound(ticket_id));
            },
        };
        if !self.tickets[i].resale_allowed {
            return Err(TicketError::ResaleNotAllowed);
        }
        let listing = ResaleListing {
            id: self.listings.len() as u128 + 1,
            ticket_id,
            seller_wallet: self.tickets[i].owner_wallet.clone(),
            asking_price,
            currency,
            listed_at: now_ms,
            status: ResaleStatus::Listed,
        };
        let ret = listing.clone();
        self.listings.push(listing);
        Ok(ret)
    }

    /// Completes a resale: verifies the listing is active, moves the asking
    /// price from buyer to seller, transfers any minted token, then
    /// atomically updates the ticket's owner and status and marks the
    /// listing Sold.
    ///
    /// If the token transfer fails after payment settled, the payment is
    /// reversed and the stores stay untouched: the listing is never Sold
    /// while ownership is unchanged, nor the reverse.
    pub fn purchase_resale_ticket(&mut self, listing_id: u128, buyer_wallet: String) -> (r: Result<
        Ticket,
        TicketError,
    >)
        requires
            old(self).wf(),
        ensures
            final(self).wf(),
            match resale_rejection(*old(self), listing_id) {
                Some(e) => r == Err::<Ticket, TicketError>(e) && *final(self) == *old(self),
                None => {
                    let listing = listing_of(old(self).listings@, listing_id);
                    let t = ticket_of(old(self).tickets@, listing.ticket_id);
                    let has_token = t.nft_token_id is Some;
                    &&& (r is Ok <==> (old(self).payment_gateway.transfer_ok() && (has_token
                        ==> old(self).nft_minter.nft_transfer_ok())))
                    &&& (!old(self).payment_gateway.transfer_ok() ==> r == Err::<
                        Ticket,
                        TicketError,
                    >(TicketError::PaymentFailure) && *final(self) == *old(self))
                    &&& ((r is Err && old(self).payment_gateway.transfer_ok())
                        ==> resale_compensated_post(
                        *old(self),
                        *final(self),
                        listing_id,
                        buyer_wallet,
                    ))
                    &&& (r is Ok ==> resale_success_post(
                        *old(self),
                        *final(self),
                        listing_id,
                        buyer_wallet,
                        r->Ok_0,
                    ))
                },
            },
    {
        let li = match self.find_listing_index(listing_id) {
            Some(i) => i,
            None => {
                return Err(TicketError::ListingNotFound(listing_id));
            },
        };
        let listed = match self.listings[li].status {
            ResaleStatus::Listed => true,
            _ => false,
        };
        if !listed {
            return Err(TicketError::ValidationError);
        }
        let tid = self.listings[li].ticket_id;
        let ti = match self.find_ticket_index(tid) {
            Some(i) => i,
            None => {
                return Err(TicketError::TicketNotFound(tid));
            },
        };
        let seller = self.listings[li].seller_wallet.clone();
        let amount = self.listings[li].asking_price as u128;
        let currency = self.listings[li].currency.clone();
        let memo = append_id("Resale of ticket ", tid);

        // Move the funds first; a declined transfer changes nothing.
        match self.payment_gateway.transfer(&buyer_wallet, &seller, amount, &currency, &memo) {
            Ok(_) => {},
            Err(e) => {
                return Err(e);
            },
        }

        // Transfer the minted token, if any; on failure, compensate the
        // payment and leave the stores untouched.
        let has_token = match &self.tickets[ti].nft_token_id {
            Some(_) => true,
            None => false,
        };
        if has_token {
            let outcome = {
                let tok = match &self.tickets[ti].nft_token_id {
                    Some(t) => t,
                    None => unreached(),
                };
                self.nft_minter.transfer_nft(tok.as_str(), buyer_wallet.as_str())
            };
            match outcome {
                Ok(_) => {},
                Err(e) => {
                    let entry = PaymentEntry {
                        from: buyer_wallet.clone(),
                        to: seller.clone(),
                        amount: amount,
                        currency: currency.clone(),
                        memo: memo.clone(),
                        is_reversal: false,
                    };
                    self.payment_gateway.reverse(&entry);
                    proof {
                        let pre = *old(self);
                        let pl = pre.payment_gateway.log();
                        assert(self.payment_gateway.log().subrange(0, pl.len() as int) =~= pl);
                    }
                    return Err(e);
                },
            }
        }

        // Commit: ownership, ticket status, and listing status change
        // together. Nothing below can fail.
        let mut t = self.tickets.remove(ti);
        t.owner_wallet = buyer_wallet;
        t.status = TicketStatus::Resold;
        let sold = t.clone();
        self.tickets.insert(ti, t);
        let mut l = self.listings.remove(li);
        l.status = ResaleStatus::Sold;
        self.listings.insert(li, l);
        proof {
            let pre = *old(self);
            let pl = pre.payment_gateway.log();
            assert(self.payment_gateway.log().subrange(0, pl.len() as int) =~= pl);
            assert(self.tickets@ =~= pre.tickets@.update(ti as int, self.tickets@[ti as int]));
            assert(self.listings@ =~= pre.listings@.update(li as int, self.listings@[li as int]));
        }
        Ok(sold)
    }

    /// Admits an event into the catalog at the given creation instant:
    /// validates it, assigns identity and timestamps, performs any local
    /// platform sync, and stores it — unless it is bound for Eventbrite with
    /// a client configured, in which case the prepared event is handed back
    /// for the application to sync (see `record_event_sync`).
    pub fn create_event_at(&mut self, event: Event, now_ms: i64) -> (r: Result<
        CreateEventOutcome,
        TicketError,
    >)
        requires
            old(self).wf(),
            old(self).next_event_id < u128::MAX,
        ensures
            final(self).wf(),
            create_event_post(*old(self), *final(self), event, now_ms, r),
    {
        if !check_event_wf(&event) {
            return Err(TicketError::ValidationError);
        }
        let mut e = event;
        e.id = self.next_event_id;
        self.next_event_id = self.next_event_id + 1;
        e.created_at = now_ms;
        e.updated_at = now_ms;
        match e.platform {
            EventPlatform::Eventbrite => {
                if self.eventbrite_client.is_some() {
                    return Ok(CreateEventOutcome::PendingEventbriteSync(e));
                }
            },
            EventPlatform::Ticketmaster => {
                if let Some(client) = &self.ticketmaster_client {
                    match client.create_ticketmaster_event(&e) {
                        Ok(_) => {},
                        Err(err) => {
                            return Err(err);
                        },
                    }
                }
            },
            EventPlatform::Cvent => {
                if let Some(client) = &self.cvent_client {
                    match client.create_cvent_event(&e) {
                        Ok(_) => {},
                        Err(err) => {
                            return Err(err);
                        },
                    }
                }
            },
            EventPlatform::Internal => {},
        }
        let stored = e.clone();
        self.events.push(e);
        Ok(CreateEventOutcome::Stored(stored))
    }

    /// Admits an event at the current wall-clock time; the contract is that
    /// of `create_event_at` for the instant the clock returned.
    pub fn create_event(&mut self, event: Event) -> (r: Result<CreateEventOutcome, TicketError>)
        requires
            old(self).wf(),
            old(self).next_event_id < u128::MAX,
        ensures
            final(self).wf(),
            exists|t: i64| create_event_post(*old(self), *final(self), event, t, r),
    {
        let now = now_millis();
        let ghost pre = *old(self);
        let ghost ev = event;
        let r = self.create_event_at(event, now);
        proof {
            assert(create_event_post(pre, *self, ev, now, r));
        }
        r
    }

    /// Records the outcome of the Eventbrite sync for an event prepared by
    /// `create_event_at`: stores the event when the sync succeeded, and
    /// surfaces the failure verbatim — storing nothing — when it did not.
    pub fn record_event_sync(&mut self, event: Event, outcome: Result<
        ExternalEventResponse,
        String,
    >) -> (r: Result<Event, TicketError>)
        requires
            old(self).wf(),
            event_wf(event),
            event.id < old(self).next_event_id,
            !has_event(old(self).events@, event.id),
        ensures
            final(self).wf(),
            outcome is Err ==> r == Err::<Event, TicketError>(
                TicketError::ExternalServiceError(outcome->Err_0),
            ) && *final(self) == *old(self),
            outcome is Ok ==> {
                &&& final(self).events@ == old(self).events@.push(event)
                &&& *final(self) == (TicketingService { events: final(self).events, ..*old(self) })
                &&& r is Ok
                &&& event_like(r->Ok_0, event)
            },
    {
        match outcome {
            Err(msg) => Err(TicketError::ExternalServiceError(msg)),
            Ok(resp) => {
                let _ = resp;
                let stored = event.clone();
                self.events.push(event);
                Ok(stored)
            },
        }
    }
}

/// Law: oversell prevention. In every well-formed service state — the state
/// `new` establishes and every operation's contract preserves — no ticket
/// type of any event records more tickets sold than its declared capacity.
/// Operations take `&mut self`, so purchases of one ticket type are
/// serialized and each one observes and preserves this bound.
pub proof fn lemma_oversell_prevention<M, P>(svc: TicketingService<M, P>, i: int, j: int)
    requires
        svc.wf(),
        0 <= i < svc.events@.len(),
        0 <= j < svc.events@[i].ticket_types@.len(),
    ensures
        0 <= svc.events@[i].ticket_types@[j].quantity_sold,
        svc.events@[i].ticket_types@[j].quantity_sold <= svc.events@[i].ticket_types@[j]
            .quantity_available,
{
    assert(event_wf(svc.events@[i]));
    assert(ticket_type_wf(svc.events@[i].ticket_types@[j]));
}

/// Appending ledgers splits the ownership filter.
proof fn lemma_owned_tickets_append(a: Seq<Ticket>, b: Seq<Ticket>, wallet: Seq<char>)
    ensures
        owned_tickets(a + b, wallet) == owned_tickets(a, wallet) + owned_tickets(b, wallet),
    decreases b.len(),
{
    if b.len() == 0 {
        assert(a + b =~= a);
        assert(owned_tickets(a, wallet) + owned_tickets(b, wallet) =~= owned_tickets(a, wallet));
    } else {
        lemma_owned_tickets_append(a, b.drop_last(), wallet);
        assert((a + b).drop_last() =~= a + b.drop_last());
        assert((a + b).last() == b.last());
        if b.last().owner_wallet@ == wallet {
            assert(owned_tickets(a + b, wallet) =~= owned_tickets(a, wallet) + owned_tickets(
                b,
                wallet,
            ));
        } else {
            assert(owned_tickets(a + b, wallet) =~= owned_tickets(a, wallet) + owned_tickets(
                b,
                wallet,
            ));
        }
    }
}

/// A ledger none of whose tickets the wallet owns filters to nothing.
proof fn lemma_owned_tickets_none(a: Seq<Ticket>, wallet: Seq<char>)
    requires
        forall|i: int| 0 <= i < a.len() ==> (#[trigger] a[i]).owner_wallet@ != wallet,
    ensures
        owned_tickets(a, wallet) == Seq::<Ticket>::empty(),
    decreases a.len(),
{
    if a.len() > 0 {
        lemma_owned_tickets_none(a.drop_last(), wallet);
    }
}

/// A ledger all of whose tickets the wallet owns filters to itself.
proof fn lemma_owned_tickets_all(b: Seq<Ticket>, wallet: Seq<char>)
    requires
        forall|i: int| 0 <= i < b.len() ==> (#[trigger] b[i]).owner_wallet@ == wallet,
    ensures
        owned_tickets(b, wallet) == b,
    decreases b.len(),
{
    if b.len() > 0 {
        lemma_owned_tickets_all(b.drop_last(), wallet);
        assert(owned_tickets(b, wallet) =~= b.drop_last().push(b.last()));
        assert(b.drop_last().push(b.last()) =~= b);
    }
}

/// Law: issuing a purchase and then querying the ledger by the buyer's
/// wallet returns exactly the tickets of that purchase — no more, no fewer
/// — when the buyer owned nothing beforehand. There are no duplicates among
/// them: the purchase contract gives each issued ticket a distinct id.
pub proof fn lemma_purchase_then_list_by_owner(
    pre: Seq<Ticket>,
    post: Seq<Ticket>,
    issued: Seq<Ticket>,
    wallet: Seq<char>,
)
    requires
        post == pre + issued,
        forall|k: int| 0 <= k < issued.len() ==> (#[trigger] issued[k]).owner_wallet@ == wallet,
        forall|i: int| 0 <= i < pre.len() ==> (#[trigger] pre[i]).owner_wallet@ != wallet,
    ensures
        owned_tickets(post, wallet) == issued,
{
    lemma_owned_tickets_append(pre, issued, wallet);
    lemma_owned_tickets_none(pre, wallet);
    lemma_owned_tickets_all(issued, wallet);
    assert(owned_tickets(post, wallet) =~= issued);
}

} // verus!

