//! The shared data model: events with their ticket types and perks, issued
//! tickets, resale listings, and the purchase request/response value objects.
//!
//! Identities are plain `u128` values assigned by the stores, timestamps are
//! Unix milliseconds, and prices are exact amounts in minor currency units
//! (cents), so that all arithmetic on them is integer arithmetic.

use vstd::prelude::*;

verus! {

/// Geographic position in integer micro-degrees (one millionth of a degree).
#[derive(Clone, Copy, PartialEq, Eq, Structural, Debug)]
pub struct Coordinates {
    pub latitude_microdeg: i64,
    pub longitude_microdeg: i64,
}

/// Where an event takes place.
#[derive(Debug)]
pub struct Venue {
    pub name: String,
    pub address: String,
    pub city: String,
    pub country: String,
    pub capacity: u32,
    pub coordinates: Option<Coordinates>,
}

#[derive(Clone, Copy, PartialEq, Eq, Structural, Debug)]
pub enum EventType {
    Concert,
    Conference,
    Sports,
    Theater,
    Festival,
    Workshop,
    Exhibition,
}

#[derive(Clone, Copy, PartialEq, Eq, Structural, Debug)]
pub enum PerkCategory {
    EarlyEntry,
    VIP,
    MeetAndGreet,
    Merchandise,
    DigitalContent,
}

/// An extra entitlement attached to a ticket type.
#[derive(Debug)]
pub struct Perk {
    pub name: String,
    pub description: String,
    pub category: PerkCategory,
}

/// A single trait of an NFT, as name/value text.
#[derive(Debug)]
pub struct NFTAttribute {
    pub trait_type: String,
    pub value: String,
}

/// The metadata template minted into a token for each ticket of a type that
/// carries one.
#[derive(Debug)]
pub struct NFTMetadata {
    pub name: String,
    pub description: String,
    pub image: String,
    pub animation_url: Option<String>,
    pub attributes: Vec<NFTAttribute>,
    pub external_url: Option<String>,
}

#[derive(Clone, Copy, PartialEq, Eq, Structural, Debug)]
pub enum EventPlatform {
    Eventbrite,
    Ticketmaster,
    Cvent,
    Internal,
}

#[derive(Clone, Copy, PartialEq, Eq, Structural, Debug)]
pub enum EventStatus {
    Draft,
    Published,
    OnSale,
    SoldOut,
    Cancelled,
    Completed,
}

/// A priced class of admission within an event, with its own capacity.
///
/// The oversell-prevention invariant `quantity_sold <= quantity_available`
/// is stated by [`ticket_type_wf`] and enforced by the purchase orchestrator.
#[derive(Debug)]
pub struct TicketType {
    pub id: u128,
    pub name: String,
    /// Unit price in minor currency units (cents).
    pub price: u64,
    pub currency: String,
    /// Capacity ceiling for this ticket type.
    pub quantity_available: u32,
    /// Number of tickets issued so far.
    pub quantity_sold: u32,
    pub perks: Vec<Perk>,
    /// When present, each purchased ticket of this type gets a minted token.
    pub nft_metadata: Option<NFTMetadata>,
    pub sales_start: i64,
    pub sales_end: i64,
}

/// An event definition, owned by the catalog.
#[derive(Debug)]
pub struct Event {
    pub id: u128,
    pub title: String,
    pub description: String,
    /// The organizer's wallet identifier, the payee of primary sales.
    pub organizer: String,
    pub venue: Venue,
    pub event_date: i64,
    pub door_time: i64,
    pub event_type: EventType,
    pub ticket_types: Vec<TicketType>,
    /// Identifier assigned by an external platform after a successful sync.
    pub external_event_id: Option<String>,
    pub platform: EventPlatform,
    pub status: EventStatus,
    pub created_at: i64,
    pub updated_at: i64,
}

#[derive(Clone, Copy, PartialEq, Eq, Structural, Debug)]
pub enum TicketStatus {
    Active,
    Used,
    Transferred,
    Resold,
    Refunded,
    Cancelled,
}

/// An issued ticket, owned by the ledger.
#[derive(Debug)]
pub struct Ticket {
    pub id: u128,
    pub event_id: u128,
    pub ticket_type_id: u128,
    pub owner_wallet: String,
    /// Price paid, in minor currency units.
    pub purchase_price: u64,
    pub purchase_currency: String,
    pub purchase_date: i64,
    pub status: TicketStatus,
    /// Token reference when the ticket was minted as an NFT.
    pub nft_token_id: Option<String>,
    /// Redemption code presented at the door.
    pub qr_code: String,
    pub transferable: bool,
    pub resale_allowed: bool,
    pub resale_price: Option<u64>,
}

/// What a buyer asks the orchestrator for.
#[derive(Debug)]
pub struct TicketPurchaseRequest {
    pub event_id: u128,
    pub ticket_type_id: u128,
    pub quantity: u32,
    pub buyer_wallet: String,
    /// Currency code, for example "HKD" (the native settlement currency).
    pub payment_currency: String,
}

/// Everything a completed purchase produced.
#[derive(Debug)]
pub struct TicketPurchaseResponse {
    pub purchase_id: u128,
    pub tickets: Vec<Ticket>,
    /// Total charged, in minor currency units.
    pub total_amount: u128,
    pub transaction_hash: Option<String>,
    pub nft_mint_transactions: Vec<String>,
}

#[derive(Clone, Copy, PartialEq, Eq, Structural, Debug)]
pub enum ResaleStatus {
    Listed,
    Sold,
    Cancelled,
    Expired,
}

/// A seller's offer to transfer an issued ticket at a set price.
#[derive(Debug)]
pub struct ResaleListing {
    pub id: u128,
    pub ticket_id: u128,
    pub seller_wallet: String,
    /// Asking price in minor currency units.
    pub asking_price: u64,
    pub currency: String,
    pub listed_at: i64,
    pub status: ResaleStatus,
}

/// The oversell-prevention invariant: a ticket type never records more
/// tickets sold than its declared capacity.
pub open spec fn ticket_type_wf(tt: TicketType) -> bool {
    tt.quantity_sold <= tt.quantity_available
}

/// A well-formed event: ticket-type ids are distinct within the event and
/// every ticket type satisfies the oversell-prevention invariant.
pub open spec fn event_wf(e: Event) -> bool {
    &&& forall|i: int, j: int|
        0 <= i < e.ticket_types@.len() && 0 <= j < e.ticket_types@.len() && i != j
            ==> e.ticket_types@[i].id != e.ticket_types@[j].id
    &&& forall|i: int| 0 <= i < e.ticket_types@.len() ==> ticket_type_wf(#[trigger] e.ticket_types@[i])
}

/// Field-for-field equality of NFT metadata; the attribute list is compared
/// element by element.
pub open spec fn metadata_like(a: NFTMetadata, b: NFTMetadata) -> bool {
    &&& a.name == b.name
    &&& a.description == b.description
    &&& a.image == b.image
    &&& a.animation_url == b.animation_url
    &&& a.attributes@ == b.attributes@
    &&& a.external_url == b.external_url
}

/// Field-for-field equality of ticket types; lists are compared element by
/// element.
pub open spec fn tt_like(a: TicketType, b: TicketType) -> bool {
    &&& a.id == b.id
    &&& a.name == b.name
    &&& a.price == b.price
    &&& a.currency == b.currency
    &&& a.quantity_available == b.quantity_available
    &&& a.quantity_sold == b.quantity_sold
    &&& a.perks@ == b.perks@
    &&& a.nft_metadata is Some <==> b.nft_metadata is Some
    &&& (a.nft_metadata is Some && b.nft_metadata is Some) ==> metadata_like(
        a.nft_metadata->Some_0,
        b.nft_metadata->Some_0,
    )
    &&& a.sales_start == b.sales_start
    &&& a.sales_end == b.sales_end
}

/// Field-for-field equality of events; the ticket-type list is compared
/// element by element with [`tt_like`].
pub open spec fn event_like(a: Event, b: Event) -> bool {
    &&& a.id == b.id
    &&& a.title == b.title
    &&& a.description == b.description
    &&& a.organizer == b.organizer
    &&& a.venue == b.venue
    &&& a.event_date == b.event_date
    &&& a.door_time == b.door_time
    &&& a.event_type == b.event_type
    &&& a.ticket_types@.len() == b.ticket_types@.len()
    &&& forall|i: int|
        0 <= i < a.ticket_types@.len() ==> tt_like(
            #[trigger] a.ticket_types@[i],
            b.ticket_types@[i],
        )
    &&& a.external_event_id == b.external_event_id
    &&& a.platform == b.platform
    &&& a.status == b.status
    &&& a.created_at == b.created_at
    &&& a.updated_at == b.updated_at
}

/// Clones an optional string, preserving the value exactly.
pub fn clone_opt_string(o: &Option<String>) -> (r: Option<String>)
    ensures
        r == *o,
{
    match o {
        Some(s) => Some(s.clone()),
        None => None,
    }
}

impl Clone for Venue {
    fn clone(&self) -> (res: Self)
        ensures
            res == *self,
    {
        Venue {
            name: self.name.clone(),
            address: self.address.clone(),
            city: self.city.clone(),
            country: self.country.clone(),
            capacity: self.capacity,
            coordinates: self.coordinates,
        }
    }
}

impl Clone for Perk {
    fn clone(&self) -> (res: Self)
        ensures
            res == *self,
    {
        Perk {
            name: self.name.clone(),
            description: self.description.clone(),
            category: self.category,
        }
    }
}

impl Clone for NFTAttribute {
    fn clone(&self) -> (res: Self)
        ensures
            res == *self,
    {
        NFTAttribute { trait_type: self.trait_type.clone(), value: self.value.clone() }
    }
}

/// Clones a perk list, preserving the sequence of values exactly.
pub fn clone_perks(v: &Vec<Perk>) -> (r: Vec<Perk>)
    ensures
        r@ == v@,
{
    let mut out: Vec<Perk> = Vec::new();
    let mut i: usize = 0;
    while i < v.len()
        invariant
            i <= v@.len(),
            out@ =~= v@.subrange(0, i as int),
        decreases v@.len() - i,
    {
        out.push(v[i].clone());
        proof {
            assert(v@.subrange(0, (i + 1) as int) =~= v@.subrange(0, i as int).push(v@[i as int]));
        }
        i += 1;
    }
    proof {
        assert(out@ =~= v@);
    }
    out
}

/// Clones an attribute list, preserving the sequence of values exactly.
pub fn clone_attributes(v: &Vec<NFTAttribute>) -> (r: Vec<NFTAttribute>)
    ensures
        r@ == v@,
{
    let mut out: Vec<NFTAttribute> = Vec::new();
    let mut i: usize = 0;
    while i < v.len()
        invariant
            i <= v@.len(),
            out@ =~= v@.subrange(0, i as int),
        decreases v@.len() - i,
    {
        out.push(v[i].clone());
        proof {
            assert(v@.subrange(0, (i + 1) as int) =~= v@.subrange(0, i as int).push(v@[i as int]));
        }
        i += 1;
    }
    proof {
        assert(out@ =~= v@);
    }
    out
}

impl Clone for NFTMetadata {
    fn clone(&self) -> (res: Self)
        ensures
            metadata_like(res, *self),
    {
        let res = NFTMetadata {
            name: self.name.clone(),
            description: self.description.clone(),
            image: self.image.clone(),
            animation_url: clone_opt_string(&self.animation_url),
            attributes: clone_attributes(&self.attributes),
            external_url: clone_opt_string(&self.external_url),
        };
        proof {
            assert(res.attributes@ == self.attributes@);
        }
        res
    }
}

impl Clone for TicketType {
    fn clone(&self) -> (res: Self)
        ensures
            tt_like(res, *self),
    {
        TicketType {
            id: self.id,
            name: self.name.clone(),
            price: self.price,
            currency: self.currency.clone(),
            quantity_available: self.quantity_available,
            quantity_sold: self.quantity_sold,
            perks: clone_perks(&self.perks),
            nft_metadata: match &self.nft_metadata {
                Some(m) => Some(m.clone()),
                None => None,
            },
            sales_start: self.sales_start,
            sales_end: self.sales_end,
        }
    }
}

/// Clones a ticket-type list, preserving each element field for field.
pub fn clone_ticket_types(v: &Vec<TicketType>) -> (r: Vec<TicketType>)
    ensures
        r@.len() == v@.len(),
        forall|i: int| 0 <= i < v@.len() ==> tt_like(#[trigger] r@[i], v@[i]),
{
    let mut out: Vec<TicketType> = Vec::new();
    let mut i: usize = 0;
    while i < v.len()
        invariant
            i <= v@.len(),
            out@.len() == i,
            forall|k: int| 0 <= k < i ==> tt_like(#[trigger] out@[k], v@[k]),
        decreases v@.len() - i,
    {
        out.push(v[i].clone());
        i += 1;
    }
    out
}

impl Clone for Event {
    fn clone(&self) -> (res: Self)
        ensures
            event_like(res, *self),
    {
        let res = Event {
            id: self.id,
            title: self.title.clone(),
            description: self.description.clone(),
            organizer: self.organizer.clone(),
            venue: self.venue.clone(),
            event_date: self.event_date,
            door_time: self.door_time,
            event_type: self.event_type,
            ticket_types: clone_ticket_types(&self.ticket_types),
            external_event_id: clone_opt_string(&self.external_event_id),
            platform: self.platform,
            status: self.status,
            created_at: self.created_at,
            updated_at: self.updated_at,
        };
        res
    }
}

impl Clone for Ticket {
    fn clone(&self) -> (res: Self)
        ensures
            res == *self,
    {
        Ticket {
            id: self.id,
            event_id: self.event_id,
            ticket_type_id: self.ticket_type_id,
            owner_wallet: self.owner_wallet.clone(),
            purchase_price: self.purchase_price,
            purchase_currency: self.purchase_currency.clone(),
            purchase_date: self.purchase_date,
            status: self.status,
            nft_token_id: clone_opt_string(&self.nft_token_id),
            qr_code: self.qr_code.clone(),
            transferable: self.transferable,
            resale_allowed: self.resale_allowed,
            resale_price: self.resale_price,
        }
    }
}

impl Clone for ResaleListing {
    fn clone(&self) -> (res: Self)
        ensures
            res == *self,
    {
        ResaleListing {
            id: self.id,
            ticket_id: self.ticket_id,
            seller_wallet: self.seller_wallet.clone(),
            asking_price: self.asking_price,
            currency: self.currency.clone(),
            listed_at: self.listed_at,
            status: self.status,
        }
    }
}

impl Clone for TicketPurchaseRequest {
    fn clone(&self) -> (res: Self)
        ensures
            res == *self,
    {
        TicketPurchaseRequest {
            event_id: self.event_id,
            ticket_type_id: self.ticket_type_id,
            quantity: self.quantity,
            buyer_wallet: self.buyer_wallet.clone(),
            payment_currency: self.payment_currency.clone(),
        }
    }
}

} // verus!
