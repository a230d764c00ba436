//! The external-facing representation of an event: the same tree of fields
//! with every enum rendered as a small integer code, which is what leaves the
//! library on a wire or in a document. Encoding is proved lossless: decoding
//! what was encoded gives back the event field for field.

use vstd::prelude::*;

use crate::ticketing::Event;
use crate::ticketing::EventPlatform;
use crate::ticketing::EventStatus;
use crate::ticketing::EventType;
use crate::ticketing::NFTMetadata;
use crate::ticketing::Perk;
use crate::ticketing::PerkCategory;
use crate::ticketing::TicketType;
use crate::ticketing::Venue;
use crate::ticketing::clone_opt_string;
use crate::ticketing::event_like;
use crate::ticketing::metadata_like;
use crate::ticketing::tt_like;

verus! {

/// A perk as externally represented: the category is an integer code.
pub struct PerkRepr {
    pub name: String,
    pub description: String,
    pub category: u32,
}

/// A ticket type as externally represented.
pub struct TicketTypeRepr {
    pub id: u128,
    pub name: String,
    pub price: u64,
    pub currency: String,
    pub quantity_available: u32,
    pub quantity_sold: u32,
    pub perks: Vec<PerkRepr>,
    pub nft_metadata: Option<NFTMetadata>,
    pub sales_start: i64,
    pub sales_end: i64,
}

/// An event as externally represented: enums become integer codes, nested
/// lists are represented element by element.
pub struct EventRepr {
    pub id: u128,
    pub title: String,
    pub description: String,
    pub organizer: String,
    pub venue: Venue,
    pub event_date: i64,
    pub door_time: i64,
    pub event_type: u32,
    pub ticket_types: Vec<TicketTypeRepr>,
    pub external_event_id: Option<String>,
    pub platform: u32,
    pub status: u32,
    pub created_at: i64,
    pub updated_at: i64,
}

pub open spec fn event_type_code(t: EventType) -> u32 {
    match t {
        EventType::Concert => 0u32,
        EventType::Conference => 1u32,
        EventType::Sports => 2u32,
        EventType::Theater => 3u32,
        EventType::Festival => 4u32,
        EventType::Workshop => 5u32,
        EventType::Exhibition => 6u32,
    }
}

pub open spec fn event_type_of_code(c: u32) -> Option<EventType> {
    if c == 0 {
        Some(EventType::Concert)
    } else if c == 1 {
        Some(EventType::Conference)
    } else if c == 2 {
        Some(EventType::Sports)
    } else if c == 3 {
        Some(EventType::Theater)
    } else if c == 4 {
        Some(EventType::Festival)
    } else if c == 5 {
        Some(EventType::Workshop)
    } else if c == 6 {
        Some(EventType::Exhibition)
    } else {
        None
    }
}

pub open spec fn perk_category_code(c: PerkCategory) -> u32 {
    match c {
        PerkCategory::EarlyEntry => 0u32,
        PerkCategory::VIP => 1u32,
        PerkCategory::MeetAndGreet => 2u32,
        PerkCategory::Merchandise => 3u32,
        PerkCategory::DigitalContent => 4u32,
    }
}

pub open spec fn perk_category_of_code(c: u32) -> Option<PerkCategory> {
    if c == 0 {
        Some(PerkCategory::EarlyEntry)
    } else if c == 1 {
        Some(PerkCategory::VIP)
    } else if c == 2 {
        Some(PerkCategory::MeetAndGreet)
    } else if c == 3 {
        Some(PerkCategory::Merchandise)
    } else if c == 4 {
        Some(PerkCategory::DigitalContent)
    } else {
        None
    }
}

pub open spec fn platform_code(p: EventPlatform) -> u32 {
    match p {
        EventPlatform::Eventbrite => 0u32,
        EventPlatform::Ticketmaster => 1u32,
        EventPlatform::Cvent => 2u32,
        EventPlatform::Internal => 3u32,
    }
}

pub open spec fn platform_of_code(c: u32) -> Option<EventPlatform> {
    if c == 0 {
        Some(EventPlatform::Eventbrite)
    } else if c == 1 {
        Some(EventPlatform::Ticketmaster)
    } else if c == 2 {
        Some(EventPlatform::Cvent)
    } else if c == 3 {
        Some(EventPlatform::Internal)
    } else {
        None
    }
}

pub open spec fn status_code(s: EventStatus) -> u32 {
    match s {
        EventStatus::Draft => 0u32,
        EventStatus::Published => 1u32,
        EventStatus::OnSale => 2u32,
        EventStatus::SoldOut => 3u32,
        EventStatus::Cancelled => 4u32,
        EventStatus::Completed => 5u32,
    }
}

pub open spec fn status_of_code(c: u32) -> Option<EventStatus> {
    if c == 0 {
        Some(EventStatus::Draft)
    } else if c == 1 {
        Some(EventStatus::Published)
    } else if c == 2 {
        Some(EventStatus::OnSale)
    } else if c == 3 {
        Some(EventStatus::SoldOut)
    } else if c == 4 {
        Some(EventStatus::Cancelled)
    } else if c == 5 {
        Some(EventStatus::Completed)
    } else {
        None
    }
}

/// The perk `p` is what the representation `r` stands for.
pub open spec fn perk_encodes(p: Perk, r: PerkRepr) -> bool {
    &&& r.name == p.name
    &&& r.description == p.description
    &&& r.category == perk_category_code(p.category)
}

/// The ticket type `tt` is what the representation `r` stands for.
pub open spec fn tt_encodes(tt: TicketType, r: TicketTypeRepr) -> bool {
    &&& r.id == tt.id
    &&& r.name == tt.name
    &&& r.price == tt.price
    &&& r.currency == tt.currency
    &&& r.quantity_available == tt.quantity_available
    &&& r.quantity_sold == tt.quantity_sold
    &&& r.perks@.len() == tt.perks@.len()
    &&& forall|i: int|
        0 <= i < tt.perks@.len() ==> perk_encodes(#[trigger] tt.perks@[i], r.perks@[i])
    &&& (r.nft_metadata is Some <==> tt.nft_metadata is Some)
    &&& (tt.nft_metadata is Some && r.nft_metadata is Some) ==> metadata_like(
        tt.nft_metadata->Some_0,
        r.nft_metadata->Some_0,
    )
    &&& r.sales_start == tt.sales_start
    &&& r.sales_end == tt.sales_end
}

/// The event `e` is what the representation `r` stands for.
pub open spec fn event_encodes(e: Event, r: EventRepr) -> bool {
    &&& r.id == e.id
    &&& r.title == e.title
    &&& r.description == e.description
    &&& r.organizer == e.organizer
    &&& r.venue == e.venue
    &&& r.event_date == e.event_date
    &&& r.door_time == e.door_time
    &&& r.event_type == event_type_code(e.event_type)
    &&& r.ticket_types@.len() == e.ticket_types@.len()
    &&& forall|i: int|
        0 <= i < e.ticket_types@.len() ==> tt_encodes(
            #[trigger] e.ticket_types@[i],
            r.ticket_types@[i],
        )
    &&& r.external_event_id == e.external_event_id
    &&& r.platform == platform_code(e.platform)
    &&& r.status == status_code(e.status)
    &&& r.created_at == e.created_at
    &&& r.updated_at == e.updated_at
}

/// Every enum code in the representation decodes.
pub open spec fn tt_repr_valid(r: TicketTypeRepr) -> bool {
    forall|i: int|
        0 <= i < r.perks@.len() ==> perk_category_of_code((#[trigger] r.perks@[i]).category)
            is Some
}

/// Every enum code in the representation decodes.
pub open spec fn event_repr_valid(r: EventRepr) -> bool {
    &&& event_type_of_code(r.event_type) is Some
    &&& platform_of_code(r.platform) is Some
    &&& status_of_code(r.status) is Some
    &&& forall|i: int| 0 <= i < r.ticket_types@.len() ==> tt_repr_valid(#[trigger] r.ticket_types@[i])
}

fn event_type_to_code(t: EventType) -> (c: u32)
    ensures
        c == event_type_code(t),
{
    match t {
        EventType::Concert => 0,
        EventType::Conference => 1,
        EventType::Sports => 2,
        EventType::Theater => 3,
        EventType::Festival => 4,
        EventType::Workshop => 5,
        EventType::Exhibition => 6,
    }
}

fn event_type_from_code(c: u32) -> (r: Option<EventType>)
    ensures
        r == event_type_of_code(c),
{
    if c == 0 {
        Some(EventType::Concert)
    } else if c == 1 {
        Some(EventType::Conference)
    } else if c == 2 {
        Some(EventType::Sports)
    } else if c == 3 {
        Some(EventType::Theater)
    } else if c == 4 {
        Some(EventType::Festival)
    } else if c == 5 {
        Some(EventType::Workshop)
    } else if c == 6 {
        Some(EventType::Exhibition)
    } else {
        None
    }
}

fn perk_category_to_code(t: PerkCategory) -> (c: u32)
    ensures
        c == perk_category_code(t),
{
    match t {
        PerkCategory::EarlyEntry => 0,
        PerkCategory::VIP => 1,
        PerkCategory::MeetAndGreet => 2,
        PerkCategory::Merchandise => 3,
        PerkCategory::DigitalContent => 4,
    }
}

fn perk_category_from_code(c: u32) -> (r: Option<PerkCategory>)
    ensures
        r == perk_category_of_code(c),
{
    if c == 0 {
        Some(PerkCategory::EarlyEntry)
    } else if c == 1 {
        Some(PerkCategory::VIP)
    } else if c == 2 {
        Some(PerkCategory::MeetAndGreet)
    } else if c == 3 {
        Some(PerkCategory::Merchandise)
    } else if c == 4 {
        Some(PerkCategory::DigitalContent)
    } else {
        None
    }
}

fn platform_to_code(t: EventPlatform) -> (c: u32)
    ensures
        c == platform_code(t),
{
    match t {
        EventPlatform::Eventbrite => 0,
        EventPlatform::Ticketmaster => 1,
        EventPlatform::Cvent => 2,
        EventPlatform::Internal => 3,
    }
}

fn platform_from_code(c: u32) -> (r: Option<EventPlatform>)
    ensures
        r == platform_of_code(c),
{
    if c == 0 {
        Some(EventPlatform::Eventbrite)
    } else if c == 1 {
        Some(EventPlatform::Ticketmaster)
    } else if c == 2 {
        Some(EventPlatform::Cvent)
    } else if c == 3 {
        Some(EventPlatform::Internal)
    } else {
        None
    }
}

fn status_to_code(t: EventStatus) -> (c: u32)
    ensures
        c == status_code(t),
{
    match t {
        EventStatus::Draft => 0,
        EventStatus::Published => 1,
        EventStatus::OnSale => 2,
        EventStatus::SoldOut => 3,
        EventStatus::Cancelled => 4,
        EventStatus::Completed => 5,
    }
}

fn status_from_code(c: u32) -> (r: Option<EventStatus>)
    ensures
        r == status_of_code(c),
{
    if c == 0 {
        Some(EventStatus::Draft)
    } else if c == 1 {
        Some(EventStatus::Published)
    } else if c == 2 {
        Some(EventStatus::OnSale)
    } else if c == 3 {
        Some(EventStatus::SoldOut)
    } else if c == 4 {
        Some(EventStatus::Cancelled)
    } else if c == 5 {
        Some(EventStatus::Completed)
    } else {
        None
    }
}

#[verifier::loop_isolation(false)]
fn perks_to_repr(perks: &Vec<Perk>) -> (r: Vec<PerkRepr>)
    ensures
        r@.len() == perks@.len(),
        forall|i: int| 0 <= i < perks@.len() ==> perk_encodes(#[trigger] perks@[i], r@[i]),
        forall|i: int|
            0 <= i < r@.len() ==> perk_category_of_code((#[trigger] r@[i]).category) is Some,
{
    let mut out: Vec<PerkRepr> = Vec::new();
    let mut i: usize = 0;
    while i < perks.len()
        invariant
            i <= perks@.len(),
            out@.len() == i,
            forall|k: int| 0 <= k < i ==> perk_encodes(#[trigger] perks@[k], out@[k]),
            forall|k: int|
                0 <= k < i ==> perk_category_of_code((#[trigger] out@[k]).category) is Some,
        decreases perks@.len() - i,
    {
        out.push(
            PerkRepr {
                name: perks[i].name.clone(),
                description: perks[i].description.clone(),
                category: perk_category_to_code(perks[i].category),
            },
        );
        i += 1;
    }
    out
}

#[verifier::loop_isolation(false)]
fn perks_from_repr(reprs: &Vec<PerkRepr>) -> (r: Option<Vec<Perk>>)
    ensures
        r is Some <==> (forall|i: int|
            0 <= i < reprs@.len() ==> perk_category_of_code((#[trigger] reprs@[i]).category)
                is Some),
        r is Some ==> r->Some_0@.len() == reprs@.len() && forall|i: int|
            0 <= i < reprs@.len() ==> perk_encodes(#[trigger] r->Some_0@[i], reprs@[i]),
{
    let mut out: Vec<Perk> = Vec::new();
    let mut i: usize = 0;
    while i < reprs.len()
        invariant
            i <= reprs@.len(),
            out@.len() == i,
            forall|k: int| 0 <= k < i ==> perk_encodes(#[trigger] out@[k], reprs@[k]),
            forall|k: int|
                0 <= k < i ==> perk_category_of_code((#[trigger] reprs@[k]).category) is Some,
        decreases reprs@.len() - i,
    {
        let category = match perk_category_from_code(reprs[i].category) {
            Some(c) => c,
            None => {
                return None;
            },
        };
        out.push(
            Perk {
                name: reprs[i].name.clone(),
                description: reprs[i].description.clone(),
                category,
            },
        );
        i += 1;
    }
    Some(out)
}

#[verifier::loop_isolation(false)]
fn tts_to_repr(tts: &Vec<TicketType>) -> (r: Vec<TicketTypeRepr>)
    ensures
        r@.len() == tts@.len(),
        forall|i: int| 0 <= i < tts@.len() ==> tt_encodes(#[trigger] tts@[i], r@[i]),
        forall|i: int| 0 <= i < r@.len() ==> tt_repr_valid(#[trigger] r@[i]),
{
    let mut out: Vec<TicketTypeRepr> = Vec::new();
    let mut i: usize = 0;
    while i < tts.len()
        invariant
            i <= tts@.len(),
            out@.len() == i,
            forall|k: int| 0 <= k < i ==> tt_encodes(#[trigger] tts@[k], out@[k]),
            forall|k: int| 0 <= k < i ==> tt_repr_valid(#[trigger] out@[k]),
        decreases tts@.len() - i,
    {
        let tt = &tts[i];
        out.push(
            TicketTypeRepr {
                id: tt.id,
                name: tt.name.clone(),
                price: tt.price,
                currency: tt.currency.clone(),
                quantity_available: tt.quantity_available,
                quantity_sold: tt.quantity_sold,
                perks: perks_to_repr(&tt.perks),
                nft_metadata: match &tt.nft_metadata {
                    Some(m) => Some(m.clone()),
                    None => None,
                },
                sales_start: tt.sales_start,
                sales_end: tt.sales_end,
            },
        );
        i += 1;
    }
    out
}

#[verifier::loop_isolation(false)]
fn tts_from_repr(reprs: &Vec<TicketTypeRepr>) -> (r: Option<Vec<TicketType>>)
    ensures
        r is Some <==> (forall|i: int| 0 <= i < reprs@.len() ==> tt_repr_valid(
            #[trigger] reprs@[i],
        )),
        r is Some ==> r->Some_0@.len() == reprs@.len() && forall|i: int|
            0 <= i < reprs@.len() ==> tt_encodes(#[trigger] r->Some_0@[i], reprs@[i]),
{
    let mut out: Vec<TicketType> = Vec::new();
    let mut i: usize = 0;
    while i < reprs.len()
        invariant
            i <= reprs@.len(),
            out@.len() == i,
            forall|k: int| 0 <= k < i ==> tt_encodes(#[trigger] out@[k], reprs@[k]),
            forall|k: int| 0 <= k < i ==> tt_repr_valid(#[trigger] reprs@[k]),
        decreases reprs@.len() - i,
    {
        let rr = &reprs[i];
        let perks = match perks_from_repr(&rr.perks) {
            Some(p) => p,
            None => {
                return None;
            },
        };
        out.push(
            TicketType {
                id: rr.id,
                name: rr.name.clone(),
                price: rr.price,
                currency: rr.currency.clone(),
                quantity_available: rr.quantity_available,
                quantity_sold: rr.quantity_sold,
                perks,
                nft_metadata: match &rr.nft_metadata {
                    Some(m) => Some(m.clone()),
                    None => None,
                },
                sales_start: rr.sales_start,
                sales_end: rr.sales_end,
            },
        );
        i += 1;
    }
    Some(out)
}

/// Renders an event in its external-facing representation.
pub fn event_to_external(e: &Event) -> (r: EventRepr)
    ensures
        event_encodes(*e, r),
        event_repr_valid(r),
{
    EventRepr {
        id: e.id,
        title: e.title.clone(),
        description: e.description.clone(),
        organizer: e.organizer.clone(),
        venue: e.venue.clone(),
        event_date: e.event_date,
        door_time: e.door_time,
        event_type: event_type_to_code(e.event_type),
        ticket_types: tts_to_repr(&e.ticket_types),
        external_event_id: clone_opt_string(&e.external_event_id),
        platform: platform_to_code(e.platform),
        status: status_to_code(e.status),
        created_at: e.created_at,
        updated_at: e.updated_at,
    }
}

/// Reads an event back from its external-facing representation; fails
/// exactly when some enum code does not decode.
pub fn event_from_external(r: &EventRepr) -> (res: Option<Event>)
    ensures
        res is Some <==> event_repr_valid(*r),
        res is Some ==> event_encodes(res->Some_0, *r),
{
    let event_type = match event_type_from_code(r.event_type) {
        Some(t) => t,
        None => {
            return None;
        },
    };
    let platform = match platform_from_code(r.platform) {
        Some(p) => p,
        None => {
            return None;
        },
    };
    let status = match status_from_code(r.status) {
        Some(s) => s,
        None => {
            return None;
        },
    };
    let ticket_types = match tts_from_repr(&r.ticket_types) {
        Some(t) => t,
        None => {
            return None;
        },
    };
    Some(
        Event {
            id: r.id,
            title: r.title.clone(),
            description: r.description.clone(),
            organizer: r.organizer.clone(),
            venue: r.venue.clone(),
            event_date: r.event_date,
            door_time: r.door_time,
            event_type,
            ticket_types,
            external_event_id: clone_opt_string(&r.external_event_id),
            platform,
            status,
            created_at: r.created_at,
            updated_at: r.updated_at,
        },
    )
}

/// Law: the external representation is lossless. Two events that encode to
/// the same representation agree field for field, so decoding what
/// `event_to_external` produced — which `event_from_external`'s contract
/// says succeeds and re-encodes to the same representation — returns the
/// original event field for field.
pub proof fn lemma_external_round_trip(a: Event, b: Event, r: EventRepr)
    requires
        event_encodes(a, r),
        event_encodes(b, r),
    ensures
        event_like(a, b),
{
    assert forall|i: int| 0 <= i < a.ticket_types@.len() implies tt_like(
        #[trigger] a.ticket_types@[i],
        b.ticket_types@[i],
    ) by {
        let ta = a.ticket_types@[i];
        let tb = b.ticket_types@[i];
        let tr = r.ticket_types@[i];
        assert(tt_encodes(ta, tr));
        assert(tt_encodes(tb, tr));
        assert forall|k: int| 0 <= k < ta.perks@.len() implies #[trigger] ta.perks@[k]
            == tb.perks@[k] by {
            assert(perk_encodes(ta.perks@[k], tr.perks@[k]));
            assert(perk_encodes(tb.perks@[k], tr.perks@[k]));
        }
        assert(ta.perks@ =~= tb.perks@);
    }
}

} // verus!
