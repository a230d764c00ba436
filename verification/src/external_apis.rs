//! Clients for the external event platforms and the value objects a sync
//! returns.
//!
//! A client here holds the endpoint configuration; the Ticketmaster and Cvent
//! creations are computed locally, while Eventbrite requires an HTTP exchange
//! that the surrounding application performs with this configuration.

use vstd::prelude::*;
use vstd::string::StringExecFns;

use crate::errors::TicketError;
use crate::strings::append_id;
use crate::strings::prefixed_id_chars;
use crate::ticketing::Event;
use crate::ticketing::EventPlatform;
use crate::ticketing::EventType;

verus! {

/// Outcome of pushing an event to an external platform.
#[derive(Clone, Copy, PartialEq, Eq, Structural, Debug)]
pub enum SyncStatus {
    Synced,
    Pending,
    Failed,
}

/// What an external platform reports after an event is created there.
#[derive(Debug)]
pub struct ExternalEventResponse {
    pub external_id: String,
    pub event_url: String,
    pub platform: EventPlatform,
    pub sync_status: SyncStatus,
}

impl Clone for ExternalEventResponse {
    fn clone(&self) -> (res: Self)
        ensures
            res == *self,
    {
        ExternalEventResponse {
            external_id: self.external_id.clone(),
            event_url: self.event_url.clone(),
            platform: self.platform,
            sync_status: self.sync_status,
        }
    }
}

/// What an external platform reports after a ticket type is created there.
#[derive(Debug)]
pub struct ExternalTicketTypeResponse {
    pub external_id: String,
    pub ticket_type_id: u128,
    pub platform: EventPlatform,
}

/// Criteria for listing events on an external platform.
#[derive(Debug)]
pub struct EventFilters {
    pub start_date: Option<i64>,
    pub end_date: Option<i64>,
    pub event_type: Option<EventType>,
    pub venue_city: Option<String>,
    pub organizer: Option<String>,
}

/// Endpoint configuration for the Eventbrite API. Creating an event there is
/// an HTTP exchange that the surrounding application performs.
#[derive(Debug)]
pub struct EventbriteClient {
    pub base_url: String,
    pub api_key: String,
}

impl EventbriteClient {
    pub fn new(api_key: String) -> (r: EventbriteClient)
        ensures
            r.base_url@ == "https://www.eventbriteapi.com/v3"@,
            r.api_key == api_key,
    {
        EventbriteClient {
            base_url: String::from_str("https://www.eventbriteapi.com/v3"),
            api_key,
        }
    }
}

/// Endpoint configuration for the Ticketmaster commerce API.
#[derive(Debug)]
pub struct TicketmasterClient {
    pub base_url: String,
    pub api_key: String,
}

impl TicketmasterClient {
    pub fn new(api_key: String) -> (r: TicketmasterClient)
        ensures
            r.base_url@ == "https://app.ticketmaster.com/commerce/v2"@,
            r.api_key == api_key,
    {
        TicketmasterClient {
            base_url: String::from_str("https://app.ticketmaster.com/commerce/v2"),
            api_key,
        }
    }

    /// Registers the event with Ticketmaster and reports the assigned
    /// identity: the event id under a "tm_" prefix, and the public page URL.
    pub fn create_ticketmaster_event(&self, event: &Event) -> (r: Result<
        ExternalEventResponse,
        TicketError,
    >)
        ensures
            r is Ok,
            r is Ok ==> r->Ok_0.external_id@ == prefixed_id_chars("tm_"@, event.id),
            r is Ok ==> r->Ok_0.event_url@ == prefixed_id_chars(
                "https://ticketmaster.com/event/"@,
                event.id,
            ),
            r is Ok ==> r->Ok_0.platform == EventPlatform::Ticketmaster,
            r is Ok ==> r->Ok_0.sync_status == SyncStatus::Synced,
    {
        Ok(
            ExternalEventResponse {
                external_id: append_id("tm_", event.id),
                event_url: append_id("https://ticketmaster.com/event/", event.id),
                platform: EventPlatform::Ticketmaster,
                sync_status: SyncStatus::Synced,
            },
        )
    }
}

/// Endpoint configuration for the Cvent API.
#[derive(Debug)]
pub struct CventClient {
    pub base_url: String,
    pub api_key: String,
    pub account_id: String,
}

impl CventClient {
    pub fn new(api_key: String, account_id: String) -> (r: CventClient)
        ensures
            r.base_url@ == "https://api.cvent.com/ea"@,
            r.api_key == api_key,
            r.account_id == account_id,
    {
        CventClient {
            base_url: String::from_str("https://api.cvent.com/ea"),
            api_key,
            account_id,
        }
    }

    /// Registers the event with Cvent and reports the assigned identity: the
    /// event id under a "cv_" prefix, and the public page URL.
    pub fn create_cvent_event(&self, event: &Event) -> (r: Result<
        ExternalEventResponse,
        TicketError,
    >)
        ensures
            r is Ok,
            r is Ok ==> r->Ok_0.external_id@ == prefixed_id_chars("cv_"@, event.id),
            r is Ok ==> r->Ok_0.event_url@ == prefixed_id_chars(
                "https://cvent.com/event/"@,
                event.id,
            ),
            r is Ok ==> r->Ok_0.platform == EventPlatform::Cvent,
            r is Ok ==> r->Ok_0.sync_status == SyncStatus::Synced,
    {
        Ok(
            ExternalEventResponse {
                external_id: append_id("cv_", event.id),
                event_url: append_id("https://cvent.com/event/", event.id),
                platform: EventPlatform::Cvent,
                sync_status: SyncStatus::Synced,
            },
        )
    }
}

} // verus!
