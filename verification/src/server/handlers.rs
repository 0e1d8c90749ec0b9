//! The two handlers: submit one telemetry event, and serve one placement.
//! Each wires the translation layer to the entity records and shapes every
//! failure into one of the three error kinds.

use vstd::prelude::*;
use vstd::string::*;
use crate::db::{Db, DbError};
use crate::db::ad::{PlacementData, ad_id_taken, spec_random_for_site};
use crate::db::event::{Event, EventMetadata, IpHost, IpNet, event_id_taken};
use crate::db::site::{SiteId, site_id_taken};
use crate::errors::AppError;
use crate::server::extractors::{EventData, convert_ip, parse_occurred, rfc3339_utc_micros};

verus! {

/// Success body of an event submission: `{ok: true}`.
#[derive(Debug, Clone, Copy, PartialEq, Eq, Structural)]
pub struct EventResponse {
    pub ok: bool,
}

/// Accepts one telemetry event: converts the peer address, builds the
/// metadata from the user agent, parses the occurrence timestamp,
/// constructs the event and inserts it. A malformed address or timestamp,
/// or a store-rejected row, is the client's fault; any other store failure
/// is internal. On success exactly one event row is added, carrying the
/// submitted kind, ad, site, and UTC-normalized occurrence.
pub fn post_event(
    db: &mut Db,
    peer: IpHost,
    user_agent: String,
    site_id: SiteId,
    event_data: EventData,
) -> (r: Result<EventResponse, AppError>)
    ensures
        final(db).buyers == old(db).buyers,
        final(db).sites == old(db).sites,
        final(db).ads == old(db).ads,
        rfc3339_utc_micros(event_data.occurred@) is None ==> r == Err::<
            EventResponse,
            AppError,
        >(AppError::InvalidRequest) && final(db).events == old(db).events,
        (match r {
            Ok(resp) => {
                &&& resp == (EventResponse { ok: true })
                &&& exists|e: Event|
                    #![trigger old(db).events@.push(e)]
                    {
                        &&& final(db).events@ == old(db).events@.push(e)
                        &&& e.event == event_data.event_type
                        &&& e.ad_id == event_data.ad_id
                        &&& e.site_id == site_id
                        &&& Some(e.occurred.micros) == rfc3339_utc_micros(event_data.occurred@)
                        &&& e.source_ip == (IpNet { host: peer, prefix: 0 })
                        &&& e.metadata == (EventMetadata { user_agent: user_agent })
                        &&& !event_id_taken(old(db).events@, e.id)
                        &&& ad_id_taken(old(db).ads@, e.ad_id)
                        &&& site_id_taken(old(db).sites@, e.site_id)
                    }
            },
            Err(err) => {
                &&& final(db).events == old(db).events
                &&& err == AppError::InvalidRequest
                &&& (rfc3339_utc_micros(event_data.occurred@) is None || !ad_id_taken(
                    old(db).ads@,
                    event_data.ad_id,
                ) || !site_id_taken(old(db).sites@, site_id) || old(db).events@.len() > 0)
            },
        }),
{
    let source_ip = match convert_ip(peer) {
        Ok(ip) => ip,
        Err(e) => {
            return Err(e);
        },
    };
    let metadata = EventMetadata { user_agent };
    let occurred = match parse_occurred(event_data.occurred.as_str()) {
        Ok(t) => t,
        Err(e) => {
            return Err(e);
        },
    };
    let event = Event::new(
        event_data.event_type,
        occurred,
        source_ip,
        metadata,
        event_data.ad_id,
        site_id,
    );
    match event.insert(db) {
        Ok(_) => Ok(EventResponse { ok: true }),
        Err(DbError::Constraint) => Err(AppError::InvalidRequest),
        Err(DbError::RowNotFound) => Err(AppError::InternalError),
    }
}

/// Serves one placement for the requesting site: a uniform random choice
/// among the active ads, driven by the caller's sample `pick`. No active ad
/// yields the not-found kind, named for the missing placement data.
pub fn get_placement(db: &Db, site_id: SiteId, pick: usize) -> (r: Result<PlacementData, AppError>)
    ensures
        (match r {
            Ok(p) => spec_random_for_site(db.ads@, pick as int) == Ok::<PlacementData, DbError>(p),
            Err(e) => {
                &&& spec_random_for_site(db.ads@, pick as int) == Err::<
                    PlacementData,
                    DbError,
                >(DbError::RowNotFound)
                &&& e matches AppError::NoRowReturned { entity_name } && entity_name@
                    == "placement data"@
            },
        }),
{
    let res = PlacementData::random_for_site(db, site_id, pick);
    match res {
        Ok(data) => Ok(data),
        Err(DbError::RowNotFound) => Err(
            AppError::NoRowReturned { entity_name: String::from_str("placement data") },
        ),
        Err(DbError::Constraint) => Err(AppError::InternalError),
    }
}

} // verus!
