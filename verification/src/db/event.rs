//! Events: immutable records of an ad lifecycle moment — load, view or
//! click — tied to one ad and one site.

use vstd::prelude::*;
use crate::db::{Db, DbError, DbResult, Timestamp};
use crate::db::ad::{AdId, ad_id_taken};
use crate::db::site::{SiteId, site_id_taken};
use crate::uuid_text::{new_random_uuid, uuid_version_num};

verus! {

/// The three recordable ad lifecycle moments.
#[derive(Debug, Clone, Copy, PartialEq, Eq, Structural)]
pub enum AdEvent {
    Load,
    View,
    Click,
}

impl AdEvent {
    /// The lowercase name under which the store keeps this kind.
    pub open spec fn spec_str(self) -> Seq<char> {
        match self {
            AdEvent::Load => "load"@,
            AdEvent::View => "view"@,
            AdEvent::Click => "click"@,
        }
    }

    pub fn as_str(&self) -> (r: &str)
        ensures
            r@ == self.spec_str(),
    {
        match self {
            AdEvent::Load => "load",
            AdEvent::View => "view",
            AdEvent::Click => "click",
        }
    }
}

/// Identifier of an event: a random 128-bit value, assigned once.
#[derive(Debug, Clone, Copy, PartialEq, Eq, Structural)]
pub struct EventId(pub u128);

impl EventId {
    /// Fresh, statistically unique identifier.
    pub fn new() -> (r: Self)
        ensures
            uuid_version_num(r.0) == 4,
    {
        EventId(new_random_uuid())
    }

    pub fn as_uuid(&self) -> (r: u128)
        ensures
            r == self.0,
    {
        self.0
    }
}

impl Default for EventId {
    fn default() -> (r: Self)
        ensures
            uuid_version_num(r.0) == 4,
    {
        EventId::new()
    }
}

impl From<u128> for EventId {
    fn from(value: u128) -> (r: EventId) {
        EventId(value)
    }
}

impl vstd::std_specs::convert::FromSpecImpl<u128> for EventId {
    open spec fn obeys_from_spec() -> bool {
        true
    }

    open spec fn from_spec(value: u128) -> EventId {
        EventId(value)
    }
}

/// An IP host address, either family, as plain bits.
#[derive(Debug, Clone, Copy, PartialEq, Eq, Structural)]
pub enum IpHost {
    V4(u32),
    V6(u128),
}

/// Widest prefix length an address of this family admits.
pub open spec fn max_prefix(host: IpHost) -> u8 {
    match host {
        IpHost::V4(_) => 32,
        IpHost::V6(_) => 128,
    }
}

/// The network-address value stored with an event: a host address and a
/// prefix length.
#[derive(Debug, Clone, Copy, PartialEq, Eq, Structural)]
pub struct IpNet {
    pub host: IpHost,
    pub prefix: u8,
}

/// Request details kept with an event, as a semi-structured column.
#[derive(Debug)]
pub struct EventMetadata {
    pub user_agent: String,
}

impl Clone for EventMetadata {
    fn clone(&self) -> (r: Self)
        ensures
            r == *self,
    {
        EventMetadata { user_agent: self.user_agent.clone() }
    }
}

/// An event row: what happened, when, from where, under which user agent,
/// and to which ad on which site.
#[derive(Debug)]
pub struct Event {
    pub id: EventId,
    pub event: AdEvent,
    pub occurred: Timestamp,
    pub source_ip: IpNet,
    pub metadata: EventMetadata,
    pub ad_id: AdId,
    pub site_id: SiteId,
}

/// Whether some row of `events` already carries `id`.
pub open spec fn event_id_taken(events: Seq<Event>, id: EventId) -> bool {
    exists|i: int| 0 <= i < events.len() && events[i].id == id
}

impl Clone for Event {
    fn clone(&self) -> (r: Self)
        ensures
            r == *self,
    {
        Event {
            id: self.id,
            event: self.event,
            occurred: self.occurred,
            source_ip: self.source_ip,
            metadata: self.metadata.clone(),
            ad_id: self.ad_id,
            site_id: self.site_id,
        }
    }
}

impl PartialEq for Event {
    /// Two events are the same entity exactly when their identifiers match.
    fn eq(&self, other: &Event) -> bool {
        self.id == other.id
    }
}

impl vstd::std_specs::cmp::PartialEqSpecImpl for Event {
    open spec fn obeys_eq_spec() -> bool {
        true
    }

    open spec fn eq_spec(&self, other: &Event) -> bool {
        self.id == other.id
    }
}

impl Event {
    /// A fresh, not yet persisted event: new identity, every other field
    /// exactly as supplied.
    pub fn new(
        event: AdEvent,
        occurred: Timestamp,
        source_ip: IpNet,
        metadata: EventMetadata,
        ad_id: AdId,
        site_id: SiteId,
    ) -> (r: Self)
        ensures
            r.event == event,
            r.occurred == occurred,
            r.source_ip == source_ip,
            r.metadata == metadata,
            r.ad_id == ad_id,
            r.site_id == site_id,
            uuid_version_num(r.id.0) == 4,
    {
        let id = EventId::new();
        Event { id, event, occurred, source_ip, metadata, ad_id, site_id }
    }

    /// Single-row insert. The store accepts the row exactly when its
    /// identifier is not already present and the referenced ad and site are.
    pub fn insert(&self, db: &mut Db) -> (r: DbResult<()>)
        ensures
            final(db).buyers == old(db).buyers,
            final(db).sites == old(db).sites,
            final(db).ads == old(db).ads,
            (match r {
                Ok(_) => !event_id_taken(old(db).events@, self.id) && ad_id_taken(
                    old(db).ads@,
                    self.ad_id,
                ) && site_id_taken(old(db).sites@, self.site_id) && final(db).events@ == old(db).events@.push(*self),
                Err(e) => e == DbError::Constraint && final(db).events == old(db).events && (
                event_id_taken(old(db).events@, self.id) || !ad_id_taken(old(db).ads@, self.ad_id)
                    || !site_id_taken(old(db).sites@, self.site_id)),
            }),
    {
        let n = db.events.len();
        let mut i: usize = 0;
        while i < n
            invariant
                *db == *old(db),
                n == db.events.len(),
                i <= n,
                forall|k: int| 0 <= k < i ==> old(db).events@[k].id != self.id,
            decreases n - i,
        {
            if db.events[i].id == self.id {
                return Err(DbError::Constraint);
            }
            i += 1;
        }
        let m = db.ads.len();
        let mut j: usize = 0;
        let mut ad_found = false;
        while j < m
            invariant
                *db == *old(db),
                m == db.ads.len(),
                j <= m,
                ad_found == exists|k: int| 0 <= k < j && old(db).ads@[k].id == self.ad_id,
            decreases m - j,
        {
            if db.ads[j].id == self.ad_id {
                ad_found = true;
            }
            j += 1;
        }
        if !ad_found {
            return Err(DbError::Constraint);
        }
        let p = db.sites.len();
        let mut q: usize = 0;
        let mut site_found = false;
        while q < p
            invariant
                *db == *old(db),
                p == db.sites.len(),
                q <= p,
                site_found == exists|k: int| 0 <= k < q && old(db).sites@[k].id == self.site_id,
            decreases p - q,
        {
            if db.sites[q].id == self.site_id {
                site_found = true;
            }
            q += 1;
        }
        if !site_found {
            return Err(DbError::Constraint);
        }
        db.events.push(self.clone());
        Ok(())
    }
}

} // verus!
