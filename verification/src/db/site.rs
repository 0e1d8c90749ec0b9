//! Sites: the pages that request placements and report events.
//! Insert-only in this layer.

use vstd::prelude::*;
use crate::db::{Db, DbError, DbResult, Timestamp, now};
use crate::uuid_text::{new_random_uuid, uuid_version_num};

verus! {

/// Identifier of a site: a random 128-bit value, assigned once.
#[derive(Debug, Clone, Copy, PartialEq, Eq, Structural)]
pub struct SiteId(pub u128);

impl SiteId {
    /// Fresh, statistically unique identifier.
    pub fn new() -> (r: Self)
        ensures
            uuid_version_num(r.0) == 4,
    {
        SiteId(new_random_uuid())
    }

    pub fn as_uuid(&self) -> (r: u128)
        ensures
            r == self.0,
    {
        self.0
    }
}

impl Default for SiteId {
    fn default() -> (r: Self)
        ensures
            uuid_version_num(r.0) == 4,
    {
        SiteId::new()
    }
}

impl From<u128> for SiteId {
    fn from(value: u128) -> (r: SiteId) {
        SiteId(value)
    }
}

impl vstd::std_specs::convert::FromSpecImpl<u128> for SiteId {
    open spec fn obeys_from_spec() -> bool {
        true
    }

    open spec fn from_spec(value: u128) -> SiteId {
        SiteId(value)
    }
}

/// A site row: identity, location, contact address, and the two lifecycle
/// instants.
#[derive(Debug)]
pub struct Site {
    pub id: SiteId,
    pub url: String,
    pub contact_email: String,
    pub created: Timestamp,
    pub updated: Timestamp,
}

/// Whether some row of `sites` already carries `id`.
pub open spec fn site_id_taken(sites: Seq<Site>, id: SiteId) -> bool {
    exists|i: int| 0 <= i < sites.len() && sites[i].id == id
}

impl Clone for Site {
    fn clone(&self) -> (r: Self)
        ensures
            r == *self,
    {
        Site {
            id: self.id,
            url: self.url.clone(),
            contact_email: self.contact_email.clone(),
            created: self.created,
            updated: self.updated,
        }
    }
}

impl PartialEq for Site {
    /// Two sites are the same entity exactly when their identifiers match.
    fn eq(&self, other: &Site) -> bool {
        self.id == other.id
    }
}

impl vstd::std_specs::cmp::PartialEqSpecImpl for Site {
    open spec fn obeys_eq_spec() -> bool {
        true
    }

    open spec fn eq_spec(&self, other: &Site) -> bool {
        self.id == other.id
    }
}

impl Site {
    /// A fresh, not yet persisted site: new identity, both instants set to
    /// the same clock reading.
    pub fn new(url: String, contact_email: String) -> (r: Self)
        ensures
            r.url == url,
            r.contact_email == contact_email,
            r.created == r.updated,
            uuid_version_num(r.id.0) == 4,
    {
        let id = SiteId::new();
        let created: Timestamp = now();
        let updated = created;
        Site { id, url, contact_email, created, updated }
    }

    /// Single-row insert. The store accepts the row exactly when its
    /// identifier is not already present.
    pub fn insert(&self, db: &mut Db) -> (r: DbResult<()>)
        ensures
            final(db).buyers == old(db).buyers,
            final(db).ads == old(db).ads,
            final(db).events == old(db).events,
            (match r {
                Ok(_) => !site_id_taken(old(db).sites@, self.id) && final(db).sites@ == old(db).sites@.push(*self),
                Err(e) => e == DbError::Constraint && site_id_taken(old(db).sites@, self.id)
                    && final(db).sites == old(db).sites,
            }),
    {
        let n = db.sites.len();
        let mut i: usize = 0;
        while i < n
            invariant
                *db == *old(db),
                n == db.sites.len(),
                i <= n,
                forall|k: int| 0 <= k < i ==> old(db).sites@[k].id != self.id,
            decreases n - i,
        {
            if db.sites[i].id == self.id {
                return Err(DbError::Constraint);
            }
            i += 1;
        }
        db.sites.push(self.clone());
        Ok(())
    }
}

} // verus!
