//! Buyers: the parties that own ads. Insert-only in this layer.

use vstd::prelude::*;
use crate::db::{Db, DbError, DbResult, Timestamp, now};
use crate::uuid_text::{new_random_uuid, uuid_version_num};

verus! {

/// Identifier of a buyer: a random 128-bit value, assigned once.
#[derive(Debug, Clone, Copy, PartialEq, Eq, Structural)]
pub struct BuyerId(pub u128);

impl BuyerId {
    /// Fresh, statistically unique identifier.
    pub fn new() -> (r: Self)
        ensures
            uuid_version_num(r.0) == 4,
    {
        BuyerId(new_random_uuid())
    }

    pub fn as_uuid(&self) -> (r: u128)
        ensures
            r == self.0,
    {
        self.0
    }
}

impl Default for BuyerId {
    fn default() -> (r: Self)
        ensures
            uuid_version_num(r.0) == 4,
    {
        BuyerId::new()
    }
}

impl From<u128> for BuyerId {
    fn from(value: u128) -> (r: BuyerId) {
        BuyerId(value)
    }
}

impl vstd::std_specs::convert::FromSpecImpl<u128> for BuyerId {
    open spec fn obeys_from_spec() -> bool {
        true
    }

    open spec fn from_spec(value: u128) -> BuyerId {
        BuyerId(value)
    }
}

/// A buyer row: identity, contact address, and the two lifecycle instants.
#[derive(Debug)]
pub struct Buyer {
    pub id: BuyerId,
    pub contact_email: String,
    pub created: Timestamp,
    pub updated: Timestamp,
}

/// Whether some row of `buyers` already carries `id`.
pub open spec fn buyer_id_taken(buyers: Seq<Buyer>, id: BuyerId) -> bool {
    exists|i: int| 0 <= i < buyers.len() && buyers[i].id == id
}

impl Clone for Buyer {
    fn clone(&self) -> (r: Self)
        ensures
            r == *self,
    {
        Buyer {
            id: self.id,
            contact_email: self.contact_email.clone(),
            created: self.created,
            updated: self.updated,
        }
    }
}

impl PartialEq for Buyer {
    /// Two buyers are the same entity exactly when their identifiers match.
    fn eq(&self, other: &Buyer) -> bool {
        self.id == other.id
    }
}

impl vstd::std_specs::cmp::PartialEqSpecImpl for Buyer {
    open spec fn obeys_eq_spec() -> bool {
        true
    }

    open spec fn eq_spec(&self, other: &Buyer) -> bool {
        self.id == other.id
    }
}

impl Buyer {
    /// A fresh, not yet persisted buyer: new identity, both instants set to
    /// the same clock reading.
    pub fn new(contact_email: String) -> (r: Self)
        ensures
            r.contact_email == contact_email,
            r.created == r.updated,
            uuid_version_num(r.id.0) == 4,
    {
        let id = BuyerId::new();
        let created = now();
        let updated = created;
        Buyer { id, contact_email, created, updated }
    }

    /// Single-row insert. The store accepts the row exactly when its
    /// identifier is not already present.
    pub fn insert(&self, db: &mut Db) -> (r: DbResult<()>)
        ensures
            final(db).sites == old(db).sites,
            final(db).ads == old(db).ads,
            final(db).events == old(db).events,
            (match r {
                Ok(_) => !buyer_id_taken(old(db).buyers@, self.id) && final(db).buyers@ == old(db).buyers@.push(*self),
                Err(e) => e == DbError::Constraint && buyer_id_taken(old(db).buyers@, self.id)
                    && final(db).buyers == old(db).buyers,
            }),
    {
        let n = db.buyers.len();
        let mut i: usize = 0;
        while i < n
            invariant
                *db == *old(db),
                n == db.buyers.len(),
                i <= n,
                forall|k: int| 0 <= k < i ==> old(db).buyers@[k].id != self.id,
            decreases n - i,
        {
            if db.buyers[i].id == self.id {
                return Err(DbError::Constraint);
            }
            i += 1;
        }
        db.buyers.push(self.clone());
        Ok(())
    }
}

} // verus!
