//! Ads: created inactive, owned by one buyer, toggled through atomic
//! store-side updates, and sampled for placements while active.

use vstd::prelude::*;
use crate::db::{Db, DbError, DbResult, Timestamp, now};
use crate::db::buyer::{BuyerId, buyer_id_taken};
use crate::db::site::SiteId;
use crate::uuid_text::{new_random_uuid, uuid_version_num};

verus! {

/// Identifier of an ad: a random 128-bit value, assigned once.
#[derive(Debug, Clone, Copy, PartialEq, Eq, Structural)]
pub struct AdId(pub u128);

impl AdId {
    /// Fresh, statistically unique identifier.
    pub fn new() -> (r: Self)
        ensures
            uuid_version_num(r.0) == 4,
    {
        AdId(new_random_uuid())
    }

    pub fn as_uuid(&self) -> (r: u128)
        ensures
            r == self.0,
    {
        self.0
    }
}

impl Default for AdId {
    fn default() -> (r: Self)
        ensures
            uuid_version_num(r.0) == 4,
    {
        AdId::new()
    }
}

impl From<u128> for AdId {
    fn from(value: u128) -> (r: AdId) {
        AdId(value)
    }
}

impl vstd::std_specs::convert::FromSpecImpl<u128> for AdId {
    open spec fn obeys_from_spec() -> bool {
        true
    }

    open spec fn from_spec(value: u128) -> AdId {
        AdId(value)
    }
}

/// An ad row: creative URLs, the active flag that alone gates placement
/// eligibility, the two lifecycle instants, and the owning buyer.
#[derive(Debug)]
pub struct Ad {
    pub id: AdId,
    pub active: bool,
    pub asset_url_sm: String,
    pub asset_url_lg: String,
    pub clickthrough_url: String,
    pub created: Timestamp,
    pub updated: Timestamp,
    pub buyer_id: BuyerId,
}

/// Whether some row of `ads` already carries `id`.
pub open spec fn ad_id_taken(ads: Seq<Ad>, id: AdId) -> bool {
    exists|i: int| 0 <= i < ads.len() && ads[i].id == id
}

/// `i` is the first row of `ads` carrying `id`.
pub open spec fn first_ad_with_id(ads: Seq<Ad>, id: AdId, i: int) -> bool {
    &&& 0 <= i < ads.len()
    &&& ads[i].id == id
    &&& forall|k: int| 0 <= k < i ==> ads[k].id != id
}

/// The row as an atomic update-and-return leaves it: the active flag set,
/// `updated` refreshed, everything else untouched.
pub open spec fn toggled(ad: Ad, active: bool, at: Timestamp) -> Ad {
    Ad { active, updated: at, ..ad }
}

impl Clone for Ad {
    fn clone(&self) -> (r: Self)
        ensures
            r == *self,
    {
        Ad {
            id: self.id,
            active: self.active,
            asset_url_sm: self.asset_url_sm.clone(),
            asset_url_lg: self.asset_url_lg.clone(),
            clickthrough_url: self.clickthrough_url.clone(),
            created: self.created,
            updated: self.updated,
            buyer_id: self.buyer_id,
        }
    }
}

impl PartialEq for Ad {
    /// Two ads are the same entity exactly when their identifiers match.
    fn eq(&self, other: &Ad) -> bool {
        self.id == other.id
    }
}

impl vstd::std_specs::cmp::PartialEqSpecImpl for Ad {
    open spec fn obeys_eq_spec() -> bool {
        true
    }

    open spec fn eq_spec(&self, other: &Ad) -> bool {
        self.id == other.id
    }
}

impl Ad {
    /// A fresh, not yet persisted ad: new identity, inactive, both instants
    /// set to the same clock reading.
    pub fn new(
        buyer_id: BuyerId,
        asset_url_sm: String,
        asset_url_lg: String,
        clickthrough_url: String,
    ) -> (r: Self)
        ensures
            r.active == false,
            r.created == r.updated,
            r.buyer_id == buyer_id,
            r.asset_url_sm == asset_url_sm,
            r.asset_url_lg == asset_url_lg,
            r.clickthrough_url == clickthrough_url,
            uuid_version_num(r.id.0) == 4,
    {
        let id = AdId::new();
        let created = now();
        let updated = created;
        Ad {
            id,
            active: false,
            asset_url_sm,
            asset_url_lg,
            clickthrough_url,
            created,
            updated,
            buyer_id,
        }
    }

    /// Single-row insert. The store accepts the row exactly when its
    /// identifier is not already present and the owning buyer is.
    pub fn insert(&self, db: &mut Db) -> (r: DbResult<()>)
        ensures
            final(db).buyers == old(db).buyers,
            final(db).sites == old(db).sites,
            final(db).events == old(db).events,
            (match r {
                Ok(_) => !ad_id_taken(old(db).ads@, self.id) && buyer_id_taken(
                    old(db).buyers@,
                    self.buyer_id,
                ) && final(db).ads@ == old(db).ads@.push(*self),
                Err(e) => e == DbError::Constraint && final(db).ads == old(db).ads && (ad_id_taken(
                    old(db).ads@,
                    self.id,
                ) || !buyer_id_taken(old(db).buyers@, self.buyer_id)),
            }),
    {
        let n = db.ads.len();
        let mut i: usize = 0;
        while i < n
            invariant
                *db == *old(db),
                n == db.ads.len(),
                i <= n,
                forall|k: int| 0 <= k < i ==> old(db).ads@[k].id != self.id,
            decreases n - i,
        {
            if db.ads[i].id == self.id {
                return Err(DbError::Constraint);
            }
            i += 1;
        }
        let m = db.buyers.len();
        let mut j: usize = 0;
        let mut owner_found = false;
        while j < m
            invariant
                *db == *old(db),
                m == db.buyers.len(),
                j <= m,
                owner_found == exists|k: int|
                    0 <= k < j && old(db).buyers@[k].id == self.buyer_id,
            decreases m - j,
        {
            if db.buyers[j].id == self.buyer_id {
                owner_found = true;
            }
            j += 1;
        }
        if !owner_found {
            return Err(DbError::Constraint);
        }
        db.ads.push(self.clone());
        Ok(())
    }

    /// Atomic update-and-return at clock reading `at`: sets the active flag
    /// and refreshes `updated` where the identifier matches, returning the
    /// updated row; no matching row yields `RowNotFound` and changes
    /// nothing.
    pub fn set_active_at(db: &mut Db, id: AdId, active: bool, at: Timestamp) -> (r: DbResult<Ad>)
        ensures
            final(db).buyers == old(db).buyers,
            final(db).sites == old(db).sites,
            final(db).events == old(db).events,
            (match r {
                Ok(ad) => exists|i: int|
                    #[trigger] first_ad_with_id(old(db).ads@, id, i) && ad == toggled(
                        old(db).ads@[i],
                        active,
                        at,
                    ) && final(db).ads@ == old(db).ads@.update(i, ad),
                Err(e) => e == DbError::RowNotFound && !ad_id_taken(old(db).ads@, id) && final(db).ads == old(db).ads,
            }),
    {
        let n = db.ads.len();
        let mut i: usize = 0;
        while i < n
            invariant
                *db == *old(db),
                n == db.ads.len(),
                i <= n,
                forall|k: int| 0 <= k < i ==> old(db).ads@[k].id != id,
            decreases n - i,
        {
            if db.ads[i].id == id {
                let row = Ad {
                    id: db.ads[i].id,
                    active,
                    asset_url_sm: db.ads[i].asset_url_sm.clone(),
                    asset_url_lg: db.ads[i].asset_url_lg.clone(),
                    clickthrough_url: db.ads[i].clickthrough_url.clone(),
                    created: db.ads[i].created,
                    updated: at,
                    buyer_id: db.ads[i].buyer_id,
                };
                let out = row.clone();
                db.ads[i] = row;
                proof {
                    assert(first_ad_with_id(old(db).ads@, id, i as int));
                }
                return Ok(out);
            }
            i += 1;
        }
        Err(DbError::RowNotFound)
    }

    /// Marks the ad eligible for placement, at the current clock reading.
    pub fn activate(db: &mut Db, id: AdId) -> (r: DbResult<Ad>)
        ensures
            final(db).buyers == old(db).buyers,
            final(db).sites == old(db).sites,
            final(db).events == old(db).events,
            (match r {
                Ok(ad) => exists|i: int|
                    #[trigger] first_ad_with_id(old(db).ads@, id, i) && ad == toggled(
                        old(db).ads@[i],
                        true,
                        ad.updated,
                    ) && final(db).ads@ == old(db).ads@.update(i, ad),
                Err(e) => e == DbError::RowNotFound && !ad_id_taken(old(db).ads@, id) && final(db).ads == old(db).ads,
            }),
    {
        let updated = now();
        Ad::set_active_at(db, id, true, updated)
    }

    /// Withdraws the ad from placement, at the current clock reading.
    pub fn deactivate(db: &mut Db, id: AdId) -> (r: DbResult<Ad>)
        ensures
            final(db).buyers == old(db).buyers,
            final(db).sites == old(db).sites,
            final(db).events == old(db).events,
            (match r {
                Ok(ad) => exists|i: int|
                    #[trigger] first_ad_with_id(old(db).ads@, id, i) && ad == toggled(
                        old(db).ads@[i],
                        false,
                        ad.updated,
                    ) && final(db).ads@ == old(db).ads@.update(i, ad),
                Err(e) => e == DbError::RowNotFound && !ad_id_taken(old(db).ads@, id) && final(db).ads == old(db).ads,
            }),
    {
        let updated = now();
        Ad::set_active_at(db, id, false, updated)
    }
}

/// Toggling the same ad twice — activate then deactivate, or the reverse —
/// at strictly later clock readings each time, updates the same row both
/// times, strictly increases its `updated` at each step, and leaves
/// `active` at the last call's intent; identity, creation instant, creative
/// and owner never change, and no other row is touched. The two table
/// states below are exactly those that two successive update-and-return
/// calls produce.
pub proof fn lemma_toggle_twice(
    ads: Seq<Ad>,
    id: AdId,
    i: int,
    first_active: bool,
    t1: Timestamp,
    second_active: bool,
    t2: Timestamp,
)
    requires
        first_ad_with_id(ads, id, i),
        ads[i].updated.micros < t1.micros,
        t1.micros < t2.micros,
    ensures
        ({
            let mid = ads.update(i, toggled(ads[i], first_active, t1));
            let last = mid.update(i, toggled(mid[i], second_active, t2));
            &&& first_ad_with_id(mid, id, i)
            &&& mid[i].active == first_active
            &&& mid[i].updated.micros > ads[i].updated.micros
            &&& last[i].active == second_active
            &&& last[i].updated.micros > mid[i].updated.micros
            &&& last[i].id == ads[i].id
            &&& last[i].created == ads[i].created
            &&& last[i].buyer_id == ads[i].buyer_id
            &&& last[i].asset_url_sm == ads[i].asset_url_sm
            &&& last[i].asset_url_lg == ads[i].asset_url_lg
            &&& last[i].clickthrough_url == ads[i].clickthrough_url
            &&& forall|k: int| 0 <= k < ads.len() && k != i ==> last[k] == ads[k]
        }),
{
}

/// A placement: the creative served for a site's request. A projection of
/// one ad row, never independently stored.
#[derive(Debug)]
pub struct PlacementData {
    pub ad_id: AdId,
    pub asset_url_sm: String,
    pub asset_url_lg: String,
    pub clickthrough_url: String,
}

/// The projection a placement read returns for one ad row.
pub open spec fn placement_of(ad: Ad) -> PlacementData {
    PlacementData {
        ad_id: ad.id,
        asset_url_sm: ad.asset_url_sm,
        asset_url_lg: ad.asset_url_lg,
        clickthrough_url: ad.clickthrough_url,
    }
}

/// The active rows of `ads`, in row order.
pub open spec fn active_ads(ads: Seq<Ad>) -> Seq<Ad>
    decreases ads.len(),
{
    if ads.len() == 0 {
        Seq::empty()
    } else {
        let rest = active_ads(ads.drop_last());
        if ads.last().active {
            rest.push(ads.last())
        } else {
            rest
        }
    }
}

/// What a placement read returns: nothing when no ad is active, otherwise
/// the active row selected by the sample `pick`. The requesting site plays
/// no part in the selection.
pub open spec fn spec_random_for_site(ads: Seq<Ad>, pick: int) -> DbResult<PlacementData> {
    let actives = active_ads(ads);
    if actives.len() == 0 {
        Err(DbError::RowNotFound)
    } else {
        Ok(placement_of(actives[pick % (actives.len() as int)]))
    }
}

impl PlacementData {
    /// Selects one row where `active = true`, the choice driven by the
    /// caller's uniform sample `pick`. The `site_id` is accepted but — by
    /// current design — does not filter or influence the result; it is a
    /// placeholder for per-site targeting, not a row filter.
    pub fn random_for_site(db: &Db, _site_id: SiteId, pick: usize) -> (r: DbResult<PlacementData>)
        ensures
            r == spec_random_for_site(db.ads@, pick as int),
    {
        let n = db.ads.len();
        let mut actives: Vec<usize> = Vec::new();
        let mut i: usize = 0;
        while i < n
            invariant
                n == db.ads.len(),
                i <= n,
                actives@.len() == active_ads(db.ads@.take(i as int)).len(),
                forall|k: int|
                    0 <= k < actives@.len() ==> #[trigger] actives@[k] < i && db.ads@[
                        actives@[k] as int
                    ] == active_ads(db.ads@.take(i as int))[k],
            decreases n - i,
        {
            proof {
                assert(db.ads@.take(i + 1).drop_last() =~= db.ads@.take(i as int));
                assert(db.ads@.take(i + 1).last() == db.ads@[i as int]);
            }
            if db.ads[i].active {
                actives.push(i);
            }
            i += 1;
        }
        proof {
            assert(db.ads@.take(n as int) =~= db.ads@);
        }
        if actives.len() == 0 {
            return Err(DbError::RowNotFound);
        }
        let idx = actives[pick % actives.len()];
        let row = &db.ads[idx];
        Ok(
            PlacementData {
                ad_id: row.id,
                asset_url_sm: row.asset_url_sm.clone(),
                asset_url_lg: row.asset_url_lg.clone(),
                clickthrough_url: row.clickthrough_url.clone(),
            },
        )
    }
}

/// With exactly one active ad, a placement read returns that ad's creative
/// for every sample — and, the selection being site-independent, for every
/// requesting site.
pub proof fn lemma_single_active_uniform(ads: Seq<Ad>, pick1: int, pick2: int)
    requires
        active_ads(ads).len() == 1,
        pick1 >= 0,
        pick2 >= 0,
    ensures
        spec_random_for_site(ads, pick1) == Ok::<PlacementData, DbError>(
            placement_of(active_ads(ads)[0]),
        ),
        spec_random_for_site(ads, pick1) == spec_random_for_site(ads, pick2),
{
    assert(pick1 % (1 as int) == 0);
    assert(pick2 % (1 as int) == 0);
}

} // verus!
