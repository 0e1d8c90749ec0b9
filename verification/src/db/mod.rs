//! The data layer: entity records, and an in-memory model of the relational
//! store they are persisted in. The live system issues each operation as a
//! single SQL statement; the model states the row-level semantics that the
//! rest of the crate is verified against.

pub mod ad;
pub mod buyer;
pub mod event;
pub mod site;

pub use ad::{Ad, PlacementData};
pub use buyer::Buyer;
pub use event::{AdEvent, Event, EventMetadata};
pub use site::Site;

use vstd::prelude::*;

verus! {

/// A moment in time: microseconds since the Unix epoch, UTC.
#[derive(Debug, Clone, Copy, PartialEq, Eq, Structural)]
pub struct Timestamp {
    pub micros: i64,
}

/// Relies on chrono's Utc::now and DateTime::timestamp_micros: the wall
/// clock at the call. Nothing is assumed of the value returned.
#[verifier::external_body]
pub(crate) fn now() -> Timestamp {
    Timestamp { micros: chrono::Utc::now().timestamp_micros() }
}

/// The store-side failures the handlers distinguish: a lookup that matched
/// no row, and a row the store rejected (a constraint violation).
#[derive(Debug, Clone, Copy, PartialEq, Eq, Structural)]
pub enum DbError {
    RowNotFound,
    Constraint,
}

pub type DbResult<T> = Result<T, DbError>;

/// Model of the backing store: one table per entity. Rows are kept in
/// insertion order; primary-key and foreign-key checks are the store's.
pub struct Db {
    pub buyers: Vec<Buyer>,
    pub sites: Vec<Site>,
    pub ads: Vec<Ad>,
    pub events: Vec<Event>,
}

impl Db {
    /// An empty store.
    pub fn new() -> (r: Self)
        ensures
            r.buyers@ =~= Seq::<Buyer>::empty(),
            r.sites@ =~= Seq::<Site>::empty(),
            r.ads@ =~= Seq::<Ad>::empty(),
            r.events@ =~= Seq::<Event>::empty(),
    {
        Db { buyers: Vec::new(), sites: Vec::new(), ads: Vec::new(), events: Vec::new() }
    }
}

} // verus!
