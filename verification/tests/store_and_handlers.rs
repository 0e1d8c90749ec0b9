use o_ads_backend::db::ad::{Ad, AdId, PlacementData};
use o_ads_backend::db::buyer::Buyer;
use o_ads_backend::db::event::{AdEvent, EventMetadata, IpHost, IpNet};
use o_ads_backend::db::site::{Site, SiteId};
use o_ads_backend::db::{Db, DbError, Timestamp};
use o_ads_backend::errors::AppError;
use o_ads_backend::server::extractors::{convert_ip, parse_occurred, EventData};
use o_ads_backend::server::handlers::{get_placement, post_event};

fn seeded_store() -> (Db, Buyer, Ad, Site) {
    let mut db = Db::new();
    let buyer = Buyer::new(String::from("buyer@example.com"));
    buyer.insert(&mut db).expect("fresh buyer row");
    let ad = Ad::new(
        buyer.id,
        String::from("https://cdn.example.com/sm.png"),
        String::from("https://cdn.example.com/lg.png"),
        String::from("https://example.com/click"),
    );
    ad.insert(&mut db).expect("fresh ad row");
    let site = Site::new(String::from("https://site.example.com"), String::from("site@example.com"));
    site.insert(&mut db).expect("fresh site row");
    (db, buyer, ad, site)
}

#[test]
fn new_ad_is_inactive_with_equal_instants() {
    let buyer = Buyer::new(String::from("buyer@example.com"));
    let ad = Ad::new(buyer.id, String::from("s"), String::from("l"), String::from("c"));
    assert!(!ad.active);
    assert_eq!(ad.created, ad.updated);
    assert_eq!(ad.buyer_id, buyer.id);
}

#[test]
fn new_buyer_and_site_have_equal_instants() {
    let buyer = Buyer::new(String::from("buyer@example.com"));
    assert_eq!(buyer.created, buyer.updated);
    let site = Site::new(String::from("https://s.example.com"), String::from("site@example.com"));
    assert_eq!(site.created, site.updated);
}

#[test]
fn duplicate_insert_is_a_constraint_violation() {
    let mut db = Db::new();
    let buyer = Buyer::new(String::from("buyer@example.com"));
    buyer.insert(&mut db).expect("first insert");
    assert_eq!(buyer.insert(&mut db), Err(DbError::Constraint));
    assert_eq!(db.buyers.len(), 1);
}

#[test]
fn ad_insert_requires_its_buyer() {
    let mut db = Db::new();
    let buyer = Buyer::new(String::from("buyer@example.com"));
    let ad = Ad::new(buyer.id, String::from("s"), String::from("l"), String::from("c"));
    assert_eq!(ad.insert(&mut db), Err(DbError::Constraint));
    assert_eq!(db.ads.len(), 0);
}

#[test]
fn toggling_updates_instants_and_flag() {
    let (mut db, _buyer, ad, _site) = seeded_store();
    let t1 = Timestamp { micros: ad.updated.micros + 5 };
    let t2 = Timestamp { micros: ad.updated.micros + 9 };

    let row = Ad::set_active_at(&mut db, ad.id, true, t1).expect("row exists");
    assert!(row.active);
    assert_eq!(row.updated, t1);
    assert!(row.updated.micros > ad.updated.micros);
    assert_eq!(row.created, ad.created);

    let row = Ad::set_active_at(&mut db, ad.id, false, t2).expect("row exists");
    assert!(!row.active);
    assert_eq!(row.updated, t2);
    assert!(t2.micros > t1.micros);
    assert_eq!(row.created, ad.created);
}

#[test]
fn activate_and_deactivate_follow_the_last_call() {
    let (mut db, _buyer, ad, _site) = seeded_store();
    let row = Ad::activate(&mut db, ad.id).expect("row exists");
    assert!(row.active);
    assert!(db.ads[0].active);
    let row = Ad::deactivate(&mut db, ad.id).expect("row exists");
    assert!(!row.active);
    assert!(!db.ads[0].active);
}

#[test]
fn toggling_a_missing_id_is_not_found_and_no_silent_noop() {
    let (mut db, _buyer, ad, _site) = seeded_store();
    let missing = AdId::new();
    assert_eq!(Ad::activate(&mut db, missing), Err(DbError::RowNotFound));
    assert_eq!(Ad::deactivate(&mut db, missing), Err(DbError::RowNotFound));
    // The store is untouched: the one ad is still inactive.
    assert_eq!(db.ads.len(), 1);
    assert!(!db.ads[0].active);
    assert_eq!(db.ads[0].updated, ad.updated);
}

#[test]
fn placement_with_no_active_ad_is_not_found() {
    let (db, _buyer, _ad, site) = seeded_store();
    // The ad exists but was never activated.
    assert!(matches!(
        PlacementData::random_for_site(&db, site.id, 0),
        Err(DbError::RowNotFound)
    ));
}

#[test]
fn placement_with_one_active_ad_always_returns_it() {
    let (mut db, _buyer, ad, site) = seeded_store();
    Ad::activate(&mut db, ad.id).expect("row exists");
    let other_site = SiteId::new();
    for pick in [0usize, 1, 2, 17, 9999] {
        let p = PlacementData::random_for_site(&db, site.id, pick).expect("one active ad");
        assert_eq!(p.ad_id, ad.id);
        assert_eq!(p.asset_url_sm, ad.asset_url_sm);
        assert_eq!(p.asset_url_lg, ad.asset_url_lg);
        assert_eq!(p.clickthrough_url, ad.clickthrough_url);
        let q = PlacementData::random_for_site(&db, other_site, pick).expect("one active ad");
        assert_eq!(q.ad_id, ad.id);
    }
}

#[test]
fn placement_selects_only_active_rows() {
    let (mut db, buyer, _ad, site) = seeded_store();
    let second = Ad::new(buyer.id, String::from("s2"), String::from("l2"), String::from("c2"));
    second.insert(&mut db).expect("fresh ad row");
    Ad::activate(&mut db, second.id).expect("row exists");
    for pick in 0..8usize {
        let p = PlacementData::random_for_site(&db, site.id, pick).expect("one active ad");
        assert_eq!(p.ad_id, second.id);
    }
}

#[test]
fn placement_sample_walks_the_active_rows() {
    let (mut db, buyer, first, site) = seeded_store();
    let second = Ad::new(buyer.id, String::from("s2"), String::from("l2"), String::from("c2"));
    second.insert(&mut db).expect("fresh ad row");
    Ad::activate(&mut db, first.id).expect("row exists");
    Ad::activate(&mut db, second.id).expect("row exists");
    let expected = [first.id, second.id, first.id, second.id];
    for (pick, want) in expected.iter().enumerate() {
        let p = PlacementData::random_for_site(&db, site.id, pick).expect("two active ads");
        assert_eq!(p.ad_id, *want);
    }
}

#[test]
fn each_submission_adds_one_row() {
    let (mut db, _buyer, ad, site) = seeded_store();
    for expected in 1..=3usize {
        let body = EventData {
            event_type: AdEvent::Load,
            occurred: String::from("1970-01-01T00:00:01Z"),
            ad_id: ad.id,
        };
        let resp = post_event(&mut db, IpHost::V4(1), String::from("agent/1.0"), site.id, body)
            .expect("well-formed submission");
        assert!(resp.ok);
        assert_eq!(db.events.len(), expected);
    }
}

#[test]
fn get_placement_with_no_data_shapes_a_404() {
    let db = Db::new();
    let err = get_placement(&db, SiteId::new(), 3).expect_err("no rows at all");
    let (status, body) = err.into_response();
    assert_eq!(status, 404);
    assert!(!body.ok);
    assert_eq!(body.message, "no placement data found");
}

#[test]
fn parse_occurred_normalizes_to_utc() {
    let t = parse_occurred("1970-01-01T00:00:01Z").expect("valid timestamp");
    assert_eq!(t.micros, 1_000_000);
    let t = parse_occurred("1970-01-01T01:00:00+01:00").expect("valid timestamp");
    assert_eq!(t.micros, 0);
    let t = parse_occurred("1970-01-02T00:00:00.5-00:30").expect("valid timestamp");
    assert_eq!(t.micros, 86_400_000_000 + 500_000 + 1_800_000_000);
    let t = parse_occurred("1969-12-31T23:59:59Z").expect("valid timestamp");
    assert_eq!(t.micros, -1_000_000);
}

#[test]
fn parse_occurred_rejects_non_dates() {
    assert!(matches!(parse_occurred("not-a-date"), Err(AppError::InvalidRequest)));
    assert!(matches!(parse_occurred(""), Err(AppError::InvalidRequest)));
    assert!(matches!(parse_occurred("1970-01-01 00:00:01"), Err(AppError::InvalidRequest)));
}

#[test]
fn convert_ip_keeps_the_host_with_zero_prefix() {
    let v4 = convert_ip(IpHost::V4(0x7f00_0001)).expect("always storable");
    assert_eq!(v4, IpNet { host: IpHost::V4(0x7f00_0001), prefix: 0 });
    let v6 = convert_ip(IpHost::V6(1)).expect("always storable");
    assert_eq!(v6, IpNet { host: IpHost::V6(1), prefix: 0 });
}

#[test]
fn ad_event_names_are_lowercase() {
    assert_eq!(AdEvent::Load.as_str(), "load");
    assert_eq!(AdEvent::View.as_str(), "view");
    assert_eq!(AdEvent::Click.as_str(), "click");
}

#[test]
fn post_event_records_exactly_one_row() {
    let (mut db, _buyer, ad, site) = seeded_store();
    let body = EventData {
        event_type: AdEvent::Click,
        occurred: String::from("1970-01-01T02:00:01+02:00"),
        ad_id: ad.id,
    };
    let resp = post_event(
        &mut db,
        IpHost::V4(0x0a00_0001),
        String::from("agent/1.0"),
        site.id,
        body,
    )
    .expect("well-formed submission");
    assert!(resp.ok);
    assert_eq!(db.events.len(), 1);
    let row = &db.events[0];
    assert_eq!(row.event, AdEvent::Click);
    assert_eq!(row.ad_id, ad.id);
    assert_eq!(row.site_id, site.id);
    assert_eq!(row.occurred.micros, 1_000_000);
    assert_eq!(row.source_ip, IpNet { host: IpHost::V4(0x0a00_0001), prefix: 0 });
    assert_eq!(row.metadata.user_agent, "agent/1.0");
}

#[test]
fn post_event_with_a_bad_date_is_a_400_and_stores_nothing() {
    let (mut db, _buyer, ad, site) = seeded_store();
    let body = EventData {
        event_type: AdEvent::Load,
        occurred: String::from("not-a-date"),
        ad_id: ad.id,
    };
    let err = post_event(&mut db, IpHost::V4(1), String::from("agent/1.0"), site.id, body)
        .expect_err("unparsable occurred");
    let (status, shaped) = err.into_response();
    assert_eq!(status, 400);
    assert!(!shaped.ok);
    assert_eq!(shaped.message, "invalid request");
    assert_eq!(db.events.len(), 0);
}

#[test]
fn post_event_for_an_unknown_ad_is_rejected_by_the_store() {
    let (mut db, _buyer, _ad, site) = seeded_store();
    let body = EventData {
        event_type: AdEvent::View,
        occurred: String::from("1970-01-01T00:00:01Z"),
        ad_id: AdId::new(),
    };
    let err = post_event(&mut db, IpHost::V4(1), String::from("agent/1.0"), site.id, body)
        .expect_err("unknown ad");
    assert!(matches!(err, AppError::InvalidRequest));
    assert_eq!(db.events.len(), 0);
}

#[test]
fn entities_are_equal_exactly_by_identifier() {
    let a = Ad::new(Buyer::new(String::from("b")).id, String::from("s"), String::from("l"), String::from("c"));
    let mut b = a.clone();
    b.asset_url_sm = String::from("other");
    assert_eq!(a, b);
    let c = Ad::new(a.buyer_id, String::from("s"), String::from("l"), String::from("c"));
    assert_ne!(a, c);
    let m1 = EventMetadata { user_agent: String::from("ua") };
    let m2 = m1.clone();
    assert_eq!(m1.user_agent, m2.user_agent);
}
