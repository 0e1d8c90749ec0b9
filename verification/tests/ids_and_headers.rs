use o_ads_backend::db::ad::AdId;
use o_ads_backend::db::buyer::BuyerId;
use o_ads_backend::db::event::EventId;
use o_ads_backend::db::site::SiteId;
use o_ads_backend::errors::AppError;
use o_ads_backend::server::extractors::SiteIdHeader;
use o_ads_backend::uuid_text::{encode_uuid_text, parse_uuid_str};

#[test]
fn encode_is_canonical_for_known_values() {
    assert_eq!(encode_uuid_text(0), "00000000-0000-0000-0000-000000000000");
    assert_eq!(encode_uuid_text(1), "00000000-0000-0000-0000-000000000001");
    assert_eq!(
        encode_uuid_text(0xa1a2a3a4_b1b2_c1c2_d1d2_d3d4d5d6d7d8),
        "a1a2a3a4-b1b2-c1c2-d1d2-d3d4d5d6d7d8"
    );
    assert_eq!(
        encode_uuid_text(u128::MAX),
        "ffffffff-ffff-ffff-ffff-ffffffffffff"
    );
}

#[test]
fn parse_accepts_canonical_and_uppercase() {
    assert_eq!(
        parse_uuid_str("a1a2a3a4-b1b2-c1c2-d1d2-d3d4d5d6d7d8"),
        Some(0xa1a2a3a4_b1b2_c1c2_d1d2_d3d4d5d6d7d8)
    );
    assert_eq!(
        parse_uuid_str("A1A2A3A4-B1B2-C1C2-D1D2-D3D4D5D6D7D8"),
        Some(0xa1a2a3a4_b1b2_c1c2_d1d2_d3d4d5d6d7d8)
    );
}

#[test]
fn parse_rejects_malformed_texts() {
    assert_eq!(parse_uuid_str(""), None);
    assert_eq!(parse_uuid_str("not-a-uuid"), None);
    assert_eq!(parse_uuid_str("a1a2a3a4b1b2c1c2d1d2d3d4d5d6d7d8"), None);
    assert_eq!(parse_uuid_str("a1a2a3a4-b1b2-c1c2-d1d2-d3d4d5d6d7dg"), None);
    assert_eq!(parse_uuid_str("a1a2a3a4-b1b2-c1c2-d1d2-d3d4d5d6d7d"), None);
    assert_eq!(parse_uuid_str("a1a2a3a4-b1b2-c1c2-d1d2-d3d4d5d6d7d8 "), None);
    assert_eq!(parse_uuid_str("a1a2a3a4+b1b2-c1c2-d1d2-d3d4d5d6d7d8"), None);
}

#[test]
fn fresh_ids_round_trip_through_text() {
    let ad = AdId::new();
    let buyer = BuyerId::new();
    let site = SiteId::new();
    let event = EventId::new();
    assert_eq!(parse_uuid_str(&encode_uuid_text(ad.as_uuid())), Some(ad.as_uuid()));
    assert_eq!(parse_uuid_str(&encode_uuid_text(buyer.as_uuid())), Some(buyer.as_uuid()));
    assert_eq!(parse_uuid_str(&encode_uuid_text(site.as_uuid())), Some(site.as_uuid()));
    assert_eq!(parse_uuid_str(&encode_uuid_text(event.as_uuid())), Some(event.as_uuid()));
}

#[test]
fn fresh_ids_are_version_4() {
    for _ in 0..32 {
        let id = SiteId::new();
        let text = encode_uuid_text(id.as_uuid());
        assert_eq!(text.len(), 36);
        assert_eq!(text.as_bytes()[14], b'4');
    }
}

#[test]
fn fresh_ids_differ() {
    let a = AdId::new();
    let b = AdId::new();
    assert_ne!(a.as_uuid(), b.as_uuid());
}

#[test]
fn header_name_is_fixed() {
    assert_eq!(SiteIdHeader::name(), "x-o-ads-site-id");
}

#[test]
fn header_round_trips_a_fresh_site_id() {
    let site = SiteId::new();
    let header = SiteIdHeader(site);
    let wire = header.encode();
    let decoded = SiteIdHeader::decode(&vec![wire]).expect("canonical v4 text must decode");
    assert_eq!(decoded.0, site);
}

#[test]
fn header_rejects_every_other_shape() {
    // Missing.
    assert!(SiteIdHeader::decode(&vec![]).is_err());
    // Repeated.
    let wire = SiteIdHeader(SiteId::new()).encode();
    assert!(SiteIdHeader::decode(&vec![wire.clone(), wire.clone()]).is_err());
    // Not an identifier at all.
    assert!(SiteIdHeader::decode(&vec![String::from("not-a-uuid")]).is_err());
    // Well-formed text, wrong version field.
    let mut bytes = wire.into_bytes();
    bytes[14] = b'1';
    let wrong_version = String::from_utf8(bytes).unwrap();
    assert!(SiteIdHeader::decode(&vec![wrong_version]).is_err());
}

#[test]
fn error_shapes_match_the_taxonomy() {
    let (status, body) = AppError::NoRowReturned { entity_name: String::from("placement data") }
        .into_response();
    assert_eq!(status, 404);
    assert!(!body.ok);
    assert_eq!(body.message, "no placement data found");

    let (status, body) = AppError::InvalidRequest.into_response();
    assert_eq!(status, 400);
    assert!(!body.ok);
    assert_eq!(body.message, "invalid request");

    let (status, body) = AppError::InternalError.into_response();
    assert_eq!(status, 500);
    assert!(!body.ok);
    assert_eq!(body.message, "unexpected error");
}
