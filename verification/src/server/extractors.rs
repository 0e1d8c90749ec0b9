//! Translation of inbound request pieces into typed values: the peer
//! address, the occurrence timestamp, the event-submission body, and the
//! custom site-identity header.

use vstd::prelude::*;
use crate::db::Timestamp;
use crate::db::ad::AdId;
use crate::db::event::{AdEvent, IpHost, IpNet, max_prefix};
use crate::db::site::SiteId;
use crate::errors::AppError;
use crate::uuid_text::{
    canonical_uuid_text,
    encode_uuid_text,
    lemma_canonical_text_round_trip,
    parse_uuid_str,
    parse_uuid_text,
    uuid_version_num,
};

verus! {

/// Maps a peer host address to the storable network value with no subnet
/// mask (host-only, zero prefix). A zero prefix is valid for either address
/// family, so the defensive check never fails.
pub fn convert_ip(in_addr: IpHost) -> (r: Result<IpNet, AppError>)
    ensures
        r == Ok::<IpNet, AppError>(IpNet { host: in_addr, prefix: 0 }),
{
    let prefix: u8 = 0;
    let widest = match in_addr {
        IpHost::V4(_) => 32,
        IpHost::V6(_) => 128,
    };
    proof {
        assert(widest == max_prefix(in_addr));
    }
    if prefix <= widest {
        Ok(IpNet { host: in_addr, prefix })
    } else {
        Err(AppError::InvalidRequest)
    }
}

/// What the RFC3339 parser yields for a text: the denoted instant in
/// microseconds since the Unix epoch, normalized to UTC, or nothing on a
/// parse error. A function of the characters alone.
pub uninterp spec fn rfc3339_utc_micros(s: Seq<char>) -> Option<i64>;

/// Relies on chrono's DateTime::parse_from_rfc3339 and
/// DateTime::timestamp_micros: the parse depends on the text alone; on
/// success the result is the parsed instant, normalized to UTC, in
/// microseconds since the epoch.
#[verifier::external_body]
fn parse_rfc3339_micros(raw: &str) -> (r: Option<i64>)
    ensures
        r == rfc3339_utc_micros(raw@),
{
    match chrono::DateTime::parse_from_rfc3339(raw) {
        Ok(dt) => Some(dt.timestamp_micros()),
        Err(_) => None,
    }
}

/// Parses an RFC3339 timestamp into the timezone-stripped, UTC-normalized
/// instant; any parse error is a malformed request.
pub fn parse_occurred(raw: &str) -> (r: Result<Timestamp, AppError>)
    ensures
        r == (match rfc3339_utc_micros(raw@) {
            Some(m) => Ok::<Timestamp, AppError>(Timestamp { micros: m }),
            None => Err::<Timestamp, AppError>(AppError::InvalidRequest),
        }),
{
    match parse_rfc3339_micros(raw) {
        Some(m) => Ok(Timestamp { micros: m }),
        None => Err(AppError::InvalidRequest),
    }
}

/// An inbound event-submission body: `{eventType, occurred, adId}`, the
/// occurrence still as its RFC3339 text.
#[derive(Debug)]
pub struct EventData {
    pub event_type: AdEvent,
    pub occurred: String,
    pub ad_id: AdId,
}

/// Failure to decode a typed header; the transport layer surfaces it as a
/// generic bad-header rejection, before any handler runs.
#[derive(Debug, Clone, Copy, PartialEq, Eq, Structural)]
pub struct HeaderDecodeError;

/// The custom site-identity header: identifies the site that requests a
/// placement or reports an event.
pub struct SiteIdHeader(pub SiteId);

impl SiteIdHeader {
    /// Name of the header on the wire.
    pub fn name() -> (r: &'static str)
        ensures
            r@ == "x-o-ads-site-id"@,
    {
        "x-o-ads-site-id"
    }

    /// What decoding the header's values yields: the site identifier exactly
    /// when there is one value, it parses as an identifier text, and the
    /// version field is 4; every other shape (missing, repeated, malformed,
    /// wrong version) is rejected.
    pub open spec fn spec_decode(values: Seq<Seq<char>>) -> Result<SiteId, HeaderDecodeError> {
        if values.len() == 1 {
            match parse_uuid_text(values[0]) {
                Some(x) => if uuid_version_num(x) == 4 {
                    Ok(SiteId(x))
                } else {
                    Err(HeaderDecodeError)
                },
                None => Err(HeaderDecodeError),
            }
        } else {
            Err(HeaderDecodeError)
        }
    }

    /// Decodes the header from the values presented on the wire.
    pub fn decode(values: &Vec<String>) -> (r: Result<SiteIdHeader, HeaderDecodeError>)
        ensures
            (match r {
                Ok(h) => Self::spec_decode(values@.map_values(|v: String| v@))
                    == Ok::<SiteId, HeaderDecodeError>(h.0),
                Err(e) => Self::spec_decode(values@.map_values(|v: String| v@))
                    == Err::<SiteId, HeaderDecodeError>(e),
            }),
    {
        let ghost vs = values@.map_values(|v: String| v@);
        if values.len() != 1 {
            return Err(HeaderDecodeError);
        }
        proof {
            assert(vs[0] == values@[0]@);
        }
        match parse_uuid_str(values[0].as_str()) {
            Some(x) => {
                let version = (x >> 76) & 0xf;
                if version == 4 {
                    Ok(SiteIdHeader(SiteId(x)))
                } else {
                    Err(HeaderDecodeError)
                }
            },
            None => Err(HeaderDecodeError),
        }
    }

    /// Canonical text of the carried identifier, as placed on the wire.
    pub fn encode(&self) -> (r: String)
        ensures
            r@ == canonical_uuid_text(self.0.0),
    {
        encode_uuid_text(self.0.as_uuid())
    }
}

/// Round trip through the header: a version-4 site identifier, encoded in
/// its canonical text and presented as the single header value, decodes
/// back to the same identifier.
pub proof fn lemma_header_round_trip(id: SiteId)
    requires
        uuid_version_num(id.0) == 4,
    ensures
        SiteIdHeader::spec_decode(seq![canonical_uuid_text(id.0)]) == Ok::<
            SiteId,
            HeaderDecodeError,
        >(id),
{
    lemma_canonical_text_round_trip(id.0);
}

} // verus!
