use vstd::prelude::*;

verus! {

use vstd::string::StringExecFns;
use crate::decode::{decode_properties, spec_decode_properties};
use crate::json::{json_of, parse_json};
use crate::encode::{lodge_rates_body, spec_lodge_rates_json};
use crate::mapper::{map_rates, spec_map_rates};
use crate::schema::{LittleHotelierRates, LittleHotelierRatesV, LodgeRateV, LodgeRates, RatesError};

/// The fixed upstream rates endpoint.
pub open spec fn spec_base_url() -> Seq<char> {
    "https://apac.littlehotelier.com/api/v1/properties/kakapolodgedirect/rates.json"@
}

pub fn base_url() -> (r: &'static str)
    ensures
        r@ == spec_base_url(),
{
    "https://apac.littlehotelier.com/api/v1/properties/kakapolodgedirect/rates.json"
}

/// The upstream request URL for one day's window: both query dates set
/// to the same date.
pub open spec fn spec_rates_url(date: Seq<char>) -> Seq<char> {
    spec_base_url() + "?start_date="@ + date + "&end_date="@ + date
}

pub fn build_rates_url(date: &str) -> (r: String)
    ensures
        r@ == spec_rates_url(date@),
{
    let mut url = String::from_str(base_url());
    url.append("?start_date=");
    url.append(date);
    url.append("&end_date=");
    url.append(date);
    proof {
        assert(url@ =~= spec_rates_url(date@));
    }
    url
}

/// The HTTP statuses that count as upstream success.
pub open spec fn spec_is_success(status: u16) -> bool {
    200 <= status < 300
}

pub fn is_success_status(status: u16) -> (r: bool)
    ensures
        r == spec_is_success(status),
{
    200 <= status && status < 300
}

/// What parsing and decoding the upstream body yields: the property
/// sequence, or the schema fault when the body is not JSON of the
/// expected shape.
pub open spec fn spec_upstream_of_body(body: Seq<char>) -> Result<
    Seq<LittleHotelierRatesV>,
    RatesError,
> {
    match json_of(body) {
        None => Err(RatesError::UpstreamSchema),
        Some(j) => match spec_decode_properties(j) {
            None => Err(RatesError::UpstreamSchema),
            Some(a) => Ok(a),
        },
    }
}

/// Parses the upstream body as a JSON array of properties.
pub fn parse_upstream_body(body: &str) -> (r: Result<Vec<LittleHotelierRates>, RatesError>)
    ensures
        match r {
            Ok(v) => spec_upstream_of_body(body@) == Ok::<
                Seq<LittleHotelierRatesV>,
                RatesError,
            >(v.deep_view()),
            Err(e) => spec_upstream_of_body(body@) == Err::<
                Seq<LittleHotelierRatesV>,
                RatesError,
            >(e),
        },
{
    match parse_json(body) {
        None => Err(RatesError::UpstreamSchema),
        Some(j) => match decode_properties(&j) {
            None => Err(RatesError::UpstreamSchema),
            Some(v) => Ok(v),
        },
    }
}

/// The first property of the upstream response; an empty response is a
/// fault, never an empty success.
pub fn select_first_property(v: Vec<LittleHotelierRates>) -> (r: Result<
    LittleHotelierRates,
    RatesError,
>)
    ensures
        v@.len() == 0 ==> r == Err::<LittleHotelierRates, RatesError>(RatesError::UpstreamEmpty),
        v@.len() > 0 ==> (r matches Ok(h) && h@ == v.deep_view()[0]),
{
    let mut w = v;
    if w.len() == 0 {
        Err(RatesError::UpstreamEmpty)
    } else {
        let h = w.remove(0);
        Ok(h)
    }
}

/// The whole decision the rates pipeline takes on an upstream reply:
/// a non-success status is a transport fault; then the body must decode,
/// hold at least one property, and have its first property map cleanly.
pub open spec fn spec_process_response(status: u16, body: Seq<char>) -> Result<
    Seq<LodgeRateV>,
    RatesError,
> {
    if !spec_is_success(status) {
        Err(RatesError::UpstreamTransport)
    } else {
        match spec_upstream_of_body(body) {
            Err(e) => Err(e),
            Ok(a) => if a.len() == 0 {
                Err(RatesError::UpstreamEmpty)
            } else {
                spec_map_rates(a[0])
            },
        }
    }
}

/// Runs the rates pipeline on an upstream reply already read from the
/// wire: its status and its body text.
pub fn process_response(status: u16, body: &str) -> (r: Result<LodgeRates, RatesError>)
    ensures
        match r {
            Ok(lr) => spec_process_response(status, body@) == Ok::<
                Seq<LodgeRateV>,
                RatesError,
            >(lr@),
            Err(e) => spec_process_response(status, body@) == Err::<Seq<LodgeRateV>, RatesError>(
                e,
            ),
        },
{
    if !is_success_status(status) {
        return Err(RatesError::UpstreamTransport);
    }
    let v = match parse_upstream_body(body) {
        Ok(v) => v,
        Err(e) => {
            return Err(e);
        },
    };
    let h = match select_first_property(v) {
        Ok(h) => h,
        Err(e) => {
            return Err(e);
        },
    };
    match map_rates(&h) {
        Ok(lr) => Ok(lr),
        Err(e) => Err(e),
    }
}

/// The HTTP status each failure maps to: upstream faults become 502,
/// the internal mapping fault 500 — all in the server-error class.
pub open spec fn spec_error_status(e: RatesError) -> u16 {
    match e {
        RatesError::MappingFault => 500u16,
        _ => 502u16,
    }
}

pub fn error_status(e: RatesError) -> (r: u16)
    ensures
        r == spec_error_status(e),
        500 <= r < 600,
{
    match e {
        RatesError::MappingFault => 500,
        _ => 502,
    }
}

/// The whole `/rates` reply for an upstream response: 200 with the JSON
/// body on success, a server-error status with an empty body otherwise.
pub fn rates_reply(status: u16, body: &str) -> (r: (u16, String))
    ensures
        match spec_process_response(status, body@) {
            Ok(rs) => r.0 == 200 && r.1@ == spec_lodge_rates_json(rs),
            Err(e) => r.0 == spec_error_status(e) && r.1@.len() == 0,
        },
{
    match process_response(status, body) {
        Ok(lr) => (200, lodge_rates_body(&lr)),
        Err(e) => (error_status(e), String::new()),
    }
}

} // verus!
