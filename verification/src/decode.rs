use vstd::prelude::*;

verus! {

use crate::json::Json;
use crate::schema::{
    LittleHotelierRates, LittleHotelierRatesV, RatePlan, RatePlanDate, RatePlanDateV, RatePlanV,
};
use crate::text::str_eq;

/// Decodes every element of a `rate_plan_dates` array, succeeding
/// only when every element does.
pub open spec fn spec_decode_dates_seq(a: Seq<Json>) -> Option<Seq<RatePlanDateV>>
    decreases a.len(),
{
    if a.len() == 0 {
        Some(Seq::empty())
    } else {
        match (spec_decode_dates_seq(a.drop_last()), spec_decode_date(a.last())) {
            (Some(rest), Some(x)) => Some(rest.push(x)),
            _ => None,
        }
    }
}

/// `spec_decode_dates_seq` succeeds exactly when every element
/// decodes, and then decodes the elements one for one, in order.
pub proof fn lemma_decode_dates_seq_props(a: Seq<Json>)
    ensures
        (spec_decode_dates_seq(a) is Some) <==> (forall|i: int|
            0 <= i < a.len() ==> spec_decode_date(#[trigger] a[i]) is Some),
        spec_decode_dates_seq(a) matches Some(b) ==> b.len() == a.len() && forall|i: int|
            0 <= i < a.len() ==> Some(b[i]) == spec_decode_date(#[trigger] a[i]),
    decreases a.len(),
{
    if a.len() > 0 {
        lemma_decode_dates_seq_props(a.drop_last());
        assert(forall|i: int| 0 <= i < a.len() - 1 ==> a.drop_last()[i] == a[i]);
    }
}

/// Decodes every element of a `rate_plans` array, succeeding
/// only when every element does.
pub open spec fn spec_decode_plans_seq(a: Seq<Json>) -> Option<Seq<RatePlanV>>
    decreases a.len(),
{
    if a.len() == 0 {
        Some(Seq::empty())
    } else {
        match (spec_decode_plans_seq(a.drop_last()), spec_decode_plan(a.last())) {
            (Some(rest), Some(x)) => Some(rest.push(x)),
            _ => None,
        }
    }
}

/// `spec_decode_plans_seq` succeeds exactly when every element
/// decodes, and then decodes the elements one for one, in order.
pub proof fn lemma_decode_plans_seq_props(a: Seq<Json>)
    ensures
        (spec_decode_plans_seq(a) is Some) <==> (forall|i: int|
            0 <= i < a.len() ==> spec_decode_plan(#[trigger] a[i]) is Some),
        spec_decode_plans_seq(a) matches Some(b) ==> b.len() == a.len() && forall|i: int|
            0 <= i < a.len() ==> Some(b[i]) == spec_decode_plan(#[trigger] a[i]),
    decreases a.len(),
{
    if a.len() > 0 {
        lemma_decode_plans_seq_props(a.drop_last());
        assert(forall|i: int| 0 <= i < a.len() - 1 ==> a.drop_last()[i] == a[i]);
    }
}

/// Decodes every element of the top-level property array, succeeding
/// only when every element does.
pub open spec fn spec_decode_properties_seq(a: Seq<Json>) -> Option<Seq<LittleHotelierRatesV>>
    decreases a.len(),
{
    if a.len() == 0 {
        Some(Seq::empty())
    } else {
        match (spec_decode_properties_seq(a.drop_last()), spec_decode_property(a.last())) {
            (Some(rest), Some(x)) => Some(rest.push(x)),
            _ => None,
        }
    }
}

/// `spec_decode_properties_seq` succeeds exactly when every element
/// decodes, and then decodes the elements one for one, in order.
pub proof fn lemma_decode_properties_seq_props(a: Seq<Json>)
    ensures
        (spec_decode_properties_seq(a) is Some) <==> (forall|i: int|
            0 <= i < a.len() ==> spec_decode_property(#[trigger] a[i]) is Some),
        spec_decode_properties_seq(a) matches Some(b) ==> b.len() == a.len() && forall|i: int|
            0 <= i < a.len() ==> Some(b[i]) == spec_decode_property(#[trigger] a[i]),
    decreases a.len(),
{
    if a.len() > 0 {
        lemma_decode_properties_seq_props(a.drop_last());
        assert(forall|i: int| 0 <= i < a.len() - 1 ==> a.drop_last()[i] == a[i]);
    }
}

/// The first value in `fields` under `key`, if any.
pub open spec fn spec_lookup(fields: Seq<(String, Json)>, key: Seq<char>) -> Option<Json>
    decreases fields.len(),
{
    if fields.len() == 0 {
        None
    } else if fields[0].0@ == key {
        Some(fields[0].1)
    } else {
        spec_lookup(fields.drop_first(), key)
    }
}

/// Finds the first entry of `fields` whose key is `key`.
pub fn get_field<'a>(fields: &'a Vec<(String, Json)>, key: &str) -> (r: Option<&'a Json>)
    ensures
        match r {
            Some(j) => spec_lookup(fields@, key@) == Some(*j),
            None => spec_lookup(fields@, key@) is None,
        },
{
    let n = fields.len();
    let mut i: usize = 0;
    proof {
        assert(fields@.skip(0) =~= fields@);
    }
    while i < n
        invariant
            i <= n,
            n == fields@.len(),
            spec_lookup(fields@, key@) == spec_lookup(fields@.skip(i as int), key@),
        decreases n - i,
    {
        proof {
            assert(fields@.skip(i as int)[0] == fields@[i as int]);
            assert(fields@.skip(i as int).drop_first() =~= fields@.skip(i + 1 as int));
        }
        if str_eq(fields[i].0.as_str(), key) {
            return Some(&fields[i].1);
        }
        i += 1;
    }
    None
}

/// A required unsigned field: present and a `Json::UInt`.
pub open spec fn spec_req_u64(fields: Seq<(String, Json)>, key: Seq<char>) -> Option<u64> {
    match spec_lookup(fields, key) {
        Some(Json::UInt(n)) => Some(n),
        _ => None,
    }
}

fn req_u64(fields: &Vec<(String, Json)>, key: &str) -> (r: Option<u64>)
    ensures
        r == spec_req_u64(fields@, key@),
{
    match get_field(fields, key) {
        Some(Json::UInt(n)) => Some(*n),
        _ => None,
    }
}

/// A required unsigned field that must fit in 32 bits.
pub open spec fn spec_req_u32(fields: Seq<(String, Json)>, key: Seq<char>) -> Option<u32> {
    match spec_req_u64(fields, key) {
        Some(n) => if n <= u32::MAX {
            Some(n as u32)
        } else {
            None
        },
        None => None,
    }
}

fn req_u32(fields: &Vec<(String, Json)>, key: &str) -> (r: Option<u32>)
    ensures
        r == spec_req_u32(fields@, key@),
{
    match req_u64(fields, key) {
        Some(n) => if n <= u32::MAX as u64 {
            Some(n as u32)
        } else {
            None
        },
        None => None,
    }
}

/// A required unsigned field that must fit in 16 bits.
pub open spec fn spec_req_u16(fields: Seq<(String, Json)>, key: Seq<char>) -> Option<u16> {
    match spec_req_u64(fields, key) {
        Some(n) => if n <= u16::MAX {
            Some(n as u16)
        } else {
            None
        },
        None => None,
    }
}

fn req_u16(fields: &Vec<(String, Json)>, key: &str) -> (r: Option<u16>)
    ensures
        r == spec_req_u16(fields@, key@),
{
    match req_u64(fields, key) {
        Some(n) => if n <= u16::MAX as u64 {
            Some(n as u16)
        } else {
            None
        },
        None => None,
    }
}

/// A required unsigned field that must fit in 8 bits.
pub open spec fn spec_req_u8(fields: Seq<(String, Json)>, key: Seq<char>) -> Option<u8> {
    match spec_req_u64(fields, key) {
        Some(n) => if n <= u8::MAX {
            Some(n as u8)
        } else {
            None
        },
        None => None,
    }
}

fn req_u8(fields: &Vec<(String, Json)>, key: &str) -> (r: Option<u8>)
    ensures
        r == spec_req_u8(fields@, key@),
{
    match req_u64(fields, key) {
        Some(n) => if n <= u8::MAX as u64 {
            Some(n as u8)
        } else {
            None
        },
        None => None,
    }
}

/// A required boolean field.
pub open spec fn spec_req_bool(fields: Seq<(String, Json)>, key: Seq<char>) -> Option<bool> {
    match spec_lookup(fields, key) {
        Some(Json::Bool(b)) => Some(b),
        _ => None,
    }
}

fn req_bool(fields: &Vec<(String, Json)>, key: &str) -> (r: Option<bool>)
    ensures
        r == spec_req_bool(fields@, key@),
{
    match get_field(fields, key) {
        Some(Json::Bool(b)) => Some(*b),
        _ => None,
    }
}

/// A required string field, as its characters.
pub open spec fn spec_req_str(fields: Seq<(String, Json)>, key: Seq<char>) -> Option<Seq<char>> {
    match spec_lookup(fields, key) {
        Some(Json::Str(s)) => Some(s@),
        _ => None,
    }
}

fn req_str(fields: &Vec<(String, Json)>, key: &str) -> (r: Option<String>)
    ensures
        match r {
            Some(s) => spec_req_str(fields@, key@) == Some(s@),
            None => spec_req_str(fields@, key@) is None,
        },
{
    match get_field(fields, key) {
        Some(Json::Str(s)) => Some(s.clone()),
        _ => None,
    }
}

/// An optional unsigned field that must fit in 32 bits: absent or null
/// reads as `None`; any other non-integer shape is a schema mismatch.
pub open spec fn spec_opt_u32(fields: Seq<(String, Json)>, key: Seq<char>) -> Option<
    Option<u32>,
> {
    match spec_lookup(fields, key) {
        None => Some(None),
        Some(Json::Null) => Some(None),
        Some(Json::UInt(n)) => if n <= u32::MAX {
            Some(Some(n as u32))
        } else {
            None
        },
        Some(_) => None,
    }
}

fn opt_u32(fields: &Vec<(String, Json)>, key: &str) -> (r: Option<Option<u32>>)
    ensures
        r == spec_opt_u32(fields@, key@),
{
    match get_field(fields, key) {
        None => Some(None),
        Some(Json::Null) => Some(None),
        Some(Json::UInt(n)) => if *n <= u32::MAX as u64 {
            Some(Some(*n as u32))
        } else {
            None
        },
        Some(_) => None,
    }
}

/// An optional unsigned field that must fit in 8 bits: absent or null
/// reads as `None`; any other non-integer shape is a schema mismatch.
pub open spec fn spec_opt_u8(fields: Seq<(String, Json)>, key: Seq<char>) -> Option<Option<u8>> {
    match spec_lookup(fields, key) {
        None => Some(None),
        Some(Json::Null) => Some(None),
        Some(Json::UInt(n)) => if n <= u8::MAX {
            Some(Some(n as u8))
        } else {
            None
        },
        Some(_) => None,
    }
}

fn opt_u8(fields: &Vec<(String, Json)>, key: &str) -> (r: Option<Option<u8>>)
    ensures
        r == spec_opt_u8(fields@, key@),
{
    match get_field(fields, key) {
        None => Some(None),
        Some(Json::Null) => Some(None),
        Some(Json::UInt(n)) => if *n <= u8::MAX as u64 {
            Some(Some(*n as u8))
        } else {
            None
        },
        Some(_) => None,
    }
}

/// Decodes one `rate_plan_dates` entry. Unknown fields are ignored, as
/// the upstream carries more than the schema reads.
pub open spec fn spec_decode_date(j: Json) -> Option<RatePlanDateV> {
    match j {
        Json::Obj(fields) => match (
            spec_req_str(fields@, "date"@),
            spec_req_u16(fields@, "rate"@),
            spec_req_u8(fields@, "min_stay"@),
            spec_req_bool(fields@, "stop_online_sell"@),
            spec_req_bool(fields@, "close_to_arrival"@),
            spec_req_bool(fields@, "close_to_departure"@),
            spec_req_u8(fields@, "available"@),
            spec_opt_u32(fields@, "id"@),
            spec_opt_u8(fields@, "max_stay"@),
        ) {
            (
                Some(date),
                Some(rate),
                Some(min_stay),
                Some(stop_online_sell),
                Some(close_to_arrival),
                Some(close_to_departure),
                Some(available),
                Some(id),
                Some(max_stay),
            ) => Some(
                RatePlanDateV {
                    id,
                    date,
                    rate,
                    min_stay,
                    stop_online_sell,
                    close_to_arrival,
                    close_to_departure,
                    max_stay,
                    available,
                },
            ),
            _ => None,
        },
        _ => None,
    }
}

pub fn decode_date(j: &Json) -> (r: Option<RatePlanDate>)
    ensures
        match r {
            Some(d) => spec_decode_date(*j) == Some(d@),
            None => spec_decode_date(*j) is None,
        },
{
    match j {
        Json::Obj(fields) => match (
            req_str(fields, "date"),
            req_u16(fields, "rate"),
            req_u8(fields, "min_stay"),
            req_bool(fields, "stop_online_sell"),
            req_bool(fields, "close_to_arrival"),
            req_bool(fields, "close_to_departure"),
            req_u8(fields, "available"),
            opt_u32(fields, "id"),
            opt_u8(fields, "max_stay"),
        ) {
            (
                Some(date),
                Some(rate),
                Some(min_stay),
                Some(stop_online_sell),
                Some(close_to_arrival),
                Some(close_to_departure),
                Some(available),
                Some(id),
                Some(max_stay),
            ) => Some(
                RatePlanDate {
                    id,
                    date,
                    rate,
                    min_stay,
                    stop_online_sell,
                    close_to_arrival,
                    close_to_departure,
                    max_stay,
                    available,
                },
            ),
            _ => None,
        },
        _ => None,
    }
}

/// Decodes a `rate_plan_dates` array.
pub open spec fn spec_decode_dates(j: Json) -> Option<Seq<RatePlanDateV>> {
    match j {
        Json::Arr(a) => spec_decode_dates_seq(a@),
        _ => None,
    }
}

pub fn decode_dates(j: &Json) -> (r: Option<Vec<RatePlanDate>>)
    ensures
        match r {
            Some(v) => spec_decode_dates(*j) == Some(v.deep_view()),
            None => spec_decode_dates(*j) is None,
        },
{
    match j {
        Json::Arr(a) => {
            let n = a.len();
            let mut out: Vec<RatePlanDate> = Vec::new();
            let mut i: usize = 0;
            proof {
                assert(a@.subrange(0, 0) =~= Seq::<Json>::empty());
                assert(out.deep_view() =~= Seq::<RatePlanDateV>::empty());
            }
            while i < n
                invariant
                    i <= n,
                    n == a@.len(),
                    spec_decode_dates(*j) == spec_decode_dates_seq(a@),
                    spec_decode_dates_seq(a@.subrange(0, i as int)) == Some(out.deep_view()),
                decreases n - i,
            {
                match decode_date(&a[i]) {
                    Some(d) => {
                        let ghost pre = out.deep_view();
                        let ghost xv = d@;
                        out.push(d);
                        proof {
                            assert(spec_decode_date(a@[i as int]) == Some(xv));
                            assert(a@.subrange(0, i + 1 as int).drop_last() =~= a@.subrange(
                                0,
                                i as int,
                            ));
                            assert(a@.subrange(0, i + 1 as int).last() == a@[i as int]);
                            assert(out.deep_view() =~= pre.push(xv));
                        }
                    },
                    None => {
                        proof {
                            assert(spec_decode_date(a@[i as int]) is None);
                            lemma_decode_dates_seq_props(a@);
                            assert(spec_decode_dates_seq(a@) is None);
                        }
                        return None;
                    },
                }
                i += 1;
            }
            proof {
                assert(a@.subrange(0, n as int) =~= a@);
            }
            Some(out)
        },
        _ => None,
    }
}

/// Decodes one rate plan.
pub open spec fn spec_decode_plan(j: Json) -> Option<RatePlanV> {
    match j {
        Json::Obj(fields) => match (
            spec_req_u32(fields@, "id"@),
            spec_req_str(fields@, "name"@),
            match spec_lookup(fields@, "rate_plan_dates"@) {
                Some(d) => spec_decode_dates(d),
                None => None,
            },
        ) {
            (Some(id), Some(name), Some(rate_plan_dates)) => Some(
                RatePlanV { id, name, rate_plan_dates },
            ),
            _ => None,
        },
        _ => None,
    }
}

pub fn decode_plan(j: &Json) -> (r: Option<RatePlan>)
    ensures
        match r {
            Some(p) => spec_decode_plan(*j) == Some(p@),
            None => spec_decode_plan(*j) is None,
        },
{
    match j {
        Json::Obj(fields) => {
            let dates = match get_field(fields, "rate_plan_dates") {
                Some(d) => decode_dates(d),
                None => None,
            };
            match (req_u32(fields, "id"), req_str(fields, "name"), dates) {
                (Some(id), Some(name), Some(rate_plan_dates)) => Some(
                    RatePlan { id, name, rate_plan_dates },
                ),
                _ => None,
            }
        },
        _ => None,
    }
}

/// Decodes one property's rates.
pub open spec fn spec_decode_property(j: Json) -> Option<LittleHotelierRatesV> {
    match j {
        Json::Obj(fields) => match (
            spec_req_str(fields@, "name"@),
            match spec_lookup(fields@, "rate_plans"@) {
                Some(p) => spec_decode_plans(p),
                None => None,
            },
        ) {
            (Some(name), Some(rate_plans)) => Some(LittleHotelierRatesV { name, rate_plans }),
            _ => None,
        },
        _ => None,
    }
}

fn decode_plans(j: &Json) -> (r: Option<Vec<RatePlan>>)
    ensures
        match r {
            Some(v) => spec_decode_plans(*j) == Some(v.deep_view()),
            None => spec_decode_plans(*j) is None,
        },
{
    match j {
        Json::Arr(a) => {
            let n = a.len();
            let mut out: Vec<RatePlan> = Vec::new();
            let mut i: usize = 0;
            proof {
                assert(a@.subrange(0, 0) =~= Seq::<Json>::empty());
                assert(out.deep_view() =~= Seq::<RatePlanV>::empty());
            }
            while i < n
                invariant
                    i <= n,
                    n == a@.len(),
                    spec_decode_plans(*j) == spec_decode_plans_seq(a@),
                    spec_decode_plans_seq(a@.subrange(0, i as int)) == Some(out.deep_view()),
                decreases n - i,
            {
                match decode_plan(&a[i]) {
                    Some(p) => {
                        let ghost pre = out.deep_view();
                        let ghost xv = p@;
                        out.push(p);
                        proof {
                            assert(spec_decode_plan(a@[i as int]) == Some(xv));
                            assert(a@.subrange(0, i + 1 as int).drop_last() =~= a@.subrange(
                                0,
                                i as int,
                            ));
                            assert(a@.subrange(0, i + 1 as int).last() == a@[i as int]);
                            assert(out.deep_view() =~= pre.push(xv));
                        }
                    },
                    None => {
                        proof {
                            assert(spec_decode_plan(a@[i as int]) is None);
                            lemma_decode_plans_seq_props(a@);
                            assert(spec_decode_plans_seq(a@) is None);
                        }
                        return None;
                    },
                }
                i += 1;
            }
            proof {
                assert(a@.subrange(0, n as int) =~= a@);
            }
            Some(out)
        },
        _ => None,
    }
}

/// The rate-plan list a property object carries, decoded.
pub open spec fn spec_decode_plans(j: Json) -> Option<Seq<RatePlanV>> {
    match j {
        Json::Arr(a) => spec_decode_plans_seq(a@),
        _ => None,
    }
}

pub fn decode_property(j: &Json) -> (r: Option<LittleHotelierRates>)
    ensures
        match r {
            Some(h) => spec_decode_property(*j) == Some(h@),
            None => spec_decode_property(*j) is None,
        },
{
    match j {
        Json::Obj(fields) => {
            let plans = match get_field(fields, "rate_plans") {
                Some(p) => decode_plans(p),
                None => None,
            };
            match (req_str(fields, "name"), plans) {
                (Some(name), Some(rate_plans)) => Some(LittleHotelierRates { name, rate_plans }),
                _ => None,
            }
        },
        _ => None,
    }
}

/// Decodes the top-level upstream body: a JSON array of properties.
pub open spec fn spec_decode_properties(j: Json) -> Option<Seq<LittleHotelierRatesV>> {
    match j {
        Json::Arr(a) => spec_decode_properties_seq(a@),
        _ => None,
    }
}

pub fn decode_properties(j: &Json) -> (r: Option<Vec<LittleHotelierRates>>)
    ensures
        match r {
            Some(v) => spec_decode_properties(*j) == Some(v.deep_view()),
            None => spec_decode_properties(*j) is None,
        },
{
    match j {
        Json::Arr(a) => {
            let n = a.len();
            let mut out: Vec<LittleHotelierRates> = Vec::new();
            let mut i: usize = 0;
            proof {
                assert(a@.subrange(0, 0) =~= Seq::<Json>::empty());
                assert(out.deep_view() =~= Seq::<LittleHotelierRatesV>::empty());
            }
            while i < n
                invariant
                    i <= n,
                    n == a@.len(),
                    spec_decode_properties(*j) == spec_decode_properties_seq(a@),
                    spec_decode_properties_seq(a@.subrange(0, i as int)) == Some(out.deep_view()),
                decreases n - i,
            {
                match decode_property(&a[i]) {
                    Some(h) => {
                        let ghost pre = out.deep_view();
                        let ghost xv = h@;
                        out.push(h);
                        proof {
                            assert(spec_decode_property(a@[i as int]) == Some(xv));
                            assert(a@.subrange(0, i + 1 as int).drop_last() =~= a@.subrange(
                                0,
                                i as int,
                            ));
                            assert(a@.subrange(0, i + 1 as int).last() == a@[i as int]);
                            assert(out.deep_view() =~= pre.push(xv));
                        }
                    },
                    None => {
                        proof {
                            assert(spec_decode_property(a@[i as int]) is None);
                            lemma_decode_properties_seq_props(a@);
                            assert(spec_decode_properties_seq(a@) is None);
                        }
                        return None;
                    },
                }
                i += 1;
            }
            proof {
                assert(a@.subrange(0, n as int) =~= a@);
            }
            Some(out)
        },
        _ => None,
    }
}

} // verus!
