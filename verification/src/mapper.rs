use vstd::prelude::*;

verus! {

use crate::schema::{
    LittleHotelierRates, LittleHotelierRatesV, LodgeRate, LodgeRateV, LodgeRates, RatePlan,
    RatePlanV, RatesError,
};

/// The projection of one rate plan: its name beside its first date
/// entry's rate and availability; nothing when it has no date entries.
pub open spec fn spec_map_plan(p: RatePlanV) -> Option<LodgeRateV> {
    if p.rate_plan_dates.len() == 0 {
        None
    } else {
        Some(
            LodgeRateV {
                accommodation_type: p.name,
                rate: p.rate_plan_dates[0].rate,
                num_available: p.rate_plan_dates[0].available,
            },
        )
    }
}

/// The projection of a whole plan sequence, in order, failing when any
/// plan has no date entries.
pub open spec fn spec_map_plans_seq(a: Seq<RatePlanV>) -> Option<Seq<LodgeRateV>>
    decreases a.len(),
{
    if a.len() == 0 {
        Some(Seq::empty())
    } else {
        match (spec_map_plans_seq(a.drop_last()), spec_map_plan(a.last())) {
            (Some(rest), Some(x)) => Some(rest.push(x)),
            _ => None,
        }
    }
}

/// `spec_map_plans_seq` succeeds exactly when every plan projects, and
/// then projects the plans one for one, in order.
pub proof fn lemma_map_plans_seq_props(a: Seq<RatePlanV>)
    ensures
        (spec_map_plans_seq(a) is Some) <==> (forall|i: int|
            0 <= i < a.len() ==> spec_map_plan(#[trigger] a[i]) is Some),
        spec_map_plans_seq(a) matches Some(b) ==> b.len() == a.len() && forall|i: int|
            0 <= i < a.len() ==> Some(b[i]) == spec_map_plan(#[trigger] a[i]),
    decreases a.len(),
{
    if a.len() > 0 {
        lemma_map_plans_seq_props(a.drop_last());
        assert(forall|i: int| 0 <= i < a.len() - 1 ==> a.drop_last()[i] == a[i]);
    }
}

/// What mapping a whole upstream property returns: one entry per rate
/// plan, or the mapping fault.
pub open spec fn spec_map_rates(h: LittleHotelierRatesV) -> Result<Seq<LodgeRateV>, RatesError> {
    match spec_map_plans_seq(h.rate_plans) {
        Some(rs) => Ok(rs),
        None => Err(RatesError::MappingFault),
    }
}

/// Projects one rate plan into a `LodgeRate` from its first date entry;
/// a plan with no date entries is a fault, never skipped or defaulted.
pub fn map_rate_plan_to_lodge_rate(rate_plan: &RatePlan) -> (r: Result<LodgeRate, RatesError>)
    ensures
        match r {
            Ok(lr) => spec_map_plan(rate_plan@) == Some(lr@),
            Err(e) => spec_map_plan(rate_plan@) is None && e == RatesError::MappingFault,
        },
{
    if rate_plan.rate_plan_dates.len() == 0 {
        Err(RatesError::MappingFault)
    } else {
        let d = &rate_plan.rate_plan_dates[0];
        Ok(
            LodgeRate {
                accommodation_type: rate_plan.name.clone(),
                rate: d.rate,
                num_available: d.available,
            },
        )
    }
}

/// Projects every rate plan of `little_hotelier_rates`, in their
/// original order; faults when any plan has no date entries.
pub fn map_rates(little_hotelier_rates: &LittleHotelierRates) -> (r: Result<
    LodgeRates,
    RatesError,
>)
    ensures
        match r {
            Ok(lr) => spec_map_rates(little_hotelier_rates@) == Ok::<
                Seq<LodgeRateV>,
                RatesError,
            >(lr@),
            Err(e) => spec_map_rates(little_hotelier_rates@) == Err::<
                Seq<LodgeRateV>,
                RatesError,
            >(e),
        },
{
    let ghost plans = little_hotelier_rates@.rate_plans;
    let n = little_hotelier_rates.rate_plans.len();
    let mut out: Vec<LodgeRate> = Vec::new();
    let mut i: usize = 0;
    proof {
        assert(plans.subrange(0, 0) =~= Seq::<RatePlanV>::empty());
        assert(out.deep_view() =~= Seq::<LodgeRateV>::empty());
    }
    while i < n
        invariant
            i <= n,
            n == plans.len(),
            plans == little_hotelier_rates@.rate_plans,
            n == little_hotelier_rates.rate_plans@.len(),
            forall|k: int|
                0 <= k < n ==> plans[k] == #[trigger] little_hotelier_rates.rate_plans@[k]@,
            spec_map_plans_seq(plans.subrange(0, i as int)) == Some(out.deep_view()),
        decreases n - i,
    {
        match map_rate_plan_to_lodge_rate(&little_hotelier_rates.rate_plans[i]) {
            Ok(lr) => {
                let ghost pre = out.deep_view();
                let ghost xv = lr@;
                out.push(lr);
                proof {
                    assert(spec_map_plan(plans[i as int]) == Some(xv));
                    assert(plans.subrange(0, i + 1 as int).drop_last() =~= plans.subrange(
                        0,
                        i as int,
                    ));
                    assert(plans.subrange(0, i + 1 as int).last() == plans[i as int]);
                    assert(out.deep_view() =~= pre.push(xv));
                }
            },
            Err(e) => {
                proof {
                    assert(spec_map_plan(plans[i as int]) is None);
                    lemma_map_plans_seq_props(plans);
                    assert(spec_map_plans_seq(plans) is None);
                }
                return Err(e);
            },
        }
        i += 1;
    }
    proof {
        assert(plans.subrange(0, n as int) =~= plans);
    }
    Ok(LodgeRates { rates: out })
}

/// Mapping is deterministic and order-preserving: with every plan
/// carrying at least one date entry, it yields exactly one entry per
/// plan, in the plans' order, each holding the plan's name and its first
/// date entry's rate and availability.
pub proof fn lemma_map_rates_order(h: LittleHotelierRatesV)
    requires
        forall|i: int|
            0 <= i < h.rate_plans.len() ==> #[trigger] h.rate_plans[i].rate_plan_dates.len() > 0,
    ensures
        spec_map_rates(h) matches Ok(rs) && rs.len() == h.rate_plans.len() && (forall|i: int|
            0 <= i < h.rate_plans.len() ==> #[trigger] rs[i] == LodgeRateV {
                accommodation_type: h.rate_plans[i].name,
                rate: h.rate_plans[i].rate_plan_dates[0].rate,
                num_available: h.rate_plans[i].rate_plan_dates[0].available,
            }),
{
    lemma_map_plans_seq_props(h.rate_plans);
}

/// Mapping faults exactly when some rate plan has no date entries; it
/// never substitutes a default and never skips the plan.
pub proof fn lemma_map_rates_fault(h: LittleHotelierRatesV)
    ensures
        (spec_map_rates(h) == Err::<Seq<LodgeRateV>, RatesError>(RatesError::MappingFault)) <==> (
        exists|i: int|
            0 <= i < h.rate_plans.len() && #[trigger] h.rate_plans[i].rate_plan_dates.len() == 0),
{
    lemma_map_plans_seq_props(h.rate_plans);
    if exists|i: int|
        0 <= i < h.rate_plans.len() && #[trigger] h.rate_plans[i].rate_plan_dates.len() == 0 {
        let i = choose|i: int|
            0 <= i < h.rate_plans.len() && #[trigger] h.rate_plans[i].rate_plan_dates.len() == 0;
        assert(spec_map_plan(h.rate_plans[i]) is None);
    }
}

} // verus!
