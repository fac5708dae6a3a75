use vstd::prelude::*;

verus! {

/// One calendar date's pricing entry inside a rate plan, as the
/// upstream property-management API reports it.
#[derive(Debug)]
pub struct RatePlanDate {
    pub id: Option<u32>,
    pub date: String,
    pub rate: u16,
    pub min_stay: u8,
    pub stop_online_sell: bool,
    pub close_to_arrival: bool,
    pub close_to_departure: bool,
    pub max_stay: Option<u8>,
    pub available: u8,
}

/// Mathematical model of a `RatePlanDate`.
pub ghost struct RatePlanDateV {
    pub id: Option<u32>,
    pub date: Seq<char>,
    pub rate: u16,
    pub min_stay: u8,
    pub stop_online_sell: bool,
    pub close_to_arrival: bool,
    pub close_to_departure: bool,
    pub max_stay: Option<u8>,
    pub available: u8,
}

impl View for RatePlanDate {
    type V = RatePlanDateV;

    open spec fn view(&self) -> RatePlanDateV {
        RatePlanDateV {
            id: self.id,
            date: self.date@,
            rate: self.rate,
            min_stay: self.min_stay,
            stop_online_sell: self.stop_online_sell,
            close_to_arrival: self.close_to_arrival,
            close_to_departure: self.close_to_departure,
            max_stay: self.max_stay,
            available: self.available,
        }
    }
}

impl DeepView for RatePlanDate {
    type V = RatePlanDateV;

    open spec fn deep_view(&self) -> RatePlanDateV {
        self.view()
    }
}

/// A priced accommodation offering, with one pricing entry per calendar
/// date it is sold for.
#[derive(Debug)]
pub struct RatePlan {
    pub id: u32,
    pub name: String,
    pub rate_plan_dates: Vec<RatePlanDate>,
}

/// Mathematical model of a `RatePlan`.
pub ghost struct RatePlanV {
    pub id: u32,
    pub name: Seq<char>,
    pub rate_plan_dates: Seq<RatePlanDateV>,
}

impl View for RatePlan {
    type V = RatePlanV;

    open spec fn view(&self) -> RatePlanV {
        RatePlanV {
            id: self.id,
            name: self.name@,
            rate_plan_dates: self.rate_plan_dates.deep_view(),
        }
    }
}

impl DeepView for RatePlan {
    type V = RatePlanV;

    open spec fn deep_view(&self) -> RatePlanV {
        self.view()
    }
}

/// One property's rates, as the upstream API reports them.
#[derive(Debug)]
pub struct LittleHotelierRates {
    pub name: String,
    pub rate_plans: Vec<RatePlan>,
}

/// Mathematical model of a `LittleHotelierRates`.
pub ghost struct LittleHotelierRatesV {
    pub name: Seq<char>,
    pub rate_plans: Seq<RatePlanV>,
}

impl View for LittleHotelierRates {
    type V = LittleHotelierRatesV;

    open spec fn view(&self) -> LittleHotelierRatesV {
        LittleHotelierRatesV { name: self.name@, rate_plans: self.rate_plans.deep_view() }
    }
}

impl DeepView for LittleHotelierRates {
    type V = LittleHotelierRatesV;

    open spec fn deep_view(&self) -> LittleHotelierRatesV {
        self.view()
    }
}

/// This service's simplified, per-accommodation-type pricing projection.
#[derive(Debug)]
pub struct LodgeRate {
    pub accommodation_type: String,
    pub rate: u16,
    pub num_available: u8,
}

/// Mathematical model of a `LodgeRate`.
pub ghost struct LodgeRateV {
    pub accommodation_type: Seq<char>,
    pub rate: u16,
    pub num_available: u8,
}

impl View for LodgeRate {
    type V = LodgeRateV;

    open spec fn view(&self) -> LodgeRateV {
        LodgeRateV {
            accommodation_type: self.accommodation_type@,
            rate: self.rate,
            num_available: self.num_available,
        }
    }
}

impl DeepView for LodgeRate {
    type V = LodgeRateV;

    open spec fn deep_view(&self) -> LodgeRateV {
        self.view()
    }
}

/// The rates payload this service returns to its clients.
#[derive(Debug)]
pub struct LodgeRates {
    pub rates: Vec<LodgeRate>,
}

impl View for LodgeRates {
    type V = Seq<LodgeRateV>;

    open spec fn view(&self) -> Seq<LodgeRateV> {
        self.rates.deep_view()
    }
}

/// Why a rates request failed.
#[derive(Clone, Copy, Debug, PartialEq, Eq, Structural)]
pub enum RatesError {
    /// Network failure, or a non-success HTTP status from the upstream.
    UpstreamTransport,
    /// The upstream body is not JSON of the expected shape.
    UpstreamSchema,
    /// The upstream returned zero property entries where one was owed.
    UpstreamEmpty,
    /// A rate plan carried no date entries.
    MappingFault,
}

} // verus!
