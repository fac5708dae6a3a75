use lodge_rates::date::{date_prefix, today};
use lodge_rates::encode::lodge_rates_body;
use lodge_rates::hello::{effective_name, greet, hello_reply};
use lodge_rates::mapper::{map_rate_plan_to_lodge_rate, map_rates};
use lodge_rates::schema::{
    LittleHotelierRates, LodgeRate, LodgeRates, RatePlan, RatePlanDate, RatesError,
};
use lodge_rates::upstream::{
    base_url, build_rates_url, error_status, is_success_status, parse_upstream_body,
    process_response, rates_reply, select_first_property,
};

fn sample_date(rate: u16, available: u8) -> RatePlanDate {
    RatePlanDate {
        id: Some(1),
        date: "2024-01-01".to_string(),
        rate,
        min_stay: 1,
        stop_online_sell: false,
        close_to_arrival: false,
        close_to_departure: false,
        max_stay: None,
        available,
    }
}

#[test]
fn today_is_a_ten_character_date() {
    let d = today();
    let chars: Vec<char> = d.chars().collect();
    assert_eq!(chars.len(), 10);
    assert!(!d.contains('T'));
    for (i, c) in chars.iter().enumerate() {
        if i == 4 || i == 7 {
            assert_eq!(*c, '-');
        } else {
            assert!(c.is_ascii_digit());
        }
    }
}

#[test]
fn date_prefix_truncates_at_first_t() {
    assert_eq!(date_prefix("2024-01-01T10:30:00+00:00"), "2024-01-01");
    assert_eq!(date_prefix("aTbTc"), "a");
    assert_eq!(date_prefix("T"), "");
}

#[test]
fn date_prefix_without_separator_is_empty() {
    assert_eq!(date_prefix("2024-01-01"), "");
    assert_eq!(date_prefix(""), "");
}

#[test]
fn rates_url_carries_both_query_dates() {
    assert_eq!(
        build_rates_url("2024-01-01"),
        format!(
            "{}?start_date=2024-01-01&end_date=2024-01-01",
            base_url()
        )
    );
}

#[test]
fn hello_defaults_to_world() {
    assert_eq!(hello_reply(None), "Hello, world!");
    assert_eq!(hello_reply(Some(String::new())), "Hello, world!");
    assert_eq!(effective_name(None), "world");
}

#[test]
fn hello_greets_by_name() {
    assert_eq!(hello_reply(Some("Kaka".to_string())), "Hello, Kaka!");
    assert_eq!(greet("Kaka"), "Hello, Kaka!");
}

#[test]
fn mapping_keeps_order_and_projects_first_date() {
    let upstream = LittleHotelierRates {
        name: "Lodge".to_string(),
        rate_plans: vec![
            RatePlan {
                id: 1,
                name: "Standard".to_string(),
                rate_plan_dates: vec![sample_date(150, 3), sample_date(175, 1)],
            },
            RatePlan {
                id: 2,
                name: "Deluxe".to_string(),
                rate_plan_dates: vec![sample_date(220, 2)],
            },
        ],
    };
    let mapped = map_rates(&upstream).unwrap();
    assert_eq!(mapped.rates.len(), 2);
    assert_eq!(mapped.rates[0].accommodation_type, "Standard");
    assert_eq!(mapped.rates[0].rate, 150);
    assert_eq!(mapped.rates[0].num_available, 3);
    assert_eq!(mapped.rates[1].accommodation_type, "Deluxe");
    assert_eq!(mapped.rates[1].rate, 220);
    assert_eq!(mapped.rates[1].num_available, 2);
}

#[test]
fn mapping_faults_on_a_plan_without_dates() {
    let upstream = LittleHotelierRates {
        name: "Lodge".to_string(),
        rate_plans: vec![
            RatePlan {
                id: 1,
                name: "Standard".to_string(),
                rate_plan_dates: vec![sample_date(150, 3)],
            },
            RatePlan {
                id: 2,
                name: "Empty".to_string(),
                rate_plan_dates: vec![],
            },
        ],
    };
    assert_eq!(map_rates(&upstream).unwrap_err(), RatesError::MappingFault);
    let plan = RatePlan {
        id: 3,
        name: "Bare".to_string(),
        rate_plan_dates: vec![],
    };
    assert_eq!(
        map_rate_plan_to_lodge_rate(&plan).unwrap_err(),
        RatesError::MappingFault
    );
}

const SCENARIO_BODY: &str = "[{\"name\":\"Lodge\",\"rate_plans\":[{\"id\":1,\"name\":\"Standard\",\"rate_plan_dates\":[{\"id\":1,\"date\":\"2024-01-01\",\"rate\":150,\"min_stay\":1,\"stop_online_sell\":false,\"close_to_arrival\":false,\"close_to_departure\":false,\"max_stay\":null,\"available\":3}]}]}]";

#[test]
fn scenario_one_full_pipeline_succeeds() {
    let lr = process_response(200, SCENARIO_BODY).unwrap();
    assert_eq!(
        lodge_rates_body(&lr),
        "{\"rates\":[{\"accommodation_type\":\"Standard\",\"rate\":150,\"num_available\":3}]}"
    );
    let (status, body) = rates_reply(200, SCENARIO_BODY);
    assert_eq!(status, 200);
    assert_eq!(
        body,
        "{\"rates\":[{\"accommodation_type\":\"Standard\",\"rate\":150,\"num_available\":3}]}"
    );
}

#[test]
fn scenario_two_empty_upstream_is_a_server_error() {
    assert_eq!(
        process_response(200, "[]").unwrap_err(),
        RatesError::UpstreamEmpty
    );
    let (status, body) = rates_reply(200, "[]");
    assert!((500..600).contains(&status));
    assert!(body.is_empty());
}

#[test]
fn failures_are_distinct_by_cause() {
    assert_eq!(
        process_response(503, SCENARIO_BODY).unwrap_err(),
        RatesError::UpstreamTransport
    );
    assert_eq!(
        process_response(200, "not json at all").unwrap_err(),
        RatesError::UpstreamSchema
    );
    assert_eq!(
        process_response(200, "{\"name\":\"Lodge\"}").unwrap_err(),
        RatesError::UpstreamSchema
    );
    assert_eq!(
        process_response(200, "[]").unwrap_err(),
        RatesError::UpstreamEmpty
    );
}

#[test]
fn fetch_returns_the_first_property() {
    let parsed = parse_upstream_body(SCENARIO_BODY).unwrap();
    assert_eq!(parsed.len(), 1);
    let first = select_first_property(parsed).unwrap();
    assert_eq!(first.name, "Lodge");
    assert_eq!(first.rate_plans.len(), 1);
    assert_eq!(first.rate_plans[0].name, "Standard");
    assert_eq!(first.rate_plans[0].rate_plan_dates[0].rate, 150);
    assert_eq!(first.rate_plans[0].rate_plan_dates[0].available, 3);
    assert_eq!(first.rate_plans[0].rate_plan_dates[0].max_stay, None);
}

#[test]
fn empty_property_list_is_a_fault_not_a_result() {
    assert_eq!(
        select_first_property(Vec::new()).unwrap_err(),
        RatesError::UpstreamEmpty
    );
}

#[test]
fn schema_mismatch_is_rejected() {
    // rate above the 16-bit range
    let body = "[{\"name\":\"L\",\"rate_plans\":[{\"id\":1,\"name\":\"S\",\"rate_plan_dates\":[{\"date\":\"2024-01-01\",\"rate\":70000,\"min_stay\":1,\"stop_online_sell\":false,\"close_to_arrival\":false,\"close_to_departure\":false,\"available\":3}]}]}]";
    assert_eq!(
        parse_upstream_body(body).unwrap_err(),
        RatesError::UpstreamSchema
    );
    // a required field missing
    let body = "[{\"name\":\"L\",\"rate_plans\":[{\"id\":1,\"name\":\"S\",\"rate_plan_dates\":[{\"date\":\"2024-01-01\",\"min_stay\":1,\"stop_online_sell\":false,\"close_to_arrival\":false,\"close_to_departure\":false,\"available\":3}]}]}]";
    assert_eq!(
        parse_upstream_body(body).unwrap_err(),
        RatesError::UpstreamSchema
    );
    // a field of the wrong type
    let body = "[{\"name\":\"L\",\"rate_plans\":[{\"id\":1,\"name\":\"S\",\"rate_plan_dates\":[{\"date\":\"2024-01-01\",\"rate\":\"150\",\"min_stay\":1,\"stop_online_sell\":false,\"close_to_arrival\":false,\"close_to_departure\":false,\"available\":3}]}]}]";
    assert_eq!(
        parse_upstream_body(body).unwrap_err(),
        RatesError::UpstreamSchema
    );
}

#[test]
fn unknown_fields_are_ignored_and_optionals_default() {
    let body = "[{\"name\":\"L\",\"extra\":42,\"rate_plans\":[{\"id\":1,\"name\":\"S\",\"surprise\":[1.5,-2],\"rate_plan_dates\":[{\"date\":\"2024-01-01\",\"rate\":10,\"min_stay\":1,\"stop_online_sell\":true,\"close_to_arrival\":false,\"close_to_departure\":true,\"available\":9}]}]}]";
    let parsed = parse_upstream_body(body).unwrap();
    let plan = &parsed[0].rate_plans[0];
    let date = &plan.rate_plan_dates[0];
    assert_eq!(date.id, None);
    assert_eq!(date.max_stay, None);
    assert_eq!(date.rate, 10);
    assert!(date.stop_online_sell);
    assert!(date.close_to_departure);
    assert!(!date.close_to_arrival);
}

#[test]
fn body_escapes_like_serde_json() {
    let lr = LodgeRates {
        rates: vec![LodgeRate {
            accommodation_type: "A\"B\\C\nD\x1f".to_string(),
            rate: 0,
            num_available: 255,
        }],
    };
    assert_eq!(
        lodge_rates_body(&lr),
        "{\"rates\":[{\"accommodation_type\":\"A\\\"B\\\\C\\nD\\u001f\",\"rate\":0,\"num_available\":255}]}"
    );
    let expected = serde_json::to_string(&serde_json::Value::String(
        "A\"B\\C\nD\x1f".to_string(),
    ))
    .unwrap();
    assert!(lodge_rates_body(&lr).contains(&expected[1..expected.len() - 1]));
}

#[test]
fn empty_payload_renders_an_empty_list() {
    let lr = LodgeRates { rates: Vec::new() };
    assert_eq!(lodge_rates_body(&lr), "{\"rates\":[]}");
}

#[test]
fn error_statuses_are_server_class() {
    assert_eq!(error_status(RatesError::UpstreamTransport), 502);
    assert_eq!(error_status(RatesError::UpstreamSchema), 502);
    assert_eq!(error_status(RatesError::UpstreamEmpty), 502);
    assert_eq!(error_status(RatesError::MappingFault), 500);
    assert!(is_success_status(200));
    assert!(is_success_status(299));
    assert!(!is_success_status(199));
    assert!(!is_success_status(300));
    assert!(!is_success_status(404));
}
