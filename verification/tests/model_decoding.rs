//! Decoding the tagged response model from JSON bodies.

use amber_api::decode::{
    channel_type_of, decode_advanced_price, decode_channel, decode_prices, decode_range,
    decode_renewable, decode_renewables, decode_site, decode_sites, decode_usage,
    site_status_of, usage_quality_of,
};
use amber_api::error::AmberError;
use amber_api::json::{parse_json, JsonValue};
use amber_api::models::{
    ChannelType, PriceDescriptor, Renewable, RenewableDescriptor, SiteStatus, SpikeStatus,
    UsageQuality,
};

const RENEWABLE_JSON_BODY: &str = r#"{
    "duration": 5,
    "date": "2021-05-05",
    "nemTime": "2021-05-06T12:30:00+10:00",
    "startTime": "2021-05-05T02:00:01Z",
    "endTime": "2021-05-05T02:30:00Z",
    "renewables": 45,
    "descriptor": "best"
}"#;

fn renewable_json(tag: &str) -> String {
    let mut body = String::from("{\n    \"type\": \"");
    body.push_str(tag);
    body.push_str("\",");
    body.push_str(&RENEWABLE_JSON_BODY[1..]);
    body
}

fn parse_renewable(tag: &str) -> Renewable {
    let v = parse_json(&renewable_json(tag)).expect("valid JSON");
    decode_renewable(&v).expect("valid renewable")
}

#[test]
fn actual_renewable_deserialisation_strict() {
    let renewable = parse_renewable("ActualRenewable");
    let actual = match renewable {
        Renewable::ActualRenewable(a) => a,
        _ => panic!("Expected ActualRenewable variant"),
    };
    assert_eq!(actual.base.duration, 5);
    assert_eq!(actual.base.date.render(), "2021-05-05");
    assert!(
        44_000_000_000 < actual.base.renewables.units
            && actual.base.renewables.units < 46_000_000_000
    );
    assert_eq!(actual.base.descriptor, RenewableDescriptor::Best);
}

#[test]
fn actual_renewable_deserialisation() {
    let renewable = parse_renewable("ActualRenewable");
    if let Renewable::ActualRenewable(actual) = renewable {
        assert_eq!(actual.base.duration, 5);
        assert_eq!(actual.base.date.render(), "2021-05-05");
        assert!(
            44_000_000_000 < actual.base.renewables.units
                && actual.base.renewables.units < 46_000_000_000
        );
        assert_eq!(actual.base.descriptor, RenewableDescriptor::Best);
    } else {
        panic!("Expected ActualRenewable variant");
    }
}

#[test]
fn current_renewable_deserialisation_strict() {
    let renewable = parse_renewable("CurrentRenewable");
    let current = match renewable {
        Renewable::CurrentRenewable(c) => c,
        _ => panic!("Expected CurrentRenewable variant"),
    };
    assert_eq!(current.base.duration, 5);
    assert_eq!(current.base.date.render(), "2021-05-05");
    assert!(
        44_000_000_000 < current.base.renewables.units
            && current.base.renewables.units < 46_000_000_000
    );
    assert_eq!(current.base.descriptor, RenewableDescriptor::Best);
}

#[test]
fn current_renewable_deserialisation() {
    let renewable = parse_renewable("CurrentRenewable");
    if let Renewable::CurrentRenewable(current) = renewable {
        assert_eq!(current.base.duration, 5);
        assert_eq!(current.base.date.render(), "2021-05-05");
        assert!(
            44_000_000_000 < current.base.renewables.units
                && current.base.renewables.units < 46_000_000_000
        );
        assert_eq!(current.base.descriptor, RenewableDescriptor::Best);
    } else {
        panic!("Expected CurrentRenewable variant");
    }
}

#[test]
fn forecast_renewable_deserialisation_strict() {
    let renewable = parse_renewable("ForecastRenewable");
    let forecast = match renewable {
        Renewable::ForecastRenewable(f) => f,
        _ => panic!("Expected ForecastRenewable variant"),
    };
    assert_eq!(forecast.base.duration, 5);
    assert_eq!(forecast.base.date.render(), "2021-05-05");
    assert!(
        44_000_000_000 < forecast.base.renewables.units
            && forecast.base.renewables.units < 46_000_000_000
    );
    assert_eq!(forecast.base.descriptor, RenewableDescriptor::Best);
}

#[test]
fn forecast_renewable_deserialisation() {
    let renewable = parse_renewable("ForecastRenewable");
    if let Renewable::ForecastRenewable(forecast) = renewable {
        assert_eq!(forecast.base.duration, 5);
        assert_eq!(forecast.base.date.render(), "2021-05-05");
        assert!(
            44_000_000_000 < forecast.base.renewables.units
                && forecast.base.renewables.units < 46_000_000_000
        );
        assert_eq!(forecast.base.descriptor, RenewableDescriptor::Best);
    } else {
        panic!("Expected ForecastRenewable variant");
    }
}

#[test]
fn site_deserialisation() {
    let json = r#"[
        {
            "id": "01F5A5CRKMZ5BCX9P1S4V990AM",
            "nmi": "3052282872",
            "channels": [
                {
                    "identifier": "E1",
                    "type": "general",
                    "tariff": "A100"
                }
            ],
            "network": "Jemena",
            "status": "closed",
            "activeFrom": "2022-01-01",
            "closedOn": "2022-05-01",
            "intervalLength": 30
        }
    ]"#;

    let sites = decode_sites(json).expect("valid sites body");
    assert_eq!(sites.len(), 1);

    let site = sites.first().expect("Expected at least one site");
    assert_eq!(site.id, "01F5A5CRKMZ5BCX9P1S4V990AM");
    assert_eq!(site.nmi, "3052282872");
    assert_eq!(site.channels.len(), 1);

    let channel = site.channels.first().expect("Expected at least one channel");
    assert_eq!(channel.identifier, "E1");
    assert_eq!(channel.channel_type, ChannelType::General);
    assert_eq!(channel.tariff, "A100");

    assert_eq!(site.network, "Jemena");
    assert_eq!(site.status, SiteStatus::Closed);
    assert_eq!(
        site.active_from.expect("Expected active_from date").render(),
        "2022-01-01"
    );
    assert_eq!(site.closed_on.expect("Expected closed_on date").render(), "2022-05-01");
    assert_eq!(site.interval_length, 30);
}

const PRICES_JSON: &str = r#"[
    {
        "type": "ActualInterval",
        "duration": 5,
        "spotPerKwh": 6.12,
        "perKwh": 24.33,
        "date": "2021-05-05",
        "nemTime": "2021-05-06T12:30:00+10:00",
        "startTime": "2021-05-05T02:00:01Z",
        "endTime": "2021-05-05T02:30:00Z",
        "renewables": 45,
        "channelType": "general",
        "tariffInformation": null,
        "spikeStatus": "none",
        "descriptor": "negative"
    },
    {
        "type": "CurrentInterval",
        "duration": 5,
        "spotPerKwh": 6.12,
        "perKwh": 24.33,
        "date": "2021-05-05",
        "nemTime": "2021-05-06T12:30:00+10:00",
        "startTime": "2021-05-05T02:00:01Z",
        "endTime": "2021-05-05T02:30:00Z",
        "renewables": 45,
        "channelType": "general",
        "tariffInformation": null,
        "spikeStatus": "none",
        "descriptor": "negative",
        "range": {
            "min": 0,
            "max": 0
        },
        "estimate": true,
        "advancedPrice": {
            "low": 1,
            "predicted": 3,
            "high": 10
        }
    },
    {
        "type": "ForecastInterval",
        "duration": 5,
        "spotPerKwh": 6.12,
        "perKwh": 24.33,
        "date": "2021-05-05",
        "nemTime": "2021-05-06T12:30:00+10:00",
        "startTime": "2021-05-05T02:00:01Z",
        "endTime": "2021-05-05T02:30:00Z",
        "renewables": 45,
        "channelType": "general",
        "tariffInformation": null,
        "spikeStatus": "none",
        "descriptor": "negative",
        "range": {
            "min": 0,
            "max": 0
        },
        "advancedPrice": {
            "low": 1,
            "predicted": 3,
            "high": 10
        }
    }
]"#;

#[test]
fn prices_interval_deserialisation() {
    let intervals = decode_prices(PRICES_JSON).expect("valid prices body");
    assert_eq!(intervals.len(), 3);

    if let Some(amber_api::models::Interval::ActualInterval(actual)) = intervals.first() {
        assert_eq!(actual.base.duration, 5);
        assert_eq!(actual.base.spot_per_kwh.units, 6_120_000_000);
        assert_eq!(actual.base.per_kwh.units, 24_330_000_000);
        assert_eq!(actual.base.date.render(), "2021-05-05");
        assert_eq!(actual.base.renewables.units, 45_000_000_000);
        assert_eq!(actual.base.channel_type, ChannelType::General);
        assert_eq!(actual.base.spike_status, SpikeStatus::NoSpike);
        assert_eq!(actual.base.descriptor, PriceDescriptor::Negative);
    } else {
        panic!("Expected ActualInterval at index 0");
    }

    if let Some(amber_api::models::Interval::CurrentInterval(current)) = intervals.get(1) {
        assert_eq!(current.base.duration, 5);
        assert_eq!(current.base.spot_per_kwh.units, 6_120_000_000);
        assert_eq!(current.base.per_kwh.units, 24_330_000_000);
        assert_eq!(current.estimate, true);
        assert!(current.range.is_some());
        assert!(current.advanced_price.is_some());

        if let Some(ref range) = current.range {
            assert_eq!(range.min.units, 0);
            assert_eq!(range.max.units, 0);
        }

        if let Some(ref adv_price) = current.advanced_price {
            assert_eq!(adv_price.low.units, 1_000_000_000);
            assert_eq!(adv_price.predicted.units, 3_000_000_000);
            assert_eq!(adv_price.high.units, 10_000_000_000);
        }
    } else {
        panic!("Expected CurrentInterval at index 1");
    }

    if let Some(amber_api::models::Interval::ForecastInterval(forecast)) = intervals.get(2) {
        assert_eq!(forecast.base.duration, 5);
        assert_eq!(forecast.base.spot_per_kwh.units, 6_120_000_000);
        assert_eq!(forecast.base.per_kwh.units, 24_330_000_000);
        assert!(forecast.range.is_some());
        assert!(forecast.advanced_price.is_some());
    } else {
        panic!("Expected ForecastInterval at index 2");
    }
}

#[test]
fn current_prices_interval_deserialisation() {
    let intervals = decode_prices(PRICES_JSON).expect("valid prices body");
    assert_eq!(intervals.len(), 3);

    let first_interval = intervals.first().expect("Expected at least one interval");
    let second_interval = intervals.get(1).expect("Expected at least two intervals");
    let third_interval = intervals.get(2).expect("Expected at least three intervals");

    assert!(matches!(first_interval, amber_api::models::Interval::ActualInterval(_)));
    assert!(matches!(second_interval, amber_api::models::Interval::CurrentInterval(_)));
    assert!(matches!(third_interval, amber_api::models::Interval::ForecastInterval(_)));
}

#[test]
fn usage_deserialisation() {
    let json = r#"[
        {
            "type": "Usage",
            "duration": 5,
            "spotPerKwh": 6.12,
            "perKwh": 24.33,
            "date": "2021-05-05",
            "nemTime": "2021-05-06T12:30:00+10:00",
            "startTime": "2021-05-05T02:00:01Z",
            "endTime": "2021-05-05T02:30:00Z",
            "renewables": 45,
            "channelType": "general",
            "tariffInformation": null,
            "spikeStatus": "none",
            "descriptor": "negative",
            "channelIdentifier": "E1",
            "kwh": 0,
            "quality": "estimated",
            "cost": 0
        }
    ]"#;

    let usage_data = decode_usage(json).expect("valid usage body");
    assert_eq!(usage_data.len(), 1);

    let usage = usage_data.first().expect("Expected at least one usage entry");
    assert_eq!(usage.base.duration, 5);
    assert_eq!(usage.base.spot_per_kwh.units, 6_120_000_000);
    assert_eq!(usage.base.per_kwh.units, 24_330_000_000);
    assert_eq!(usage.base.date.render(), "2021-05-05");
    assert_eq!(usage.base.renewables.units, 45_000_000_000);
    assert_eq!(usage.base.channel_type, ChannelType::General);
    assert_eq!(usage.base.spike_status, SpikeStatus::NoSpike);
    assert_eq!(usage.base.descriptor, PriceDescriptor::Negative);
    assert_eq!(usage.channel_identifier, "E1");
    assert_eq!(usage.kwh.units, 0);
    assert_eq!(usage.quality, UsageQuality::Estimated);
    assert_eq!(usage.cost.units, 0);
}

#[test]
fn channel_types_deserialisation() {
    let general_json = r#"{"identifier": "E1", "type": "general", "tariff": "A100"}"#;
    let controlled_json = r#"{"identifier": "E2", "type": "controlledLoad", "tariff": "A200"}"#;
    let feedin_json = r#"{"identifier": "E3", "type": "feedIn", "tariff": "A300"}"#;

    let general =
        decode_channel(&parse_json(general_json).expect("valid JSON")).expect("valid channel");
    let controlled =
        decode_channel(&parse_json(controlled_json).expect("valid JSON")).expect("valid channel");
    let feedin =
        decode_channel(&parse_json(feedin_json).expect("valid JSON")).expect("valid channel");

    assert_eq!(general.channel_type, ChannelType::General);
    assert_eq!(controlled.channel_type, ChannelType::ControlledLoad);
    assert_eq!(feedin.channel_type, ChannelType::FeedIn);
}

fn status_field(json: &str) -> String {
    let v = parse_json(json).expect("valid JSON");
    let members = match v {
        JsonValue::Obj(m) => m,
        _ => panic!("expected an object"),
    };
    for (key, value) in members {
        if key == "status" || key == "quality" {
            if let JsonValue::Str(s) = value {
                return s;
            }
        }
    }
    panic!("expected a string field");
}

#[test]
fn site_status_deserialisation() {
    let pending_json = r#"{"status": "pending"}"#;
    let active_json = r#"{"status": "active"}"#;
    let closed_json = r#"{"status": "closed"}"#;

    let pending = site_status_of(&status_field(pending_json)).expect("known status");
    let active = site_status_of(&status_field(active_json)).expect("known status");
    let closed = site_status_of(&status_field(closed_json)).expect("known status");

    assert_eq!(pending, SiteStatus::Pending);
    assert_eq!(active, SiteStatus::Active);
    assert_eq!(closed, SiteStatus::Closed);
}

#[test]
fn range_and_advanced_price_deserialisation() {
    let range_json = r#"{"min": 0, "max": 100}"#;
    let advanced_price_json = r#"{"low": 1, "predicted": 3, "high": 10}"#;

    let range = decode_range(&parse_json(range_json).expect("valid JSON")).expect("valid range");
    let advanced_price = decode_advanced_price(
        &parse_json(advanced_price_json).expect("valid JSON"),
    )
    .expect("valid advanced price");

    assert_eq!(range.min.units, 0);
    assert_eq!(range.max.units, 100_000_000_000);
    assert_eq!(advanced_price.low.units, 1_000_000_000);
    assert_eq!(advanced_price.predicted.units, 3_000_000_000);
    assert_eq!(advanced_price.high.units, 10_000_000_000);
}

#[test]
fn usage_quality_deserialisation() {
    let estimated_json = r#"{"quality": "estimated"}"#;
    let billable_json = r#"{"quality": "billable"}"#;

    let estimated = usage_quality_of(&status_field(estimated_json)).expect("known quality");
    let billable = usage_quality_of(&status_field(billable_json)).expect("known quality");

    assert_eq!(estimated, UsageQuality::Estimated);
    assert_eq!(billable, UsageQuality::Billable);
}

#[test]
fn unknown_interval_tag_is_refused() {
    let json = r#"[
        {
            "type": "SurpriseInterval",
            "duration": 5,
            "spotPerKwh": 6.12,
            "perKwh": 24.33,
            "date": "2021-05-05",
            "nemTime": "2021-05-06T12:30:00+10:00",
            "startTime": "2021-05-05T02:00:01Z",
            "endTime": "2021-05-05T02:30:00Z",
            "renewables": 45,
            "channelType": "general",
            "tariffInformation": null,
            "spikeStatus": "none",
            "descriptor": "low"
        }
    ]"#;
    let err = decode_prices(json).expect_err("unknown tag must fail");
    assert!(matches!(err, AmberError::Deserialization(_)));
}

#[test]
fn unknown_renewable_tag_is_refused() {
    let body = renewable_json("SurpriseRenewable");
    let err = decode_renewables(&format!("[{body}]")).expect_err("unknown tag must fail");
    assert!(matches!(err, AmberError::Deserialization(_)));
}

#[test]
fn decoded_records_keep_their_invariants() {
    let intervals = decode_prices(PRICES_JSON).expect("valid prices body");
    for interval in &intervals {
        let base = interval.as_base_interval().expect("base record");
        assert!(base.start_time.lt(&base.end_time));
        assert!(0 <= base.renewables.units && base.renewables.units <= 100_000_000_000);
        assert!(base.duration > 0);
    }
}

#[test]
fn unordered_interval_times_are_refused() {
    let json = r#"[
        {
            "type": "ActualInterval",
            "duration": 5,
            "spotPerKwh": 6.12,
            "perKwh": 24.33,
            "date": "2021-05-05",
            "nemTime": "2021-05-06T12:30:00+10:00",
            "startTime": "2021-05-05T02:30:00Z",
            "endTime": "2021-05-05T02:00:01Z",
            "renewables": 45,
            "channelType": "general",
            "tariffInformation": null,
            "spikeStatus": "none",
            "descriptor": "low"
        }
    ]"#;
    let err = decode_prices(json).expect_err("unordered times must fail");
    assert!(matches!(err, AmberError::Deserialization(_)));
}

#[test]
fn out_of_range_renewables_are_refused() {
    let body = RENEWABLE_JSON_BODY.replace("\"renewables\": 45", "\"renewables\": 101");
    let mut json = String::from("[{\n    \"type\": \"ActualRenewable\",");
    json.push_str(&body[1..]);
    json.push(']');
    let err = decode_renewables(&json).expect_err("out-of-range percentage must fail");
    assert!(matches!(err, AmberError::Deserialization(_)));
}

#[test]
fn reading_twice_decodes_identically() {
    let once = decode_prices(PRICES_JSON).expect("valid prices body");
    let again = decode_prices(PRICES_JSON).expect("valid prices body");
    assert_eq!(once.len(), again.len());
    for (a, b) in once.iter().zip(again.iter()) {
        assert_eq!(a, b);
    }
}

#[test]
fn site_without_closed_date() {
    let json = r#"[
        {
            "id": "01F5A5CRKMZ5BCX9P1S4V990AM",
            "nmi": "3052282872",
            "channels": [],
            "network": "Jemena",
            "status": "active",
            "activeFrom": "2022-01-01",
            "intervalLength": 5
        }
    ]"#;
    let sites = decode_sites(json).expect("valid sites body");
    let site = sites.first().expect("one site");
    assert_eq!(site.status, SiteStatus::Active);
    assert!(site.closed_on.is_none());
    assert_eq!(site.active_from.expect("active date").render(), "2022-01-01");
    assert_eq!(site.interval_length, 5);
}

#[test]
fn renewable_kind_accessors() {
    let actual = parse_renewable("ActualRenewable");
    assert!(actual.is_actual_renewable());
    assert!(!actual.is_current_renewable());
    assert!(!actual.is_forecast_renewable());
    let base = actual.as_base_renewable();
    assert!(base.start_time.lt(&base.end_time));
    assert_eq!(base.duration, 5);

    let intervals = decode_prices(PRICES_JSON).expect("valid prices body");
    assert!(intervals[0].is_actual_interval());
    assert!(intervals[1].is_current_interval());
    assert!(intervals[2].is_forecast_interval());
}

#[test]
fn dates_order_by_the_calendar() {
    let a = amber_api::datetime::Date::new(2025, 10, 31).expect("valid date");
    let b = amber_api::datetime::Date::new(2025, 11, 1).expect("valid date");
    assert!(a.le(&b));
    assert!(!b.le(&a));
    assert!(a.le(&a));
    assert_eq!(u32::from(amber_api::models::Resolution::FiveMinute), 5);
    assert_eq!(u32::from(amber_api::models::Resolution::ThirtyMinute), 30);
}

#[test]
fn channel_type_wordings() {
    assert_eq!(channel_type_of("general"), Some(ChannelType::General));
    assert_eq!(channel_type_of("controlledLoad"), Some(ChannelType::ControlledLoad));
    assert_eq!(channel_type_of("feedIn"), Some(ChannelType::FeedIn));
    assert_eq!(channel_type_of("General"), None);
}
