//! Rendering the model types for display.

use amber_api::datetime::{parse_timestamp, Date, Timestamp};
use amber_api::decimal::Dec;
use amber_api::models::{
    ActualInterval, ActualRenewable, AdvancedPrice, BaseInterval, BaseRenewable, Channel,
    ChannelType, CurrentInterval, CurrentRenewable, ForecastInterval, ForecastRenewable,
    Interval, PriceDescriptor, Range, Renewable, RenewableDescriptor, Resolution, Site,
    SiteStatus, SpikeStatus, State, TariffInformation, TariffPeriod, TariffSeason,
    UsageQuality, Usage,
};

fn ts(text: &str) -> Timestamp {
    parse_timestamp(text).expect("valid timestamp")
}

fn date(y: u16, m: u8, d: u8) -> Date {
    Date::new(y, m, d).expect("valid date")
}

#[test]
fn display_state() {
    assert_eq!(State::Nsw.render(), "nsw");
    assert_eq!(State::Vic.render(), "vic");
    assert_eq!(State::Qld.render(), "qld");
    assert_eq!(State::Sa.render(), "sa");
}

#[test]
fn display_resolution() {
    assert_eq!(Resolution::FiveMinute.render(), "5");
    assert_eq!(Resolution::ThirtyMinute.render(), "30");
}

#[test]
fn display_channel_type() {
    assert_eq!(ChannelType::General.render(), "general");
    assert_eq!(ChannelType::ControlledLoad.render(), "controlled load");
    assert_eq!(ChannelType::FeedIn.render(), "feed-in");
}

#[test]
fn display_channel() {
    let channel = Channel {
        identifier: "E1".to_owned(),
        channel_type: ChannelType::General,
        tariff: "A100".to_owned(),
    };
    assert_eq!(channel.render(), "E1 (general): A100");
}

#[test]
fn display_site_status() {
    assert_eq!(SiteStatus::Pending.render(), "pending");
    assert_eq!(SiteStatus::Active.render(), "active");
    assert_eq!(SiteStatus::Closed.render(), "closed");
}

#[test]
fn display_site() {
    let site = Site {
        id: "01F5A5CRKMZ5BCX9P1S4V990AM".to_owned(),
        nmi: "3052282872".to_owned(),
        channels: vec![],
        network: "Jemena".to_owned(),
        status: SiteStatus::Active,
        active_from: Some(date(2022, 1, 1)),
        closed_on: None,
        interval_length: 30,
    };
    assert_eq!(
        site.render(),
        "Site 01F5A5CRKMZ5BCX9P1S4V990AM (NMI: 3052282872) - active on Jemena network"
    );
}

#[test]
fn display_spike_status() {
    assert_eq!(SpikeStatus::NoSpike.render(), "none");
    assert_eq!(SpikeStatus::Potential.render(), "potential");
    assert_eq!(SpikeStatus::Spike.render(), "spike");
}

#[test]
fn display_price_descriptor() {
    assert_eq!(PriceDescriptor::Negative.render(), "negative");
    assert_eq!(PriceDescriptor::ExtremelyLow.render(), "extremely low");
    assert_eq!(PriceDescriptor::VeryLow.render(), "very low");
    assert_eq!(PriceDescriptor::Low.render(), "low");
    assert_eq!(PriceDescriptor::Neutral.render(), "neutral");
    assert_eq!(PriceDescriptor::High.render(), "high");
    assert_eq!(PriceDescriptor::Spike.render(), "spike");
}

#[test]
fn display_renewable_descriptor() {
    assert_eq!(RenewableDescriptor::Best.render(), "best");
    assert_eq!(RenewableDescriptor::Great.render(), "great");
    assert_eq!(RenewableDescriptor::Okay.render(), "ok");
    assert_eq!(RenewableDescriptor::NotGreat.render(), "not great");
    assert_eq!(RenewableDescriptor::Worst.render(), "worst");
}

#[test]
fn display_range() {
    let range = Range { min: Dec::from_units(12_340_000_000), max: Dec::from_units(56_780_000_000) };
    assert_eq!(range.render(), "12.34-56.78c/kWh");
}

#[test]
fn display_advanced_price() {
    let advanced_price = AdvancedPrice {
        low: Dec::from_units(1_230_000_000),
        predicted: Dec::from_units(4_560_000_000),
        high: Dec::from_units(7_890_000_000),
    };
    assert_eq!(advanced_price.render(), "L:1.23 H:4.56 P:7.89 c/kWh");
}

#[test]
fn display_tariff_period() {
    assert_eq!(TariffPeriod::OffPeak.render(), "off peak");
    assert_eq!(TariffPeriod::Shoulder.render(), "shoulder");
    assert_eq!(TariffPeriod::SolarSponge.render(), "solar sponge");
    assert_eq!(TariffPeriod::Peak.render(), "peak");
}

#[test]
fn display_tariff_season() {
    assert_eq!(TariffSeason::Default.render(), "default");
    assert_eq!(TariffSeason::Summer.render(), "summer");
    assert_eq!(TariffSeason::Autumn.render(), "autumn");
    assert_eq!(TariffSeason::Winter.render(), "winter");
    assert_eq!(TariffSeason::Spring.render(), "spring");
    assert_eq!(TariffSeason::NonSummer.render(), "non summer");
    assert_eq!(TariffSeason::Holiday.render(), "holiday");
    assert_eq!(TariffSeason::Weekend.render(), "weekend");
    assert_eq!(TariffSeason::WeekendHoliday.render(), "weekend holiday");
    assert_eq!(TariffSeason::Weekday.render(), "weekday");
}

#[test]
fn display_tariff_information() {
    let empty_tariff = TariffInformation {
        period: None,
        season: None,
        block: None,
        demand_window: None,
    };
    assert_eq!(empty_tariff.render(), "No tariff information");

    let full_tariff = TariffInformation {
        period: Some(TariffPeriod::Peak),
        season: Some(TariffSeason::Summer),
        block: Some(2),
        demand_window: Some(true),
    };
    assert_eq!(full_tariff.render(), "period:peak, season:summer, block:2, demand window:true");

    let partial_tariff = TariffInformation {
        period: Some(TariffPeriod::OffPeak),
        season: None,
        block: Some(1),
        demand_window: Some(false),
    };
    assert_eq!(partial_tariff.render(), "period:off peak, block:1, demand window:false");
}

fn base_interval(
    duration: u32,
    spot: i64,
    per: i64,
    d: Date,
    renewables: i64,
    channel_type: ChannelType,
    tariff_information: Option<TariffInformation>,
    spike_status: SpikeStatus,
    descriptor: PriceDescriptor,
) -> BaseInterval {
    BaseInterval {
        duration,
        spot_per_kwh: Dec::from_units(spot),
        per_kwh: Dec::from_units(per),
        date: d,
        nem_time: ts("2021-05-06T12:30:00+10:00"),
        start_time: ts("2021-05-05T02:00:01Z"),
        end_time: ts("2021-05-05T02:30:00Z"),
        renewables: Dec::from_units(renewables),
        channel_type,
        tariff_information,
        spike_status,
        descriptor,
    }
}

#[test]
fn display_base_interval() {
    let base_interval_basic = base_interval(
        5,
        6_120_000_000,
        24_330_000_000,
        date(2021, 5, 5),
        45_500_000_000,
        ChannelType::General,
        None,
        SpikeStatus::NoSpike,
        PriceDescriptor::Low,
    );
    assert_eq!(
        base_interval_basic.render(),
        "2021-05-05 general 24.33c/kWh (spot: 6.12c/kWh) (low) 45.5% renewable"
    );

    let base_interval_potential_spike = base_interval(
        5,
        6_120_000_000,
        24_330_000_000,
        date(2021, 5, 5),
        45_500_000_000,
        ChannelType::General,
        None,
        SpikeStatus::Potential,
        PriceDescriptor::High,
    );
    assert_eq!(
        base_interval_potential_spike.render(),
        "2021-05-05 general 24.33c/kWh (spot: 6.12c/kWh) (high) 45.5% renewable spike: potential"
    );

    let base_interval_spike = base_interval(
        5,
        100_500_000_000,
        120_750_000_000,
        date(2021, 5, 5),
        25_000_000_000,
        ChannelType::General,
        None,
        SpikeStatus::Spike,
        PriceDescriptor::Spike,
    );
    assert_eq!(
        base_interval_spike.render(),
        "2021-05-05 general 120.75c/kWh (spot: 100.50c/kWh) (spike) 25% renewable spike: spike"
    );

    let tariff_info = TariffInformation {
        period: Some(TariffPeriod::Peak),
        season: Some(TariffSeason::Summer),
        block: Some(2),
        demand_window: Some(true),
    };
    let base_interval_tariff = base_interval(
        30,
        15_200_000_000,
        35_400_000_000,
        date(2021, 7, 15),
        30_200_000_000,
        ChannelType::ControlledLoad,
        Some(tariff_info),
        SpikeStatus::NoSpike,
        PriceDescriptor::Neutral,
    );
    assert_eq!(
        base_interval_tariff.render(),
        "2021-07-15 controlled load 35.40c/kWh (spot: 15.20c/kWh) (neutral) 30.2% renewable [period:peak, season:summer, block:2, demand window:true]"
    );

    let tariff_info_combined = TariffInformation {
        period: Some(TariffPeriod::OffPeak),
        season: None,
        block: None,
        demand_window: Some(false),
    };
    let base_interval_combined = base_interval(
        5,
        8_750_000_000,
        28_900_000_000,
        date(2021, 12, 25),
        60_800_000_000,
        ChannelType::FeedIn,
        Some(tariff_info_combined),
        SpikeStatus::Potential,
        PriceDescriptor::VeryLow,
    );
    assert_eq!(
        base_interval_combined.render(),
        "2021-12-25 feed-in 28.90c/kWh (spot: 8.75c/kWh) (very low) 60.8% renewable spike: potential [period:off peak, demand window:false]"
    );
}

#[test]
fn display_actual_interval() {
    let actual_interval = ActualInterval {
        base: base_interval(
            5,
            6_120_000_000,
            24_330_000_000,
            date(2021, 5, 5),
            45_500_000_000,
            ChannelType::General,
            None,
            SpikeStatus::NoSpike,
            PriceDescriptor::Low,
        ),
    };
    assert_eq!(
        actual_interval.render(),
        "Actual: 2021-05-05 general 24.33c/kWh (spot: 6.12c/kWh) (low) 45.5% renewable"
    );
}

#[test]
fn display_forecast_interval() {
    let forecast_interval = ForecastInterval {
        base: base_interval(
            5,
            6_120_000_000,
            24_330_000_000,
            date(2021, 5, 5),
            45_500_000_000,
            ChannelType::General,
            None,
            SpikeStatus::Potential,
            PriceDescriptor::High,
        ),
        range: Some(Range {
            min: Dec::from_units(10_000_000_000),
            max: Dec::from_units(30_000_000_000),
        }),
        advanced_price: Some(AdvancedPrice {
            low: Dec::from_units(15_000_000_000),
            predicted: Dec::from_units(20_000_000_000),
            high: Dec::from_units(25_000_000_000),
        }),
    };
    assert_eq!(
        forecast_interval.render(),
        "Forecast: 2021-05-05 general 24.33c/kWh (spot: 6.12c/kWh) (high) 45.5% renewable spike: potential Range: 10.00-30.00c/kWh Advanced: L:15.00 H:20.00 P:25.00 c/kWh"
    );
}

#[test]
fn display_current_interval() {
    let current_interval = CurrentInterval {
        base: base_interval(
            5,
            6_120_000_000,
            24_330_000_000,
            date(2021, 5, 5),
            45_500_000_000,
            ChannelType::FeedIn,
            None,
            SpikeStatus::Spike,
            PriceDescriptor::Spike,
        ),
        range: Some(Range {
            min: Dec::from_units(50_000_000_000),
            max: Dec::from_units(100_000_000_000),
        }),
        estimate: true,
        advanced_price: Some(AdvancedPrice {
            low: Dec::from_units(60_000_000_000),
            predicted: Dec::from_units(75_000_000_000),
            high: Dec::from_units(90_000_000_000),
        }),
    };
    assert_eq!(
        current_interval.render(),
        "Current: 2021-05-05 feed-in 24.33c/kWh (spot: 6.12c/kWh) (spike) 45.5% renewable spike: spike (estimate) Range: 50.00-100.00c/kWh Advanced: L:60.00 H:75.00 P:90.00 c/kWh"
    );
}

#[test]
fn display_interval_enum() {
    let base = base_interval(
        5,
        6_120_000_000,
        24_330_000_000,
        date(2021, 5, 5),
        45_500_000_000,
        ChannelType::General,
        None,
        SpikeStatus::NoSpike,
        PriceDescriptor::Neutral,
    );

    let actual_interval = Interval::ActualInterval(ActualInterval { base });
    let forecast_interval = Interval::ForecastInterval(ForecastInterval {
        base,
        range: None,
        advanced_price: None,
    });
    let current_interval = Interval::CurrentInterval(CurrentInterval {
        base,
        range: None,
        estimate: false,
        advanced_price: None,
    });

    assert_eq!(
        actual_interval.render(),
        "Actual: 2021-05-05 general 24.33c/kWh (spot: 6.12c/kWh) (neutral) 45.5% renewable"
    );
    assert_eq!(
        forecast_interval.render(),
        "Forecast: 2021-05-05 general 24.33c/kWh (spot: 6.12c/kWh) (neutral) 45.5% renewable"
    );
    assert_eq!(
        current_interval.render(),
        "Current: 2021-05-05 general 24.33c/kWh (spot: 6.12c/kWh) (neutral) 45.5% renewable"
    );
}

#[test]
fn display_usage_quality() {
    assert_eq!(UsageQuality::Estimated.render(), "estimated");
    assert_eq!(UsageQuality::Billable.render(), "billable");
}

#[test]
fn display_usage() {
    let usage = Usage {
        base: base_interval(
            5,
            6_120_000_000,
            24_330_000_000,
            date(2021, 5, 5),
            45_500_000_000,
            ChannelType::General,
            None,
            SpikeStatus::NoSpike,
            PriceDescriptor::Low,
        ),
        channel_identifier: "E1".to_owned(),
        kwh: Dec::from_units(1_250_000_000),
        quality: UsageQuality::Billable,
        cost: Dec::from_units(30_410_000_000),
    };
    assert_eq!(usage.render(), "Usage E1 1.25kWh $30.41 (billable)");
}

fn base_renewable() -> BaseRenewable {
    BaseRenewable {
        duration: 5,
        date: date(2021, 5, 5),
        nem_time: ts("2021-05-06T12:30:00+10:00"),
        start_time: ts("2021-05-05T02:00:01Z"),
        end_time: ts("2021-05-05T02:30:00Z"),
        renewables: Dec::from_units(78_500_000_000),
        descriptor: RenewableDescriptor::Great,
    }
}

#[test]
fn display_base_renewable() {
    assert_eq!(base_renewable().render(), "2021-05-05 78.5% renewable (great)");
}

#[test]
fn display_actual_renewable() {
    let actual_renewable = ActualRenewable { base: base_renewable() };
    assert_eq!(actual_renewable.render(), "Actual: 2021-05-05 78.5% renewable (great)");
}

#[test]
fn display_forecast_renewable() {
    let forecast_renewable = ForecastRenewable { base: base_renewable() };
    assert_eq!(forecast_renewable.render(), "Forecast: 2021-05-05 78.5% renewable (great)");
}

#[test]
fn display_current_renewable() {
    let current_renewable = CurrentRenewable { base: base_renewable() };
    assert_eq!(current_renewable.render(), "Current: 2021-05-05 78.5% renewable (great)");
}

#[test]
fn display_renewable_enum() {
    let base = base_renewable();

    let actual_renewable = Renewable::ActualRenewable(ActualRenewable { base });
    let forecast_renewable = Renewable::ForecastRenewable(ForecastRenewable { base });
    let current_renewable = Renewable::CurrentRenewable(CurrentRenewable { base });

    assert_eq!(actual_renewable.render(), "Actual: 2021-05-05 78.5% renewable (great)");
    assert_eq!(forecast_renewable.render(), "Forecast: 2021-05-05 78.5% renewable (great)");
    assert_eq!(current_renewable.render(), "Current: 2021-05-05 78.5% renewable (great)");
}

#[test]
fn display_decimal_shortest() {
    assert_eq!(Dec::from_units(45_000_000_000).render_plain(), "45");
    assert_eq!(Dec::from_units(45_500_000_000).render_plain(), "45.5");
    assert_eq!(Dec::from_units(-1_250_000_000).render_plain(), "-1.25");
    assert_eq!(Dec::from_units(0).render_plain(), "0");
    assert_eq!(Dec::from_units(123_456_789).render_plain(), "0.123456789");
}

#[test]
fn display_decimal_two_places() {
    assert_eq!(Dec::from_units(100_500_000_000).render_2dp(), "100.50");
    assert_eq!(Dec::from_units(0).render_2dp(), "0.00");
    assert_eq!(Dec::from_units(-8_750_000_000).render_2dp(), "-8.75");
    assert_eq!(Dec::from_units(6_120_000_000).render_2dp(), "6.12");
}
