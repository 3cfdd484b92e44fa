//! The tagged response model.
//!
//! Every entity the API returns is decoded into one of these types. The
//! numbers that the API reports as floating point (prices, percentages,
//! energy) are held as exact fixed-point [`Dec`] values; dates and
//! instants as [`Date`] and [`Timestamp`].
//!
//! Each decoded entity satisfies its well-formedness predicate: positive
//! duration, `start_time < end_time`, and a renewables percentage within
//! `[0, 100]` — the decoders refuse payloads that break them.

use vstd::prelude::*;
use vstd::string::*;

use crate::datetime::{date_wf, spec_render_date, spec_ts_lt, ts_wf, Date, Timestamp};
use crate::decimal::{spec_render_2dp, spec_render_plain, Dec, DEC_SCALE};
use crate::text::{nat_digits, push_char};

verus! {

/// Australian states whose renewables data can be queried.
#[derive(Debug, Clone, Copy, PartialEq, Eq, Structural)]
pub enum State {
    /// New South Wales
    Nsw,
    /// Victoria
    Vic,
    /// Queensland
    Qld,
    /// South Australia
    Sa,
}

/// The lower-case code a state is written as in an endpoint path.
pub open spec fn spec_state_code(s: State) -> Seq<char> {
    match s {
        State::Nsw => "nsw"@,
        State::Vic => "vic"@,
        State::Qld => "qld"@,
        State::Sa => "sa"@,
    }
}

impl State {
    /// The lower-case code used in endpoint paths.
    pub fn render(&self) -> (r: String)
        ensures
            r@ == spec_state_code(*self),
    {
        match self {
            State::Nsw => String::from_str("nsw"),
            State::Vic => String::from_str("vic"),
            State::Qld => String::from_str("qld"),
            State::Sa => String::from_str("sa"),
        }
    }
}

/// Interval resolutions the API offers.
#[derive(Debug, Clone, Copy, PartialEq, Eq, Structural)]
pub enum Resolution {
    /// 5-minute intervals
    FiveMinute,
    /// 30-minute intervals
    ThirtyMinute,
}

/// A resolution as its minute count.
pub open spec fn spec_resolution_minutes(r: Resolution) -> u32 {
    match r {
        Resolution::FiveMinute => 5,
        Resolution::ThirtyMinute => 30,
    }
}

impl Resolution {
    /// The minute count, as it is written in a query parameter.
    pub fn render(&self) -> (r: String)
        ensures
            r@ == nat_digits(spec_resolution_minutes(*self) as nat),
    {
        proof {
            reveal_with_fuel(nat_digits, 3);
        }
        match self {
            Resolution::FiveMinute => {
                let mut s = String::new();
                push_char(&mut s, '5');
                proof {
                    assert(Seq::<char>::empty().push('5') =~= seq!['5']);
                }
                s
            },
            Resolution::ThirtyMinute => {
                let mut s = String::new();
                push_char(&mut s, '3');
                push_char(&mut s, '0');
                proof {
                    assert(Seq::<char>::empty().push('3').push('0') =~= seq!['3', '0']);
                    assert(nat_digits(30) =~= seq!['3', '0']);
                }
                s
            },
        }
    }
}

impl From<Resolution> for u32 {
    /// The resolution's minute count.
    fn from(value: Resolution) -> (r: u32)
        ensures
            r == spec_resolution_minutes(value),
    {
        match value {
            Resolution::FiveMinute => 5,
            Resolution::ThirtyMinute => 30,
        }
    }
}

impl vstd::std_specs::convert::FromSpecImpl<Resolution> for u32 {
    open spec fn obeys_from_spec() -> bool {
        true
    }

    open spec fn from_spec(value: Resolution) -> u32 {
        spec_resolution_minutes(value)
    }
}

/// Meter channel type.
#[derive(Debug, Clone, Copy, PartialEq, Eq, Structural)]
pub enum ChannelType {
    /// General channel provides continuous power.
    General,
    /// Controlled load channels are only on for a limited time during the
    /// day.
    ControlledLoad,
    /// Feed in channel sends power back to the grid.
    FeedIn,
}

/// The display wording of a channel type.
pub open spec fn spec_channel_type_label(c: ChannelType) -> Seq<char> {
    match c {
        ChannelType::General => "general"@,
        ChannelType::ControlledLoad => "controlled load"@,
        ChannelType::FeedIn => "feed-in"@,
    }
}

/// The camel-case wording a channel type is decoded from.
pub open spec fn spec_channel_type_of(s: Seq<char>) -> Option<ChannelType> {
    if s == "general"@ {
        Some(ChannelType::General)
    } else if s == "controlledLoad"@ {
        Some(ChannelType::ControlledLoad)
    } else if s == "feedIn"@ {
        Some(ChannelType::FeedIn)
    } else {
        None
    }
}

impl ChannelType {
    /// The display wording.
    pub fn render(&self) -> (r: String)
        ensures
            r@ == spec_channel_type_label(*self),
    {
        match self {
            ChannelType::General => String::from_str("general"),
            ChannelType::ControlledLoad => String::from_str("controlled load"),
            ChannelType::FeedIn => String::from_str("feed-in"),
        }
    }
}

/// A power meter channel of a site.
#[derive(Debug, Clone, PartialEq)]
pub struct Channel {
    /// Identifier of the channel
    pub identifier: String,
    /// Channel type
    pub channel_type: ChannelType,
    /// The tariff code of the channel
    pub tariff: String,
}

/// Mathematical image of a [`Channel`].
pub struct ChannelV {
    pub identifier: Seq<char>,
    pub channel_type: ChannelType,
    pub tariff: Seq<char>,
}

impl View for Channel {
    type V = ChannelV;

    open spec fn view(&self) -> ChannelV {
        ChannelV {
            identifier: self.identifier@,
            channel_type: self.channel_type,
            tariff: self.tariff@,
        }
    }
}

/// `{identifier} ({channel type}): {tariff}`.
pub open spec fn spec_render_channel(c: ChannelV) -> Seq<char> {
    c.identifier.add(" ("@).add(spec_channel_type_label(c.channel_type)).add("): "@).add(c.tariff)
}

impl Channel {
    /// Renders the channel as `{identifier} ({channel type}): {tariff}`.
    pub fn render(&self) -> (r: String)
        ensures
            r@ == spec_render_channel(self@),
    {
        let mut s = self.identifier.clone();
        s.append(" (");
        let ct = self.channel_type.render();
        s.append(ct.as_str());
        s.append("): ");
        s.append(self.tariff.as_str());
        s
    }
}

/// Site status.
#[derive(Debug, Clone, Copy, PartialEq, Eq, Structural)]
pub enum SiteStatus {
    /// Site is still in the process of being transferred.
    Pending,
    /// Site is actively supplied with electricity.
    Active,
    /// Old site that is no longer supplied.
    Closed,
}

/// The display wording of a site status.
pub open spec fn spec_site_status_label(s: SiteStatus) -> Seq<char> {
    match s {
        SiteStatus::Pending => "pending"@,
        SiteStatus::Active => "active"@,
        SiteStatus::Closed => "closed"@,
    }
}

/// The wording a site status is decoded from.
pub open spec fn spec_site_status_of(s: Seq<char>) -> Option<SiteStatus> {
    if s == "pending"@ {
        Some(SiteStatus::Pending)
    } else if s == "active"@ {
        Some(SiteStatus::Active)
    } else if s == "closed"@ {
        Some(SiteStatus::Closed)
    } else {
        None
    }
}

impl SiteStatus {
    /// The display wording.
    pub fn render(&self) -> (r: String)
        ensures
            r@ == spec_site_status_label(*self),
    {
        match self {
            SiteStatus::Pending => String::from_str("pending"),
            SiteStatus::Active => String::from_str("active"),
            SiteStatus::Closed => String::from_str("closed"),
        }
    }
}

/// An electricity site linked to the account.
#[derive(Debug, Clone, PartialEq)]
pub struct Site {
    /// Unique site identifier
    pub id: String,
    /// National Metering Identifier (NMI) for the site
    pub nmi: String,
    /// The channels that are readable from the site's meter
    pub channels: Vec<Channel>,
    /// The name of the site's network
    pub network: String,
    /// Site status
    pub status: SiteStatus,
    /// Date the site became active; in the future for pending sites.
    pub active_from: Option<Date>,
    /// Date the site closed; absent while the site is pending or active.
    pub closed_on: Option<Date>,
    /// Length of the billing interval: 5 or 30 minutes.
    pub interval_length: u32,
}

/// Mathematical image of a [`Site`].
pub struct SiteV {
    pub id: Seq<char>,
    pub nmi: Seq<char>,
    pub channels: Seq<ChannelV>,
    pub network: Seq<char>,
    pub status: SiteStatus,
    pub active_from: Option<Date>,
    pub closed_on: Option<Date>,
    pub interval_length: u32,
}

impl View for Site {
    type V = SiteV;

    open spec fn view(&self) -> SiteV {
        SiteV {
            id: self.id@,
            nmi: self.nmi@,
            channels: Seq::new(self.channels@.len(), |i: int| self.channels@[i]@),
            network: self.network@,
            status: self.status,
            active_from: self.active_from,
            closed_on: self.closed_on,
            interval_length: self.interval_length,
        }
    }
}

/// A well-formed site: real calendar dates and a 5- or 30-minute billing
/// interval.
pub open spec fn site_wf(s: SiteV) -> bool {
    &&& s.interval_length == 5 || s.interval_length == 30
    &&& match s.active_from {
        Some(d) => date_wf(d),
        None => true,
    }
    &&& match s.closed_on {
        Some(d) => date_wf(d),
        None => true,
    }
}

/// `Site {id} (NMI: {nmi}) - {status} on {network} network`.
pub open spec fn spec_render_site(s: SiteV) -> Seq<char> {
    "Site "@.add(s.id).add(" (NMI: "@).add(s.nmi).add(") - "@).add(
        spec_site_status_label(s.status),
    ).add(" on "@).add(s.network).add(" network"@)
}

impl Site {
    /// Renders the site's one-line summary.
    pub fn render(&self) -> (r: String)
        ensures
            r@ == spec_render_site(self@),
    {
        let mut s = String::from_str("Site ");
        s.append(self.id.as_str());
        s.append(" (NMI: ");
        s.append(self.nmi.as_str());
        s.append(") - ");
        let st = self.status.render();
        s.append(st.as_str());
        s.append(" on ");
        s.append(self.network.as_str());
        s.append(" network");
        s
    }
}

/// Whether an interval is in, or approaching, a price spike.
#[derive(Debug, Clone, Copy, PartialEq, Eq, Structural)]
pub enum SpikeStatus {
    /// No spike expected or occurring
    NoSpike,
    /// Spike may potentially occur during this interval
    Potential,
    /// Spike is currently occurring during this interval
    Spike,
}

/// The display wording of a spike status.
pub open spec fn spec_spike_status_label(s: SpikeStatus) -> Seq<char> {
    match s {
        SpikeStatus::NoSpike => "none"@,
        SpikeStatus::Potential => "potential"@,
        SpikeStatus::Spike => "spike"@,
    }
}

/// The wording a spike status is decoded from.
pub open spec fn spec_spike_status_of(s: Seq<char>) -> Option<SpikeStatus> {
    if s == "none"@ {
        Some(SpikeStatus::NoSpike)
    } else if s == "potential"@ {
        Some(SpikeStatus::Potential)
    } else if s == "spike"@ {
        Some(SpikeStatus::Spike)
    } else {
        None
    }
}

impl SpikeStatus {
    /// The display wording.
    pub fn render(&self) -> (r: String)
        ensures
            r@ == spec_spike_status_label(*self),
    {
        match self {
            SpikeStatus::NoSpike => String::from_str("none"),
            SpikeStatus::Potential => String::from_str("potential"),
            SpikeStatus::Spike => String::from_str("spike"),
        }
    }
}

/// How cheap an interval's price is in relation to the market averages.
#[derive(Debug, Clone, Copy, PartialEq, Eq, Structural)]
pub enum PriceDescriptor {
    /// Negative pricing; the API replaced this wording with extremely low,
    /// but old payloads may still carry it.
    Negative,
    /// Extremely low pricing
    ExtremelyLow,
    /// Very low pricing
    VeryLow,
    /// Low pricing
    Low,
    /// Neutral pricing
    Neutral,
    /// High pricing
    High,
    /// Spike pricing
    Spike,
}

/// The display wording of a price descriptor.
pub open spec fn spec_price_descriptor_label(p: PriceDescriptor) -> Seq<char> {
    match p {
        PriceDescriptor::Negative => "negative"@,
        PriceDescriptor::ExtremelyLow => "extremely low"@,
        PriceDescriptor::VeryLow => "very low"@,
        PriceDescriptor::Low => "low"@,
        PriceDescriptor::Neutral => "neutral"@,
        PriceDescriptor::High => "high"@,
        PriceDescriptor::Spike => "spike"@,
    }
}

/// The camel-case wording a price descriptor is decoded from.
pub open spec fn spec_price_descriptor_of(s: Seq<char>) -> Option<PriceDescriptor> {
    if s == "negative"@ {
        Some(PriceDescriptor::Negative)
    } else if s == "extremelyLow"@ {
        Some(PriceDescriptor::ExtremelyLow)
    } else if s == "veryLow"@ {
        Some(PriceDescriptor::VeryLow)
    } else if s == "low"@ {
        Some(PriceDescriptor::Low)
    } else if s == "neutral"@ {
        Some(PriceDescriptor::Neutral)
    } else if s == "high"@ {
        Some(PriceDescriptor::High)
    } else if s == "spike"@ {
        Some(PriceDescriptor::Spike)
    } else {
        None
    }
}

impl PriceDescriptor {
    /// The display wording.
    pub fn render(&self) -> (r: String)
        ensures
            r@ == spec_price_descriptor_label(*self),
    {
        match self {
            PriceDescriptor::Negative => String::from_str("negative"),
            PriceDescriptor::ExtremelyLow => String::from_str("extremely low"),
            PriceDescriptor::VeryLow => String::from_str("very low"),
            PriceDescriptor::Low => String::from_str("low"),
            PriceDescriptor::Neutral => String::from_str("neutral"),
            PriceDescriptor::High => String::from_str("high"),
            PriceDescriptor::Spike => String::from_str("spike"),
        }
    }
}

/// How green the grid is during an interval, as an ordered level.
#[derive(Debug, Clone, Copy, PartialEq, Eq, Structural)]
pub enum RenewableDescriptor {
    /// Best renewable conditions
    Best,
    /// Great renewable conditions
    Great,
    /// Ok renewable conditions
    Okay,
    /// Not great renewable conditions
    NotGreat,
    /// Worst renewable conditions
    Worst,
}

/// The display wording of a renewable descriptor.
pub open spec fn spec_renewable_descriptor_label(d: RenewableDescriptor) -> Seq<char> {
    match d {
        RenewableDescriptor::Best => "best"@,
        RenewableDescriptor::Great => "great"@,
        RenewableDescriptor::Okay => "ok"@,
        RenewableDescriptor::NotGreat => "not great"@,
        RenewableDescriptor::Worst => "worst"@,
    }
}

/// The camel-case wording a renewable descriptor is decoded from.
pub open spec fn spec_renewable_descriptor_of(s: Seq<char>) -> Option<RenewableDescriptor> {
    if s == "best"@ {
        Some(RenewableDescriptor::Best)
    } else if s == "great"@ {
        Some(RenewableDescriptor::Great)
    } else if s == "ok"@ {
        Some(RenewableDescriptor::Okay)
    } else if s == "notGreat"@ {
        Some(RenewableDescriptor::NotGreat)
    } else if s == "worst"@ {
        Some(RenewableDescriptor::Worst)
    } else {
        None
    }
}

impl RenewableDescriptor {
    /// The display wording.
    pub fn render(&self) -> (r: String)
        ensures
            r@ == spec_renewable_descriptor_label(*self),
    {
        match self {
            RenewableDescriptor::Best => String::from_str("best"),
            RenewableDescriptor::Great => String::from_str("great"),
            RenewableDescriptor::Okay => String::from_str("ok"),
            RenewableDescriptor::NotGreat => String::from_str("not great"),
            RenewableDescriptor::Worst => String::from_str("worst"),
        }
    }
}

/// A range of possible NEM spot prices while prices are volatile.
#[derive(Debug, Clone, Copy, PartialEq, Eq, Structural)]
pub struct Range {
    /// Estimated minimum price (c/kWh)
    pub min: Dec,
    /// Estimated maximum price (c/kWh)
    pub max: Dec,
}

/// `{min}-{max}c/kWh`, both with two decimal places.
pub open spec fn spec_render_range(r: Range) -> Seq<char> {
    spec_render_2dp(r.min.units as int).add("-"@).add(spec_render_2dp(r.max.units as int)).add(
        "c/kWh"@,
    )
}

impl Range {
    /// Renders the range as `{min}-{max}c/kWh`.
    pub fn render(&self) -> (r: String)
        ensures
            r@ == spec_render_range(*self),
    {
        let mut s = self.min.render_2dp();
        s.append("-");
        let mx = self.max.render_2dp();
        s.append(mx.as_str());
        s.append("c/kWh");
        s
    }
}

/// A predicted price as a low/predicted/high confidence band.
#[derive(Debug, Clone, Copy, PartialEq, Eq, Structural)]
pub struct AdvancedPrice {
    /// The lower bound of the prediction band (c/kWh).
    pub low: Dec,
    /// The predicted price (c/kWh).
    pub predicted: Dec,
    /// The upper bound of the prediction band (c/kWh).
    pub high: Dec,
}

/// `L:{low} H:{predicted} P:{high} c/kWh`, each with two decimal places.
pub open spec fn spec_render_advanced_price(a: AdvancedPrice) -> Seq<char> {
    "L:"@.add(spec_render_2dp(a.low.units as int)).add(" H:"@).add(
        spec_render_2dp(a.predicted.units as int),
    ).add(" P:"@).add(spec_render_2dp(a.high.units as int)).add(" c/kWh"@)
}

impl AdvancedPrice {
    /// Renders the band as `L:{low} H:{predicted} P:{high} c/kWh`.
    pub fn render(&self) -> (r: String)
        ensures
            r@ == spec_render_advanced_price(*self),
    {
        let mut s = String::from_str("L:");
        let lo = self.low.render_2dp();
        s.append(lo.as_str());
        s.append(" H:");
        let pr = self.predicted.render_2dp();
        s.append(pr.as_str());
        s.append(" P:");
        let hi = self.high.render_2dp();
        s.append(hi.as_str());
        s.append(" c/kWh");
        s
    }
}

/// Time of Use period.
#[derive(Debug, Clone, Copy, PartialEq, Eq, Structural)]
pub enum TariffPeriod {
    /// Off-peak period
    OffPeak,
    /// Shoulder period
    Shoulder,
    /// Solar sponge period
    SolarSponge,
    /// Peak period
    Peak,
}

/// The display wording of a tariff period.
pub open spec fn spec_tariff_period_label(p: TariffPeriod) -> Seq<char> {
    match p {
        TariffPeriod::OffPeak => "off peak"@,
        TariffPeriod::Shoulder => "shoulder"@,
        TariffPeriod::SolarSponge => "solar sponge"@,
        TariffPeriod::Peak => "peak"@,
    }
}

/// The camel-case wording a tariff period is decoded from.
pub open spec fn spec_tariff_period_of(s: Seq<char>) -> Option<TariffPeriod> {
    if s == "offPeak"@ {
        Some(TariffPeriod::OffPeak)
    } else if s == "shoulder"@ {
        Some(TariffPeriod::Shoulder)
    } else if s == "solarSponge"@ {
        Some(TariffPeriod::SolarSponge)
    } else if s == "peak"@ {
        Some(TariffPeriod::Peak)
    } else {
        None
    }
}

impl TariffPeriod {
    /// The display wording.
    pub fn render(&self) -> (r: String)
        ensures
            r@ == spec_tariff_period_label(*self),
    {
        match self {
            TariffPeriod::OffPeak => String::from_str("off peak"),
            TariffPeriod::Shoulder => String::from_str("shoulder"),
            TariffPeriod::SolarSponge => String::from_str("solar sponge"),
            TariffPeriod::Peak => String::from_str("peak"),
        }
    }
}

/// Time of Use season.
#[derive(Debug, Clone, Copy, PartialEq, Eq, Structural)]
pub enum TariffSeason {
    /// Default tariff season
    Default,
    /// Summer tariff season
    Summer,
    /// Autumn tariff season
    Autumn,
    /// Winter tariff season
    Winter,
    /// Spring tariff season
    Spring,
    /// Non-summer tariff season
    NonSummer,
    /// Holiday tariff period
    Holiday,
    /// Weekend tariff period
    Weekend,
    /// Combined weekend and holiday tariff period
    WeekendHoliday,
    /// Weekday tariff period
    Weekday,
}

/// The display wording of a tariff season.
pub open spec fn spec_tariff_season_label(p: TariffSeason) -> Seq<char> {
    match p {
        TariffSeason::Default => "default"@,
        TariffSeason::Summer => "summer"@,
        TariffSeason::Autumn => "autumn"@,
        TariffSeason::Winter => "winter"@,
        TariffSeason::Spring => "spring"@,
        TariffSeason::NonSummer => "non summer"@,
        TariffSeason::Holiday => "holiday"@,
        TariffSeason::Weekend => "weekend"@,
        TariffSeason::WeekendHoliday => "weekend holiday"@,
        TariffSeason::Weekday => "weekday"@,
    }
}

/// The camel-case wording a tariff season is decoded from.
pub open spec fn spec_tariff_season_of(s: Seq<char>) -> Option<TariffSeason> {
    if s == "default"@ {
        Some(TariffSeason::Default)
    } else if s == "summer"@ {
        Some(TariffSeason::Summer)
    } else if s == "autumn"@ {
        Some(TariffSeason::Autumn)
    } else if s == "winter"@ {
        Some(TariffSeason::Winter)
    } else if s == "spring"@ {
        Some(TariffSeason::Spring)
    } else if s == "nonSummer"@ {
        Some(TariffSeason::NonSummer)
    } else if s == "holiday"@ {
        Some(TariffSeason::Holiday)
    } else if s == "weekend"@ {
        Some(TariffSeason::Weekend)
    } else if s == "weekendHoliday"@ {
        Some(TariffSeason::WeekendHoliday)
    } else if s == "weekday"@ {
        Some(TariffSeason::Weekday)
    } else {
        None
    }
}

impl TariffSeason {
    /// The display wording.
    pub fn render(&self) -> (r: String)
        ensures
            r@ == spec_tariff_season_label(*self),
    {
        match self {
            TariffSeason::Default => String::from_str("default"),
            TariffSeason::Summer => String::from_str("summer"),
            TariffSeason::Autumn => String::from_str("autumn"),
            TariffSeason::Winter => String::from_str("winter"),
            TariffSeason::Spring => String::from_str("spring"),
            TariffSeason::NonSummer => String::from_str("non summer"),
            TariffSeason::Holiday => String::from_str("holiday"),
            TariffSeason::Weekend => String::from_str("weekend"),
            TariffSeason::WeekendHoliday => String::from_str("weekend holiday"),
            TariffSeason::Weekday => String::from_str("weekday"),
        }
    }
}

/// Usage data quality.
#[derive(Debug, Clone, Copy, PartialEq, Eq, Structural)]
pub enum UsageQuality {
    /// Estimated by the metering company
    Estimated,
    /// Actual billable data
    Billable,
}

/// The display wording of a usage quality.
pub open spec fn spec_usage_quality_label(q: UsageQuality) -> Seq<char> {
    match q {
        UsageQuality::Estimated => "estimated"@,
        UsageQuality::Billable => "billable"@,
    }
}

/// The wording a usage quality is decoded from.
pub open spec fn spec_usage_quality_of(s: Seq<char>) -> Option<UsageQuality> {
    if s == "estimated"@ {
        Some(UsageQuality::Estimated)
    } else if s == "billable"@ {
        Some(UsageQuality::Billable)
    } else {
        None
    }
}

impl UsageQuality {
    /// The display wording.
    pub fn render(&self) -> (r: String)
        ensures
            r@ == spec_usage_quality_label(*self),
    {
        match self {
            UsageQuality::Estimated => String::from_str("estimated"),
            UsageQuality::Billable => String::from_str("billable"),
        }
    }
}

/// How the site's tariff affects an interval.
#[derive(Debug, Clone, Copy, PartialEq, Eq)]
pub struct TariffInformation {
    /// The Time of Use period that is active, on a time-of-use tariff.
    pub period: Option<TariffPeriod>,
    /// The Time of Use season that is active, on a time-of-use tariff.
    pub season: Option<TariffSeason>,
    /// The block that is active, on a block tariff.
    pub block: Option<u32>,
    /// Whether the interval is in the demand window, on a demand tariff.
    pub demand_window: Option<bool>,
}

/// Joins one more comma-separated part onto a listing.
pub open spec fn spec_add_part(acc: Seq<char>, part: Seq<char>) -> Seq<char> {
    if acc.len() == 0 {
        part
    } else {
        acc.add(", "@).add(part)
    }
}

/// The listed parts of a tariff information, in display order.
pub open spec fn spec_render_tariff_information(t: TariffInformation) -> Seq<char> {
    let a1 = match t.period {
        Some(p) => spec_add_part(Seq::<char>::empty(), "period:"@.add(spec_tariff_period_label(p))),
        None => Seq::<char>::empty(),
    };
    let a2 = match t.season {
        Some(se) => spec_add_part(a1, "season:"@.add(spec_tariff_season_label(se))),
        None => a1,
    };
    let a3 = match t.block {
        Some(b) => spec_add_part(a2, "block:"@.add(nat_digits(b as nat))),
        None => a2,
    };
    let a4 = match t.demand_window {
        Some(w) => spec_add_part(
            a3,
            "demand window:"@.add(
                if w {
                    "true"@
                } else {
                    "false"@
                },
            ),
        ),
        None => a3,
    };
    if a4.len() == 0 {
        "No tariff information"@
    } else {
        a4
    }
}

impl TariffInformation {
    /// Renders the comma-separated listing of the tariff details that are
    /// present, or a fixed wording when none is.
    pub fn render(&self) -> (r: String)
        ensures
            r@ == spec_render_tariff_information(*self),
    {
        let mut s = String::new();
        if let Some(p) = self.period {
            s = append_part(s, String::from_str("period:"), p.render());
        }
        if let Some(se) = self.season {
            s = append_part(s, String::from_str("season:"), se.render());
        }
        if let Some(b) = self.block {
            s = append_part(s, String::from_str("block:"), crate::text::u32_string(b));
        }
        if let Some(w) = self.demand_window {
            let word = if w {
                String::from_str("true")
            } else {
                String::from_str("false")
            };
            s = append_part(s, String::from_str("demand window:"), word);
        }
        if s.as_str().unicode_len() == 0 {
            String::from_str("No tariff information")
        } else {
            s
        }
    }
}

/// Joins `label` + `value` onto `acc`, comma-separating from what is
/// already there.
fn append_part(acc: String, label: String, value: String) -> (r: String)
    ensures
        r@ == spec_add_part(acc@, label@.add(value@)),
{
    let ghost acc0 = acc@;
    let mut s = acc;
    if s.as_str().unicode_len() != 0 {
        s.append(", ");
    }
    s.append(label.as_str());
    s.append(value.as_str());
    proof {
        assert(s@ =~= spec_add_part(acc0, label@.add(value@)));
    }
    s
}

/// Common fields of every priced interval.
#[derive(Debug, Clone, Copy, PartialEq, Eq)]
pub struct BaseInterval {
    /// Length of the interval in minutes.
    pub duration: u32,
    /// NEM spot price (c/kWh).
    pub spot_per_kwh: Dec,
    /// Cents paid per kilowatt-hour (c/kWh).
    pub per_kwh: Dec,
    /// Date the interval belongs to (in NEM time).
    pub date: Date,
    /// The interval's NEM time: the end of the interval, UTC+10.
    pub nem_time: Timestamp,
    /// Start time of the interval in UTC.
    pub start_time: Timestamp,
    /// End time of the interval in UTC.
    pub end_time: Timestamp,
    /// Percentage of renewables in the grid, within `[0, 100]`.
    pub renewables: Dec,
    /// Channel type
    pub channel_type: ChannelType,
    /// Tariff information
    pub tariff_information: Option<TariffInformation>,
    /// Spike status
    pub spike_status: SpikeStatus,
    /// Price descriptor
    pub descriptor: PriceDescriptor,
}

/// A well-formed interval: positive duration, a real calendar date,
/// ordered timestamps and a renewables percentage within `[0, 100]`.
pub open spec fn base_interval_wf(b: BaseInterval) -> bool {
    &&& b.duration > 0
    &&& date_wf(b.date)
    &&& ts_wf(b.nem_time)
    &&& ts_wf(b.start_time)
    &&& ts_wf(b.end_time)
    &&& spec_ts_lt(b.start_time, b.end_time)
    &&& 0 <= b.renewables.units <= 100 * DEC_SCALE
}

/// The interval's one-line summary.
pub open spec fn spec_render_base_interval(b: BaseInterval) -> Seq<char> {
    let head = spec_render_date(b.date).add(" "@).add(
        spec_channel_type_label(b.channel_type),
    ).add(" "@).add(spec_render_2dp(b.per_kwh.units as int)).add("c/kWh (spot: "@).add(
        spec_render_2dp(b.spot_per_kwh.units as int),
    ).add("c/kWh) ("@).add(spec_price_descriptor_label(b.descriptor)).add(") "@).add(
        spec_render_plain(b.renewables.units as int),
    ).add("% renewable"@);
    let with_spike = if b.spike_status != SpikeStatus::NoSpike {
        head.add(" spike: "@).add(spec_spike_status_label(b.spike_status))
    } else {
        head
    };
    match b.tariff_information {
        Some(t) => with_spike.add(" ["@).add(spec_render_tariff_information(t)).add("]"@),
        None => with_spike,
    }
}

impl BaseInterval {
    /// Renders the interval's one-line summary.
    pub fn render(&self) -> (r: String)
        ensures
            r@ == spec_render_base_interval(*self),
    {
        let mut s = self.date.render();
        s.append(" ");
        let ct = self.channel_type.render();
        s.append(ct.as_str());
        s.append(" ");
        let pk = self.per_kwh.render_2dp();
        s.append(pk.as_str());
        s.append("c/kWh (spot: ");
        let sp = self.spot_per_kwh.render_2dp();
        s.append(sp.as_str());
        s.append("c/kWh) (");
        let de = self.descriptor.render();
        s.append(de.as_str());
        s.append(") ");
        let re = self.renewables.render_plain();
        s.append(re.as_str());
        s.append("% renewable");
        if !matches!(self.spike_status, SpikeStatus::NoSpike) {
            s.append(" spike: ");
            let sk = self.spike_status.render();
            s.append(sk.as_str());
        }
        if let Some(t) = self.tariff_information {
            s.append(" [");
            let ti = t.render();
            s.append(ti.as_str());
            s.append("]");
        }
        s
    }
}

/// Actual interval with confirmed pricing.
#[derive(Debug, Clone, Copy, PartialEq, Eq)]
pub struct ActualInterval {
    /// Base interval data with confirmed pricing
    pub base: BaseInterval,
}

/// Forecast interval with predicted pricing.
#[derive(Debug, Clone, Copy, PartialEq, Eq)]
pub struct ForecastInterval {
    /// Base interval data with predicted pricing
    pub base: BaseInterval,
    /// Price range when volatile
    pub range: Option<Range>,
    /// Advanced price prediction
    pub advanced_price: Option<AdvancedPrice>,
}

/// Current interval with real-time pricing.
#[derive(Debug, Clone, Copy, PartialEq, Eq)]
pub struct CurrentInterval {
    /// Base interval data with real-time pricing
    pub base: BaseInterval,
    /// Price range when volatile
    pub range: Option<Range>,
    /// True while the current price is an estimate, false once locked in.
    pub estimate: bool,
    /// Advanced price prediction
    pub advanced_price: Option<AdvancedPrice>,
}

/// A priced interval of any of the three kinds.
#[derive(Debug, Clone, Copy, PartialEq, Eq)]
pub enum Interval {
    /// Actual interval with confirmed historical pricing data
    ActualInterval(ActualInterval),
    /// Forecast interval with predicted future pricing data
    ForecastInterval(ForecastInterval),
    /// Current interval with real-time pricing data
    CurrentInterval(CurrentInterval),
}

/// The base record of an interval of any kind.
pub open spec fn spec_interval_base(i: Interval) -> BaseInterval {
    match i {
        Interval::ActualInterval(a) => a.base,
        Interval::ForecastInterval(f) => f.base,
        Interval::CurrentInterval(c) => c.base,
    }
}

/// A well-formed interval of any kind.
pub open spec fn interval_wf(i: Interval) -> bool {
    base_interval_wf(spec_interval_base(i))
}

/// `Actual: {base}`.
pub open spec fn spec_render_actual_interval(a: ActualInterval) -> Seq<char> {
    "Actual: "@.add(spec_render_base_interval(a.base))
}

/// `Forecast: {base}` with the optional range and band appended.
pub open spec fn spec_render_forecast_interval(f: ForecastInterval) -> Seq<char> {
    let head = "Forecast: "@.add(spec_render_base_interval(f.base));
    let with_range = match f.range {
        Some(rg) => head.add(" Range: "@).add(spec_render_range(rg)),
        None => head,
    };
    match f.advanced_price {
        Some(ap) => with_range.add(" Advanced: "@).add(spec_render_advanced_price(ap)),
        None => with_range,
    }
}

/// `Current: {base}` with the estimate flag, range and band appended.
pub open spec fn spec_render_current_interval(c: CurrentInterval) -> Seq<char> {
    let head = "Current: "@.add(spec_render_base_interval(c.base));
    let with_est = if c.estimate {
        head.add(" (estimate)"@)
    } else {
        head
    };
    let with_range = match c.range {
        Some(rg) => with_est.add(" Range: "@).add(spec_render_range(rg)),
        None => with_est,
    };
    match c.advanced_price {
        Some(ap) => with_range.add(" Advanced: "@).add(spec_render_advanced_price(ap)),
        None => with_range,
    }
}

/// The rendering of an interval of any kind.
pub open spec fn spec_render_interval(i: Interval) -> Seq<char> {
    match i {
        Interval::ActualInterval(a) => spec_render_actual_interval(a),
        Interval::ForecastInterval(f) => spec_render_forecast_interval(f),
        Interval::CurrentInterval(c) => spec_render_current_interval(c),
    }
}

impl ActualInterval {
    /// Renders the interval, led by its kind.
    pub fn render(&self) -> (r: String)
        ensures
            r@ == spec_render_actual_interval(*self),
    {
        let mut s = String::from_str("Actual: ");
        let b = self.base.render();
        s.append(b.as_str());
        s
    }
}

impl ForecastInterval {
    /// Renders the interval, led by its kind.
    pub fn render(&self) -> (r: String)
        ensures
            r@ == spec_render_forecast_interval(*self),
    {
        let mut s = String::from_str("Forecast: ");
        let b = self.base.render();
        s.append(b.as_str());
        if let Some(rg) = self.range {
            s.append(" Range: ");
            let t = rg.render();
            s.append(t.as_str());
        }
        if let Some(ap) = self.advanced_price {
            s.append(" Advanced: ");
            let t = ap.render();
            s.append(t.as_str());
        }
        s
    }
}

impl CurrentInterval {
    /// Renders the interval, led by its kind.
    pub fn render(&self) -> (r: String)
        ensures
            r@ == spec_render_current_interval(*self),
    {
        let mut s = String::from_str("Current: ");
        let b = self.base.render();
        s.append(b.as_str());
        if self.estimate {
            s.append(" (estimate)");
        }
        if let Some(rg) = self.range {
            s.append(" Range: ");
            let t = rg.render();
            s.append(t.as_str());
        }
        if let Some(ap) = self.advanced_price {
            s.append(" Advanced: ");
            let t = ap.render();
            s.append(t.as_str());
        }
        s
    }
}

impl Interval {
    /// True for an actual interval.
    pub fn is_actual_interval(&self) -> (r: bool)
        ensures
            r == (*self is ActualInterval),
    {
        matches!(self, Interval::ActualInterval(_))
    }

    /// True for a forecast interval.
    pub fn is_forecast_interval(&self) -> (r: bool)
        ensures
            r == (*self is ForecastInterval),
    {
        matches!(self, Interval::ForecastInterval(_))
    }

    /// True for a current interval.
    pub fn is_current_interval(&self) -> (r: bool)
        ensures
            r == (*self is CurrentInterval),
    {
        matches!(self, Interval::CurrentInterval(_))
    }

    /// The base record shared by every kind of interval.
    pub fn as_base_interval(&self) -> (r: Option<&BaseInterval>)
        ensures
            match r {
                Some(b) => *b == spec_interval_base(*self),
                None => false,
            },
    {
        match self {
            Interval::ActualInterval(a) => Some(&a.base),
            Interval::ForecastInterval(f) => Some(&f.base),
            Interval::CurrentInterval(c) => Some(&c.base),
        }
    }

    /// Renders the interval, led by its kind.
    pub fn render(&self) -> (r: String)
        ensures
            r@ == spec_render_interval(*self),
    {
        match self {
            Interval::ActualInterval(a) => a.render(),
            Interval::ForecastInterval(f) => f.render(),
            Interval::CurrentInterval(c) => c.render(),
        }
    }
}

/// Consumption or generation over one interval.
#[derive(Debug, Clone, PartialEq)]
pub struct Usage {
    /// Base interval data for usage reporting
    pub base: BaseInterval,
    /// Meter channel identifier
    pub channel_identifier: String,
    /// Kilowatt-hours consumed, or generated when negative.
    pub kwh: Dec,
    /// Data quality indicator
    pub quality: UsageQuality,
    /// The total cost of the period's consumption or generation.
    pub cost: Dec,
}

/// Mathematical image of a [`Usage`].
pub struct UsageV {
    pub base: BaseInterval,
    pub channel_identifier: Seq<char>,
    pub kwh: Dec,
    pub quality: UsageQuality,
    pub cost: Dec,
}

impl View for Usage {
    type V = UsageV;

    open spec fn view(&self) -> UsageV {
        UsageV {
            base: self.base,
            channel_identifier: self.channel_identifier@,
            kwh: self.kwh,
            quality: self.quality,
            cost: self.cost,
        }
    }
}

/// A well-formed usage record.
pub open spec fn usage_wf(u: UsageV) -> bool {
    base_interval_wf(u.base)
}

/// `Usage {channel} {kwh}kWh ${cost} ({quality})`.
pub open spec fn spec_render_usage(u: UsageV) -> Seq<char> {
    "Usage "@.add(u.channel_identifier).add(" "@).add(spec_render_2dp(u.kwh.units as int)).add(
        "kWh $"@,
    ).add(spec_render_2dp(u.cost.units as int)).add(" ("@).add(
        spec_usage_quality_label(u.quality),
    ).add(")"@)
}

impl Usage {
    /// Renders the usage record's one-line summary.
    pub fn render(&self) -> (r: String)
        ensures
            r@ == spec_render_usage(self@),
    {
        let mut s = String::from_str("Usage ");
        s.append(self.channel_identifier.as_str());
        s.append(" ");
        let k = self.kwh.render_2dp();
        s.append(k.as_str());
        s.append("kWh $");
        let c = self.cost.render_2dp();
        s.append(c.as_str());
        s.append(" (");
        let q = self.quality.render();
        s.append(q.as_str());
        s.append(")");
        s
    }
}

/// Common fields of every renewables entry.
#[derive(Debug, Clone, Copy, PartialEq, Eq)]
pub struct BaseRenewable {
    /// Length of the interval in minutes.
    pub duration: u32,
    /// Date the interval belongs to (in NEM time).
    pub date: Date,
    /// The interval's NEM time: the end of the interval, UTC+10.
    pub nem_time: Timestamp,
    /// Start time of the interval in UTC.
    pub start_time: Timestamp,
    /// End time of the interval in UTC.
    pub end_time: Timestamp,
    /// Percentage of renewables in the grid, within `[0, 100]`.
    pub renewables: Dec,
    /// Renewable descriptor
    pub descriptor: RenewableDescriptor,
}

/// A well-formed renewables entry: positive duration, a real calendar
/// date, ordered timestamps and a percentage within `[0, 100]`.
pub open spec fn base_renewable_wf(b: BaseRenewable) -> bool {
    &&& b.duration > 0
    &&& date_wf(b.date)
    &&& ts_wf(b.nem_time)
    &&& ts_wf(b.start_time)
    &&& ts_wf(b.end_time)
    &&& spec_ts_lt(b.start_time, b.end_time)
    &&& 0 <= b.renewables.units <= 100 * DEC_SCALE
}

/// `{date} {renewables}% renewable ({descriptor})`.
pub open spec fn spec_render_base_renewable(b: BaseRenewable) -> Seq<char> {
    spec_render_date(b.date).add(" "@).add(spec_render_plain(b.renewables.units as int)).add(
        "% renewable ("@,
    ).add(spec_renewable_descriptor_label(b.descriptor)).add(")"@)
}

impl BaseRenewable {
    /// Renders the entry's one-line summary.
    pub fn render(&self) -> (r: String)
        ensures
            r@ == spec_render_base_renewable(*self),
    {
        let mut s = self.date.render();
        s.append(" ");
        let re = self.renewables.render_plain();
        s.append(re.as_str());
        s.append("% renewable (");
        let de = self.descriptor.render();
        s.append(de.as_str());
        s.append(")");
        s
    }
}

/// Actual renewables entry.
#[derive(Debug, Clone, Copy, PartialEq, Eq)]
pub struct ActualRenewable {
    /// Base renewable data with confirmed historical values
    pub base: BaseRenewable,
}

/// Forecast renewables entry.
#[derive(Debug, Clone, Copy, PartialEq, Eq)]
pub struct ForecastRenewable {
    /// Base renewable data with predicted future values
    pub base: BaseRenewable,
}

/// Current renewables entry.
#[derive(Debug, Clone, Copy, PartialEq, Eq)]
pub struct CurrentRenewable {
    /// Base renewable data with current real-time values
    pub base: BaseRenewable,
}

/// A renewables entry of any of the three kinds.
#[derive(Debug, Clone, Copy, PartialEq, Eq)]
pub enum Renewable {
    /// Actual renewable data with confirmed historical values
    ActualRenewable(ActualRenewable),
    /// Forecast renewable data with predicted future values
    ForecastRenewable(ForecastRenewable),
    /// Current renewable data with real-time values
    CurrentRenewable(CurrentRenewable),
}

/// The base record of a renewables entry of any kind.
pub open spec fn spec_renewable_base(r: Renewable) -> BaseRenewable {
    match r {
        Renewable::ActualRenewable(a) => a.base,
        Renewable::ForecastRenewable(f) => f.base,
        Renewable::CurrentRenewable(c) => c.base,
    }
}

/// A well-formed renewables entry of any kind.
pub open spec fn renewable_wf(r: Renewable) -> bool {
    base_renewable_wf(spec_renewable_base(r))
}

/// The rendering of a renewables entry of any kind, led by its kind.
pub open spec fn spec_render_renewable(r: Renewable) -> Seq<char> {
    match r {
        Renewable::ActualRenewable(a) => "Actual: "@.add(spec_render_base_renewable(a.base)),
        Renewable::ForecastRenewable(f) => "Forecast: "@.add(spec_render_base_renewable(f.base)),
        Renewable::CurrentRenewable(c) => "Current: "@.add(spec_render_base_renewable(c.base)),
    }
}

impl ActualRenewable {
    /// Renders the entry, led by its kind.
    pub fn render(&self) -> (r: String)
        ensures
            r@ == "Actual: "@.add(spec_render_base_renewable(self.base)),
    {
        let mut s = String::from_str("Actual: ");
        let b = self.base.render();
        s.append(b.as_str());
        s
    }
}

impl ForecastRenewable {
    /// Renders the entry, led by its kind.
    pub fn render(&self) -> (r: String)
        ensures
            r@ == "Forecast: "@.add(spec_render_base_renewable(self.base)),
    {
        let mut s = String::from_str("Forecast: ");
        let b = self.base.render();
        s.append(b.as_str());
        s
    }
}

impl CurrentRenewable {
    /// Renders the entry, led by its kind.
    pub fn render(&self) -> (r: String)
        ensures
            r@ == "Current: "@.add(spec_render_base_renewable(self.base)),
    {
        let mut s = String::from_str("Current: ");
        let b = self.base.render();
        s.append(b.as_str());
        s
    }
}

impl Renewable {
    /// True for an actual entry.
    pub fn is_actual_renewable(&self) -> (r: bool)
        ensures
            r == (*self is ActualRenewable),
    {
        matches!(self, Renewable::ActualRenewable(_))
    }

    /// True for a forecast entry.
    pub fn is_forecast_renewable(&self) -> (r: bool)
        ensures
            r == (*self is ForecastRenewable),
    {
        matches!(self, Renewable::ForecastRenewable(_))
    }

    /// True for a current entry.
    pub fn is_current_renewable(&self) -> (r: bool)
        ensures
            r == (*self is CurrentRenewable),
    {
        matches!(self, Renewable::CurrentRenewable(_))
    }

    /// The base record shared by every kind of entry.
    pub fn as_base_renewable(&self) -> (r: &BaseRenewable)
        ensures
            *r == spec_renewable_base(*self),
    {
        match self {
            Renewable::ActualRenewable(a) => &a.base,
            Renewable::ForecastRenewable(f) => &f.base,
            Renewable::CurrentRenewable(c) => &c.base,
        }
    }

    /// Renders the entry, led by its kind.
    pub fn render(&self) -> (r: String)
        ensures
            r@ == spec_render_renewable(*self),
    {
        match self {
            Renewable::ActualRenewable(a) => a.render(),
            Renewable::ForecastRenewable(f) => f.render(),
            Renewable::CurrentRenewable(c) => c.render(),
        }
    }
}

} // verus!
