//! Decoding JSON trees into the tagged response model.
//!
//! Every entity of the API arrives as a JSON object; the polymorphic
//! entities (intervals, renewables) carry a `type` field that names their
//! kind. The decoders dispatch on that tag, read each field under its
//! camel-case wire name, and enforce the model's invariants: an unknown
//! tag, a missing or mistyped field, unordered timestamps or an
//! out-of-range percentage all refuse the payload with a deserialization
//! error.

use vstd::prelude::*;
use vstd::string::*;

use crate::datetime::{
    date_wf, spec_parse_date, spec_parse_timestamp, spec_ts_lt, ts_wf, Date, Timestamp,
};
use crate::decimal::{Dec, DEC_SCALE};
use crate::error::AmberError;
use crate::json::{
    lemma_member_views_of, lemma_views_of, member_views_of, view_json, views_of, JsonV,
    JsonValue,
};
use crate::models::{
    base_interval_wf, base_renewable_wf, spec_channel_type_of, spec_price_descriptor_of,
    spec_renewable_descriptor_of, spec_site_status_of, spec_spike_status_of,
    spec_tariff_period_of, spec_tariff_season_of, spec_usage_quality_of, ActualInterval,
    ActualRenewable, AdvancedPrice, BaseInterval, BaseRenewable, Channel, ChannelV,
    CurrentInterval, CurrentRenewable, ForecastInterval, ForecastRenewable, Interval, Range,
    Renewable, Site, SiteV, TariffInformation, Usage, UsageV,
};
use crate::text::str_eq;

verus! {

/// The first binding of `key` among an object's members.
pub open spec fn spec_lookup(m: Seq<(Seq<char>, JsonV)>, key: Seq<char>) -> Option<JsonV>
    decreases m.len(),
{
    if m.len() == 0 {
        None
    } else if m[0].0 == key {
        Some(m[0].1)
    } else {
        spec_lookup(m.subrange(1, m.len() as int), key)
    }
}

/// The field `key` of `v`, when `v` is an object that has it.
pub open spec fn spec_get(v: JsonV, key: Seq<char>) -> Option<JsonV> {
    match v {
        JsonV::Obj(m) => spec_lookup(m, key),
        _ => None,
    }
}

/// The field `key` of `v`, when it is a string.
pub open spec fn spec_get_str(v: JsonV, key: Seq<char>) -> Option<Seq<char>> {
    match spec_get(v, key) {
        Some(JsonV::Str(s)) => Some(s),
        _ => None,
    }
}

/// The field `key` of `v`, when it is a number, in billionths.
pub open spec fn spec_get_num(v: JsonV, key: Seq<char>) -> Option<int> {
    match spec_get(v, key) {
        Some(JsonV::Num(n)) => Some(n),
        _ => None,
    }
}

/// The field `key` of `v`, when it is a boolean.
pub open spec fn spec_get_bool(v: JsonV, key: Seq<char>) -> Option<bool> {
    match spec_get(v, key) {
        Some(JsonV::Bool(b)) => Some(b),
        _ => None,
    }
}

/// A deserialization error with the given wording.
fn deser(msg: &str) -> (r: AmberError)
    ensures
        r@ is Deserialization,
{
    AmberError::Deserialization(String::from_str(msg))
}

/// Finds the first binding of `key` in an object's members.
fn obj_get<'a>(m: &'a Vec<(String, JsonValue)>, key: &str) -> (r: Option<&'a JsonValue>)
    ensures
        match r {
            Some(x) => spec_lookup(member_views_of(m@), key@) == Some(x@),
            None => spec_lookup(member_views_of(m@), key@) is None,
        },
{
    let ghost mv = member_views_of(m@);
    proof {
        lemma_member_views_of(m@);
    }
    let mut i: usize = 0;
    proof {
        assert(mv.subrange(0, mv.len() as int) =~= mv);
    }
    while i < m.len()
        invariant
            0 <= i <= m@.len(),
            mv == member_views_of(m@),
            mv.len() == m@.len(),
            forall|k: int| 0 <= k < m@.len() ==> #[trigger] mv[k] == (m@[k].0@, view_json(
                m@[k].1,
            )),
            spec_lookup(mv, key@) == spec_lookup(mv.subrange(i as int, mv.len() as int), key@),
        decreases m@.len() - i,
    {
        proof {
            assert(mv.subrange(i as int, mv.len() as int)[0] == mv[i as int]);
            assert(mv.subrange(i as int, mv.len() as int).subrange(
                1,
                mv.subrange(i as int, mv.len() as int).len() as int,
            ) =~= mv.subrange(i + 1, mv.len() as int));
        }
        if str_eq(m[i].0.as_str(), key) {
            return Some(&m[i].1);
        }
        i = i + 1;
    }
    proof {
        assert(mv.subrange(i as int, mv.len() as int).len() == 0);
    }
    None
}

/// Reads the string field `key` of an object.
fn get_str_field<'a>(m: &'a Vec<(String, JsonValue)>, key: &str) -> (r: Option<&'a String>)
    ensures
        match r {
            Some(s) => spec_get_str(JsonV::Obj(member_views_of(m@)), key@) == Some(s@),
            None => spec_get_str(JsonV::Obj(member_views_of(m@)), key@) is None,
        },
{
    match obj_get(m, key) {
        Some(JsonValue::Str(s)) => Some(s),
        _ => None,
    }
}

/// Reads the number field `key` of an object.
fn get_num_field(m: &Vec<(String, JsonValue)>, key: &str) -> (r: Option<Dec>)
    ensures
        match r {
            Some(d) => spec_get_num(JsonV::Obj(member_views_of(m@)), key@) == Some(
                d.units as int,
            ),
            None => spec_get_num(JsonV::Obj(member_views_of(m@)), key@) is None,
        },
{
    match obj_get(m, key) {
        Some(JsonValue::Num(d)) => Some(*d),
        _ => None,
    }
}

/// Reads the boolean field `key` of an object.
fn get_bool_field(m: &Vec<(String, JsonValue)>, key: &str) -> (r: Option<bool>)
    ensures
        match r {
            Some(b) => spec_get_bool(JsonV::Obj(member_views_of(m@)), key@) == Some(b),
            None => spec_get_bool(JsonV::Obj(member_views_of(m@)), key@) is None,
        },
{
    match obj_get(m, key) {
        Some(JsonValue::Bool(b)) => Some(*b),
        _ => None,
    }
}

/// A decimal field value as a fixed-point number.
pub open spec fn spec_dec_of(n: int) -> Dec {
    Dec { units: n as i64 }
}

/// A number in billionths as a whole `u32`.
pub open spec fn spec_whole_u32(n: int) -> Option<u32> {
    if n >= 0 && n % (DEC_SCALE as int) == 0 && n / (DEC_SCALE as int) <= u32::MAX {
        Some((n / (DEC_SCALE as int)) as u32)
    } else {
        None
    }
}

/// The required date field `key`: a string in calendar form.
pub open spec fn spec_req_date(v: JsonV, key: Seq<char>) -> Option<Date> {
    match spec_get_str(v, key) {
        Some(s) => spec_parse_date(s),
        None => None,
    }
}

/// The required timestamp field `key`: an ISO instant with offset.
pub open spec fn spec_req_ts(v: JsonV, key: Seq<char>) -> Option<Timestamp> {
    match spec_get_str(v, key) {
        Some(s) => match spec_parse_timestamp(s) {
            Some(t) => if ts_wf(t) {
                Some(t)
            } else {
                None
            },
            None => None,
        },
        None => None,
    }
}

/// The optional date field `key`: absent or null stands for no date; a
/// present field must be a well-formed date string.
pub open spec fn spec_opt_date(v: JsonV, key: Seq<char>) -> Option<Option<Date>> {
    match spec_get(v, key) {
        None => Some(None),
        Some(JsonV::Null) => Some(None),
        Some(JsonV::Str(s)) => match spec_parse_date(s) {
            Some(d) => Some(Some(d)),
            None => None,
        },
        Some(_) => None,
    }
}

/// Reads the required date field `key`.
fn date_field(m: &Vec<(String, JsonValue)>, key: &str) -> (r: Result<Date, AmberError>)
    ensures
        match spec_req_date(JsonV::Obj(member_views_of(m@)), key@) {
            Some(d) => r is Ok && r->Ok_0 == d,
            None => r is Err && r->Err_0@ is Deserialization,
        },
{
    match get_str_field(m, key) {
        Some(s) => match crate::datetime::parse_date(s.as_str()) {
            Some(d) => Ok(d),
            None => Err(deser("malformed date")),
        },
        None => Err(deser("missing date field")),
    }
}

/// Reads the required timestamp field `key`.
fn ts_field(m: &Vec<(String, JsonValue)>, key: &str) -> (r: Result<Timestamp, AmberError>)
    ensures
        match spec_req_ts(JsonV::Obj(member_views_of(m@)), key@) {
            Some(t) => r is Ok && r->Ok_0 == t,
            None => r is Err && r->Err_0@ is Deserialization,
        },
{
    match get_str_field(m, key) {
        Some(s) => match crate::datetime::parse_timestamp(s.as_str()) {
            Some(t) => {
                if t.nanos < 1_000_000_000 {
                    Ok(t)
                } else {
                    Err(deser("malformed timestamp"))
                }
            },
            None => Err(deser("malformed timestamp")),
        },
        None => Err(deser("missing timestamp field")),
    }
}

/// Reads the optional date field `key`.
fn opt_date_field(m: &Vec<(String, JsonValue)>, key: &str) -> (r: Result<
    Option<Date>,
    AmberError,
>)
    ensures
        match spec_opt_date(JsonV::Obj(member_views_of(m@)), key@) {
            Some(od) => r is Ok && r->Ok_0 == od,
            None => r is Err && r->Err_0@ is Deserialization,
        },
{
    match obj_get(m, key) {
        None => Ok(None),
        Some(JsonValue::Null) => Ok(None),
        Some(JsonValue::Str(s)) => match crate::datetime::parse_date(s.as_str()) {
            Some(d) => Ok(Some(d)),
            None => Err(deser("malformed date")),
        },
        Some(_) => Err(deser("mistyped date field")),
    }
}

/// `{min}-{max}` spot price range of a volatile interval.
pub open spec fn spec_decode_range(v: JsonV) -> Option<Range> {
    match (spec_get_num(v, "min"@), spec_get_num(v, "max"@)) {
        (Some(mn), Some(mx)) => Some(Range { min: spec_dec_of(mn), max: spec_dec_of(mx) }),
        _ => None,
    }
}

/// The low/predicted/high advanced price band.
pub open spec fn spec_decode_advanced_price(v: JsonV) -> Option<AdvancedPrice> {
    match (spec_get_num(v, "low"@), spec_get_num(v, "predicted"@), spec_get_num(v, "high"@)) {
        (Some(lo), Some(pr), Some(hi)) => Some(
            AdvancedPrice {
                low: spec_dec_of(lo),
                predicted: spec_dec_of(pr),
                high: spec_dec_of(hi),
            },
        ),
        _ => None,
    }
}

/// The optional range field `key`.
pub open spec fn spec_opt_range(v: JsonV, key: Seq<char>) -> Option<Option<Range>> {
    match spec_get(v, key) {
        None => Some(None),
        Some(JsonV::Null) => Some(None),
        Some(inner) => match spec_decode_range(inner) {
            Some(rg) => Some(Some(rg)),
            None => None,
        },
    }
}

/// The optional advanced price field `key`.
pub open spec fn spec_opt_advanced_price(v: JsonV, key: Seq<char>) -> Option<
    Option<AdvancedPrice>,
> {
    match spec_get(v, key) {
        None => Some(None),
        Some(JsonV::Null) => Some(None),
        Some(inner) => match spec_decode_advanced_price(inner) {
            Some(ap) => Some(Some(ap)),
            None => None,
        },
    }
}

/// Decodes a price range object.
pub fn decode_range(v: &JsonValue) -> (r: Result<Range, AmberError>)
    ensures
        match spec_decode_range(v@) {
            Some(rg) => r is Ok && r->Ok_0 == rg,
            None => r is Err && r->Err_0@ is Deserialization,
        },
{
    let m = match v {
        JsonValue::Obj(m) => m,
        _ => {
            return Err(deser("range is not an object"));
        },
    };
    let mn = match get_num_field(m, "min") {
        Some(d) => d,
        None => {
            return Err(deser("range lacks min"));
        },
    };
    let mx = match get_num_field(m, "max") {
        Some(d) => d,
        None => {
            return Err(deser("range lacks max"));
        },
    };
    Ok(Range { min: mn, max: mx })
}

/// Decodes an advanced price object.
pub fn decode_advanced_price(v: &JsonValue) -> (r: Result<AdvancedPrice, AmberError>)
    ensures
        match spec_decode_advanced_price(v@) {
            Some(ap) => r is Ok && r->Ok_0 == ap,
            None => r is Err && r->Err_0@ is Deserialization,
        },
{
    let m = match v {
        JsonValue::Obj(m) => m,
        _ => {
            return Err(deser("advanced price is not an object"));
        },
    };
    let lo = match get_num_field(m, "low") {
        Some(d) => d,
        None => {
            return Err(deser("advanced price lacks low"));
        },
    };
    let pr = match get_num_field(m, "predicted") {
        Some(d) => d,
        None => {
            return Err(deser("advanced price lacks predicted"));
        },
    };
    let hi = match get_num_field(m, "high") {
        Some(d) => d,
        None => {
            return Err(deser("advanced price lacks high"));
        },
    };
    Ok(AdvancedPrice { low: lo, predicted: pr, high: hi })
}

/// Reads the optional range field `key`.
fn opt_range_field(m: &Vec<(String, JsonValue)>, key: &str) -> (r: Result<
    Option<Range>,
    AmberError,
>)
    ensures
        match spec_opt_range(JsonV::Obj(member_views_of(m@)), key@) {
            Some(orv) => r is Ok && r->Ok_0 == orv,
            None => r is Err && r->Err_0@ is Deserialization,
        },
{
    match obj_get(m, key) {
        None => Ok(None),
        Some(JsonValue::Null) => Ok(None),
        Some(inner) => match decode_range(inner) {
            Ok(rg) => Ok(Some(rg)),
            Err(e) => Err(e),
        },
    }
}

/// Reads the optional advanced price field `key`.
fn opt_advanced_price_field(m: &Vec<(String, JsonValue)>, key: &str) -> (r: Result<
    Option<AdvancedPrice>,
    AmberError,
>)
    ensures
        match spec_opt_advanced_price(JsonV::Obj(member_views_of(m@)), key@) {
            Some(oap) => r is Ok && r->Ok_0 == oap,
            None => r is Err && r->Err_0@ is Deserialization,
        },
{
    match obj_get(m, key) {
        None => Ok(None),
        Some(JsonValue::Null) => Ok(None),
        Some(inner) => match decode_advanced_price(inner) {
            Ok(ap) => Ok(Some(ap)),
            Err(e) => Err(e),
        },
    }
}

/// Maps a wire wording to a channel type.
pub fn channel_type_of(s: &str) -> (r: Option<crate::models::ChannelType>)
    ensures
        r == spec_channel_type_of(s@),
{
    if str_eq(s, "general") {
        Some(crate::models::ChannelType::General)
    } else if str_eq(s, "controlledLoad") {
        Some(crate::models::ChannelType::ControlledLoad)
    } else if str_eq(s, "feedIn") {
        Some(crate::models::ChannelType::FeedIn)
    } else {
        None
    }
}

/// Maps a wire wording to a site status.
pub fn site_status_of(s: &str) -> (r: Option<crate::models::SiteStatus>)
    ensures
        r == spec_site_status_of(s@),
{
    if str_eq(s, "pending") {
        Some(crate::models::SiteStatus::Pending)
    } else if str_eq(s, "active") {
        Some(crate::models::SiteStatus::Active)
    } else if str_eq(s, "closed") {
        Some(crate::models::SiteStatus::Closed)
    } else {
        None
    }
}

/// Maps a wire wording to a spike status.
pub fn spike_status_of(s: &str) -> (r: Option<crate::models::SpikeStatus>)
    ensures
        r == spec_spike_status_of(s@),
{
    if str_eq(s, "none") {
        Some(crate::models::SpikeStatus::NoSpike)
    } else if str_eq(s, "potential") {
        Some(crate::models::SpikeStatus::Potential)
    } else if str_eq(s, "spike") {
        Some(crate::models::SpikeStatus::Spike)
    } else {
        None
    }
}

/// Maps a wire wording to a price descriptor.
pub fn price_descriptor_of(s: &str) -> (r: Option<crate::models::PriceDescriptor>)
    ensures
        r == spec_price_descriptor_of(s@),
{
    if str_eq(s, "negative") {
        Some(crate::models::PriceDescriptor::Negative)
    } else if str_eq(s, "extremelyLow") {
        Some(crate::models::PriceDescriptor::ExtremelyLow)
    } else if str_eq(s, "veryLow") {
        Some(crate::models::PriceDescriptor::VeryLow)
    } else if str_eq(s, "low") {
        Some(crate::models::PriceDescriptor::Low)
    } else if str_eq(s, "neutral") {
        Some(crate::models::PriceDescriptor::Neutral)
    } else if str_eq(s, "high") {
        Some(crate::models::PriceDescriptor::High)
    } else if str_eq(s, "spike") {
        Some(crate::models::PriceDescriptor::Spike)
    } else {
        None
    }
}

/// Maps a wire wording to a renewable descriptor.
pub fn renewable_descriptor_of(s: &str) -> (r: Option<crate::models::RenewableDescriptor>)
    ensures
        r == spec_renewable_descriptor_of(s@),
{
    if str_eq(s, "best") {
        Some(crate::models::RenewableDescriptor::Best)
    } else if str_eq(s, "great") {
        Some(crate::models::RenewableDescriptor::Great)
    } else if str_eq(s, "ok") {
        Some(crate::models::RenewableDescriptor::Okay)
    } else if str_eq(s, "notGreat") {
        Some(crate::models::RenewableDescriptor::NotGreat)
    } else if str_eq(s, "worst") {
        Some(crate::models::RenewableDescriptor::Worst)
    } else {
        None
    }
}

/// Maps a wire wording to a tariff period.
pub fn tariff_period_of(s: &str) -> (r: Option<crate::models::TariffPeriod>)
    ensures
        r == spec_tariff_period_of(s@),
{
    if str_eq(s, "offPeak") {
        Some(crate::models::TariffPeriod::OffPeak)
    } else if str_eq(s, "shoulder") {
        Some(crate::models::TariffPeriod::Shoulder)
    } else if str_eq(s, "solarSponge") {
        Some(crate::models::TariffPeriod::SolarSponge)
    } else if str_eq(s, "peak") {
        Some(crate::models::TariffPeriod::Peak)
    } else {
        None
    }
}

/// Maps a wire wording to a tariff season.
pub fn tariff_season_of(s: &str) -> (r: Option<crate::models::TariffSeason>)
    ensures
        r == spec_tariff_season_of(s@),
{
    if str_eq(s, "default") {
        Some(crate::models::TariffSeason::Default)
    } else if str_eq(s, "summer") {
        Some(crate::models::TariffSeason::Summer)
    } else if str_eq(s, "autumn") {
        Some(crate::models::TariffSeason::Autumn)
    } else if str_eq(s, "winter") {
        Some(crate::models::TariffSeason::Winter)
    } else if str_eq(s, "spring") {
        Some(crate::models::TariffSeason::Spring)
    } else if str_eq(s, "nonSummer") {
        Some(crate::models::TariffSeason::NonSummer)
    } else if str_eq(s, "holiday") {
        Some(crate::models::TariffSeason::Holiday)
    } else if str_eq(s, "weekend") {
        Some(crate::models::TariffSeason::Weekend)
    } else if str_eq(s, "weekendHoliday") {
        Some(crate::models::TariffSeason::WeekendHoliday)
    } else if str_eq(s, "weekday") {
        Some(crate::models::TariffSeason::Weekday)
    } else {
        None
    }
}

/// Maps a wire wording to a usage quality.
pub fn usage_quality_of(s: &str) -> (r: Option<crate::models::UsageQuality>)
    ensures
        r == spec_usage_quality_of(s@),
{
    if str_eq(s, "estimated") {
        Some(crate::models::UsageQuality::Estimated)
    } else if str_eq(s, "billable") {
        Some(crate::models::UsageQuality::Billable)
    } else {
        None
    }
}

/// The tariff information object: every field optional, each present one
/// held to its type.
pub open spec fn spec_decode_tariff_information(v: JsonV) -> Option<TariffInformation> {
    if !(v is Obj) {
        None
    } else {
        let period = match spec_get(v, "period"@) {
            None => Some(None),
            Some(JsonV::Null) => Some(None),
            Some(JsonV::Str(s)) => match spec_tariff_period_of(s) {
                Some(p) => Some(Some(p)),
                None => None,
            },
            Some(_) => None,
        };
        let season = match spec_get(v, "season"@) {
            None => Some(None),
            Some(JsonV::Null) => Some(None),
            Some(JsonV::Str(s)) => match spec_tariff_season_of(s) {
                Some(p) => Some(Some(p)),
                None => None,
            },
            Some(_) => None,
        };
        let block = match spec_get(v, "block"@) {
            None => Some(None),
            Some(JsonV::Null) => Some(None),
            Some(JsonV::Num(n)) => match spec_whole_u32(n) {
                Some(b) => Some(Some(b)),
                None => None,
            },
            Some(_) => None,
        };
        let dw = match spec_get(v, "demandWindow"@) {
            None => Some(None),
            Some(JsonV::Null) => Some(None),
            Some(JsonV::Bool(b)) => Some(Some(b)),
            Some(_) => None,
        };
        match (period, season, block, dw) {
            (Some(p), Some(se), Some(b), Some(w)) => Some(
                TariffInformation { period: p, season: se, block: b, demand_window: w },
            ),
            _ => None,
        }
    }
}

/// Decodes a tariff information object.
fn decode_tariff_information(v: &JsonValue) -> (r: Result<TariffInformation, AmberError>)
    ensures
        match spec_decode_tariff_information(v@) {
            Some(t) => r is Ok && r->Ok_0 == t,
            None => r is Err && r->Err_0@ is Deserialization,
        },
{
    let m = match v {
        JsonValue::Obj(m) => m,
        _ => {
            return Err(deser("tariff information is not an object"));
        },
    };
    let period = match obj_get(m, "period") {
        None => None,
        Some(JsonValue::Null) => None,
        Some(JsonValue::Str(s)) => match tariff_period_of(s.as_str()) {
            Some(p) => Some(p),
            None => {
                return Err(deser("unknown tariff period"));
            },
        },
        Some(_) => {
            return Err(deser("mistyped tariff period"));
        },
    };
    let season = match obj_get(m, "season") {
        None => None,
        Some(JsonValue::Null) => None,
        Some(JsonValue::Str(s)) => match tariff_season_of(s.as_str()) {
            Some(p) => Some(p),
            None => {
                return Err(deser("unknown tariff season"));
            },
        },
        Some(_) => {
            return Err(deser("mistyped tariff season"));
        },
    };
    let block = match obj_get(m, "block") {
        None => None,
        Some(JsonValue::Null) => None,
        Some(JsonValue::Num(d)) => match d.as_whole_u32() {
            Some(b) => Some(b),
            None => {
                return Err(deser("tariff block is not a whole number"));
            },
        },
        Some(_) => {
            return Err(deser("mistyped tariff block"));
        },
    };
    let demand_window = match obj_get(m, "demandWindow") {
        None => None,
        Some(JsonValue::Null) => None,
        Some(JsonValue::Bool(b)) => Some(*b),
        Some(_) => {
            return Err(deser("mistyped demand window"));
        },
    };
    Ok(TariffInformation { period, season, block, demand_window })
}

/// The optional tariff information field.
pub open spec fn spec_opt_tariff_information(v: JsonV) -> Option<Option<TariffInformation>> {
    match spec_get(v, "tariffInformation"@) {
        None => Some(None),
        Some(JsonV::Null) => Some(None),
        Some(inner) => match spec_decode_tariff_information(inner) {
            Some(t) => Some(Some(t)),
            None => None,
        },
    }
}

/// The common fields of a priced interval, with the model's invariants
/// enforced: positive duration, `start < end`, renewables in `[0, 100]`.
pub open spec fn spec_decode_base_interval(v: JsonV) -> Option<BaseInterval> {
    let duration = match spec_get_num(v, "duration"@) {
        Some(n) => spec_whole_u32(n),
        None => None,
    };
    let fields = (
        duration,
        spec_get_num(v, "spotPerKwh"@),
        spec_get_num(v, "perKwh"@),
        spec_req_date(v, "date"@),
        spec_req_ts(v, "nemTime"@),
        spec_req_ts(v, "startTime"@),
    );
    let tail = (
        spec_req_ts(v, "endTime"@),
        spec_get_num(v, "renewables"@),
        match spec_get_str(v, "channelType"@) {
            Some(s) => spec_channel_type_of(s),
            None => None,
        },
        spec_opt_tariff_information(v),
        match spec_get_str(v, "spikeStatus"@) {
            Some(s) => spec_spike_status_of(s),
            None => None,
        },
        match spec_get_str(v, "descriptor"@) {
            Some(s) => spec_price_descriptor_of(s),
            None => None,
        },
    );
    match (fields, tail) {
        (
            (Some(du), Some(spot), Some(per), Some(date), Some(nem), Some(start)),
            (Some(end), Some(renew), Some(ct), Some(ti), Some(sp), Some(de)),
        ) => {
            let b = BaseInterval {
                duration: du,
                spot_per_kwh: spec_dec_of(spot),
                per_kwh: spec_dec_of(per),
                date,
                nem_time: nem,
                start_time: start,
                end_time: end,
                renewables: spec_dec_of(renew),
                channel_type: ct,
                tariff_information: ti,
                spike_status: sp,
                descriptor: de,
            };
            if du > 0 && spec_ts_lt(start, end) && 0 <= renew <= 100 * (DEC_SCALE as int) {
                Some(b)
            } else {
                None
            }
        },
        _ => None,
    }
}

/// Decodes the common fields of a priced interval.
fn decode_base_interval(v: &JsonValue) -> (r: Result<BaseInterval, AmberError>)
    ensures
        match spec_decode_base_interval(v@) {
            Some(b) => r is Ok && r->Ok_0 == b,
            None => r is Err && r->Err_0@ is Deserialization,
        },
{
    let m = match v {
        JsonValue::Obj(m) => m,
        _ => {
            return Err(deser("interval is not an object"));
        },
    };
    let du = match get_num_field(m, "duration") {
        Some(d) => match d.as_whole_u32() {
            Some(n) => n,
            None => {
                return Err(deser("duration is not a whole number"));
            },
        },
        None => {
            return Err(deser("missing duration"));
        },
    };
    let spot = match get_num_field(m, "spotPerKwh") {
        Some(d) => d,
        None => {
            return Err(deser("missing spotPerKwh"));
        },
    };
    let per = match get_num_field(m, "perKwh") {
        Some(d) => d,
        None => {
            return Err(deser("missing perKwh"));
        },
    };
    let date = match date_field(m, "date") {
        Ok(d) => d,
        Err(e) => {
            return Err(e);
        },
    };
    let nem = match ts_field(m, "nemTime") {
        Ok(t) => t,
        Err(e) => {
            return Err(e);
        },
    };
    let start = match ts_field(m, "startTime") {
        Ok(t) => t,
        Err(e) => {
            return Err(e);
        },
    };
    let end = match ts_field(m, "endTime") {
        Ok(t) => t,
        Err(e) => {
            return Err(e);
        },
    };
    let renew = match get_num_field(m, "renewables") {
        Some(d) => d,
        None => {
            return Err(deser("missing renewables"));
        },
    };
    let ct = match get_str_field(m, "channelType") {
        Some(s) => match channel_type_of(s.as_str()) {
            Some(c) => c,
            None => {
                return Err(deser("unknown channel type"));
            },
        },
        None => {
            return Err(deser("missing channelType"));
        },
    };
    let ti = match obj_get(m, "tariffInformation") {
        None => None,
        Some(JsonValue::Null) => None,
        Some(inner) => match decode_tariff_information(inner) {
            Ok(t) => Some(t),
            Err(e) => {
                return Err(e);
            },
        },
    };
    let sp = match get_str_field(m, "spikeStatus") {
        Some(s) => match spike_status_of(s.as_str()) {
            Some(c) => c,
            None => {
                return Err(deser("unknown spike status"));
            },
        },
        None => {
            return Err(deser("missing spikeStatus"));
        },
    };
    let de = match get_str_field(m, "descriptor") {
        Some(s) => match price_descriptor_of(s.as_str()) {
            Some(c) => c,
            None => {
                return Err(deser("unknown price descriptor"));
            },
        },
        None => {
            return Err(deser("missing descriptor"));
        },
    };
    if !(du > 0) {
        return Err(deser("duration must be positive"));
    }
    if !start.lt(&end) {
        return Err(deser("interval must start before it ends"));
    }
    if !(0 <= renew.units && renew.units <= 100 * DEC_SCALE) {
        return Err(deser("renewables percentage out of range"));
    }
    Ok(
        BaseInterval {
            duration: du,
            spot_per_kwh: spot,
            per_kwh: per,
            date,
            nem_time: nem,
            start_time: start,
            end_time: end,
            renewables: renew,
            channel_type: ct,
            tariff_information: ti,
            spike_status: sp,
            descriptor: de,
        },
    )
}

/// A tagged interval: the `type` field names one of the three closed
/// kinds; any other wording refuses the payload.
pub open spec fn spec_decode_interval(v: JsonV) -> Option<Interval> {
    match spec_get_str(v, "type"@) {
        Some(t) => {
            if t == "ActualInterval"@ {
                match spec_decode_base_interval(v) {
                    Some(b) => Some(Interval::ActualInterval(ActualInterval { base: b })),
                    None => None,
                }
            } else if t == "ForecastInterval"@ {
                match (
                    spec_decode_base_interval(v),
                    spec_opt_range(v, "range"@),
                    spec_opt_advanced_price(v, "advancedPrice"@),
                ) {
                    (Some(b), Some(rg), Some(ap)) => Some(
                        Interval::ForecastInterval(
                            ForecastInterval { base: b, range: rg, advanced_price: ap },
                        ),
                    ),
                    _ => None,
                }
            } else if t == "CurrentInterval"@ {
                match (
                    spec_decode_base_interval(v),
                    spec_opt_range(v, "range"@),
                    spec_get_bool(v, "estimate"@),
                    spec_opt_advanced_price(v, "advancedPrice"@),
                ) {
                    (Some(b), Some(rg), Some(est), Some(ap)) => Some(
                        Interval::CurrentInterval(
                            CurrentInterval {
                                base: b,
                                range: rg,
                                estimate: est,
                                advanced_price: ap,
                            },
                        ),
                    ),
                    _ => None,
                }
            } else {
                None
            }
        },
        None => None,
    }
}

/// Decodes one tagged interval.
pub fn decode_interval(v: &JsonValue) -> (r: Result<Interval, AmberError>)
    ensures
        match spec_decode_interval(v@) {
            Some(iv) => r is Ok && r->Ok_0 == iv,
            None => r is Err && r->Err_0@ is Deserialization,
        },
{
    let m = match v {
        JsonValue::Obj(m) => m,
        _ => {
            return Err(deser("interval is not an object"));
        },
    };
    let tag = match get_str_field(m, "type") {
        Some(s) => s,
        None => {
            return Err(deser("missing type tag"));
        },
    };
    if str_eq(tag.as_str(), "ActualInterval") {
        match decode_base_interval(v) {
            Ok(b) => Ok(Interval::ActualInterval(ActualInterval { base: b })),
            Err(e) => Err(e),
        }
    } else if str_eq(tag.as_str(), "ForecastInterval") {
        let b = match decode_base_interval(v) {
            Ok(b) => b,
            Err(e) => {
                return Err(e);
            },
        };
        let rg = match opt_range_field(m, "range") {
            Ok(rg) => rg,
            Err(e) => {
                return Err(e);
            },
        };
        let ap = match opt_advanced_price_field(m, "advancedPrice") {
            Ok(ap) => ap,
            Err(e) => {
                return Err(e);
            },
        };
        Ok(Interval::ForecastInterval(ForecastInterval { base: b, range: rg, advanced_price: ap }))
    } else if str_eq(tag.as_str(), "CurrentInterval") {
        let b = match decode_base_interval(v) {
            Ok(b) => b,
            Err(e) => {
                return Err(e);
            },
        };
        let rg = match opt_range_field(m, "range") {
            Ok(rg) => rg,
            Err(e) => {
                return Err(e);
            },
        };
        let est = match get_bool_field(m, "estimate") {
            Some(b) => b,
            None => {
                return Err(deser("missing estimate flag"));
            },
        };
        let ap = match opt_advanced_price_field(m, "advancedPrice") {
            Ok(ap) => ap,
            Err(e) => {
                return Err(e);
            },
        };
        Ok(
            Interval::CurrentInterval(
                CurrentInterval { base: b, range: rg, estimate: est, advanced_price: ap },
            ),
        )
    } else {
        Err(deser("unknown interval type tag"))
    }
}

/// A usage record: an interval-shaped base plus the channel, energy,
/// quality and cost fields. The `type` field, always `Usage`, is ignored.
pub open spec fn spec_decode_usage(v: JsonV) -> Option<UsageV> {
    match (
        spec_decode_base_interval(v),
        spec_get_str(v, "channelIdentifier"@),
        spec_get_num(v, "kwh"@),
        match spec_get_str(v, "quality"@) {
            Some(s) => spec_usage_quality_of(s),
            None => None,
        },
        spec_get_num(v, "cost"@),
    ) {
        (Some(b), Some(ch), Some(k), Some(q), Some(c)) => Some(
            UsageV {
                base: b,
                channel_identifier: ch,
                kwh: spec_dec_of(k),
                quality: q,
                cost: spec_dec_of(c),
            },
        ),
        _ => None,
    }
}

/// Decodes one usage record.
pub fn decode_usage_record(v: &JsonValue) -> (r: Result<Usage, AmberError>)
    ensures
        match spec_decode_usage(v@) {
            Some(u) => r is Ok && r->Ok_0@ == u,
            None => r is Err && r->Err_0@ is Deserialization,
        },
{
    let m = match v {
        JsonValue::Obj(m) => m,
        _ => {
            return Err(deser("usage record is not an object"));
        },
    };
    let b = match decode_base_interval(v) {
        Ok(b) => b,
        Err(e) => {
            return Err(e);
        },
    };
    let ch = match get_str_field(m, "channelIdentifier") {
        Some(s) => s.clone(),
        None => {
            return Err(deser("missing channelIdentifier"));
        },
    };
    let k = match get_num_field(m, "kwh") {
        Some(d) => d,
        None => {
            return Err(deser("missing kwh"));
        },
    };
    let q = match get_str_field(m, "quality") {
        Some(s) => match usage_quality_of(s.as_str()) {
            Some(q) => q,
            None => {
                return Err(deser("unknown usage quality"));
            },
        },
        None => {
            return Err(deser("missing quality"));
        },
    };
    let c = match get_num_field(m, "cost") {
        Some(d) => d,
        None => {
            return Err(deser("missing cost"));
        },
    };
    Ok(Usage { base: b, channel_identifier: ch, kwh: k, quality: q, cost: c })
}

/// The common fields of a renewables entry, with the model's invariants
/// enforced.
pub open spec fn spec_decode_base_renewable(v: JsonV) -> Option<BaseRenewable> {
    let duration = match spec_get_num(v, "duration"@) {
        Some(n) => spec_whole_u32(n),
        None => None,
    };
    match (
        duration,
        spec_req_date(v, "date"@),
        spec_req_ts(v, "nemTime"@),
        spec_req_ts(v, "startTime"@),
        spec_req_ts(v, "endTime"@),
        spec_get_num(v, "renewables"@),
        match spec_get_str(v, "descriptor"@) {
            Some(s) => spec_renewable_descriptor_of(s),
            None => None,
        },
    ) {
        (Some(du), Some(date), Some(nem), Some(start), Some(end), Some(renew), Some(de)) => {
            if du > 0 && spec_ts_lt(start, end) && 0 <= renew <= 100 * (DEC_SCALE as int) {
                Some(
                    BaseRenewable {
                        duration: du,
                        date,
                        nem_time: nem,
                        start_time: start,
                        end_time: end,
                        renewables: spec_dec_of(renew),
                        descriptor: de,
                    },
                )
            } else {
                None
            }
        },
        _ => None,
    }
}

/// Decodes the common fields of a renewables entry.
fn decode_base_renewable(v: &JsonValue) -> (r: Result<BaseRenewable, AmberError>)
    ensures
        match spec_decode_base_renewable(v@) {
            Some(b) => r is Ok && r->Ok_0 == b,
            None => r is Err && r->Err_0@ is Deserialization,
        },
{
    let m = match v {
        JsonValue::Obj(m) => m,
        _ => {
            return Err(deser("renewables entry is not an object"));
        },
    };
    let du = match get_num_field(m, "duration") {
        Some(d) => match d.as_whole_u32() {
            Some(n) => n,
            None => {
                return Err(deser("duration is not a whole number"));
            },
        },
        None => {
            return Err(deser("missing duration"));
        },
    };
    let date = match date_field(m, "date") {
        Ok(d) => d,
        Err(e) => {
            return Err(e);
        },
    };
    let nem = match ts_field(m, "nemTime") {
        Ok(t) => t,
        Err(e) => {
            return Err(e);
        },
    };
    let start = match ts_field(m, "startTime") {
        Ok(t) => t,
        Err(e) => {
            return Err(e);
        },
    };
    let end = match ts_field(m, "endTime") {
        Ok(t) => t,
        Err(e) => {
            return Err(e);
        },
    };
    let renew = match get_num_field(m, "renewables") {
        Some(d) => d,
        None => {
            return Err(deser("missing renewables"));
        },
    };
    let de = match get_str_field(m, "descriptor") {
        Some(s) => match renewable_descriptor_of(s.as_str()) {
            Some(c) => c,
            None => {
                return Err(deser("unknown renewable descriptor"));
            },
        },
        None => {
            return Err(deser("missing descriptor"));
        },
    };
    if !(du > 0) {
        return Err(deser("duration must be positive"));
    }
    if !start.lt(&end) {
        return Err(deser("interval must start before it ends"));
    }
    if !(0 <= renew.units && renew.units <= 100 * DEC_SCALE) {
        return Err(deser("renewables percentage out of range"));
    }
    Ok(
        BaseRenewable {
            duration: du,
            date,
            nem_time: nem,
            start_time: start,
            end_time: end,
            renewables: renew,
            descriptor: de,
        },
    )
}

/// A tagged renewables entry: the `type` field names one of the three
/// closed kinds; any other wording refuses the payload.
pub open spec fn spec_decode_renewable(v: JsonV) -> Option<Renewable> {
    match spec_get_str(v, "type"@) {
        Some(t) => {
            if t == "ActualRenewable"@ {
                match spec_decode_base_renewable(v) {
                    Some(b) => Some(Renewable::ActualRenewable(ActualRenewable { base: b })),
                    None => None,
                }
            } else if t == "ForecastRenewable"@ {
                match spec_decode_base_renewable(v) {
                    Some(b) => Some(Renewable::ForecastRenewable(ForecastRenewable { base: b })),
                    None => None,
                }
            } else if t == "CurrentRenewable"@ {
                match spec_decode_base_renewable(v) {
                    Some(b) => Some(Renewable::CurrentRenewable(CurrentRenewable { base: b })),
                    None => None,
                }
            } else {
                None
            }
        },
        None => None,
    }
}

/// Decodes one tagged renewables entry.
pub fn decode_renewable(v: &JsonValue) -> (r: Result<Renewable, AmberError>)
    ensures
        match spec_decode_renewable(v@) {
            Some(rv) => r is Ok && r->Ok_0 == rv,
            None => r is Err && r->Err_0@ is Deserialization,
        },
{
    let m = match v {
        JsonValue::Obj(m) => m,
        _ => {
            return Err(deser("renewables entry is not an object"));
        },
    };
    let tag = match get_str_field(m, "type") {
        Some(s) => s,
        None => {
            return Err(deser("missing type tag"));
        },
    };
    if str_eq(tag.as_str(), "ActualRenewable") {
        match decode_base_renewable(v) {
            Ok(b) => Ok(Renewable::ActualRenewable(ActualRenewable { base: b })),
            Err(e) => Err(e),
        }
    } else if str_eq(tag.as_str(), "ForecastRenewable") {
        match decode_base_renewable(v) {
            Ok(b) => Ok(Renewable::ForecastRenewable(ForecastRenewable { base: b })),
            Err(e) => Err(e),
        }
    } else if str_eq(tag.as_str(), "CurrentRenewable") {
        match decode_base_renewable(v) {
            Ok(b) => Ok(Renewable::CurrentRenewable(CurrentRenewable { base: b })),
            Err(e) => Err(e),
        }
    } else {
        Err(deser("unknown renewable type tag"))
    }
}

/// A site's meter channel.
pub open spec fn spec_decode_channel(v: JsonV) -> Option<ChannelV> {
    match (
        spec_get_str(v, "identifier"@),
        match spec_get_str(v, "type"@) {
            Some(s) => spec_channel_type_of(s),
            None => None,
        },
        spec_get_str(v, "tariff"@),
    ) {
        (Some(id), Some(ct), Some(tf)) => Some(
            ChannelV { identifier: id, channel_type: ct, tariff: tf },
        ),
        _ => None,
    }
}

/// Decodes one meter channel.
pub fn decode_channel(v: &JsonValue) -> (r: Result<Channel, AmberError>)
    ensures
        match spec_decode_channel(v@) {
            Some(cv) => r is Ok && r->Ok_0@ == cv,
            None => r is Err && r->Err_0@ is Deserialization,
        },
{
    let m = match v {
        JsonValue::Obj(m) => m,
        _ => {
            return Err(deser("channel is not an object"));
        },
    };
    let id = match get_str_field(m, "identifier") {
        Some(s) => s.clone(),
        None => {
            return Err(deser("missing channel identifier"));
        },
    };
    let ct = match get_str_field(m, "type") {
        Some(s) => match channel_type_of(s.as_str()) {
            Some(c) => c,
            None => {
                return Err(deser("unknown channel type"));
            },
        },
        None => {
            return Err(deser("missing channel type"));
        },
    };
    let tf = match get_str_field(m, "tariff") {
        Some(s) => s.clone(),
        None => {
            return Err(deser("missing channel tariff"));
        },
    };
    Ok(Channel { identifier: id, channel_type: ct, tariff: tf })
}

/// The channels of a site, element for element.
pub open spec fn spec_decode_channels(es: Seq<JsonV>) -> Option<Seq<ChannelV>>
    decreases es.len(),
{
    if es.len() == 0 {
        Some(Seq::<ChannelV>::empty())
    } else {
        match spec_decode_channel(es[0]) {
            Some(c) => match spec_decode_channels(es.subrange(1, es.len() as int)) {
                Some(rest) => Some(seq![c].add(rest)),
                None => None,
            },
            None => None,
        }
    }
}

/// The images of a vector of channels.
pub open spec fn seq_view_channels(v: Seq<Channel>) -> Seq<ChannelV> {
    Seq::new(v.len(), |i: int| v[i]@)
}

/// Decodes a site's channel array.
fn decode_channels(elems: &Vec<JsonValue>) -> (r: Result<Vec<Channel>, AmberError>)
    ensures
        match spec_decode_channels(views_of(elems@)) {
            Some(s) => r is Ok && seq_view_channels(r->Ok_0@) == s,
            None => r is Err && r->Err_0@ is Deserialization,
        },
{
    let ghost evs = views_of(elems@);
    proof {
        lemma_views_of(elems@);
    }
    let mut out: Vec<Channel> = Vec::new();
    let mut i: usize = 0;
    proof {
        assert(evs.subrange(0, evs.len() as int) =~= evs);
        assert(seq_view_channels(out@) =~= Seq::<ChannelV>::empty());
    }
    while i < elems.len()
        invariant
            0 <= i <= elems@.len(),
            evs == views_of(elems@),
            evs.len() == elems@.len(),
            forall|k: int| 0 <= k < elems@.len() ==> #[trigger] evs[k] == view_json(elems@[k]),
            out@.len() == i,
            match spec_decode_channels(evs.subrange(i as int, evs.len() as int)) {
                Some(rest) => spec_decode_channels(evs) == Some(
                    seq_view_channels(out@).add(rest),
                ),
                None => spec_decode_channels(evs) is None,
            },
        decreases elems@.len() - i,
    {
        proof {
            assert(evs.subrange(i as int, evs.len() as int)[0] == evs[i as int]);
            assert(evs.subrange(i as int, evs.len() as int).subrange(
                1,
                evs.subrange(i as int, evs.len() as int).len() as int,
            ) =~= evs.subrange(i + 1, evs.len() as int));
        }
        let c = match decode_channel(&elems[i]) {
            Ok(c) => c,
            Err(e) => {
                return Err(e);
            },
        };
        proof {
            if spec_decode_channels(evs.subrange(i + 1, evs.len() as int)) is Some {
                let rest2 = spec_decode_channels(evs.subrange(i + 1, evs.len() as int))->Some_0;
                assert(seq_view_channels(out@).add(seq![c@].add(rest2)) =~= seq_view_channels(
                    out@.push(c),
                ).add(rest2));
            }
        }
        out.push(c);
        i = i + 1;
    }
    proof {
        assert(evs.subrange(i as int, evs.len() as int).len() == 0);
        assert(seq_view_channels(out@).add(Seq::<ChannelV>::empty()) =~= seq_view_channels(out@));
    }
    Ok(out)
}

/// A site object, with its billing interval held to 5 or 30 minutes and
/// its optional dates to calendar form.
pub open spec fn spec_decode_site(v: JsonV) -> Option<SiteV> {
    let channels = match spec_get(v, "channels"@) {
        Some(JsonV::Arr(es)) => spec_decode_channels(es),
        _ => None,
    };
    let il = match spec_get_num(v, "intervalLength"@) {
        Some(n) => spec_whole_u32(n),
        None => None,
    };
    match (
        spec_get_str(v, "id"@),
        spec_get_str(v, "nmi"@),
        channels,
        spec_get_str(v, "network"@),
        match spec_get_str(v, "status"@) {
            Some(s) => spec_site_status_of(s),
            None => None,
        },
        spec_opt_date(v, "activeFrom"@),
        spec_opt_date(v, "closedOn"@),
        il,
    ) {
        (Some(id), Some(nmi), Some(ch), Some(nw), Some(st), Some(af), Some(co), Some(n)) => {
            if n == 5 || n == 30 {
                Some(
                    SiteV {
                        id,
                        nmi,
                        channels: ch,
                        network: nw,
                        status: st,
                        active_from: af,
                        closed_on: co,
                        interval_length: n,
                    },
                )
            } else {
                None
            }
        },
        _ => None,
    }
}

/// Decodes one site.
pub fn decode_site(v: &JsonValue) -> (r: Result<Site, AmberError>)
    ensures
        match spec_decode_site(v@) {
            Some(sv) => r is Ok && r->Ok_0@ == sv,
            None => r is Err && r->Err_0@ is Deserialization,
        },
{
    let m = match v {
        JsonValue::Obj(m) => m,
        _ => {
            return Err(deser("site is not an object"));
        },
    };
    let id = match get_str_field(m, "id") {
        Some(s) => s.clone(),
        None => {
            return Err(deser("missing site id"));
        },
    };
    let nmi = match get_str_field(m, "nmi") {
        Some(s) => s.clone(),
        None => {
            return Err(deser("missing site nmi"));
        },
    };
    let ch = match obj_get(m, "channels") {
        Some(JsonValue::Arr(es)) => match decode_channels(es) {
            Ok(c) => c,
            Err(e) => {
                return Err(e);
            },
        },
        _ => {
            return Err(deser("missing channels array"));
        },
    };
    let nw = match get_str_field(m, "network") {
        Some(s) => s.clone(),
        None => {
            return Err(deser("missing network"));
        },
    };
    let st = match get_str_field(m, "status") {
        Some(s) => match site_status_of(s.as_str()) {
            Some(c) => c,
            None => {
                return Err(deser("unknown site status"));
            },
        },
        None => {
            return Err(deser("missing site status"));
        },
    };
    let af = match opt_date_field(m, "activeFrom") {
        Ok(d) => d,
        Err(e) => {
            return Err(e);
        },
    };
    let co = match opt_date_field(m, "closedOn") {
        Ok(d) => d,
        Err(e) => {
            return Err(e);
        },
    };
    let il = match get_num_field(m, "intervalLength") {
        Some(d) => match d.as_whole_u32() {
            Some(n) => n,
            None => {
                return Err(deser("interval length is not a whole number"));
            },
        },
        None => {
            return Err(deser("missing intervalLength"));
        },
    };
    if !(il == 5 || il == 30) {
        return Err(deser("interval length must be 5 or 30"));
    }
    let site = Site {
        id,
        nmi,
        channels: ch,
        network: nw,
        status: st,
        active_from: af,
        closed_on: co,
        interval_length: il,
    };
    proof {
        assert(site@.channels =~= seq_view_channels(site.channels@));
    }
    Ok(site)
}

/// A whole response of intervals, element for element.
pub open spec fn spec_decode_intervals(es: Seq<JsonV>) -> Option<Seq<Interval>>
    decreases es.len(),
{
    if es.len() == 0 {
        Some(Seq::<Interval>::empty())
    } else {
        match spec_decode_interval(es[0]) {
            Some(x) => match spec_decode_intervals(es.subrange(1, es.len() as int)) {
                Some(rest) => Some(seq![x].add(rest)),
                None => None,
            },
            None => None,
        }
    }
}

/// A whole response of renewables entries, element for element.
pub open spec fn spec_decode_renewables(es: Seq<JsonV>) -> Option<Seq<Renewable>>
    decreases es.len(),
{
    if es.len() == 0 {
        Some(Seq::<Renewable>::empty())
    } else {
        match spec_decode_renewable(es[0]) {
            Some(x) => match spec_decode_renewables(es.subrange(1, es.len() as int)) {
                Some(rest) => Some(seq![x].add(rest)),
                None => None,
            },
            None => None,
        }
    }
}

/// A whole response of usage records, element for element.
pub open spec fn spec_decode_usages(es: Seq<JsonV>) -> Option<Seq<UsageV>>
    decreases es.len(),
{
    if es.len() == 0 {
        Some(Seq::<UsageV>::empty())
    } else {
        match spec_decode_usage(es[0]) {
            Some(x) => match spec_decode_usages(es.subrange(1, es.len() as int)) {
                Some(rest) => Some(seq![x].add(rest)),
                None => None,
            },
            None => None,
        }
    }
}

/// A whole response of sites, element for element.
pub open spec fn spec_decode_site_list(es: Seq<JsonV>) -> Option<Seq<SiteV>>
    decreases es.len(),
{
    if es.len() == 0 {
        Some(Seq::<SiteV>::empty())
    } else {
        match spec_decode_site(es[0]) {
            Some(x) => match spec_decode_site_list(es.subrange(1, es.len() as int)) {
                Some(rest) => Some(seq![x].add(rest)),
                None => None,
            },
            None => None,
        }
    }
}

/// The images of a vector of usage records.
pub open spec fn seq_view_usages(v: Seq<Usage>) -> Seq<UsageV> {
    Seq::new(v.len(), |i: int| v[i]@)
}

/// The images of a vector of sites.
pub open spec fn seq_view_sites(v: Seq<Site>) -> Seq<SiteV> {
    Seq::new(v.len(), |i: int| v[i]@)
}

/// A prices response body: a JSON array of tagged intervals.
pub open spec fn spec_decode_prices_body(s: Seq<char>) -> Option<Seq<Interval>> {
    match crate::json::spec_parse_json(s) {
        Some(JsonV::Arr(es)) => spec_decode_intervals(es),
        _ => None,
    }
}

/// A renewables response body: a JSON array of tagged entries.
pub open spec fn spec_decode_renewables_body(s: Seq<char>) -> Option<Seq<Renewable>> {
    match crate::json::spec_parse_json(s) {
        Some(JsonV::Arr(es)) => spec_decode_renewables(es),
        _ => None,
    }
}

/// A usage response body: a JSON array of usage records.
pub open spec fn spec_decode_usage_body(s: Seq<char>) -> Option<Seq<UsageV>> {
    match crate::json::spec_parse_json(s) {
        Some(JsonV::Arr(es)) => spec_decode_usages(es),
        _ => None,
    }
}

/// A sites response body: a JSON array of sites.
pub open spec fn spec_decode_sites_body(s: Seq<char>) -> Option<Seq<SiteV>> {
    match crate::json::spec_parse_json(s) {
        Some(JsonV::Arr(es)) => spec_decode_site_list(es),
        _ => None,
    }
}

/// Decodes an array of tagged intervals.
fn decode_interval_list(elems: &Vec<JsonValue>) -> (r: Result<Vec<Interval>, AmberError>)
    ensures
        match spec_decode_intervals(views_of(elems@)) {
            Some(s) => r is Ok && r->Ok_0@ == s,
            None => r is Err && r->Err_0@ is Deserialization,
        },
{
    let ghost evs = views_of(elems@);
    proof {
        lemma_views_of(elems@);
    }
    let mut out: Vec<Interval> = Vec::new();
    let mut i: usize = 0;
    proof {
        assert(evs.subrange(0, evs.len() as int) =~= evs);
    }
    while i < elems.len()
        invariant
            0 <= i <= elems@.len(),
            evs == views_of(elems@),
            evs.len() == elems@.len(),
            forall|k: int| 0 <= k < elems@.len() ==> #[trigger] evs[k] == view_json(elems@[k]),
            match spec_decode_intervals(evs.subrange(i as int, evs.len() as int)) {
                Some(rest) => spec_decode_intervals(evs) == Some(out@.add(rest)),
                None => spec_decode_intervals(evs) is None,
            },
        decreases elems@.len() - i,
    {
        proof {
            assert(evs.subrange(i as int, evs.len() as int)[0] == evs[i as int]);
            assert(evs.subrange(i as int, evs.len() as int).subrange(
                1,
                evs.subrange(i as int, evs.len() as int).len() as int,
            ) =~= evs.subrange(i + 1, evs.len() as int));
        }
        let x = match decode_interval(&elems[i]) {
            Ok(x) => x,
            Err(e) => {
                return Err(e);
            },
        };
        proof {
            if spec_decode_intervals(evs.subrange(i + 1, evs.len() as int)) is Some {
                let rest2 = spec_decode_intervals(evs.subrange(i + 1, evs.len() as int))->Some_0;
                assert(out@.add(seq![x].add(rest2)) =~= out@.push(x).add(rest2));
            }
        }
        out.push(x);
        i = i + 1;
    }
    proof {
        assert(evs.subrange(i as int, evs.len() as int).len() == 0);
        assert(out@.add(Seq::<Interval>::empty()) =~= out@);
    }
    Ok(out)
}

/// Decodes an array of tagged renewables entries.
fn decode_renewable_list(elems: &Vec<JsonValue>) -> (r: Result<Vec<Renewable>, AmberError>)
    ensures
        match spec_decode_renewables(views_of(elems@)) {
            Some(s) => r is Ok && r->Ok_0@ == s,
            None => r is Err && r->Err_0@ is Deserialization,
        },
{
    let ghost evs = views_of(elems@);
    proof {
        lemma_views_of(elems@);
    }
    let mut out: Vec<Renewable> = Vec::new();
    let mut i: usize = 0;
    proof {
        assert(evs.subrange(0, evs.len() as int) =~= evs);
    }
    while i < elems.len()
        invariant
            0 <= i <= elems@.len(),
            evs == views_of(elems@),
            evs.len() == elems@.len(),
            forall|k: int| 0 <= k < elems@.len() ==> #[trigger] evs[k] == view_json(elems@[k]),
            match spec_decode_renewables(evs.subrange(i as int, evs.len() as int)) {
                Some(rest) => spec_decode_renewables(evs) == Some(out@.add(rest)),
                None => spec_decode_renewables(evs) is None,
            },
        decreases elems@.len() - i,
    {
        proof {
            assert(evs.subrange(i as int, evs.len() as int)[0] == evs[i as int]);
            assert(evs.subrange(i as int, evs.len() as int).subrange(
                1,
                evs.subrange(i as int, evs.len() as int).len() as int,
            ) =~= evs.subrange(i + 1, evs.len() as int));
        }
        let x = match decode_renewable(&elems[i]) {
            Ok(x) => x,
            Err(e) => {
                return Err(e);
            },
        };
        proof {
            if spec_decode_renewables(evs.subrange(i + 1, evs.len() as int)) is Some {
                let rest2 = spec_decode_renewables(evs.subrange(i + 1, evs.len() as int))->Some_0;
                assert(out@.add(seq![x].add(rest2)) =~= out@.push(x).add(rest2));
            }
        }
        out.push(x);
        i = i + 1;
    }
    proof {
        assert(evs.subrange(i as int, evs.len() as int).len() == 0);
        assert(out@.add(Seq::<Renewable>::empty()) =~= out@);
    }
    Ok(out)
}

/// Decodes an array of usage records.
fn decode_usage_list(elems: &Vec<JsonValue>) -> (r: Result<Vec<Usage>, AmberError>)
    ensures
        match spec_decode_usages(views_of(elems@)) {
            Some(s) => r is Ok && seq_view_usages(r->Ok_0@) == s,
            None => r is Err && r->Err_0@ is Deserialization,
        },
{
    let ghost evs = views_of(elems@);
    proof {
        lemma_views_of(elems@);
    }
    let mut out: Vec<Usage> = Vec::new();
    let mut i: usize = 0;
    proof {
        assert(evs.subrange(0, evs.len() as int) =~= evs);
        assert(seq_view_usages(out@) =~= Seq::<UsageV>::empty());
    }
    while i < elems.len()
        invariant
            0 <= i <= elems@.len(),
            evs == views_of(elems@),
            evs.len() == elems@.len(),
            forall|k: int| 0 <= k < elems@.len() ==> #[trigger] evs[k] == view_json(elems@[k]),
            match spec_decode_usages(evs.subrange(i as int, evs.len() as int)) {
                Some(rest) => spec_decode_usages(evs) == Some(seq_view_usages(out@).add(rest)),
                None => spec_decode_usages(evs) is None,
            },
        decreases elems@.len() - i,
    {
        proof {
            assert(evs.subrange(i as int, evs.len() as int)[0] == evs[i as int]);
            assert(evs.subrange(i as int, evs.len() as int).subrange(
                1,
                evs.subrange(i as int, evs.len() as int).len() as int,
            ) =~= evs.subrange(i + 1, evs.len() as int));
        }
        let x = match decode_usage_record(&elems[i]) {
            Ok(x) => x,
            Err(e) => {
                return Err(e);
            },
        };
        proof {
            if spec_decode_usages(evs.subrange(i + 1, evs.len() as int)) is Some {
                let rest2 = spec_decode_usages(evs.subrange(i + 1, evs.len() as int))->Some_0;
                assert(seq_view_usages(out@).add(seq![x@].add(rest2)) =~= seq_view_usages(
                    out@.push(x),
                ).add(rest2));
            }
        }
        out.push(x);
        i = i + 1;
    }
    proof {
        assert(evs.subrange(i as int, evs.len() as int).len() == 0);
        assert(seq_view_usages(out@).add(Seq::<UsageV>::empty()) =~= seq_view_usages(out@));
    }
    Ok(out)
}

/// Decodes an array of sites.
fn decode_sites_list(elems: &Vec<JsonValue>) -> (r: Result<Vec<Site>, AmberError>)
    ensures
        match spec_decode_site_list(views_of(elems@)) {
            Some(s) => r is Ok && seq_view_sites(r->Ok_0@) == s,
            None => r is Err && r->Err_0@ is Deserialization,
        },
{
    let ghost evs = views_of(elems@);
    proof {
        lemma_views_of(elems@);
    }
    let mut out: Vec<Site> = Vec::new();
    let mut i: usize = 0;
    proof {
        assert(evs.subrange(0, evs.len() as int) =~= evs);
        assert(seq_view_sites(out@) =~= Seq::<SiteV>::empty());
    }
    while i < elems.len()
        invariant
            0 <= i <= elems@.len(),
            evs == views_of(elems@),
            evs.len() == elems@.len(),
            forall|k: int| 0 <= k < elems@.len() ==> #[trigger] evs[k] == view_json(elems@[k]),
            match spec_decode_site_list(evs.subrange(i as int, evs.len() as int)) {
                Some(rest) => spec_decode_site_list(evs) == Some(seq_view_sites(out@).add(rest)),
                None => spec_decode_site_list(evs) is None,
            },
        decreases elems@.len() - i,
    {
        proof {
            assert(evs.subrange(i as int, evs.len() as int)[0] == evs[i as int]);
            assert(evs.subrange(i as int, evs.len() as int).subrange(
                1,
                evs.subrange(i as int, evs.len() as int).len() as int,
            ) =~= evs.subrange(i + 1, evs.len() as int));
        }
        let x = match decode_site(&elems[i]) {
            Ok(x) => x,
            Err(e) => {
                return Err(e);
            },
        };
        proof {
            if spec_decode_site_list(evs.subrange(i + 1, evs.len() as int)) is Some {
                let rest2 = spec_decode_site_list(evs.subrange(i + 1, evs.len() as int))->Some_0;
                assert(seq_view_sites(out@).add(seq![x@].add(rest2)) =~= seq_view_sites(
                    out@.push(x),
                ).add(rest2));
            }
        }
        out.push(x);
        i = i + 1;
    }
    proof {
        assert(evs.subrange(i as int, evs.len() as int).len() == 0);
        assert(seq_view_sites(out@).add(Seq::<SiteV>::empty()) =~= seq_view_sites(out@));
    }
    Ok(out)
}

/// Decodes a prices response body into its intervals.
pub fn decode_prices(body: &str) -> (r: Result<Vec<Interval>, AmberError>)
    ensures
        match spec_decode_prices_body(body@) {
            Some(s) => r is Ok && r->Ok_0@ == s,
            None => r is Err && r->Err_0@ is Deserialization,
        },
{
    let v = match crate::json::parse_json(body) {
        Ok(v) => v,
        Err(e) => {
            return Err(e);
        },
    };
    match &v {
        JsonValue::Arr(es) => decode_interval_list(es),
        _ => Err(deser("prices body is not an array")),
    }
}

/// Decodes a renewables response body into its entries.
pub fn decode_renewables(body: &str) -> (r: Result<Vec<Renewable>, AmberError>)
    ensures
        match spec_decode_renewables_body(body@) {
            Some(s) => r is Ok && r->Ok_0@ == s,
            None => r is Err && r->Err_0@ is Deserialization,
        },
{
    let v = match crate::json::parse_json(body) {
        Ok(v) => v,
        Err(e) => {
            return Err(e);
        },
    };
    match &v {
        JsonValue::Arr(es) => decode_renewable_list(es),
        _ => Err(deser("renewables body is not an array")),
    }
}

/// Decodes a usage response body into its records.
pub fn decode_usage(body: &str) -> (r: Result<Vec<Usage>, AmberError>)
    ensures
        match spec_decode_usage_body(body@) {
            Some(s) => r is Ok && seq_view_usages(r->Ok_0@) == s,
            None => r is Err && r->Err_0@ is Deserialization,
        },
{
    let v = match crate::json::parse_json(body) {
        Ok(v) => v,
        Err(e) => {
            return Err(e);
        },
    };
    match &v {
        JsonValue::Arr(es) => decode_usage_list(es),
        _ => Err(deser("usage body is not an array")),
    }
}

/// Decodes a sites response body into its sites.
pub fn decode_sites(body: &str) -> (r: Result<Vec<Site>, AmberError>)
    ensures
        match spec_decode_sites_body(body@) {
            Some(s) => r is Ok && seq_view_sites(r->Ok_0@) == s,
            None => r is Err && r->Err_0@ is Deserialization,
        },
{
    let v = match crate::json::parse_json(body) {
        Ok(v) => v,
        Err(e) => {
            return Err(e);
        },
    };
    match &v {
        JsonValue::Arr(es) => decode_sites_list(es),
        _ => Err(deser("sites body is not an array")),
    }
}

} // verus!
