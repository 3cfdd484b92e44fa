//! The laws the decoders and encoders obey, stated and proved once for
//! all inputs.

use vstd::prelude::*;

use crate::client::{spec_current_query, spec_prices_query};
use crate::decode::{
    spec_decode_base_interval, spec_decode_base_renewable, spec_decode_interval,
    spec_decode_intervals, spec_decode_prices_body, spec_decode_renewable,
    spec_decode_renewables, spec_decode_renewables_body, spec_decode_sites_body,
    spec_decode_usage, spec_decode_usage_body, spec_decode_usages, spec_get_str,
};
use crate::json::JsonV;
use crate::models::{
    interval_wf, renewable_wf, spec_interval_base, spec_renewable_base, usage_wf, Interval,
    Renewable, UsageV,
};

verus! {

/// The interval tags form a closed set: a payload whose `type` field
/// carries any other wording decodes to nothing, so its decoding fails
/// with a deserialization error.
pub proof fn lemma_interval_tags_closed(v: JsonV, t: Seq<char>)
    requires
        spec_get_str(v, "type"@) == Some(t),
        t != "ActualInterval"@,
        t != "ForecastInterval"@,
        t != "CurrentInterval"@,
    ensures
        spec_decode_interval(v) is None,
{
}

/// The renewables tags form a closed set, as the interval tags do.
pub proof fn lemma_renewable_tags_closed(v: JsonV, t: Seq<char>)
    requires
        spec_get_str(v, "type"@) == Some(t),
        t != "ActualRenewable"@,
        t != "ForecastRenewable"@,
        t != "CurrentRenewable"@,
    ensures
        spec_decode_renewable(v) is None,
{
}

/// Every successfully decoded interval is well formed: positive
/// duration, `start_time < end_time`, renewables within `[0, 100]`.
pub proof fn lemma_decoded_interval_wf(v: JsonV, i: Interval)
    requires
        spec_decode_interval(v) == Some(i),
    ensures
        interval_wf(i),
        crate::datetime::spec_ts_lt(spec_interval_base(i).start_time, spec_interval_base(i).end_time),
        0 <= spec_interval_base(i).renewables.units <= 100 * crate::decimal::DEC_SCALE,
{
    assert(spec_decode_base_interval(v) == Some(spec_interval_base(i)));
}

/// Every successfully decoded renewables entry is well formed.
pub proof fn lemma_decoded_renewable_wf(v: JsonV, r: Renewable)
    requires
        spec_decode_renewable(v) == Some(r),
    ensures
        renewable_wf(r),
        crate::datetime::spec_ts_lt(
            spec_renewable_base(r).start_time,
            spec_renewable_base(r).end_time,
        ),
        0 <= spec_renewable_base(r).renewables.units <= 100 * crate::decimal::DEC_SCALE,
{
    assert(spec_decode_base_renewable(v) == Some(spec_renewable_base(r)));
}

/// Every successfully decoded usage record is well formed.
pub proof fn lemma_decoded_usage_wf(v: JsonV, u: UsageV)
    requires
        spec_decode_usage(v) == Some(u),
    ensures
        usage_wf(u),
        crate::datetime::spec_ts_lt(u.base.start_time, u.base.end_time),
        0 <= u.base.renewables.units <= 100 * crate::decimal::DEC_SCALE,
{
    assert(spec_decode_base_interval(v) == Some(u.base));
}

/// Every element of a decoded interval list is well formed.
pub proof fn lemma_decoded_intervals_wf(es: Seq<JsonV>, xs: Seq<Interval>)
    requires
        spec_decode_intervals(es) == Some(xs),
    ensures
        forall|i: int| 0 <= i < xs.len() ==> interval_wf(#[trigger] xs[i]),
    decreases es.len(),
{
    if es.len() > 0 {
        let x = spec_decode_interval(es[0])->Some_0;
        let rest = spec_decode_intervals(es.subrange(1, es.len() as int))->Some_0;
        lemma_decoded_interval_wf(es[0], x);
        lemma_decoded_intervals_wf(es.subrange(1, es.len() as int), rest);
        assert forall|i: int| 0 <= i < xs.len() implies interval_wf(#[trigger] xs[i]) by {
            if i > 0 {
                assert(xs[i] == rest[i - 1]);
            }
        }
    }
}

/// Every element of a decoded renewables list is well formed.
pub proof fn lemma_decoded_renewable_list_wf(es: Seq<JsonV>, xs: Seq<Renewable>)
    requires
        spec_decode_renewables(es) == Some(xs),
    ensures
        forall|i: int| 0 <= i < xs.len() ==> renewable_wf(#[trigger] xs[i]),
    decreases es.len(),
{
    if es.len() > 0 {
        let x = spec_decode_renewable(es[0])->Some_0;
        let rest = spec_decode_renewables(es.subrange(1, es.len() as int))->Some_0;
        lemma_decoded_renewable_wf(es[0], x);
        lemma_decoded_renewable_list_wf(es.subrange(1, es.len() as int), rest);
        assert forall|i: int| 0 <= i < xs.len() implies renewable_wf(#[trigger] xs[i]) by {
            if i > 0 {
                assert(xs[i] == rest[i - 1]);
            }
        }
    }
}

/// Every element of a decoded usage list is well formed.
pub proof fn lemma_decoded_usage_list_wf(es: Seq<JsonV>, xs: Seq<UsageV>)
    requires
        spec_decode_usages(es) == Some(xs),
    ensures
        forall|i: int| 0 <= i < xs.len() ==> usage_wf(#[trigger] xs[i]),
    decreases es.len(),
{
    if es.len() > 0 {
        let x = spec_decode_usage(es[0])->Some_0;
        let rest = spec_decode_usages(es.subrange(1, es.len() as int))->Some_0;
        lemma_decoded_usage_wf(es[0], x);
        lemma_decoded_usage_list_wf(es.subrange(1, es.len() as int), rest);
        assert forall|i: int| 0 <= i < xs.len() implies usage_wf(#[trigger] xs[i]) by {
            if i > 0 {
                assert(xs[i] == rest[i - 1]);
            }
        }
    }
}

/// Every interval of a successfully decoded prices body starts before it
/// ends and reports a renewables percentage within `[0, 100]`.
pub proof fn lemma_prices_body_wf(s: Seq<char>, xs: Seq<Interval>)
    requires
        spec_decode_prices_body(s) == Some(xs),
    ensures
        forall|i: int| 0 <= i < xs.len() ==> interval_wf(#[trigger] xs[i]),
{
    let es = crate::json::spec_parse_json(s)->Some_0->Arr_0;
    lemma_decoded_intervals_wf(es, xs);
}

/// Every entry of a successfully decoded renewables body starts before
/// it ends and reports a percentage within `[0, 100]`.
pub proof fn lemma_renewables_body_wf(s: Seq<char>, xs: Seq<Renewable>)
    requires
        spec_decode_renewables_body(s) == Some(xs),
    ensures
        forall|i: int| 0 <= i < xs.len() ==> renewable_wf(#[trigger] xs[i]),
{
    let es = crate::json::spec_parse_json(s)->Some_0->Arr_0;
    lemma_decoded_renewable_list_wf(es, xs);
}

/// Every record of a successfully decoded usage body starts before it
/// ends and reports a percentage within `[0, 100]`.
pub proof fn lemma_usage_body_wf(s: Seq<char>, xs: Seq<UsageV>)
    requires
        spec_decode_usage_body(s) == Some(xs),
    ensures
        forall|i: int| 0 <= i < xs.len() ==> usage_wf(#[trigger] xs[i]),
{
    let es = crate::json::spec_parse_json(s)->Some_0->Arr_0;
    lemma_decoded_usage_list_wf(es, xs);
}

/// Reading is idempotent at the decoding layer: what a response body
/// decodes to is a function of the body's text alone, so two reads of an
/// unchanged remote data set decode element for element alike.
pub proof fn lemma_decode_idempotent(a: Seq<char>, b: Seq<char>)
    requires
        a == b,
    ensures
        spec_decode_prices_body(a) == spec_decode_prices_body(b),
        spec_decode_renewables_body(a) == spec_decode_renewables_body(b),
        spec_decode_usage_body(a) == spec_decode_usage_body(b),
        spec_decode_sites_body(a) == spec_decode_sites_body(b),
{
}

/// Optional query parameters that are all absent encode to no parameters
/// at all: the query of such a request is empty.
pub proof fn lemma_absent_params_encode_nothing()
    ensures
        spec_prices_query(None, None, None).len() == 0,
        spec_current_query(None, None, None).len() == 0,
{
    assert(spec_prices_query(None, None, None) =~= Seq::<(Seq<char>, Seq<char>)>::empty());
    assert(spec_current_query(None, None, None) =~= Seq::<(Seq<char>, Seq<char>)>::empty());
}

/// A present count for `previous` and `next` with `resolution` absent
/// encodes to exactly those two pairs, in order, and nothing else.
pub proof fn lemma_present_counts_encode_exactly(next: u32, previous: u32)
    ensures
        spec_current_query(Some(next), Some(previous), None) =~= seq![
            ("next"@, crate::text::nat_digits(next as nat)),
            ("previous"@, crate::text::nat_digits(previous as nat)),
        ],
{
}

} // verus!
