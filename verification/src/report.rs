//! Reports of failures, as Markdown and as JSON.
//!
//! A report is made of failure records alone, so it holds no prompt, no response
//! and no credentials.

use vstd::prelude::*;

use crate::clock;
use crate::clock::rfc3339;
use crate::events::FailureKind;
use crate::json;
use crate::json::{Json, JsonV};
use crate::store::model::FailureV;
use crate::store;
use crate::store::FailureRecord;
use crate::text;

verus! {

/// The head of a report. Its time is in nanoseconds since 1970.
#[derive(Debug)]
pub struct ReportMeta {
    pub version: String,
    pub listen: String,
    pub generated: i64,
    /// The filter as the monitor shows it.
    pub filter: String,
}

#[verifier::ext_equal]
pub struct MetaV {
    pub version: Seq<char>,
    pub listen: Seq<char>,
    pub generated: i64,
    pub filter: Seq<char>,
}

impl ReportMeta {
    pub open spec fn view(&self) -> MetaV {
        MetaV {
            version: self.version@,
            listen: self.listen@,
            generated: self.generated,
            filter: self.filter@,
        }
    }

    pub fn new(version: &str, listen: &str, filter: &str, generated: i64) -> (r: ReportMeta)
        ensures
            r@ == (MetaV { version: version@, listen: listen@, generated, filter: filter@ }),
    {
        ReportMeta {
            version: text::owned(version),
            listen: text::owned(listen),
            generated,
            filter: text::owned(filter),
        }
    }
}

/// All kinds of failure, in the order of their names.
pub open spec fn kinds_v() -> Seq<FailureKind> {
    seq![
        FailureKind::AuthRetryFailed,
        FailureKind::ClientRejected,
        FailureKind::ProxyAssemble,
        FailureKind::StreamIo,
        FailureKind::StreamTerminalFailed,
        FailureKind::Unknown,
        FailureKind::UpstreamConnect,
        FailureKind::UpstreamHttp,
    ]
}

/// All kinds of failure, in the order of their names.
pub fn kinds() -> (r: Vec<FailureKind>)
    ensures
        r@ == kinds_v(),
{
    let mut out: Vec<FailureKind> = Vec::new();
    out.push(FailureKind::AuthRetryFailed);
    out.push(FailureKind::ClientRejected);
    out.push(FailureKind::ProxyAssemble);
    out.push(FailureKind::StreamIo);
    out.push(FailureKind::StreamTerminalFailed);
    out.push(FailureKind::Unknown);
    out.push(FailureKind::UpstreamConnect);
    out.push(FailureKind::UpstreamHttp);
    assert(out@ =~= kinds_v());
    out
}

/// How many failures are of a kind.
pub open spec fn count_v(records: Seq<FailureV>, kind: FailureKind) -> nat
    decreases records.len(),
{
    if records.len() == 0 {
        0
    } else {
        count_v(records.drop_last(), kind) + (if records.last().kind == kind {
            1nat
        } else {
            0nat
        })
    }
}

/// How many failures are of a kind.
pub fn count(records: &[FailureRecord], kind: FailureKind) -> (r: usize)
    ensures
        r == count_v(store::failures_v(records@), kind),
        r <= records@.len(),
{
    let ghost all = store::failures_v(records@);
    let mut n: usize = 0;
    let mut i: usize = 0;
    assert(all.take(0) =~= Seq::<FailureV>::empty());
    while i < records.len()
        invariant
            i <= records@.len(),
            n <= i,
            all == store::failures_v(records@),
            n == count_v(all.take(i as int), kind),
        decreases records@.len() - i,
    {
        proof {
            assert(all[i as int] == records@[i as int]@);
            assert(all.take(i + 1).drop_last() =~= all.take(i as int));
        }
        if records[i].kind == kind {
            n += 1;
        }
        i += 1;
    }
    assert(all.take(i as int) =~= all);
    n
}

pub type CountV = (Seq<char>, nat);

/// The kinds that there are failures of, with their numbers.
pub open spec fn counts_v(records: Seq<FailureV>, kinds: Seq<FailureKind>) -> Seq<CountV>
    decreases kinds.len(),
{
    if kinds.len() == 0 {
        Seq::empty()
    } else {
        let n = count_v(records, kinds.last());
        let before = counts_v(records, kinds.drop_last());
        if n > 0 {
            before.push((kinds.last().name_v(), n))
        } else {
            before
        }
    }
}

/// The same, in the order of the names.
pub open spec fn summary_v(records: Seq<FailureV>) -> Seq<CountV> {
    counts_v(records, kinds_v())
}

pub open spec fn pairs_v(s: Seq<(&'static str, usize)>) -> Seq<CountV> {
    s.map_values(|p: (&'static str, usize)| (p.0@, p.1 as nat))
}

/// The kinds that there are failures of, in the order of their names, with
/// their numbers.
pub fn summary_counts(records: &[FailureRecord]) -> (r: Vec<(&'static str, usize)>)
    ensures
        pairs_v(r@) == summary_v(store::failures_v(records@)),
{
    let ghost rs = store::failures_v(records@);
    let all = kinds();
    let mut out: Vec<(&'static str, usize)> = Vec::new();
    let mut i: usize = 0;
    proof {
        assert(pairs_v(out@) =~= Seq::<CountV>::empty());
        assert(all@.take(0) =~= Seq::<FailureKind>::empty());
    }
    while i < all.len()
        invariant
            i <= all@.len(),
            rs == store::failures_v(records@),
            pairs_v(out@) == counts_v(rs, all@.take(i as int)),
        decreases all@.len() - i,
    {
        proof {
            assert(all@.take(i + 1).drop_last() =~= all@.take(i as int));
        }
        let n: usize = count(records, all[i]);
        if n > 0 {
            let pair = (all[i].as_str(), n);
            assert(pairs_v(out@.push(pair)) =~= pairs_v(out@).push((pair.0@, pair.1 as nat)));
            out.push(pair);
        }
        i += 1;
    }
    assert(all@.take(i as int) =~= all@);
    out
}

pub open spec fn total_v(counts: Seq<CountV>) -> nat
    decreases counts.len(),
{
    if counts.len() == 0 {
        0
    } else {
        total_v(counts.drop_last()) + counts.last().1
    }
}

proof fn total_of_kinds(records: Seq<FailureV>, kinds: Seq<FailureKind>)
    ensures
        total_v(counts_v(records, kinds)) == sum_v(records, kinds),
    decreases kinds.len(),
{
    if kinds.len() > 0 {
        total_of_kinds(records, kinds.drop_last());
        let before = counts_v(records, kinds.drop_last());
        let n = count_v(records, kinds.last());
        assert(before.push((kinds.last().name_v(), n)).drop_last() =~= before);
    }
}

spec fn sum_v(records: Seq<FailureV>, kinds: Seq<FailureKind>) -> nat
    decreases kinds.len(),
{
    if kinds.len() == 0 {
        0
    } else {
        sum_v(records, kinds.drop_last()) + count_v(records, kinds.last())
    }
}

proof fn sum_unfolds(records: Seq<FailureV>)
    ensures
        sum_v(records, kinds_v()) == count_v(records, FailureKind::AuthRetryFailed) + count_v(
            records,
            FailureKind::ClientRejected,
        ) + count_v(records, FailureKind::ProxyAssemble) + count_v(records, FailureKind::StreamIo)
            + count_v(records, FailureKind::StreamTerminalFailed) + count_v(
            records,
            FailureKind::Unknown,
        ) + count_v(records, FailureKind::UpstreamConnect) + count_v(
            records,
            FailureKind::UpstreamHttp,
        ),
{
    reveal_with_fuel(sum_v, 9);
    let k = kinds_v();
    assert(k.drop_last().last() == FailureKind::UpstreamConnect);
    assert(k.drop_last().drop_last().last() == FailureKind::Unknown);
    assert(k.drop_last().drop_last().drop_last().last() == FailureKind::StreamTerminalFailed);
    assert(k.drop_last().drop_last().drop_last().drop_last().last() == FailureKind::StreamIo);
}

/// A summary counts every failure once.
pub proof fn summaries_are_complete(records: Seq<FailureV>)
    ensures
        total_v(summary_v(records)) == records.len(),
    decreases records.len(),
{
    total_of_kinds(records, kinds_v());
    sum_unfolds(records);
    if records.len() > 0 {
        summaries_are_complete(records.drop_last());
        total_of_kinds(records.drop_last(), kinds_v());
        sum_unfolds(records.drop_last());
    }
}

pub open spec fn or_dash_v(s: Seq<char>) -> Seq<char> {
    if s.len() == 0 {
        "-"@
    } else {
        s
    }
}

pub fn or_dash(s: &str) -> (r: String)
    ensures
        r@ == or_dash_v(s@),
{
    if s.is_empty() {
        text::owned("-")
    } else {
        text::owned(s)
    }
}

pub open spec fn truth_v(b: bool) -> Seq<char> {
    if b {
        "true"@
    } else {
        "false"@
    }
}

pub fn truth(b: bool) -> (r: &'static str)
    ensures
        r@ == truth_v(b),
{
    if b {
        "true"
    } else {
        "false"
    }
}

/// The error of a failure in a word.
pub open spec fn error_word_v(r: FailureV) -> Seq<char> {
    if r.error_type.len() == 0 {
        r.kind.name_v()
    } else {
        r.error_type
    }
}

/// A line of the report on one failure.
pub open spec fn item_v(label: Seq<char>, value: Seq<char>) -> Seq<char> {
    "- "@ + label + ": "@ + value + "\n"@
}

pub open spec fn failure_md_v(index: nat, r: FailureV) -> Seq<char> {
    "\n### "@ + text::decimal_v(index) + ". "@ + error_word_v(r) + "\n"@ + item_v(
        "ts"@,
        clock::rfc3339_text(r.ts),
    ) + item_v("request_id"@, r.request_id) + item_v("session_id"@, r.session_id) + item_v(
        "model"@,
        r.requested_model + " → "@ + r.model,
    ) + item_v("kind"@, r.kind.name_v()) + item_v(
        "status"@,
        text::decimal_v(r.status_code as nat),
    ) + item_v("duration_ms"@, text::decimal_v(r.duration_ms as nat)) + item_v(
        "attempt"@,
        text::decimal_v(r.attempt as nat),
    ) + item_v("auth_retried"@, truth_v(r.auth_retried)) + item_v(
        "session_failure_index"@,
        text::decimal_v(r.session_failure_index as nat),
    ) + item_v("response_id"@, or_dash_v(r.response_id)) + item_v(
        "mapped"@,
        truth_v(r.mapped) + "  lite: "@ + truth_v(r.lite) + "  fast: "@ + truth_v(r.fast),
    ) + item_v("outputs"@, text::decimal_v(r.output_count as nat)) + item_v(
        "capture_bytes"@,
        text::decimal_v(r.capture_bytes as nat),
    ) + item_v("error_type"@, error_word_v(r)) + item_v("message"@, or_dash_v(r.error_message))
}

fn item(out: &mut String, label: &str, value: &str)
    ensures
        final(out)@ == old(out)@ + item_v(label@, value@),
{
    let ghost before = out@;
    out.push_str("- ");
    out.push_str(label);
    out.push_str(": ");
    out.push_str(value);
    out.push_str("\n");
    assert(out@ =~= before + item_v(label@, value@));
}

fn error_word(r: &FailureRecord) -> (s: String)
    ensures
        s@ == error_word_v(r@),
{
    if r.error_type.as_str().is_empty() {
        text::owned(r.kind.as_str())
    } else {
        text::owned(&r.error_type)
    }
}

/// A failure in Markdown.
pub fn failure_md(index: usize, r: &FailureRecord) -> (s: String)
    ensures
        s@ == failure_md_v(index as nat, r@),
{
    let word = error_word(r);
    let mut out = text::cat3("\n### ", &text::decimal(index as u64), ". ");
    out.push_str(&word);
    out.push_str("\n");
    item(&mut out, "ts", &rfc3339(r.ts));
    item(&mut out, "request_id", &r.request_id);
    item(&mut out, "session_id", &r.session_id);
    item(&mut out, "model", &text::cat3(&r.requested_model, " → ", &r.model));
    item(&mut out, "kind", r.kind.as_str());
    item(&mut out, "status", &text::decimal(r.status_code as u64));
    item(&mut out, "duration_ms", &text::decimal(r.duration_ms));
    item(&mut out, "attempt", &text::decimal(r.attempt as u64));
    item(&mut out, "auth_retried", truth(r.auth_retried));
    item(
        &mut out,
        "session_failure_index",
        &text::decimal(r.session_failure_index as u64),
    );
    item(&mut out, "response_id", &or_dash(&r.response_id));
    let mut flags = text::cat3(truth(r.mapped), "  lite: ", truth(r.lite));
    flags.push_str("  fast: ");
    flags.push_str(truth(r.fast));
    item(&mut out, "mapped", &flags);
    item(&mut out, "outputs", &text::decimal(r.output_count as u64));
    item(&mut out, "capture_bytes", &text::decimal(r.capture_bytes as u64));
    item(&mut out, "error_type", &word);
    item(&mut out, "message", &or_dash(&r.error_message));
    out
}

pub open spec fn failures_md_v(records: Seq<FailureV>) -> Seq<char>
    decreases records.len(),
{
    if records.len() == 0 {
        Seq::empty()
    } else {
        failures_md_v(records.drop_last()) + failure_md_v(records.len(), records.last())
    }
}

pub open spec fn count_rows_v(counts: Seq<CountV>) -> Seq<char>
    decreases counts.len(),
{
    if counts.len() == 0 {
        Seq::empty()
    } else {
        count_rows_v(counts.drop_last()) + ("| "@ + counts.last().0 + " | "@ + text::decimal_v(
            counts.last().1,
        ) + " |\n"@)
    }
}

pub open spec fn head_md_v(meta: MetaV, n: nat) -> Seq<char> {
    "# grok-build-proxy failure report\n"@ + item_v(
        "generated"@,
        clock::rfc3339_text(meta.generated),
    ) + item_v("version"@, meta.version) + item_v("listen"@, meta.listen) + item_v(
        "window"@,
        "last "@ + text::decimal_v(n) + " failures (filter: "@ + meta.filter + ")"@,
    )
}

pub open spec fn rows_md_v(records: Seq<FailureV>) -> Seq<char> {
    if summary_v(records).len() == 0 {
        "| _(none)_ | 0 |\n"@
    } else {
        count_rows_v(summary_v(records))
    }
}

pub open spec fn body_md_v(records: Seq<FailureV>) -> Seq<char> {
    if records.len() == 0 {
        "\n_(no failures in current filter)_\n"@
    } else {
        failures_md_v(records)
    }
}

/// A report in Markdown.
pub open spec fn markdown_v(records: Seq<FailureV>, meta: MetaV) -> Seq<char> {
    head_md_v(meta, records.len()) + "\n## Summary\n| kind | count |\n| --- | --- |\n"@ + rows_md_v(
        records,
    ) + "\n## Failures\n"@ + body_md_v(records) + "\n(no prompt/response body included)\n"@
}

fn head_md(meta: &ReportMeta, n: usize) -> (r: String)
    ensures
        r@ == head_md_v(meta@, n as nat),
{
    let mut out = text::owned("# grok-build-proxy failure report\n");
    item(&mut out, "generated", &rfc3339(meta.generated));
    item(&mut out, "version", &meta.version);
    item(&mut out, "listen", &meta.listen);
    let mut window = text::cat3("last ", &text::decimal(n as u64), " failures (filter: ");
    window.push_str(&meta.filter);
    window.push_str(")");
    item(&mut out, "window", &window);
    out
}

fn rows_md(records: &[FailureRecord]) -> (r: String)
    ensures
        r@ == rows_md_v(store::failures_v(records@)),
{
    let counts = summary_counts(records);
    let ghost all = pairs_v(counts@);
    assert(all.len() == counts@.len());
    if counts.len() == 0 {
        return text::owned("| _(none)_ | 0 |\n");
    }
    let mut out = String::new();
    let mut i: usize = 0;
    assert(all.take(0) =~= Seq::<CountV>::empty());
    while i < counts.len()
        invariant
            i <= counts@.len(),
            all == pairs_v(counts@),
            out@ == count_rows_v(all.take(i as int)),
        decreases counts@.len() - i,
    {
        let ghost before = out@;
        proof {
            assert(all.take(i + 1).drop_last() =~= all.take(i as int));
        }
        let (name, n) = counts[i];
        assert(all[i as int] == (name@, n as nat));
        let mut row = text::cat3("| ", name, " | ");
        row.push_str(&text::decimal(n as u64));
        row.push_str(" |\n");
        out.push_str(&row);
        i += 1;
    }
    assert(all.take(i as int) =~= all);
    out
}

fn body_md(records: &[FailureRecord]) -> (r: String)
    ensures
        r@ == body_md_v(store::failures_v(records@)),
{
    let ghost all = store::failures_v(records@);
    assert(all.len() == records@.len());
    if records.len() == 0 {
        return text::owned("\n_(no failures in current filter)_\n");
    }
    let mut out = String::new();
    let mut i: usize = 0;
    assert(all.take(0) =~= Seq::<FailureV>::empty());
    while i < records.len()
        invariant
            i <= records@.len(),
            all == store::failures_v(records@),
            out@ == failures_md_v(all.take(i as int)),
        decreases records@.len() - i,
    {
        proof {
            assert(all.take(i + 1).drop_last() =~= all.take(i as int));
            assert(all[i as int] == records@[i as int]@);
        }
        out.push_str(&failure_md(i + 1, &records[i]));
        i += 1;
    }
    assert(all.take(i as int) =~= all);
    out
}

/// A report in Markdown.
pub fn render_markdown(records: &[FailureRecord], meta: &ReportMeta) -> (r: String)
    ensures
        r@ == markdown_v(store::failures_v(records@), meta@),
{
    assert(store::failures_v(records@).len() == records@.len());
    let mut out = head_md(meta, records.len());
    out.push_str("\n## Summary\n| kind | count |\n| --- | --- |\n");
    out.push_str(&rows_md(records));
    out.push_str("\n## Failures\n");
    out.push_str(&body_md(records));
    out.push_str("\n(no prompt/response body included)\n");
    out
}

/// A failure in JSON.
pub open spec fn failure_json_v(r: FailureV) -> JsonV {
    json::empty_v().with("ts"@, JsonV::Str(clock::rfc3339_text(r.ts))).with(
        "request_id"@,
        JsonV::Str(r.request_id),
    ).with("session_id"@, JsonV::Str(r.session_id)).with(
        "requested_model"@,
        JsonV::Str(r.requested_model),
    ).with("model"@, JsonV::Str(r.model)).with(
        "status_code"@,
        json::uint_v(r.status_code as u64),
    ).with("duration_ms"@, json::uint_v(r.duration_ms)).with(
        "kind"@,
        JsonV::Str(r.kind.name_v()),
    ).with("error_type"@, JsonV::Str(r.error_type)).with(
        "error_message"@,
        JsonV::Str(r.error_message),
    ).with("response_id"@, JsonV::Str(r.response_id)).with("mapped"@, JsonV::Bool(r.mapped)).with(
        "lite"@,
        JsonV::Bool(r.lite),
    ).with("fast"@, JsonV::Bool(r.fast)).with("auth_retried"@, JsonV::Bool(r.auth_retried)).with(
        "attempt"@,
        json::uint_v(r.attempt as u64),
    ).with("output_count"@, json::uint_v(r.output_count as u64)).with(
        "capture_bytes"@,
        json::uint_v(r.capture_bytes as u64),
    ).with("session_failure_index"@, json::uint_v(r.session_failure_index as u64))
}

/// A failure in JSON.
pub fn failure_json(r: &FailureRecord) -> (v: Json)
    ensures
        v@ == failure_json_v(r@),
{
    Json::object().with("ts", Json::string(rfc3339(r.ts))).with(
        "request_id",
        Json::str(&r.request_id),
    ).with("session_id", Json::str(&r.session_id)).with(
        "requested_model",
        Json::str(&r.requested_model),
    ).with("model", Json::str(&r.model)).with(
        "status_code",
        Json::uint(r.status_code as u64),
    ).with("duration_ms", Json::uint(r.duration_ms)).with("kind", Json::str(r.kind.as_str())).with(
        "error_type",
        Json::str(&r.error_type),
    ).with("error_message", Json::str(&r.error_message)).with(
        "response_id",
        Json::str(&r.response_id),
    ).with("mapped", Json::bool(r.mapped)).with("lite", Json::bool(r.lite)).with(
        "fast",
        Json::bool(r.fast),
    ).with("auth_retried", Json::bool(r.auth_retried)).with(
        "attempt",
        Json::uint(r.attempt as u64),
    ).with("output_count", Json::uint(r.output_count as u64)).with(
        "capture_bytes",
        Json::uint(r.capture_bytes as u64),
    ).with("session_failure_index", Json::uint(r.session_failure_index as u64))
}

pub open spec fn failures_json_v(records: Seq<FailureV>) -> Seq<JsonV> {
    records.map_values(|r: FailureV| failure_json_v(r))
}

pub open spec fn summary_json_v(counts: Seq<CountV>) -> JsonV
    decreases counts.len(),
{
    if counts.len() == 0 {
        json::empty_v()
    } else {
        summary_json_v(counts.drop_last()).with(
            counts.last().0,
            json::uint_v(counts.last().1 as u64),
        )
    }
}

/// A report in JSON.
pub open spec fn report_json_v(records: Seq<FailureV>, meta: MetaV) -> JsonV {
    json::empty_v().with(
        "meta"@,
        json::empty_v().with("generated"@, JsonV::Str(clock::rfc3339_text(meta.generated))).with(
            "version"@,
            JsonV::Str(meta.version),
        ).with("listen"@, JsonV::Str(meta.listen)).with("filter"@, JsonV::Str(meta.filter)).with(
            "failure_count"@,
            json::uint_v(records.len() as u64),
        ).with("summary"@, summary_json_v(summary_v(records))),
    ).with("failures"@, JsonV::Arr(failures_json_v(records)))
}

fn summary_json(records: &[FailureRecord]) -> (r: Json)
    ensures
        r@ == summary_json_v(summary_v(store::failures_v(records@))),
{
    let counts = summary_counts(records);
    let ghost all = pairs_v(counts@);
    let mut out = Json::object();
    let mut i: usize = 0;
    assert(all.take(0) =~= Seq::<CountV>::empty());
    while i < counts.len()
        invariant
            i <= counts@.len(),
            all == pairs_v(counts@),
            out@ == summary_json_v(all.take(i as int)),
            out@.is_obj(),
        decreases counts@.len() - i,
    {
        proof {
            assert(all.take(i + 1).drop_last() =~= all.take(i as int));
        }
        let (name, n) = counts[i];
        assert(all[i as int] == (name@, n as nat));
        out.set(name, Json::uint(n as u64));
        i += 1;
    }
    assert(all.take(i as int) =~= all);
    out
}

fn failures_json(records: &[FailureRecord]) -> (r: Vec<Json>)
    ensures
        json::items_v(r@) == failures_json_v(store::failures_v(records@)),
{
    let ghost rs = store::failures_v(records@);
    let ghost all = failures_json_v(rs);
    let mut out: Vec<Json> = Vec::new();
    let mut i: usize = 0;
    assert(json::items_v(out@) =~= all.take(0));
    while i < records.len()
        invariant
            i <= records@.len(),
            rs == store::failures_v(records@),
            all == failures_json_v(rs),
            json::items_v(out@) == all.take(i as int),
        decreases records@.len() - i,
    {
        proof {
            assert(rs[i as int] == records@[i as int]@);
            assert(all.take(i + 1) =~= all.take(i as int).push(all[i as int]));
        }
        json::push_item(&mut out, failure_json(&records[i]));
        i += 1;
    }
    assert(all.take(i as int) =~= all);
    out
}

/// The value of a report in JSON.
pub fn report_value(records: &[FailureRecord], meta: &ReportMeta) -> (r: Json)
    ensures
        r@ == report_json_v(store::failures_v(records@), meta@),
{
    assert(store::failures_v(records@).len() == records@.len());
    let head = Json::object().with("generated", Json::string(rfc3339(meta.generated))).with(
        "version",
        Json::str(&meta.version),
    ).with("listen", Json::str(&meta.listen)).with("filter", Json::str(&meta.filter)).with(
        "failure_count",
        Json::uint(records.len() as u64),
    ).with("summary", summary_json(records));
    Json::object().with("meta", head).with("failures", Json::array(failures_json(records)))
}

/// A report in JSON.
pub fn render_json(records: &[FailureRecord], meta: &ReportMeta) -> (r: String)
    ensures
        r@ == json::json_pretty(report_json_v(store::failures_v(records@), meta@)),
{
    report_value(records, meta).pretty()
}

/// What an export came to.
#[derive(Debug)]
pub enum ExportOutcome {
    Copied { count: usize, json: bool },
    Written { path: String, count: usize, json: bool },
    Empty,
    Error(String),
}

#[verifier::ext_equal]
pub enum OutcomeV {
    Copied { count: nat, json: bool },
    Written { path: Seq<char>, count: nat, json: bool },
    Empty,
    Error(Seq<char>),
}

pub open spec fn format_v(json: bool) -> Seq<char> {
    if json {
        "json"@
    } else {
        "md"@
    }
}

/// The name of a report's format, and the end of its file's name.
pub fn format_name(json: bool) -> (r: &'static str)
    ensures
        r@ == format_v(json),
{
    if json {
        "json"
    } else {
        "md"
    }
}

pub open spec fn toast_v(o: OutcomeV) -> Seq<char> {
    match o {
        OutcomeV::Copied { count, json } => "copied "@ + text::decimal_v(count) + " failures ("@
            + format_v(json) + ") to clipboard"@,
        OutcomeV::Written { path, count, json } => "wrote "@ + text::decimal_v(count)
            + " failures ("@ + format_v(json) + ") → "@ + path,
        OutcomeV::Empty => "no failures to export (current filter)"@,
        OutcomeV::Error(e) => "export failed: "@ + e,
    }
}

impl ExportOutcome {
    pub open spec fn view(&self) -> OutcomeV {
        match self {
            ExportOutcome::Copied { count, json } => OutcomeV::Copied {
                count: *count as nat,
                json: *json,
            },
            ExportOutcome::Written { path, count, json } => OutcomeV::Written {
                path: path@,
                count: *count as nat,
                json: *json,
            },
            ExportOutcome::Empty => OutcomeV::Empty,
            ExportOutcome::Error(e) => OutcomeV::Error(e@),
        }
    }

    /// What the user is told.
    pub fn toast(&self) -> (r: String)
        ensures
            r@ == toast_v(self@),
    {
        match self {
            ExportOutcome::Copied { count, json } => {
                let mut out = text::cat3(
                    "copied ",
                    &text::decimal(*count as u64),
                    " failures (",
                );
                out.push_str(format_name(*json));
                out.push_str(") to clipboard");
                out
            },
            ExportOutcome::Written { path, count, json } => {
                let mut out = text::cat3("wrote ", &text::decimal(*count as u64), " failures (");
                out.push_str(format_name(*json));
                out.push_str(") → ");
                out.push_str(path);
                out
            },
            ExportOutcome::Empty => text::owned("no failures to export (current filter)"),
            ExportOutcome::Error(e) => text::cat("export failed: ", e),
        }
    }
}

pub open spec fn body_v(records: Seq<FailureV>, meta: MetaV, json: bool) -> Option<Seq<char>> {
    if records.len() == 0 {
        None
    } else if json {
        Some(json::json_pretty(report_json_v(records, meta)))
    } else {
        Some(markdown_v(records, meta))
    }
}

/// The report that is exported; without failures there is none.
pub fn export_body(records: &[FailureRecord], meta: &ReportMeta, json: bool) -> (r: Option<String>)
    ensures
        text::opt_view(r) == body_v(store::failures_v(records@), meta@, json),
{
    assert(store::failures_v(records@).len() == records@.len());
    if records.len() == 0 {
        None
    } else if json {
        Some(render_json(records, meta))
    } else {
        Some(render_markdown(records, meta))
    }
}

/// What an export comes to that was written to a file because the clipboard
/// failed.
pub open spec fn fallback_v(
    count: nat,
    json: bool,
    clipboard: Seq<char>,
    written: Result<Seq<char>, Seq<char>>,
) -> OutcomeV {
    match written {
        Ok(path) => OutcomeV::Written { path, count, json },
        Err(w) => OutcomeV::Error("clipboard: "@ + clipboard + "; write: "@ + w),
    }
}

pub open spec fn text_result(r: Result<String, String>) -> Result<Seq<char>, Seq<char>> {
    match r {
        Ok(s) => Ok(s@),
        Err(e) => Err(e@),
    }
}

/// What an export to a file came to, after the clipboard had failed with an
/// error.
pub fn fallback_outcome(
    count: usize,
    json: bool,
    clipboard: &str,
    written: Result<String, String>,
) -> (r: ExportOutcome)
    ensures
        r@ == fallback_v(count as nat, json, clipboard@, text_result(written)),
{
    match written {
        Ok(path) => ExportOutcome::Written { path, count, json },
        Err(w) => {
            let mut message = text::cat3("clipboard: ", clipboard, "; write: ");
            message.push_str(&w);
            ExportOutcome::Error(message)
        },
    }
}

/// What an export to a file came to.
pub fn written_outcome(count: usize, json: bool, written: Result<String, String>) -> (r:
    ExportOutcome)
    ensures
        r@ == match text_result(written) {
            Ok(path) => OutcomeV::Written { path, count: count as nat, json },
            Err(e) => OutcomeV::Error(e),
        },
{
    match written {
        Ok(path) => ExportOutcome::Written { path, count, json },
        Err(e) => ExportOutcome::Error(e),
    }
}

/// A failure in JSON says all that is known of it.
pub proof fn failures_are_told_in_full(r: FailureV)
    ensures
        ({
            let v = failure_json_v(r);
            &&& v.get_text("ts"@) == Some(clock::rfc3339_text(r.ts))
            &&& v.get_text("request_id"@) == Some(r.request_id)
            &&& v.get_text("session_id"@) == Some(r.session_id)
            &&& v.get_text("requested_model"@) == Some(r.requested_model)
            &&& v.get_text("model"@) == Some(r.model)
            &&& v.get_uint("status_code"@) == Some(r.status_code as u64)
            &&& v.get_uint("duration_ms"@) == Some(r.duration_ms)
            &&& v.get_text("kind"@) == Some(r.kind.name_v())
            &&& v.get_text("error_type"@) == Some(r.error_type)
            &&& v.get_text("error_message"@) == Some(r.error_message)
            &&& v.get_text("response_id"@) == Some(r.response_id)
            &&& v.get("mapped"@) == Some(JsonV::Bool(r.mapped))
            &&& v.get("lite"@) == Some(JsonV::Bool(r.lite))
            &&& v.get("fast"@) == Some(JsonV::Bool(r.fast))
            &&& v.get("auth_retried"@) == Some(JsonV::Bool(r.auth_retried))
            &&& v.get_uint("attempt"@) == Some(r.attempt as u64)
            &&& v.get_uint("output_count"@) == Some(r.output_count as u64)
            &&& v.get_uint("capture_bytes"@) == Some(r.capture_bytes as u64)
            &&& v.get_uint("session_failure_index"@) == Some(r.session_failure_index as u64)
        }),
{
    crate::words::failures();
}

/// A report holds every failure in its order, how many they are, and what it is a
/// report of.
pub proof fn reports_hold_every_failure(records: Seq<FailureV>, meta: MetaV)
    requires
        records.len() <= u64::MAX,
    ensures
        ({
            let v = report_json_v(records, meta);
            &&& v.get_list("failures"@) matches Some(list)
            &&& list.len() == records.len()
            &&& forall|i: int|
                0 <= i < records.len() ==> #[trigger] list[i] == failure_json_v(records[i])
            &&& v.get("meta"@) matches Some(m)
            &&& m.get_uint("failure_count"@) == Some(records.len() as u64)
            &&& m.get_text("version"@) == Some(meta.version)
            &&& m.get_text("listen"@) == Some(meta.listen)
            &&& m.get_text("filter"@) == Some(meta.filter)
            &&& m.get_text("generated"@) == Some(clock::rfc3339_text(meta.generated))
        }),
{
    crate::words::failures();
}

/// A line of a report stands in it.
pub open spec fn has_line_v(s: Seq<char>, label: Seq<char>, value: Seq<char>) -> bool {
    exists|a: Seq<char>, b: Seq<char>| #[trigger]
        split_v(s, a, "- "@ + label + ": "@ + value + "\n"@, b)
}

/// `s` is `a`, then `line`, then `b`.
pub open spec fn split_v(s: Seq<char>, a: Seq<char>, line: Seq<char>, b: Seq<char>) -> bool {
    s == a + line + b
}

proof fn line_goes_on(s: Seq<char>, more: Seq<char>, label: Seq<char>, value: Seq<char>)
    requires
        has_line_v(s, label, value),
    ensures
        has_line_v(s + more, label, value),
{
    let line = "- "@ + label + ": "@ + value + "\n"@;
    let (a, b) = choose|a: Seq<char>, b: Seq<char>| #[trigger] split_v(s, a, line, b);
    assert(s + more =~= a + line + (b + more));
    assert(split_v(s + more, a, line, b + more));
}

proof fn line_is_there(s: Seq<char>, label: Seq<char>, value: Seq<char>)
    ensures
        has_line_v(s + item_v(label, value), label, value),
{
    let line = "- "@ + label + ": "@ + value + "\n"@;
    let none = Seq::<char>::empty();
    assert(s + item_v(label, value) =~= s + line + none);
    assert(split_v(s + item_v(label, value), s, line, none));
}

/// A failure in a report is told line by line: when it was, which request of
/// which session, its kind, its status and its message.
pub proof fn failures_are_told_by_line(index: nat, r: FailureV)
    ensures
        ({
            let s = failure_md_v(index, r);
            &&& has_line_v(s, "ts"@, clock::rfc3339_text(r.ts))
            &&& has_line_v(s, "request_id"@, r.request_id)
            &&& has_line_v(s, "session_id"@, r.session_id)
            &&& has_line_v(s, "model"@, r.requested_model + " → "@ + r.model)
            &&& has_line_v(s, "kind"@, r.kind.name_v())
            &&& has_line_v(s, "status"@, text::decimal_v(r.status_code as nat))
            &&& has_line_v(s, "duration_ms"@, text::decimal_v(r.duration_ms as nat))
            &&& has_line_v(s, "attempt"@, text::decimal_v(r.attempt as nat))
            &&& r.error_message.len() > 0 ==> has_line_v(s, "message"@, r.error_message)
        }),
{
    let s = "\n### "@ + text::decimal_v(index) + ". "@ + error_word_v(r) + "\n"@;
    let s = one_more_line(s, "ts"@, clock::rfc3339_text(r.ts));
    let s = one_more_line(s, "request_id"@, r.request_id);
    let s = one_more_line(s, "session_id"@, r.session_id);
    let s = one_more_line(s, "model"@, r.requested_model + " → "@ + r.model);
    let s = one_more_line(s, "kind"@, r.kind.name_v());
    let s = one_more_line(s, "status"@, text::decimal_v(r.status_code as nat));
    let s = one_more_line(s, "duration_ms"@, text::decimal_v(r.duration_ms as nat));
    let s = one_more_line(s, "attempt"@, text::decimal_v(r.attempt as nat));
    let s = one_more_line(s, "auth_retried"@, truth_v(r.auth_retried));
    let s = one_more_line(s, "session_failure_index"@, text::decimal_v(r.session_failure_index as nat));
    let s = one_more_line(s, "response_id"@, or_dash_v(r.response_id));
    let s = one_more_line(s, "mapped"@, truth_v(r.mapped) + "  lite: "@ + truth_v(r.lite) + "  fast: "@ + truth_v(r.fast));
    let s = one_more_line(s, "outputs"@, text::decimal_v(r.output_count as nat));
    let s = one_more_line(s, "capture_bytes"@, text::decimal_v(r.capture_bytes as nat));
    let s = one_more_line(s, "error_type"@, error_word_v(r));
    let s = one_more_line(s, "message"@, or_dash_v(r.error_message));
    assert(s == failure_md_v(index, r));
}

/// A text with one more line, in which the lines before it stay.
proof fn one_more_line(s: Seq<char>, label: Seq<char>, value: Seq<char>) -> (t: Seq<char>)
    ensures
        t == s + item_v(label, value),
        has_line_v(t, label, value),
        forall|l: Seq<char>, v: Seq<char>| #[trigger] has_line_v(s, l, v) ==> has_line_v(t, l, v),
{
    let t = s + item_v(label, value);
    line_is_there(s, label, value);
    assert forall|l: Seq<char>, v: Seq<char>| #[trigger] has_line_v(s, l, v) implies has_line_v(
        t,
        l,
        v,
    ) by {
        line_goes_on(s, item_v(label, value), l, v);
    }
    t
}

} // verus!
