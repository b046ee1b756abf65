//! The rows of the report: the header, one row per answered shipment, and
//! the closing row with the run's two times.
//!
//! Every row but the closing one has the same cells in the same order, so
//! that the columns line up: where a shipment has no event of some
//! category, its three cells are empty, never left out.

use vstd::prelude::*;
use vstd::string::StringExecFns;
use crate::clock::{clock_text, format_clock, report_pattern};
use crate::text::{debug_quoted, quoted};
use crate::codes::{label_of, transform_code};
use crate::shipment::{ListInfo, ListInfoView, ShipmentResult, ShipmentResultView};
use crate::trace::{find_trace_by_code, last_trace, most_recent, selected, TraceItem, TraceItemView};

verus! {

/// The number of cells in the header and in every shipment's row.
pub const COLUMNS: usize = 26;

/// The cell that parts two sections of a row.
pub open spec fn separator() -> Seq<char> {
    "==="@
}

/// The mark of a shipment whose query was answered.
pub open spec fn answered_mark() -> Seq<char> {
    "1"@
}

/// The prefix of the action codes of pickup events.
pub open spec fn pickup_prefix() -> Seq<char> {
    "1"@
}

/// The prefix of the action codes of dispatch events.
pub open spec fn dispatch_prefix() -> Seq<char> {
    "2"@
}

/// The prefix of the action codes of delivery events.
pub open spec fn delivery_prefix() -> Seq<char> {
    "3"@
}

/// The prefix of the action codes of problem events.
pub open spec fn problem_prefix() -> Seq<char> {
    "4"@
}

/// The titles of the columns.
pub open spec fn header_cells() -> Seq<Seq<char>> {
    seq![
        "物流公司"@,
        "快递单号"@,
        "执行状态"@,
        separator(),
        "代号"@,
        "物流状态"@,
        "增值物流状态"@,
        "城市"@,
        separator(),
        "最后更新时间"@,
        "最后更新信息"@,
        "最后更新位置"@,
        separator(),
        "发出时间"@,
        "发出信息"@,
        "发出位置"@,
        "派件时间"@,
        "派件信息"@,
        "派件位置"@,
        "签收时间"@,
        "签收信息"@,
        "签收位置"@,
        separator(),
        "问题时间"@,
        "问题信息"@,
        "问题位置"@,
    ]
}

/// The three cells of an event: its time, its station, its location; three
/// empty cells where there is no event.
pub open spec fn triple(event: Option<TraceItemView>) -> Seq<Seq<char>> {
    match event {
        Some(e) => seq![e.accept_time, e.accept_station, e.location],
        None => seq![Seq::empty(), Seq::empty(), Seq::empty()],
    }
}

/// The cells that identify the shipment and give its state.
pub open spec fn state_cells(request: ListInfoView, result: ShipmentResultView) -> Seq<Seq<char>> {
    seq![
        request.company_code,
        request.oid,
        answered_mark(),
        separator(),
        request.company,
        label_of(result.state),
        label_of(result.state_ex),
        match result.location {
            Some(place) => place,
            None => Seq::empty(),
        },
        separator(),
    ]
}

/// The cells of the events picked from the shipment's history: the most
/// recent one, then the first pickup, the last dispatch and the last
/// delivery, then the last problem.
pub open spec fn trace_cells(traces: Seq<TraceItemView>) -> Seq<Seq<char>> {
    triple(most_recent(traces)) + seq![separator()] + triple(
        selected(traces, pickup_prefix(), true),
    ) + triple(selected(traces, dispatch_prefix(), false)) + triple(
        selected(traces, delivery_prefix(), false),
    ) + seq![separator()] + triple(selected(traces, problem_prefix(), false))
}

/// The row of an answered shipment.
pub open spec fn row_of(request: ListInfoView, result: ShipmentResultView) -> Seq<Seq<char>> {
    state_cells(request, result) + trace_cells(result.traces)
}

/// The row that a query gives: none where it was not answered.
pub open spec fn classified(request: ListInfoView, result: Option<ShipmentResultView>) -> Option<
    Seq<Seq<char>>,
> {
    match result {
        Some(answer) => Some(row_of(request, answer)),
        None => None,
    }
}

/// Every shipment's row is as wide as the header, whatever its history
/// holds.
pub proof fn lemma_row_width(request: ListInfoView, result: ShipmentResultView)
    ensures
        row_of(request, result).len() == COLUMNS,
        header_cells().len() == COLUMNS,
{
}

fn push_cell(line: &mut Vec<String>, cell: String)
    ensures
        final(line).deep_view() == old(line).deep_view().push(cell@),
{
    line.push(cell);
    assert(line.deep_view() =~= old(line).deep_view().push(cell@));
}

fn push_text(line: &mut Vec<String>, text: &str)
    ensures
        final(line).deep_view() == old(line).deep_view().push(text@),
{
    push_cell(line, text.to_owned());
}

fn push_triple(line: &mut Vec<String>, event: Option<TraceItem>)
    ensures
        final(line).deep_view() == old(line).deep_view() + triple(event.deep_view()),
{
    match event {
        Some(e) => {
            push_cell(line, e.accept_time);
            push_cell(line, e.accept_station);
            push_cell(line, e.location);
        },
        None => {
            push_cell(line, String::new());
            push_cell(line, String::new());
            push_cell(line, String::new());
        },
    }
    assert(line.deep_view() =~= old(line).deep_view() + triple(event.deep_view()));
}

/// The header row of the report.
pub fn header_row() -> (r: Vec<String>)
    ensures
        r.deep_view() == header_cells(),
        r@.len() == COLUMNS,
{
    let mut line: Vec<String> = Vec::new();
    push_text(&mut line, "物流公司");
    push_text(&mut line, "快递单号");
    push_text(&mut line, "执行状态");
    push_text(&mut line, "===");
    push_text(&mut line, "代号");
    push_text(&mut line, "物流状态");
    push_text(&mut line, "增值物流状态");
    push_text(&mut line, "城市");
    push_text(&mut line, "===");
    push_text(&mut line, "最后更新时间");
    push_text(&mut line, "最后更新信息");
    push_text(&mut line, "最后更新位置");
    push_text(&mut line, "===");
    push_text(&mut line, "发出时间");
    push_text(&mut line, "发出信息");
    push_text(&mut line, "发出位置");
    push_text(&mut line, "派件时间");
    push_text(&mut line, "派件信息");
    push_text(&mut line, "派件位置");
    push_text(&mut line, "签收时间");
    push_text(&mut line, "签收信息");
    push_text(&mut line, "签收位置");
    push_text(&mut line, "===");
    push_text(&mut line, "问题时间");
    push_text(&mut line, "问题信息");
    push_text(&mut line, "问题位置");
    assert(line.deep_view() =~= header_cells());
    line
}

/// Builds the report row of one shipment from the answer to its query.
///
/// A query that was not answered gives no row. An answered one gives the
/// full row: the request's own cells, the two state labels and the
/// location, then the cells of the events picked from the history.
pub fn classify(request: &ListInfo, result: Option<&ShipmentResult>) -> (r: Option<Vec<String>>)
    ensures
        r.deep_view() == classified(request@, result.deep_view()),
        result is None ==> r is None,
        result is Some ==> r is Some && r->0@.len() == COLUMNS,
{
    let answer = match result {
        Some(answer) => answer,
        None => {
            return None;
        },
    };
    let mut line: Vec<String> = Vec::new();
    push_cell(&mut line, request.company_code.clone());
    push_cell(&mut line, request.oid.clone());
    push_text(&mut line, "1");
    push_text(&mut line, "===");
    push_cell(&mut line, request.company.clone());
    push_cell(&mut line, transform_code(answer.state.as_str()));
    push_cell(&mut line, transform_code(answer.state_ex.as_str()));
    match &answer.location {
        Some(place) => {
            push_cell(&mut line, place.clone());
        },
        None => {
            push_cell(&mut line, String::new());
        },
    }
    push_text(&mut line, "===");
    assert(line.deep_view() =~= state_cells(request@, answer@));

    let list = &answer.traces;
    push_triple(&mut line, last_trace(list));
    push_text(&mut line, "===");
    push_triple(&mut line, find_trace_by_code(list, "1", true));
    push_triple(&mut line, find_trace_by_code(list, "2", false));
    push_triple(&mut line, find_trace_by_code(list, "3", false));
    push_text(&mut line, "===");
    push_triple(&mut line, find_trace_by_code(list, "4", false));
    proof {
        assert(line.deep_view() =~= row_of(request@, answer@));
        lemma_row_width(request@, answer@);
        assert(line.deep_view().len() == line@.len());
    }
    Some(line)
}

/// What stands before the time at which the run began.
pub open spec fn start_label() -> Seq<char> {
    "开始时间 "@
}

/// What stands before the time at which the run ended.
pub open spec fn end_label() -> Seq<char> {
    "结束时间 "@
}

/// The closing row made of the two times as they are to be shown.
pub open spec fn footer_of(started: Seq<char>, ended: Seq<char>) -> Seq<Seq<char>> {
    seq![start_label() + started, end_label() + ended]
}

/// A time as the closing row shows it: written under the report's pattern,
/// then put between quotes.
pub open spec fn shown_time(at: chrono::NaiveDateTime) -> Seq<char> {
    quoted(clock_text(at, report_pattern()))
}

/// The closing row: when the run began and when it ended.
pub open spec fn footer_cells(start: chrono::NaiveDateTime, end: chrono::NaiveDateTime) -> Seq<
    Seq<char>,
> {
    footer_of(shown_time(start), shown_time(end))
}

/// Makes the closing row from the two times as they are to be shown: each
/// stands in a cell of its own, behind its label.
pub fn footer_from(started: &str, ended: &str) -> (r: Vec<String>)
    ensures
        r.deep_view() == footer_of(started@, ended@),
        r@.len() == 2,
{
    let mut line: Vec<String> = Vec::new();
    push_cell(&mut line, "开始时间 ".to_owned().concat(started));
    push_cell(&mut line, "结束时间 ".to_owned().concat(ended));
    assert(line.deep_view() =~= footer_of(started@, ended@));
    line
}

fn show_time(at: &chrono::NaiveDateTime) -> (r: String)
    ensures
        r@ == shown_time(*at),
{
    let written = format_clock(at, "%Y-%m-%d %H:%M:%S");
    debug_quoted(written.as_str())
}

/// The closing row of the report. It holds the run's two times and is no
/// shipment's row: it has two cells only.
pub fn footer_row(start: &chrono::NaiveDateTime, end: &chrono::NaiveDateTime) -> (r: Vec<String>)
    ensures
        r.deep_view() == footer_cells(*start, *end),
        r@.len() == 2,
{
    let started = show_time(start);
    let ended = show_time(end);
    footer_from(started.as_str(), ended.as_str())
}

} // verus!
