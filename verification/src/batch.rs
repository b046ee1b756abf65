//! The run over a batch of shipments: which requests it takes up, and the
//! report that grows by one row for each answered query.
//!
//! The queries themselves are made by the caller, one after the other. The
//! report takes each answer as it comes; a query that was not answered adds
//! nothing, and the run goes on with the next request.

use vstd::prelude::*;
use crate::report::{
    classified, classify, footer_cells, footer_row, header_cells, header_row, lemma_row_width,
    COLUMNS,
};
use crate::shipment::{ListInfo, ListInfoView, ShipmentResult, ShipmentResultView};

verus! {

/// The test for a request that the sheet marks for a retry run.
pub open spec fn retry_test() -> spec_fn(ListInfoView) -> bool {
    |row: ListInfoView| row.is_retry
}

/// A request with its retry mark taken off.
pub open spec fn unmarked(row: ListInfoView) -> ListInfoView {
    ListInfoView { is_retry: false, ..row }
}

/// The requests of a retry run: those that are marked, in their order, each
/// with the mark taken off.
pub open spec fn retried(rows: Seq<ListInfoView>) -> Seq<ListInfoView> {
    rows.filter(retry_test()).map_values(|row: ListInfoView| unmarked(row))
}

/// The requests that a run takes up: all of them, or in a retry run the
/// marked ones.
pub open spec fn taken_up(rows: Seq<ListInfoView>, is_retry: bool) -> Seq<ListInfoView> {
    if is_retry {
        retried(rows)
    } else {
        rows
    }
}

proof fn lemma_retried_step(rows: Seq<ListInfoView>, i: int)
    requires
        0 <= i < rows.len(),
    ensures
        retried(rows.take(i + 1)) == if rows[i].is_retry {
            retried(rows.take(i)).push(unmarked(rows[i]))
        } else {
            retried(rows.take(i))
        },
{
    let before = rows.take(i);
    assert(rows.take(i + 1) =~= before.push(rows[i]));
    before.lemma_filter_push(rows[i], retry_test());
    if rows[i].is_retry {
        let kept = before.filter(retry_test());
        assert(kept.push(rows[i]).map_values(|row: ListInfoView| unmarked(row)) =~= kept.map_values(
            |row: ListInfoView| unmarked(row),
        ).push(unmarked(rows[i])));
    }
}

/// No request of a retry run carries the mark any more, and a retry run
/// takes up no more requests than there are.
pub proof fn lemma_retried_unmarked(rows: Seq<ListInfoView>)
    ensures
        retried(rows).len() <= rows.len(),
        forall|i: int| 0 <= i < retried(rows).len() ==> !(#[trigger] retried(rows)[i]).is_retry,
{
    rows.lemma_filter_len(retry_test());
}

/// Picks the requests of a run. A plain run takes them all; a retry run
/// takes those that the sheet marked, and clears the mark on each.
pub fn execute_list(rows: Vec<ListInfo>, is_retry: bool) -> (r: Vec<ListInfo>)
    ensures
        r.deep_view() == taken_up(rows.deep_view(), is_retry),
{
    if !is_retry {
        return rows;
    }
    let ghost all = rows.deep_view();
    let mut list: Vec<ListInfo> = Vec::new();
    let mut i: usize = 0;
    proof {
        all.take(0).lemma_filter_len(retry_test());
        assert(list.deep_view() =~= retried(all.take(0)));
    }
    while i < rows.len()
        invariant
            0 <= i <= rows.len(),
            all == rows.deep_view(),
            list.deep_view() == retried(all.take(i as int)),
        decreases rows.len() - i,
    {
        let row = &rows[i];
        proof {
            lemma_retried_step(all, i as int);
            assert(all[i as int] == row@);
        }
        if row.is_retry {
            let ghost before = list.deep_view();
            let entry = ListInfo {
                oid: row.oid.clone(),
                company: row.company.clone(),
                company_code: row.company_code.clone(),
                is_retry: false,
            };
            list.push(entry);
            assert(list.deep_view() =~= before.push(unmarked(row@)));
        }
        i = i + 1;
    }
    proof {
        assert(all.take(i as int) =~= all);
    }
    list
}

/// The rows after the answer to one more query: the row of the answer is
/// added at the end, and nothing changes where the query was not answered.
pub open spec fn rows_after(
    rows: Seq<Seq<Seq<char>>>,
    request: ListInfoView,
    result: Option<ShipmentResultView>,
) -> Seq<Seq<Seq<char>>> {
    match classified(request, result) {
        Some(row) => rows.push(row),
        None => rows,
    }
}

/// The report of a run while it is being made: the header, then the rows of
/// the shipments answered so far.
pub struct Report {
    rows: Vec<Vec<String>>,
}

impl View for Report {
    type V = Seq<Seq<Seq<char>>>;

    closed spec fn view(&self) -> Seq<Seq<Seq<char>>> {
        self.rows.deep_view()
    }
}

impl Report {
    #[verifier::type_invariant]
    spec fn aligned(&self) -> bool {
        &&& self.rows@.len() >= 1
        &&& self.rows.deep_view()[0] == header_cells()
        &&& forall|i: int|
            0 <= i < self.rows@.len() ==> (#[trigger] self.rows.deep_view()[i]).len() == COLUMNS
    }

    /// A report that holds the header row and no shipment yet.
    pub fn new() -> (r: Report)
        ensures
            r@ == seq![header_cells()],
    {
        let mut rows: Vec<Vec<String>> = Vec::new();
        rows.push(header_row());
        assert(rows.deep_view() =~= seq![header_cells()]);
        Report { rows }
    }

    /// The number of rows so far, the header among them.
    pub fn len(&self) -> (r: usize)
        ensures
            r == self@.len(),
            r >= 1,
    {
        proof {
            use_type_invariant(self);
        }
        self.rows.len()
    }

    /// Takes the answer to the query for `request` and gives the report as
    /// it stands after it. An answered query adds its row at the end; one
    /// that was not answered leaves the rows as they are. The flag says
    /// whether a row was added, so that the caller can note a failure and go
    /// on with the next request.
    pub fn record(self, request: &ListInfo, result: Option<&ShipmentResult>) -> (r: (Report, bool))
        ensures
            r.1 == result is Some,
            r.0@ == rows_after(self@, request@, result.deep_view()),
            result is None ==> r.0@ == self@,
            r.0@.len() == self@.len() + if r.1 {
                1int
            } else {
                0int
            },
    {
        proof {
            use_type_invariant(&self);
        }
        match classify(request, result) {
            Some(row) => {
                let mut rows = self.rows;
                let ghost before = rows.deep_view();
                rows.push(row);
                assert(rows.deep_view() =~= before.push(row.deep_view()));
                (Report { rows }, true)
            },
            None => (self, false),
        }
    }

    /// Closes the report with the row of the run's two times and hands out
    /// all rows: the header first, then one row of full width for each
    /// answered query in the order the answers came, then the closing row.
    pub fn finish(self, start: &chrono::NaiveDateTime, end: &chrono::NaiveDateTime) -> (r: Vec<
        Vec<String>,
    >)
        ensures
            r.deep_view() == self@.push(footer_cells(*start, *end)),
            r.deep_view()[0] == header_cells(),
            r.deep_view().last() == footer_cells(*start, *end),
            forall|i: int|
                0 <= i < r@.len() - 1 ==> (#[trigger] r.deep_view()[i]).len() == COLUMNS,
    {
        proof {
            use_type_invariant(&self);
        }
        let mut rows = self.rows;
        let ghost before = rows.deep_view();
        rows.push(footer_row(start, end));
        assert(rows.deep_view() =~= before.push(footer_cells(*start, *end)));
        rows
    }
}

/// A request together with the answer to its query, if there was one.
#[derive(Debug)]
pub struct Query {
    pub request: ListInfo,
    pub answer: Option<ShipmentResult>,
}

/// A query as plain values.
pub struct QueryView {
    pub request: ListInfoView,
    pub answer: Option<ShipmentResultView>,
}

impl View for Query {
    type V = QueryView;

    open spec fn view(&self) -> QueryView {
        QueryView { request: self.request@, answer: self.answer.deep_view() }
    }
}

impl DeepView for Query {
    type V = QueryView;

    open spec fn deep_view(&self) -> QueryView {
        self@
    }
}

/// The row that a query gives, none where it was not answered.
pub open spec fn row_test() -> spec_fn(QueryView) -> Option<Seq<Seq<char>>> {
    |query: QueryView| classified(query.request, query.answer)
}

/// The rows of the shipments of a run: one for each answered query, in the
/// order of the queries.
pub open spec fn data_rows(queries: Seq<QueryView>) -> Seq<Seq<Seq<char>>> {
    queries.filter_map(row_test())
}

/// The whole report of a run: the header, the rows of the shipments, and
/// the closing row.
pub open spec fn report_of(
    queries: Seq<QueryView>,
    start: chrono::NaiveDateTime,
    end: chrono::NaiveDateTime,
) -> Seq<Seq<Seq<char>>> {
    seq![header_cells()] + data_rows(queries) + seq![footer_cells(start, end)]
}

/// One more query adds its row to the rows of the shipments, or adds
/// nothing where it was not answered.
pub proof fn lemma_data_rows_step(queries: Seq<QueryView>, next: QueryView)
    ensures
        data_rows(queries.push(next)) == rows_after(data_rows(queries), next.request, next.answer),
        next.answer is None ==> data_rows(queries.push(next)) == data_rows(queries),
{
    let all = queries.push(next);
    let count = queries.len() as int;
    all.lemma_filter_map_take_succ(row_test(), count);
    assert(all.take(count) =~= queries);
    assert(all.take(count + 1) =~= all);
    match classified(next.request, next.answer) {
        Some(row) => {
            assert(data_rows(queries) + seq![row] =~= data_rows(queries).push(row));
        },
        None => {
            assert(data_rows(queries) + Seq::<Seq<Seq<char>>>::empty() =~= data_rows(queries));
        },
    }
}

/// The shape of a report: it opens with the header and closes with the row
/// of the two times; between them stands at most one row for each query,
/// and each of these rows is as wide as the header.
pub proof fn lemma_report_shape(
    queries: Seq<QueryView>,
    start: chrono::NaiveDateTime,
    end: chrono::NaiveDateTime,
)
    ensures
        report_of(queries, start, end).len() == data_rows(queries).len() + 2,
        data_rows(queries).len() <= queries.len(),
        report_of(queries, start, end).first() == header_cells(),
        report_of(queries, start, end).last() == footer_cells(start, end),
        forall|i: int|
            0 <= i < data_rows(queries).len() ==> (#[trigger] data_rows(queries)[i]).len()
                == COLUMNS,
    decreases queries.len(),
{
    if queries.len() > 0 {
        let before = queries.drop_last();
        let next = queries.last();
        lemma_report_shape(before, start, end);
        assert(before.push(next) =~= queries);
        lemma_data_rows_step(before, next);
        match next.answer {
            Some(answer) => {
                lemma_row_width(next.request, answer);
            },
            None => {},
        }
    }
}

/// Makes the report of a run from its queries, each with the answer that
/// came for it. A query without an answer leaves no row behind.
pub fn run(
    queries: &Vec<Query>,
    start: &chrono::NaiveDateTime,
    end: &chrono::NaiveDateTime,
) -> (r: Vec<Vec<String>>)
    ensures
        r.deep_view() == report_of(queries.deep_view(), *start, *end),
{
    let ghost all = queries.deep_view();
    let mut report = Report::new();
    let mut i: usize = 0;
    assert(report@ =~= seq![header_cells()] + data_rows(all.take(0)));
    while i < queries.len()
        invariant
            0 <= i <= queries.len(),
            all == queries.deep_view(),
            report@ == seq![header_cells()] + data_rows(all.take(i as int)),
        decreases queries.len() - i,
    {
        let query = &queries[i];
        proof {
            assert(all[i as int] == query@);
            assert(all.take(i + 1) =~= all.take(i as int).push(all[i as int]));
            lemma_data_rows_step(all.take(i as int), all[i as int]);
        }
        let ghost before = report@;
        let (next, _) = report.record(&query.request, query.answer.as_ref());
        report = next;
        assert(report@ =~= seq![header_cells()] + data_rows(all.take(i + 1)));
        i = i + 1;
    }
    proof {
        assert(all.take(i as int) =~= all);
    }
    let rows = report.finish(start, end);
    assert(rows.deep_view() =~= report_of(all, *start, *end));
    rows
}

} // verus!
