//! The rows of the input sheet, and the requests that they ask for.
//!
//! The first row of the sheet is its header and the last row closes it:
//! neither asks for anything. Each row between them names a courier, a
//! tracking number and, in its third cell, whether it is to be retried.

use vstd::prelude::*;
use crate::config::{Config, ConfigView};
use crate::shipment::{ListInfo, ListInfoView};
use crate::text::same_text;

verus! {

/// One row of the input sheet.
#[derive(Debug)]
pub struct SheetRow {
    /// The courier, as the sheet names it.
    pub company: String,
    /// The tracking number.
    pub oid: String,
    /// What the third cell holds, `None` for an empty cell.
    pub mark: Option<String>,
}

/// A row as plain values.
pub struct SheetRowView {
    pub company: Seq<char>,
    pub oid: Seq<char>,
    pub mark: Option<Seq<char>>,
}

impl View for SheetRow {
    type V = SheetRowView;

    open spec fn view(&self) -> SheetRowView {
        SheetRowView { company: self.company@, oid: self.oid@, mark: self.mark.deep_view() }
    }
}

impl DeepView for SheetRow {
    type V = SheetRowView;

    open spec fn deep_view(&self) -> SheetRowView {
        self@
    }
}

/// The code of a courier name: the code that stands in `codes` at the place
/// where the name first stands in `names`; none where the name is not
/// listed, or where `codes` is too short to have that place.
pub open spec fn converted(name: Seq<char>, names: Seq<Seq<char>>, codes: Seq<Seq<char>>) -> Option<
    Seq<char>,
> {
    match names.index_of_first(name) {
        Some(place) => if place < codes.len() {
            Some(codes[place])
        } else {
            None
        },
        None => None,
    }
}

/// Looks a courier name up in the configured name table and gives the
/// courier's code.
pub fn convert_company(cn_name: &String, config: &Config) -> (r: Option<String>)
    ensures
        r.deep_view() == converted(cn_name@, config@.company_cn, config@.company_en),
        r is Some ==> config@.company_cn.contains(cn_name@),
{
    let ghost names = config@.company_cn;
    let mut i: usize = 0;
    while i < config.company_cn.len()
        invariant
            0 <= i <= config.company_cn.len(),
            names == config@.company_cn,
            forall|j: int| 0 <= j < i ==> names[j] != cn_name@,
        decreases config.company_cn.len() - i,
    {
        assert(names[i as int] == config.company_cn[i as int]@);
        if same_text(config.company_cn[i].as_str(), cn_name.as_str()) {
            proof {
                names.index_of_first_ensures(cn_name@);
                assert(names.contains(cn_name@));
                assert(names.index_of_first(cn_name@) == Some(i as int));
            }
            if i < config.company_en.len() {
                assert(config@.company_en[i as int] == config.company_en[i as int]@);
                return Some(config.company_en[i].clone());
            } else {
                return None;
            }
        }
        i = i + 1;
    }
    proof {
        names.index_of_first_ensures(cn_name@);
        assert(!names.contains(cn_name@));
    }
    None
}

/// The rows of a sheet that ask for something: all but the first and the
/// last.
pub open spec fn inner_rows(rows: Seq<SheetRowView>) -> Seq<SheetRowView> {
    if rows.len() <= 2 {
        Seq::empty()
    } else {
        rows.subrange(1, rows.len() - 1)
    }
}

/// The request that a row asks for: none where the courier's name has no
/// code. The row is marked for retry where its third cell holds anything.
pub open spec fn request_of(row: SheetRowView, config: ConfigView) -> Option<ListInfoView> {
    match converted(row.company, config.company_cn, config.company_en) {
        Some(code) => Some(
            ListInfoView {
                company: code,
                company_code: row.company,
                oid: row.oid,
                is_retry: row.mark is Some,
            },
        ),
        None => None,
    }
}

/// `request_of` under one configuration.
pub open spec fn request_under(config: ConfigView) -> spec_fn(SheetRowView) -> Option<
    ListInfoView,
> {
    |row: SheetRowView| request_of(row, config)
}

/// The requests of a sheet, in the order of its rows.
pub open spec fn requests_of(rows: Seq<SheetRowView>, config: ConfigView) -> Seq<ListInfoView> {
    inner_rows(rows).filter_map(request_under(config))
}

/// The test for the place of a row that asks for nothing because its
/// courier has no code.
pub open spec fn skip_test(rows: Seq<SheetRowView>, config: ConfigView) -> spec_fn(int) -> bool {
    |place: int| request_of(rows[place], config) is None
}

/// The places, counted from zero, of the first `count` inner rows.
pub open spec fn inner_places(count: int) -> Seq<int> {
    Seq::new(count as nat, |k: int| k + 1)
}

/// The places of the inner rows that are passed over, in rising order.
pub open spec fn skipped_of(rows: Seq<SheetRowView>, config: ConfigView) -> Seq<int> {
    inner_places(inner_rows(rows).len() as int).filter(skip_test(rows, config))
}

/// What reading a sheet gives.
#[derive(Debug)]
pub struct SheetReading {
    /// The requests, in the order of their rows.
    pub list: Vec<ListInfo>,
    /// The places, counted from zero, of the rows whose courier is not in
    /// the name table.
    pub skipped: Vec<usize>,
}

/// The places of a reading as integers.
pub open spec fn places(skipped: Seq<usize>) -> Seq<int> {
    skipped.map_values(|place: usize| place as int)
}

/// Reads one inner row.
pub fn read_row(row: &SheetRow, config: &Config) -> (r: Option<ListInfo>)
    ensures
        r.deep_view() == request_of(row@, config@),
{
    match convert_company(&row.company, config) {
        Some(code) => Some(
            ListInfo {
                company: code,
                company_code: row.company.clone(),
                oid: row.oid.clone(),
                is_retry: row.mark.is_some(),
            },
        ),
        None => None,
    }
}

/// Reads the rows of a sheet into requests. The first and the last row are
/// left out. A row whose courier is not in the name table gives no request;
/// its place is noted instead.
pub fn read_xls(rows: &Vec<SheetRow>, config: &Config) -> (r: SheetReading)
    ensures
        r.list.deep_view() == requests_of(rows.deep_view(), config@),
        places(r.skipped@) == skipped_of(rows.deep_view(), config@),
        r.list@.len() + r.skipped@.len() == inner_rows(rows.deep_view()).len(),
{
    let ghost all = rows.deep_view();
    let ghost inner = inner_rows(all);
    let ghost f = request_under(config@);
    let ghost test = skip_test(all, config@);
    let mut list: Vec<ListInfo> = Vec::new();
    let mut skipped: Vec<usize> = Vec::new();
    if rows.len() <= 2 {
        proof {
            assert(list.deep_view() =~= inner.filter_map(f));
            inner_places(0).lemma_filter_len(test);
            assert(places(skipped@) =~= inner_places(0).filter(test));
        }
        return SheetReading { list, skipped };
    }
    let mut i: usize = 1;
    proof {
        assert(list.deep_view() =~= inner.take(0).filter_map(f));
        inner_places(0).lemma_filter_len(test);
        assert(places(skipped@) =~= inner_places(0).filter(test));
    }
    while i + 1 < rows.len()
        invariant
            1 <= i < rows.len(),
            rows.len() > 2,
            all == rows.deep_view(),
            inner == inner_rows(all),
            f == request_under(config@),
            test == skip_test(all, config@),
            list.deep_view() == inner.take(i - 1).filter_map(f),
            places(skipped@) == inner_places(i - 1).filter(test),
            list@.len() + skipped@.len() == i - 1,
        decreases rows.len() - i,
    {
        let row = &rows[i];
        proof {
            assert(inner[i - 1] == all[i as int]);
            assert(all[i as int] == row@);
            inner.lemma_filter_map_take_succ(f, i - 1);
            assert(inner_places(i as int) =~= inner_places(i - 1).push(i as int));
            inner_places(i - 1).lemma_filter_push(i as int, test);
        }
        let ghost had = list.deep_view();
        let ghost noted = places(skipped@);
        match read_row(row, config) {
            Some(request) => {
                list.push(request);
                assert(list.deep_view() =~= had + seq![request@]);
            },
            None => {
                skipped.push(i);
                assert(places(skipped@) =~= noted.push(i as int));
            },
        }
        i = i + 1;
    }
    proof {
        assert(inner.take(i - 1) =~= inner);
    }
    SheetReading { list, skipped }
}

} // verus!
