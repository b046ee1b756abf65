//! Trace events of a shipment, and the selection of one event out of a list.
//!
//! The list is read in the order it is given; nothing is sorted. An event
//! belongs to a category when its action code starts with the category's
//! prefix.

use vstd::prelude::*;
use crate::text::begins_with;

verus! {

/// One entry of a shipment's history.
#[derive(Debug)]
pub struct TraceItem {
    pub action: String,
    pub accept_station: String,
    pub accept_time: String,
    pub location: String,
}

/// A trace event as plain character sequences.
pub struct TraceItemView {
    pub action: Seq<char>,
    pub accept_station: Seq<char>,
    pub accept_time: Seq<char>,
    pub location: Seq<char>,
}

impl View for TraceItem {
    type V = TraceItemView;

    open spec fn view(&self) -> TraceItemView {
        TraceItemView {
            action: self.action@,
            accept_station: self.accept_station@,
            accept_time: self.accept_time@,
            location: self.location@,
        }
    }
}

impl DeepView for TraceItem {
    type V = TraceItemView;

    open spec fn deep_view(&self) -> TraceItemView {
        self@
    }
}

impl Clone for TraceItem {
    fn clone(&self) -> (r: Self)
        ensures
            r == *self,
    {
        TraceItem {
            action: self.action.clone(),
            accept_station: self.accept_station.clone(),
            accept_time: self.accept_time.clone(),
            location: self.location.clone(),
        }
    }
}

impl PartialEq for TraceItem {
    fn eq(&self, other: &TraceItem) -> (r: bool) {
        self.action == other.action && self.accept_station == other.accept_station
            && self.accept_time == other.accept_time && self.location == other.location
    }
}

impl vstd::std_specs::cmp::PartialEqSpecImpl for TraceItem {
    open spec fn obeys_eq_spec() -> bool {
        true
    }

    open spec fn eq_spec(&self, other: &TraceItem) -> bool {
        self.action@ == other.action@ && self.accept_station@ == other.accept_station@
            && self.accept_time@ == other.accept_time@ && self.location@ == other.location@
    }
}

impl Default for TraceItem {
    fn default() -> (r: Self)
        ensures
            r@.action.len() == 0,
            r@.accept_station.len() == 0,
            r@.accept_time.len() == 0,
            r@.location.len() == 0,
    {
        TraceItem {
            action: String::new(),
            accept_station: String::new(),
            accept_time: String::new(),
            location: String::new(),
        }
    }
}

/// Whether an event belongs to the category of `prefix`.
pub open spec fn is_hit(event: TraceItemView, prefix: Seq<char>) -> bool {
    prefix.is_prefix_of(event.action)
}

/// The test that `is_hit` makes for one prefix.
pub open spec fn hit_test(prefix: Seq<char>) -> spec_fn(TraceItemView) -> bool {
    |event: TraceItemView| is_hit(event, prefix)
}

/// The events of the category of `prefix`, in the order of the list.
pub open spec fn hits(events: Seq<TraceItemView>, prefix: Seq<char>) -> Seq<TraceItemView> {
    events.filter(hit_test(prefix))
}

/// The event that a category stands for: its first event in list order where
/// `is_first` is set, its last one otherwise, none where it has no event.
pub open spec fn selected(events: Seq<TraceItemView>, prefix: Seq<char>, is_first: bool) -> Option<
    TraceItemView,
> {
    let found = hits(events, prefix);
    if found.len() == 0 {
        None
    } else if is_first {
        Some(found.first())
    } else {
        Some(found.last())
    }
}

/// The last event of the list, whatever its category.
pub open spec fn most_recent(events: Seq<TraceItemView>) -> Option<TraceItemView> {
    if events.len() == 0 {
        None
    } else {
        Some(events.last())
    }
}

/// Reading one more event extends the hits by that event or leaves them as
/// they are.
pub proof fn lemma_hits_step(events: Seq<TraceItemView>, prefix: Seq<char>, i: int)
    requires
        0 <= i < events.len(),
    ensures
        hits(events.take(i + 1), prefix) == if is_hit(events[i], prefix) {
            hits(events.take(i), prefix).push(events[i])
        } else {
            hits(events.take(i), prefix)
        },
{
    assert(events.take(i + 1) =~= events.take(i).push(events[i]));
    events.take(i).lemma_filter_push(events[i], hit_test(prefix));
}

/// Where no event before position `i` is a hit and the one at `i` is, that
/// event is the first hit of the whole list.
pub proof fn lemma_first_hit(events: Seq<TraceItemView>, prefix: Seq<char>, i: int)
    requires
        0 <= i < events.len(),
        hits(events.take(i), prefix).len() == 0,
        is_hit(events[i], prefix),
    ensures
        selected(events, prefix, true) == Some(events[i]),
{
    lemma_hits_step(events, prefix, i);
    let head = events.take(i + 1);
    let tail = events.skip(i + 1);
    assert(head + tail =~= events);
    Seq::filter_distributes_over_add(head, tail, hit_test(prefix));
    assert(hits(head, prefix) =~= seq![events[i]]);
    assert(hits(events, prefix) == hits(head, prefix) + hits(tail, prefix));
    assert(hits(events, prefix)[0] == events[i]);
}

/// Selects the event of a category from a list of trace events.
///
/// With `is_first` the scan stops at the first event whose action code
/// starts with `code`; without it the whole list is read and the last such
/// event is kept.
pub fn find_trace_by_code(list: &Vec<TraceItem>, code: &str, is_first: bool) -> (r: Option<
    TraceItem,
>)
    ensures
        r.deep_view() == selected(list.deep_view(), code@, is_first),
        list@.len() == 0 ==> r is None,
{
    let ghost events = list.deep_view();
    let mut found: Option<TraceItem> = None;
    let mut i: usize = 0;
    while i < list.len()
        invariant
            0 <= i <= list.len(),
            events == list.deep_view(),
            is_first ==> found is None,
            found.deep_view() == selected(events.take(i as int), code@, false),
        decreases list.len() - i,
    {
        let item = &list[i];
        proof {
            lemma_hits_step(events, code@, i as int);
            assert(events[i as int] == item@);
        }
        if begins_with(item.action.as_str(), code) {
            if is_first {
                proof {
                    lemma_first_hit(events, code@, i as int);
                }
                return Some(item.clone());
            }
            found = Some(item.clone());
        }
        i = i + 1;
    }
    proof {
        assert(events.take(i as int) =~= events);
    }
    found
}

/// The most recent event: the last of the list, which is taken to run from
/// the oldest event to the newest.
pub fn last_trace(list: &Vec<TraceItem>) -> (r: Option<TraceItem>)
    ensures
        r.deep_view() == most_recent(list.deep_view()),
{
    if list.len() == 0 {
        None
    } else {
        let item = &list[list.len() - 1];
        Some(item.clone())
    }
}

/// No category has an event in an empty list, whatever the prefix and the
/// policy.
pub proof fn lemma_nothing_selected_from_empty(prefix: Seq<char>, is_first: bool)
    ensures
        selected(Seq::<TraceItemView>::empty(), prefix, is_first) is None,
{
    Seq::<TraceItemView>::empty().lemma_filter_len(hit_test(prefix));
}

/// A category has an event exactly where some event of the list starts with
/// its prefix, and the event selected is one of the list's own hits.
pub proof fn lemma_selected_is_hit(events: Seq<TraceItemView>, prefix: Seq<char>, is_first: bool)
    ensures
        selected(events, prefix, is_first) is Some <==> exists|i: int|
            0 <= i < events.len() && is_hit(#[trigger] events[i], prefix),
        selected(events, prefix, is_first) matches Some(event) ==> events.contains(event) && is_hit(
            event,
            prefix,
        ),
{
    let test = hit_test(prefix);
    let found = hits(events, prefix);
    if found.len() > 0 {
        let at = if is_first {
            0
        } else {
            found.len() - 1
        };
        let event = found[at];
        events.lemma_filter_pred(test, at);
        assert(found.contains(event));
        events.lemma_filter_contains_rev(test, event);
        let i = choose|i: int| 0 <= i < events.len() && events[i] == event;
        assert(is_hit(events[i], prefix));
    } else {
        assert forall|i: int| 0 <= i < events.len() implies !is_hit(#[trigger] events[i], prefix) by {
            if is_hit(events[i], prefix) {
                events.lemma_filter_contains(test, i);
            }
        }
    }
}

/// Selecting again from the same list with the same prefix and policy
/// gives the same event: the selection depends on these three and on
/// nothing else.
pub proof fn lemma_selection_repeatable(
    first: (Seq<TraceItemView>, Seq<char>, bool),
    second: (Seq<TraceItemView>, Seq<char>, bool),
)
    requires
        first == second,
    ensures
        selected(first.0, first.1, first.2) == selected(second.0, second.1, second.2),
        most_recent(first.0) == most_recent(second.0),
{
}

} // verus!
