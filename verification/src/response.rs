//! What to make of the tracking service's answer to one query.
//!
//! An answer counts only where the service replied with status 200 and a
//! JSON object whose `Success` member is true. Its state codes must be
//! there, and every event of its history must be complete. Anything else
//! is a rejection with its reason, and costs the batch one row, no more.

use vstd::prelude::*;
use crate::json::{
    as_flag, as_items, as_text, flag_of, items_of, member, member_of, parse, parsed, text_of,
};
use crate::shipment::{ShipmentResult, ShipmentResultView};
use crate::trace::{TraceItem, TraceItemView};

verus! {

/// Why an answer does not count.
#[derive(Clone, Copy, Debug, PartialEq, Eq, Structural)]
pub enum Rejection {
    /// The service replied with another status than 200.
    Status,
    /// The body is not JSON.
    NotJson,
    /// The body does not say whether the query succeeded.
    NoFlag,
    /// The body says that the query did not succeed.
    Refused,
    /// A state code is missing, or an event of the history lacks a part.
    Incomplete,
}

/// The status of a reply whose body is worth reading.
pub const STATUS_OK: u16 = 200;

/// The event made of four parts; none where a part is missing.
pub open spec fn event_from_parts(
    action: Option<Seq<char>>,
    accept_station: Option<Seq<char>>,
    accept_time: Option<Seq<char>>,
    location: Option<Seq<char>>,
) -> Option<TraceItemView> {
    if action is Some && accept_station is Some && accept_time is Some && location is Some {
        Some(
            TraceItemView {
                action: action->0,
                accept_station: accept_station->0,
                accept_time: accept_time->0,
                location: location->0,
            },
        )
    } else {
        None
    }
}

/// What the parts of a body amount to. The success flag comes first:
/// without it the body says nothing, and where it is false nothing else is
/// looked at. A successful query needs both state codes and a history; its
/// location may be missing.
pub open spec fn judged(
    success: Option<bool>,
    state: Option<Seq<char>>,
    state_ex: Option<Seq<char>>,
    location: Option<Seq<char>>,
    traces: Option<Seq<TraceItemView>>,
) -> Result<ShipmentResultView, Rejection> {
    match success {
        None => Err(Rejection::NoFlag),
        Some(false) => Err(Rejection::Refused),
        Some(true) => if state is Some && state_ex is Some && traces is Some {
            Ok(
                ShipmentResultView {
                    state: state->0,
                    state_ex: state_ex->0,
                    location: location,
                    traces: traces->0,
                },
            )
        } else {
            Err(Rejection::Incomplete)
        },
    }
}

/// The view of an outcome: that of the result, or the rejection itself.
pub open spec fn outcome_view(outcome: Result<ShipmentResult, Rejection>) -> Result<
    ShipmentResultView,
    Rejection,
> {
    match outcome {
        Ok(result) => Ok(result@),
        Err(reason) => Err(reason),
    }
}

/// Puts an event together from its four parts.
pub fn event_from(
    action: Option<String>,
    accept_station: Option<String>,
    accept_time: Option<String>,
    location: Option<String>,
) -> (r: Option<TraceItem>)
    ensures
        r.deep_view() == event_from_parts(
            action.deep_view(),
            accept_station.deep_view(),
            accept_time.deep_view(),
            location.deep_view(),
        ),
{
    match (action, accept_station, accept_time, location) {
        (Some(action), Some(accept_station), Some(accept_time), Some(location)) => Some(
            TraceItem { action, accept_station, accept_time, location },
        ),
        _ => None,
    }
}

/// Decides what the parts of a body amount to: the result they make up, or
/// the reason why they make up none.
pub fn judge(
    success: Option<bool>,
    state: Option<String>,
    state_ex: Option<String>,
    location: Option<String>,
    traces: Option<Vec<TraceItem>>,
) -> (r: Result<ShipmentResult, Rejection>)
    ensures
        outcome_view(r) == judged(
            success,
            state.deep_view(),
            state_ex.deep_view(),
            location.deep_view(),
            traces.deep_view(),
        ),
{
    match success {
        None => Err(Rejection::NoFlag),
        Some(false) => Err(Rejection::Refused),
        Some(true) => match (state, state_ex, traces) {
            (Some(state), Some(state_ex), Some(traces)) => Ok(
                ShipmentResult { state, state_ex, location, traces },
            ),
            _ => Err(Rejection::Incomplete),
        },
    }
}

/// The text under a key; none where the member is no string.
pub open spec fn text_at(value: serde_json::Value, key: Seq<char>) -> Option<Seq<char>> {
    text_of(member_of(value, key))
}

/// The event that a value stands for; none where one of the four parts is
/// missing or is no string.
pub open spec fn event_of(value: serde_json::Value) -> Option<TraceItemView> {
    event_from_parts(
        text_at(value, "Action"@),
        text_at(value, "AcceptStation"@),
        text_at(value, "AcceptTime"@),
        text_at(value, "Location"@),
    )
}

/// Whether every one of the values stands for an event.
pub open spec fn all_events(items: Seq<serde_json::Value>) -> bool {
    forall|i: int| 0 <= i < items.len() ==> (#[trigger] event_of(items[i])) is Some
}

/// The events that the values stand for, in their order.
pub open spec fn events_of(items: Seq<serde_json::Value>) -> Seq<TraceItemView> {
    Seq::new(items.len(), |i: int| event_of(items[i])->0)
}

/// The history that a `Traces` member stands for. A member that is no array
/// stands for the empty history. An array stands for its events, and for
/// nothing where one of its elements is no complete event.
pub open spec fn history_of(listed: Option<Seq<serde_json::Value>>) -> Option<Seq<TraceItemView>> {
    match listed {
        None => Some(Seq::empty()),
        Some(items) => if all_events(items) {
            Some(events_of(items))
        } else {
            None
        },
    }
}

/// What a body that was read as JSON amounts to.
pub open spec fn decoded(value: serde_json::Value) -> Result<ShipmentResultView, Rejection> {
    judged(
        flag_of(member_of(value, "Success"@)),
        text_at(value, "State"@),
        text_at(value, "StateEx"@),
        text_at(value, "Location"@),
        history_of(items_of(member_of(value, "Traces"@))),
    )
}

/// What a reply amounts to.
pub open spec fn accepted(status: u16, body: Seq<char>) -> Result<ShipmentResultView, Rejection> {
    if status != STATUS_OK {
        Err(Rejection::Status)
    } else {
        match parsed(body) {
            Some(value) => decoded(value),
            None => Err(Rejection::NotJson),
        }
    }
}

fn text_under(value: &serde_json::Value, key: &str) -> (r: Option<String>)
    ensures
        r.deep_view() == text_at(*value, key@),
{
    match as_text(member(value, key)) {
        Some(text) => Some(text.to_owned()),
        None => None,
    }
}

/// Reads one event of the history.
pub fn decode_event(value: &serde_json::Value) -> (r: Option<TraceItem>)
    ensures
        r.deep_view() == event_of(*value),
{
    event_from(
        text_under(value, "Action"),
        text_under(value, "AcceptStation"),
        text_under(value, "AcceptTime"),
        text_under(value, "Location"),
    )
}

/// Reads the history out of the elements of a `Traces` member.
pub fn decode_history(listed: Option<&Vec<serde_json::Value>>) -> (r: Option<Vec<TraceItem>>)
    ensures
        r.deep_view() == history_of(
            match listed {
                Some(items) => Some(items@),
                None => None,
            },
        ),
{
    let mut list: Vec<TraceItem> = Vec::new();
    let items = match listed {
        Some(items) => items,
        None => {
            assert(list.deep_view() =~= Seq::<TraceItemView>::empty());
            return Some(list);
        },
    };
    let ghost all = items@;
    let mut i: usize = 0;
    assert(list.deep_view() =~= events_of(all.take(0)));
    while i < items.len()
        invariant
            0 <= i <= items.len(),
            all == items@,
            listed == Some(items),
            all_events(all.take(i as int)),
            list.deep_view() == events_of(all.take(i as int)),
        decreases items.len() - i,
    {
        let ghost had = list.deep_view();
        match decode_event(&items[i]) {
            Some(event) => {
                list.push(event);
                proof {
                    let before = all.take(i as int);
                    let now = all.take(i + 1);
                    assert forall|k: int| 0 <= k < now.len() implies (#[trigger] event_of(
                        now[k],
                    )) is Some by {
                        if k < i {
                            assert(now[k] == before[k]);
                        }
                    }
                    assert(list.deep_view() =~= had.push(event@));
                    assert forall|k: int| 0 <= k < now.len() implies had.push(event@)[k]
                        == events_of(now)[k] by {
                        if k < i {
                            assert(now[k] == before[k]);
                            assert(had[k] == events_of(before)[k]);
                        }
                    }
                    assert(list.deep_view() =~= events_of(now));
                }
            },
            None => {
                proof {
                    assert(event_of(all[i as int]) is None);
                    assert(!all_events(all));
                    assert(listed == Some(items));
                }
                return None;
            },
        }
        i = i + 1;
    }
    proof {
        assert(all.take(i as int) =~= all);
    }
    Some(list)
}

/// Reads a result from a body that was read as JSON.
pub fn decode_result(value: &serde_json::Value) -> (r: Result<ShipmentResult, Rejection>)
    ensures
        outcome_view(r) == decoded(*value),
{
    judge(
        as_flag(member(value, "Success")),
        text_under(value, "State"),
        text_under(value, "StateEx"),
        text_under(value, "Location"),
        decode_history(as_items(member(value, "Traces"))),
    )
}

/// Whether a reply of this status has a body worth reading.
pub fn status_ok(status: u16) -> (r: bool)
    ensures
        r == (status == STATUS_OK),
{
    status == 200
}

/// Decides what a reply of the tracking service amounts to: the result it
/// carries, or the reason why it carries none.
pub fn accept_response(status: u16, body: &str) -> (r: Result<ShipmentResult, Rejection>)
    ensures
        outcome_view(r) == accepted(status, body@),
        status != STATUS_OK ==> r == Err::<ShipmentResult, Rejection>(Rejection::Status),
{
    if !status_ok(status) {
        return Err(Rejection::Status);
    }
    match parse(body) {
        Some(value) => decode_result(&value),
        None => Err(Rejection::NotJson),
    }
}

} // verus!
