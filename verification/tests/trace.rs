use kdniao_batch::trace::{find_trace_by_code, last_trace, TraceItem};

fn event(action: &str, station: &str, time: &str, location: &str) -> TraceItem {
    TraceItem {
        action: action.to_string(),
        accept_station: station.to_string(),
        accept_time: time.to_string(),
        location: location.to_string(),
    }
}

fn acted(action: &str) -> TraceItem {
    event(action, "", "", "")
}

fn three() -> Vec<TraceItem> {
    vec![acted("1a"), acted("1b"), acted("2x")]
}

#[test]
fn first_match_takes_the_first_event_of_the_prefix() {
    let found = find_trace_by_code(&three(), "1", true);
    assert_eq!(found, Some(acted("1a")));
}

#[test]
fn last_match_takes_the_last_event_of_the_prefix() {
    let found = find_trace_by_code(&three(), "1", false);
    assert_eq!(found, Some(acted("1b")));
}

#[test]
fn nothing_is_found_in_an_empty_list() {
    let empty: Vec<TraceItem> = Vec::new();
    for prefix in ["", "1", "2", "3", "4", "12", "x"] {
        assert_eq!(find_trace_by_code(&empty, prefix, true), None);
        assert_eq!(find_trace_by_code(&empty, prefix, false), None);
    }
}

#[test]
fn nothing_is_found_without_a_match() {
    assert_eq!(find_trace_by_code(&three(), "3", true), None);
    assert_eq!(find_trace_by_code(&three(), "3", false), None);
    assert_eq!(find_trace_by_code(&three(), "a", true), None);
}

#[test]
fn single_match_is_found_under_both_policies() {
    assert_eq!(find_trace_by_code(&three(), "2", true), Some(acted("2x")));
    assert_eq!(find_trace_by_code(&three(), "2", false), Some(acted("2x")));
}

#[test]
fn empty_prefix_matches_every_event() {
    assert_eq!(find_trace_by_code(&three(), "", true), Some(acted("1a")));
    assert_eq!(find_trace_by_code(&three(), "", false), Some(acted("2x")));
}

#[test]
fn prefix_longer_than_the_action_does_not_match() {
    let list = vec![acted("1"), acted("10"), acted("101")];
    assert_eq!(find_trace_by_code(&list, "10", true), Some(acted("10")));
    assert_eq!(find_trace_by_code(&list, "10", false), Some(acted("101")));
    assert_eq!(find_trace_by_code(&list, "1011", false), None);
}

#[test]
fn the_whole_event_is_handed_out() {
    let list = vec![
        event("2", "hub", "t1", "L1"),
        event("1", "shop", "t2", "L2"),
        event("201", "city", "t3", "L3"),
    ];
    assert_eq!(find_trace_by_code(&list, "1", true), Some(event("1", "shop", "t2", "L2")));
    assert_eq!(find_trace_by_code(&list, "2", true), Some(event("2", "hub", "t1", "L1")));
    assert_eq!(find_trace_by_code(&list, "2", false), Some(event("201", "city", "t3", "L3")));
}

#[test]
fn the_list_is_read_in_its_own_order() {
    let list = vec![event("3", "b", "09:00", ""), event("3", "a", "08:00", "")];
    assert_eq!(find_trace_by_code(&list, "3", true), Some(event("3", "b", "09:00", "")));
    assert_eq!(find_trace_by_code(&list, "3", false), Some(event("3", "a", "08:00", "")));
}

#[test]
fn events_without_an_action_match_only_the_empty_prefix() {
    let list = vec![acted(""), acted("4")];
    assert_eq!(find_trace_by_code(&list, "4", true), Some(acted("4")));
    assert_eq!(find_trace_by_code(&list, "", true), Some(acted("")));
}

#[test]
fn most_recent_is_the_last_of_the_list() {
    assert_eq!(last_trace(&three()), Some(acted("2x")));
    assert_eq!(last_trace(&vec![event("1", "s", "t", "l")]), Some(event("1", "s", "t", "l")));
    assert_eq!(last_trace(&Vec::new()), None);
}

#[test]
fn selecting_twice_gives_the_same_event() {
    let list = three();
    for prefix in ["1", "2", "3", ""] {
        for first in [true, false] {
            assert_eq!(
                find_trace_by_code(&list, prefix, first),
                find_trace_by_code(&list, prefix, first)
            );
        }
    }
}

#[test]
fn default_event_is_empty() {
    assert_eq!(TraceItem::default(), acted(""));
}

#[test]
fn clone_keeps_every_part() {
    let e = event("1", "s", "t", "l");
    assert_eq!(e.clone(), e);
    assert_ne!(e, event("1", "s", "t", "x"));
    assert_ne!(e, event("1", "s", "x", "l"));
    assert_ne!(e, event("1", "x", "t", "l"));
    assert_ne!(e, event("x", "s", "t", "l"));
}
