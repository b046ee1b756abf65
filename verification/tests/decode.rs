use kdniao_batch::response::{
    decode_event, decode_history, decode_result, event_from, judge, Rejection,
};
use kdniao_batch::trace::TraceItem;

fn text(t: &str) -> Option<String> {
    Some(t.to_string())
}

fn value(json: &str) -> serde_json::Value {
    serde_json::from_str(json).unwrap()
}

fn event(action: &str, station: &str, time: &str, location: &str) -> TraceItem {
    TraceItem {
        action: action.to_string(),
        accept_station: station.to_string(),
        accept_time: time.to_string(),
        location: location.to_string(),
    }
}

#[test]
fn event_needs_all_four_parts() {
    assert_eq!(
        event_from(text("1"), text("s"), text("t"), text("l")),
        Some(event("1", "s", "t", "l"))
    );
    assert_eq!(event_from(None, text("s"), text("t"), text("l")), None);
    assert_eq!(event_from(text("1"), None, text("t"), text("l")), None);
    assert_eq!(event_from(text("1"), text("s"), None, text("l")), None);
    assert_eq!(event_from(text("1"), text("s"), text("t"), None), None);
    assert_eq!(event_from(None, None, None, None), None);
    assert_eq!(event_from(text(""), text(""), text(""), text("")), Some(event("", "", "", "")));
}

#[test]
fn success_flag_is_judged_first() {
    let full = || (text("1"), text("2"), text("here"), Some(Vec::new()));
    let (a, b, c, d) = full();
    assert_eq!(judge(None, a, b, c, d).unwrap_err(), Rejection::NoFlag);
    let (a, b, c, d) = full();
    assert_eq!(judge(Some(false), a, b, c, d).unwrap_err(), Rejection::Refused);
    assert_eq!(judge(None, None, None, None, None).unwrap_err(), Rejection::NoFlag);
    assert_eq!(judge(Some(false), None, None, None, None).unwrap_err(), Rejection::Refused);
}

#[test]
fn successful_query_needs_states_and_history() {
    assert_eq!(
        judge(Some(true), None, text("2"), text("x"), Some(Vec::new())).unwrap_err(),
        Rejection::Incomplete
    );
    assert_eq!(
        judge(Some(true), text("1"), None, text("x"), Some(Vec::new())).unwrap_err(),
        Rejection::Incomplete
    );
    assert_eq!(
        judge(Some(true), text("1"), text("2"), text("x"), None).unwrap_err(),
        Rejection::Incomplete
    );
    let result = judge(Some(true), text("1"), text("2"), None, Some(vec![event("1", "", "", "")]))
        .unwrap();
    assert_eq!(result.state, "1");
    assert_eq!(result.state_ex, "2");
    assert_eq!(result.location, None);
    assert_eq!(result.traces, vec![event("1", "", "", "")]);
    let result = judge(Some(true), text("1"), text("2"), text("x"), Some(Vec::new())).unwrap();
    assert_eq!(result.location, text("x"));
}

#[test]
fn event_is_read_from_its_four_members() {
    let v = value(
        "{\"Action\":\"2\",\"AcceptStation\":\"站\",\"AcceptTime\":\"时\",\"Location\":\"地\",\"X\":1}",
    );
    assert_eq!(decode_event(&v), Some(event("2", "站", "时", "地")));
    assert_eq!(decode_event(&value("{}")), None);
    assert_eq!(decode_event(&value("null")), None);
    assert_eq!(decode_event(&value("\"Action\"")), None);
    assert_eq!(decode_event(&value("[\"Action\"]")), None);
    assert_eq!(
        decode_event(&value(
            "{\"Action\":null,\"AcceptStation\":\"s\",\"AcceptTime\":\"t\",\"Location\":\"l\"}"
        )),
        None
    );
    assert_eq!(
        decode_event(&value(
            "{\"action\":\"1\",\"AcceptStation\":\"s\",\"AcceptTime\":\"t\",\"Location\":\"l\"}"
        )),
        None
    );
}

#[test]
fn history_is_read_element_by_element() {
    assert_eq!(decode_history(None), Some(Vec::new()));
    assert_eq!(decode_history(Some(&Vec::new())), Some(Vec::new()));
    let good = value("{\"Action\":\"1\",\"AcceptStation\":\"s\",\"AcceptTime\":\"t\",\"Location\":\"l\"}");
    let other = value("{\"Action\":\"3\",\"AcceptStation\":\"s3\",\"AcceptTime\":\"t3\",\"Location\":\"l3\"}");
    let bad = value("{\"Action\":\"1\"}");
    assert_eq!(
        decode_history(Some(&vec![good.clone(), other.clone()])),
        Some(vec![event("1", "s", "t", "l"), event("3", "s3", "t3", "l3")])
    );
    assert_eq!(decode_history(Some(&vec![good.clone(), bad.clone()])), None);
    assert_eq!(decode_history(Some(&vec![bad.clone(), good.clone()])), None);
    assert_eq!(decode_history(Some(&vec![good.clone(), bad, other])), None);
}

#[test]
fn result_is_read_from_a_value() {
    let v = value("{\"Success\":true,\"State\":\"2\",\"StateEx\":\"211\",\"Location\":\"杭州市\"}");
    let result = decode_result(&v).unwrap();
    assert_eq!(result.state, "2");
    assert_eq!(result.state_ex, "211");
    assert_eq!(result.location, text("杭州市"));
    assert!(result.traces.is_empty());
    assert_eq!(decode_result(&value("{\"Success\":false}")).unwrap_err(), Rejection::Refused);
    assert_eq!(decode_result(&value("7")).unwrap_err(), Rejection::NoFlag);
    assert_eq!(decode_result(&value("{\"Success\":true}")).unwrap_err(), Rejection::Incomplete);
}
