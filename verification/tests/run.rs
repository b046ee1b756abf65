use kdniao_batch::batch::{run, Query};
use kdniao_batch::report::{footer_from, header_row, COLUMNS};
use kdniao_batch::shipment::{ListInfo, ShipmentResult};
use kdniao_batch::trace::TraceItem;

fn request(oid: &str) -> ListInfo {
    ListInfo {
        company: "SF".to_string(),
        company_code: "顺丰".to_string(),
        oid: oid.to_string(),
        is_retry: false,
    }
}

fn answer(state: &str, traces: Vec<TraceItem>) -> ShipmentResult {
    ShipmentResult {
        state: state.to_string(),
        state_ex: state.to_string(),
        location: Some("广州市".to_string()),
        traces,
    }
}

fn at(second: u32) -> chrono::NaiveDateTime {
    chrono::NaiveDate::from_ymd_opt(2022, 2, 3).unwrap().and_hms_opt(4, 5, second).unwrap()
}

#[test]
fn run_without_queries_gives_header_and_footer() {
    let rows = run(&Vec::new(), &at(0), &at(1));
    assert_eq!(rows.len(), 2);
    assert_eq!(rows[0], header_row());
    assert_eq!(
        rows[1],
        vec![
            "开始时间 \"2022-02-03 04:05:00\"".to_string(),
            "结束时间 \"2022-02-03 04:05:01\"".to_string(),
        ]
    );
}

#[test]
fn run_gives_one_row_for_each_answered_query() {
    let queries = vec![
        Query { request: request("a"), answer: Some(answer("1", Vec::new())) },
        Query { request: request("b"), answer: None },
        Query {
            request: request("c"),
            answer: Some(answer(
                "3",
                vec![TraceItem {
                    action: "3".to_string(),
                    accept_station: "门口".to_string(),
                    accept_time: "昨天".to_string(),
                    location: "深圳市".to_string(),
                }],
            )),
        },
        Query { request: request("d"), answer: None },
    ];
    let rows = run(&queries, &at(2), &at(3));
    assert_eq!(rows.len(), 4);
    assert_eq!(rows[0], header_row());
    assert_eq!(rows[1][1], "a");
    assert_eq!(rows[1][5], "已揽收");
    assert_eq!(rows[2][1], "c");
    assert_eq!(rows[2][5], "已签收");
    assert_eq!(rows[2][7], "广州市");
    assert_eq!(rows[2][19], "昨天");
    assert_eq!(rows[2][20], "门口");
    assert_eq!(rows[2][21], "深圳市");
    assert_eq!(rows[1].len(), COLUMNS);
    assert_eq!(rows[2].len(), COLUMNS);
    assert_eq!(rows[3].len(), 2);
}

#[test]
fn run_where_no_query_was_answered_has_no_shipment_rows() {
    let queries = vec![
        Query { request: request("a"), answer: None },
        Query { request: request("b"), answer: None },
    ];
    let rows = run(&queries, &at(0), &at(0));
    assert_eq!(rows.len(), 2);
}

#[test]
fn footer_cells_stand_behind_their_labels() {
    assert_eq!(
        footer_from("\"a\"", "b"),
        vec!["开始时间 \"a\"".to_string(), "结束时间 b".to_string()]
    );
    assert_eq!(footer_from("", ""), vec!["开始时间 ".to_string(), "结束时间 ".to_string()]);
}
