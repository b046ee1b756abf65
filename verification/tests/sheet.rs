use kdniao_batch::config::Config;
use kdniao_batch::sheet::{convert_company, read_row, read_xls, SheetRow};

fn config(names: &[&str], codes: &[&str]) -> Config {
    Config {
        id: "id".to_string(),
        key: "key".to_string(),
        limit: 60,
        url: "http://localhost/".to_string(),
        company_cn: names.iter().map(|t| t.to_string()).collect(),
        company_en: codes.iter().map(|t| t.to_string()).collect(),
    }
}

fn row(company: &str, oid: &str, mark: Option<&str>) -> SheetRow {
    SheetRow {
        company: company.to_string(),
        oid: oid.to_string(),
        mark: mark.map(|t| t.to_string()),
    }
}

#[test]
fn courier_name_gives_the_code_at_its_place() {
    let c = config(&["京东", "顺丰", "圆通"], &["JD", "SF", "YTO"]);
    assert_eq!(convert_company(&"京东".to_string(), &c), Some("JD".to_string()));
    assert_eq!(convert_company(&"顺丰".to_string(), &c), Some("SF".to_string()));
    assert_eq!(convert_company(&"圆通".to_string(), &c), Some("YTO".to_string()));
}

#[test]
fn unlisted_courier_has_no_code() {
    let c = config(&["京东"], &["JD"]);
    assert_eq!(convert_company(&"顺丰".to_string(), &c), None);
    assert_eq!(convert_company(&"".to_string(), &c), None);
    assert_eq!(convert_company(&"JD".to_string(), &c), None);
    assert_eq!(convert_company(&"京东 ".to_string(), &c), None);
    assert_eq!(convert_company(&"京东".to_string(), &config(&[], &[])), None);
}

#[test]
fn name_beyond_the_codes_has_no_code() {
    let c = config(&["京东", "顺丰"], &["JD"]);
    assert_eq!(convert_company(&"京东".to_string(), &c), Some("JD".to_string()));
    assert_eq!(convert_company(&"顺丰".to_string(), &c), None);
}

#[test]
fn name_listed_twice_goes_by_its_first_place() {
    let c = config(&["京东", "顺丰", "京东"], &["JD", "SF", "JD2"]);
    assert_eq!(convert_company(&"京东".to_string(), &c), Some("JD".to_string()));
    let short = config(&["顺丰", "京东", "京东"], &["SF"]);
    assert_eq!(convert_company(&"京东".to_string(), &short), None);
}

#[test]
fn template_lists_one_courier() {
    let c = Config::template();
    assert_eq!(convert_company(&"京东".to_string(), &c), Some("JD".to_string()));
}

#[test]
fn row_is_read_into_a_request() {
    let c = config(&["京东"], &["JD"]);
    let request = read_row(&row("京东", "JD0001", None), &c).unwrap();
    assert_eq!(request.company, "JD");
    assert_eq!(request.company_code, "京东");
    assert_eq!(request.oid, "JD0001");
    assert!(!request.is_retry);
    let marked = read_row(&row("京东", "JD0002", Some("x")), &c).unwrap();
    assert!(marked.is_retry);
    let blank_text = read_row(&row("京东", "JD0003", Some("")), &c).unwrap();
    assert!(blank_text.is_retry);
    assert!(read_row(&row("顺丰", "SF1", None), &c).is_none());
}

#[test]
fn first_and_last_row_are_left_out() {
    let c = config(&["京东"], &["JD"]);
    let sheet = vec![
        row("京东", "head", None),
        row("京东", "one", None),
        row("京东", "two", Some("1")),
        row("京东", "tail", None),
    ];
    let reading = read_xls(&sheet, &c);
    assert_eq!(reading.list.len(), 2);
    assert_eq!(reading.list[0].oid, "one");
    assert!(!reading.list[0].is_retry);
    assert_eq!(reading.list[1].oid, "two");
    assert!(reading.list[1].is_retry);
    assert!(reading.skipped.is_empty());
}

#[test]
fn short_sheets_ask_for_nothing() {
    let c = config(&["京东"], &["JD"]);
    for count in 0..3 {
        let sheet: Vec<SheetRow> = (0..count).map(|_| row("京东", "x", None)).collect();
        let reading = read_xls(&sheet, &c);
        assert!(reading.list.is_empty());
        assert!(reading.skipped.is_empty());
    }
}

#[test]
fn rows_of_unlisted_couriers_are_noted_by_place() {
    let c = config(&["京东", "顺丰"], &["JD", "SF"]);
    let sheet = vec![
        row("物流公司", "运单", None),
        row("圆通", "a", None),
        row("京东", "b", None),
        row("中通", "c", Some("1")),
        row("顺丰", "d", None),
        row("", "e", None),
        row("end", "", None),
    ];
    let reading = read_xls(&sheet, &c);
    assert_eq!(reading.skipped, vec![1, 3, 5]);
    assert_eq!(reading.list.len(), 2);
    assert_eq!(reading.list[0].oid, "b");
    assert_eq!(reading.list[0].company, "JD");
    assert_eq!(reading.list[1].oid, "d");
    assert_eq!(reading.list[1].company, "SF");
    assert_eq!(reading.list[1].company_code, "顺丰");
}
