use kdniao_batch::config::Config;

#[test]
fn template_is_unset_but_for_the_limit_and_one_courier() {
    let c = Config::template();
    assert_eq!(c.id, "未设置");
    assert_eq!(c.key, "未设置");
    assert_eq!(c.url, "未设置");
    assert_eq!(c.limit, 60);
    assert_eq!(c.company_cn, vec!["京东".to_string()]);
    assert_eq!(c.company_en, vec!["JD".to_string()]);
}
