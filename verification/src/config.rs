//! The settings of a run: who asks, where, and how the sheet's courier
//! names map to the tracking service's codes.

use vstd::prelude::*;

verus! {

/// The settings that every part of a run reads.
#[derive(Debug)]
pub struct Config {
    /// The account at the tracking service.
    pub id: String,
    /// The key that requests are signed with.
    pub key: String,
    /// The number of queries allowed per minute. It is kept with the other
    /// settings; a run does not pace itself by it.
    pub limit: i64,
    /// The address of the tracking service.
    pub url: String,
    /// The courier names as the sheet writes them.
    pub company_cn: Vec<String>,
    /// The courier codes, each at the place of its name in `company_cn`.
    pub company_en: Vec<String>,
}

/// The settings as plain values.
pub struct ConfigView {
    pub id: Seq<char>,
    pub key: Seq<char>,
    pub limit: int,
    pub url: Seq<char>,
    pub company_cn: Seq<Seq<char>>,
    pub company_en: Seq<Seq<char>>,
}

impl View for Config {
    type V = ConfigView;

    open spec fn view(&self) -> ConfigView {
        ConfigView {
            id: self.id@,
            key: self.key@,
            limit: self.limit as int,
            url: self.url@,
            company_cn: self.company_cn.deep_view(),
            company_en: self.company_en.deep_view(),
        }
    }
}

impl DeepView for Config {
    type V = ConfigView;

    open spec fn deep_view(&self) -> ConfigView {
        self@
    }
}

/// The text of a setting that has not been filled in yet.
pub open spec fn unset_text() -> Seq<char> {
    "未设置"@
}

/// The settings that a first run writes out for the user to complete.
pub open spec fn template_view() -> ConfigView {
    ConfigView {
        id: unset_text(),
        key: unset_text(),
        limit: 60,
        url: unset_text(),
        company_cn: seq!["京东"@],
        company_en: seq!["JD"@],
    }
}

impl Config {
    /// The settings to start from: nothing is filled in but the limit and
    /// one courier, as an example of the name table.
    pub fn template() -> (r: Config)
        ensures
            r@ == template_view(),
    {
        let mut company_cn: Vec<String> = Vec::new();
        company_cn.push("京东".to_owned());
        let mut company_en: Vec<String> = Vec::new();
        company_en.push("JD".to_owned());
        let r = Config {
            id: "未设置".to_owned(),
            key: "未设置".to_owned(),
            limit: 60,
            url: "未设置".to_owned(),
            company_cn,
            company_en,
        };
        assert(r@.company_cn =~= seq!["京东"@]);
        assert(r@.company_en =~= seq!["JD"@]);
        r
    }
}

} // verus!
