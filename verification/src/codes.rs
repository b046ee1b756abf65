//! Labels for the courier's state codes.
//!
//! The same table serves the coarse state and the finer extended state: the
//! single-digit codes name a stage, the three-digit codes say how that stage
//! went. A code outside the table is passed on, marked as unknown.

use vstd::prelude::*;
use vstd::string::StringExecFns;
use crate::text::same_text;

verus! {

/// The label of a code that the table holds, `None` for any other code.
pub open spec fn known_label(code: Seq<char>) -> Option<Seq<char>> {
    if code == "1"@ {
        Some("已揽收"@)
    } else if code == "2"@ {
        Some("在途中"@)
    } else if code == "201"@ {
        Some("到达派件城市"@)
    } else if code == "202"@ {
        Some("派件中"@)
    } else if code == "211"@ {
        Some("已放入快递柜或驿站"@)
    } else if code == "3"@ {
        Some("已签收"@)
    } else if code == "301"@ {
        Some("正常签收"@)
    } else if code == "302"@ {
        Some("代收签收"@)
    } else if code == "304"@ {
        Some("快递柜或驿站签收"@)
    } else if code == "311"@ {
        Some("已取出快递柜或驿站"@)
    } else if code == "401"@ {
        Some("问题件"@)
    } else if code == "402"@ {
        Some("超时未签收"@)
    } else if code == "403"@ {
        Some("超时未更新"@)
    } else if code == "404"@ {
        Some("拒收（退件）"@)
    } else if code == "405"@ {
        Some("派件异常"@)
    } else if code == "406"@ {
        Some("退货签收"@)
    } else if code == "407"@ {
        Some("退货未签收"@)
    } else if code == "412"@ {
        Some("快递柜或驿站超时未取"@)
    } else {
        None
    }
}

/// What stands before a code that the table does not hold.
pub open spec fn unknown_mark() -> Seq<char> {
    "unknown "@
}

/// The display text of a state code: its label, or the code after the
/// unknown mark.
pub open spec fn label_of(code: Seq<char>) -> Seq<char> {
    match known_label(code) {
        Some(label) => label,
        None => unknown_mark() + code,
    }
}

/// Translates a state code, or an extended state code, into its display text.
pub fn transform_code(code: &str) -> (r: String)
    ensures
        r@ == label_of(code@),
        known_label(code@) matches Some(label) ==> r@ == label,
        known_label(code@) is None ==> r@ == unknown_mark() + code@,
{
    if same_text(code, "1") {
        "已揽收".to_owned()
    } else if same_text(code, "2") {
        "在途中".to_owned()
    } else if same_text(code, "201") {
        "到达派件城市".to_owned()
    } else if same_text(code, "202") {
        "派件中".to_owned()
    } else if same_text(code, "211") {
        "已放入快递柜或驿站".to_owned()
    } else if same_text(code, "3") {
        "已签收".to_owned()
    } else if same_text(code, "301") {
        "正常签收".to_owned()
    } else if same_text(code, "302") {
        "代收签收".to_owned()
    } else if same_text(code, "304") {
        "快递柜或驿站签收".to_owned()
    } else if same_text(code, "311") {
        "已取出快递柜或驿站".to_owned()
    } else if same_text(code, "401") {
        "问题件".to_owned()
    } else if same_text(code, "402") {
        "超时未签收".to_owned()
    } else if same_text(code, "403") {
        "超时未更新".to_owned()
    } else if same_text(code, "404") {
        "拒收（退件）".to_owned()
    } else if same_text(code, "405") {
        "派件异常".to_owned()
    } else if same_text(code, "406") {
        "退货签收".to_owned()
    } else if same_text(code, "407") {
        "退货未签收".to_owned()
    } else if same_text(code, "412") {
        "快递柜或驿站超时未取".to_owned()
    } else {
        "unknown ".to_owned().concat(code)
    }
}

/// Every code of the table has its own label: no entry hides another.
pub proof fn lemma_table_entries()
    ensures
        known_label("1"@) == Some("已揽收"@),
        known_label("2"@) == Some("在途中"@),
        known_label("201"@) == Some("到达派件城市"@),
        known_label("202"@) == Some("派件中"@),
        known_label("211"@) == Some("已放入快递柜或驿站"@),
        known_label("3"@) == Some("已签收"@),
        known_label("301"@) == Some("正常签收"@),
        known_label("302"@) == Some("代收签收"@),
        known_label("304"@) == Some("快递柜或驿站签收"@),
        known_label("311"@) == Some("已取出快递柜或驿站"@),
        known_label("401"@) == Some("问题件"@),
        known_label("402"@) == Some("超时未签收"@),
        known_label("403"@) == Some("超时未更新"@),
        known_label("404"@) == Some("拒收（退件）"@),
        known_label("405"@) == Some("派件异常"@),
        known_label("406"@) == Some("退货签收"@),
        known_label("407"@) == Some("退货未签收"@),
        known_label("412"@) == Some("快递柜或驿站超时未取"@),
{
    reveal_strlit("1");
    assert("1"@.len() == 1 && "1"@[0] == '1');
    reveal_strlit("2");
    assert("2"@.len() == 1 && "2"@[0] == '2');
    reveal_strlit("201");
    assert("201"@.len() == 3 && "201"@[0] == '2' && "201"@[1] == '0' && "201"@[2] == '1');
    reveal_strlit("202");
    assert("202"@.len() == 3 && "202"@[0] == '2' && "202"@[1] == '0' && "202"@[2] == '2');
    reveal_strlit("211");
    assert("211"@.len() == 3 && "211"@[0] == '2' && "211"@[1] == '1' && "211"@[2] == '1');
    reveal_strlit("3");
    assert("3"@.len() == 1 && "3"@[0] == '3');
    reveal_strlit("301");
    assert("301"@.len() == 3 && "301"@[0] == '3' && "301"@[1] == '0' && "301"@[2] == '1');
    reveal_strlit("302");
    assert("302"@.len() == 3 && "302"@[0] == '3' && "302"@[1] == '0' && "302"@[2] == '2');
    reveal_strlit("304");
    assert("304"@.len() == 3 && "304"@[0] == '3' && "304"@[1] == '0' && "304"@[2] == '4');
    reveal_strlit("311");
    assert("311"@.len() == 3 && "311"@[0] == '3' && "311"@[1] == '1' && "311"@[2] == '1');
    reveal_strlit("401");
    assert("401"@.len() == 3 && "401"@[0] == '4' && "401"@[1] == '0' && "401"@[2] == '1');
    reveal_strlit("402");
    assert("402"@.len() == 3 && "402"@[0] == '4' && "402"@[1] == '0' && "402"@[2] == '2');
    reveal_strlit("403");
    assert("403"@.len() == 3 && "403"@[0] == '4' && "403"@[1] == '0' && "403"@[2] == '3');
    reveal_strlit("404");
    assert("404"@.len() == 3 && "404"@[0] == '4' && "404"@[1] == '0' && "404"@[2] == '4');
    reveal_strlit("405");
    assert("405"@.len() == 3 && "405"@[0] == '4' && "405"@[1] == '0' && "405"@[2] == '5');
    reveal_strlit("406");
    assert("406"@.len() == 3 && "406"@[0] == '4' && "406"@[1] == '0' && "406"@[2] == '6');
    reveal_strlit("407");
    assert("407"@.len() == 3 && "407"@[0] == '4' && "407"@[1] == '0' && "407"@[2] == '7');
    reveal_strlit("412");
    assert("412"@.len() == 3 && "412"@[0] == '4' && "412"@[1] == '1' && "412"@[2] == '2');
}

/// Translating the same code again gives the same text: the text depends
/// on the code and on nothing else.
pub proof fn lemma_translation_repeatable(first: Seq<char>, second: Seq<char>)
    requires
        first == second,
    ensures
        label_of(first) == label_of(second),
{
}

/// A code that the table does not hold can be read back from its display
/// text: it is what follows the unknown mark.
pub proof fn lemma_unknown_code_kept(code: Seq<char>)
    requires
        known_label(code) is None,
    ensures
        label_of(code).len() == unknown_mark().len() + code.len(),
        label_of(code).skip(unknown_mark().len() as int) == code,
        unknown_mark().is_prefix_of(label_of(code)),
{
    let mark = unknown_mark();
    assert((mark + code).skip(mark.len() as int) =~= code);
    assert((mark + code).subrange(0, mark.len() as int) =~= mark);
}

} // verus!
