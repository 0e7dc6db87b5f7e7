use vstd::prelude::*;

use crate::text::str_eq;

verus! {

/// The kinds of message the classifier tells apart.
#[derive(Debug, Clone, Copy, PartialEq, Eq, Hash, Structural)]
pub enum SmsCategory {
    Verification,
    Notification,
    Promotion,
    Finance,
    Default,
}

/// The emoji shown in front of a message of category `c`.
pub open spec fn emoji_text(c: SmsCategory) -> Seq<char> {
    match c {
        SmsCategory::Verification => "🔐"@,
        SmsCategory::Notification => "📢"@,
        SmsCategory::Promotion => "🎉"@,
        SmsCategory::Finance => "💰"@,
        SmsCategory::Default => "📱"@,
    }
}

/// The (Chinese) label of category `c`.
pub open spec fn label_text(c: SmsCategory) -> Seq<char> {
    match c {
        SmsCategory::Verification => "验证码"@,
        SmsCategory::Notification => "通知"@,
        SmsCategory::Promotion => "营销"@,
        SmsCategory::Finance => "金融"@,
        SmsCategory::Default => "其他"@,
    }
}

/// The category that a rule name in the configuration stands for: the Chinese
/// label or the English name of a category; any other name stands for `Default`.
pub open spec fn category_named(name: Seq<char>) -> SmsCategory {
    if name == "验证码"@ || name == "verification"@ {
        SmsCategory::Verification
    } else if name == "通知"@ || name == "notification"@ {
        SmsCategory::Notification
    } else if name == "营销"@ || name == "promotion"@ {
        SmsCategory::Promotion
    } else if name == "金融"@ || name == "finance"@ {
        SmsCategory::Finance
    } else {
        SmsCategory::Default
    }
}

impl SmsCategory {
    /// The emoji of this category.
    pub fn emoji(&self) -> (r: &'static str)
        ensures
            r@ == emoji_text(*self),
    {
        match self {
            SmsCategory::Verification => "🔐",
            SmsCategory::Notification => "📢",
            SmsCategory::Promotion => "🎉",
            SmsCategory::Finance => "💰",
            SmsCategory::Default => "📱",
        }
    }

    /// The label of this category.
    pub fn label(&self) -> (r: &'static str)
        ensures
            r@ == label_text(*self),
    {
        match self {
            SmsCategory::Verification => "验证码",
            SmsCategory::Notification => "通知",
            SmsCategory::Promotion => "营销",
            SmsCategory::Finance => "金融",
            SmsCategory::Default => "其他",
        }
    }

    /// The category that the rule name `s` stands for.
    pub fn from_name(s: &str) -> (c: SmsCategory)
        ensures
            c == category_named(s@),
    {
        if str_eq(s, "验证码") || str_eq(s, "verification") {
            SmsCategory::Verification
        } else if str_eq(s, "通知") || str_eq(s, "notification") {
            SmsCategory::Notification
        } else if str_eq(s, "营销") || str_eq(s, "promotion") {
            SmsCategory::Promotion
        } else if str_eq(s, "金融") || str_eq(s, "finance") {
            SmsCategory::Finance
        } else {
            SmsCategory::Default
        }
    }
}

impl<'a> From<&'a str> for SmsCategory {
    fn from(s: &'a str) -> (c: SmsCategory) {
        SmsCategory::from_name(s)
    }
}

impl<'a> vstd::std_specs::convert::FromSpecImpl<&'a str> for SmsCategory {
    open spec fn obeys_from_spec() -> bool {
        true
    }

    open spec fn from_spec(s: &'a str) -> SmsCategory {
        category_named(s@)
    }
}

/// A category's label names that category again: `SmsCategory::from(c.label()) == c`
/// for every category `c`.
pub proof fn law_label_names_category(c: SmsCategory)
    ensures
        category_named(label_text(c)) == c,
{
    reveal_strlit("验证码");
    reveal_strlit("verification");
    reveal_strlit("通知");
    reveal_strlit("notification");
    reveal_strlit("营销");
    reveal_strlit("promotion");
    reveal_strlit("金融");
    reveal_strlit("finance");
    reveal_strlit("其他");
    assert("验证码"@.len() == 3);
    assert("verification"@.len() == 12);
    assert("notification"@.len() == 12);
    assert("promotion"@.len() == 9);
    assert("finance"@.len() == 7);
    assert("通知"@.len() == 2 && "通知"@[0] == '通');
    assert("营销"@.len() == 2 && "营销"@[0] == '营');
    assert("金融"@.len() == 2 && "金融"@[0] == '金');
    assert("其他"@.len() == 2 && "其他"@[0] == '其');
}

} // verus!
