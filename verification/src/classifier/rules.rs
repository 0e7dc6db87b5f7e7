use vstd::prelude::*;

use super::category::{SmsCategory, category_named};
use crate::config::{CategoryRule, ClassifierConfig};
use crate::text::{clone_strings, has_part, str_contains, texts_of};

verus! {

/// A regular expression as compiled by the `regex` crate.
#[verifier::external_type_specification]
#[verifier::external_body]
pub struct ExRegex(regex::Regex);

/// `<Regex as Clone>::clone` (derived in the `regex` crate): a copy of the
/// compiled expression; nothing is claimed of it here, as Verus sees nothing inside
/// a `Regex`.
pub assume_specification[ <regex::Regex as Clone>::clone ](r: &regex::Regex) -> regex::Regex;

/// Whether `regex::Regex::new` accepts `pattern` (it is valid and within the
/// default size limit).
pub uninterp spec fn regex_compiles(pattern: Seq<char>) -> bool;

/// Whether the regular expression compiled from `pattern` matches somewhere in `text`.
pub uninterp spec fn regex_is_match(pattern: Seq<char>, text: Seq<char>) -> bool;

/// The lower-case form of `s`, as `str::to_lowercase` gives it.
pub uninterp spec fn lowercase(s: Seq<char>) -> Seq<char>;

/// A compiled regular expression, kept with the pattern it was compiled from.
/// Only `compile_pattern` makes one, so `regex` is always compiled from `source`.
#[derive(Debug, Clone)]
pub struct CompiledPattern {
    source: String,
    regex: regex::Regex,
}

impl CompiledPattern {
    /// The pattern that this regular expression was compiled from.
    pub closed spec fn source(&self) -> Seq<char> {
        self.source@
    }
}

/// Compiles `pattern` with `regex::Regex::new`; `None` where that returns an error.
/// Claims that success depends on the pattern alone, and that the result remembers
/// its pattern.
#[verifier::external_body]
fn compile_pattern(pattern: &str) -> (r: Option<CompiledPattern>)
    ensures
        r is Some <==> regex_compiles(pattern@),
        r matches Some(p) ==> p.source() == pattern@,
{
    regex::Regex::new(pattern).ok().map(|regex| CompiledPattern { source: pattern.to_string(), regex })
}

/// `regex::Regex::is_match` on the compiled pattern: claims the answer is
/// `regex_is_match` of the pattern's source and the text.
#[verifier::external_body]
fn pattern_is_match(p: &CompiledPattern, text: &str) -> (r: bool)
    ensures
        r == regex_is_match(p.source(), text@),
{
    p.regex.is_match(text)
}

/// `str::to_lowercase`: claims the result is `lowercase` of the argument.
#[verifier::external_body]
pub(crate) fn to_lowercase(s: &str) -> (r: String)
    ensures
        r@ == lowercase(s@),
{
    s.to_lowercase()
}

/// The keywords and patterns of one category as the classifier holds them.
pub struct RuleView {
    pub keywords: Seq<Seq<char>>,
    pub patterns: Option<Seq<Seq<char>>>,
}

/// The patterns of `ps` that compile, in order.
pub open spec fn compiled_sources(ps: Seq<Seq<char>>) -> Seq<Seq<char>>
    decreases ps.len(),
{
    if ps.len() == 0 {
        seq![]
    } else if regex_compiles(ps.last()) {
        compiled_sources(ps.drop_last()).push(ps.last())
    } else {
        compiled_sources(ps.drop_last())
    }
}

/// What the classifier keeps of a configured rule.
pub open spec fn rule_view(r: CategoryRule) -> RuleView {
    RuleView {
        keywords: texts_of(r.keywords@),
        patterns: match r.patterns {
            Some(ps) => Some(compiled_sources(texts_of(ps@))),
            None => None,
        },
    }
}

/// The rule that the configuration gives category `c`: that of the last entry
/// whose name stands for `c`, if there is one.
pub open spec fn configured_rule(rules: Seq<(String, CategoryRule)>, c: SmsCategory) -> Option<
    RuleView,
>
    decreases rules.len(),
{
    if rules.len() == 0 {
        None
    } else if category_named(rules.last().0@) == c {
        Some(rule_view(rules.last().1))
    } else {
        configured_rule(rules.drop_last(), c)
    }
}

/// Whether a rule matches the (lower-cased) text: one of its lower-cased keywords
/// occurs in it, or one of its patterns matches it.
pub open spec fn rule_matches(r: RuleView, text: Seq<char>) -> bool {
    ||| exists|i: int| 0 <= i < r.keywords.len() && has_part(text, lowercase(#[trigger] r.keywords[i]))
    ||| match r.patterns {
        Some(ps) => exists|j: int| 0 <= j < ps.len() && regex_is_match(#[trigger] ps[j], text),
        None => false,
    }
}

/// Whether the rule of category `c` exists and matches `text`.
pub open spec fn category_matches(rule: Option<RuleView>, text: Seq<char>) -> bool {
    match rule {
        Some(r) => rule_matches(r, text),
        None => false,
    }
}

/// The patterns that a sequence of compiled regular expressions was compiled from.
pub open spec fn pattern_sources(ps: Seq<CompiledPattern>) -> Seq<Seq<char>> {
    ps.map_values(|p: CompiledPattern| p.source())
}

/// The rules for each category.
#[derive(Debug, Clone)]
pub struct CategoryRules {
    keywords: Vec<String>,
    patterns: Option<Vec<CompiledPattern>>,
}

impl CategoryRules {
    pub closed spec fn view(&self) -> RuleView {
        RuleView {
            keywords: texts_of(self.keywords@),
            patterns: match self.patterns {
                Some(ps) => Some(pattern_sources(ps@)),
                None => None,
            },
        }
    }
}

/// Classifies messages by keywords and regular expressions, one rule per category.
#[derive(Debug, Clone)]
pub struct SmsClassifier {
    verification: Option<CategoryRules>,
    notification: Option<CategoryRules>,
    promotion: Option<CategoryRules>,
    finance: Option<CategoryRules>,
    default: Option<CategoryRules>,
}

/// The view of an optional rule.
pub open spec fn opt_rule_view(r: Option<CategoryRules>) -> Option<RuleView> {
    match r {
        Some(x) => Some(x.view()),
        None => None,
    }
}

/// The category that a message whose lower-cased text is `text` falls in, given the
/// rule of each category: the first of Verification, Finance, Notification and
/// Promotion whose rule matches, else Default.
pub open spec fn classify_text(rule: spec_fn(SmsCategory) -> Option<RuleView>, text: Seq<char>) -> SmsCategory {
    if category_matches(rule(SmsCategory::Verification), text) {
        SmsCategory::Verification
    } else if category_matches(rule(SmsCategory::Finance), text) {
        SmsCategory::Finance
    } else if category_matches(rule(SmsCategory::Notification), text) {
        SmsCategory::Notification
    } else if category_matches(rule(SmsCategory::Promotion), text) {
        SmsCategory::Promotion
    } else {
        SmsCategory::Default
    }
}

fn compile_all(ps: &Vec<String>) -> (r: Vec<CompiledPattern>)
    ensures
        pattern_sources(r@) == compiled_sources(texts_of(ps@)),
{
    let mut r: Vec<CompiledPattern> = Vec::new();
    let mut i: usize = 0;
    while i < ps.len()
        invariant
            i <= ps.len(),
            pattern_sources(r@) == compiled_sources(
                texts_of(ps@.take(i as int)),
            ),
        decreases ps.len() - i,
    {
        let ghost before = r@;
        let c = compile_pattern(ps[i].as_str());
        proof {
            assert(texts_of(ps@.take(i + 1)).drop_last() =~= texts_of(ps@.take(i as int)));
            assert(texts_of(ps@.take(i + 1)).last() == ps@[i as int]@);
        }
        if let Some(p) = c {
            r.push(p);
            assert(pattern_sources(r@) =~= pattern_sources(before).push(ps@[i as int]@));
        }
        i = i + 1;
    }
    assert(ps@.take(ps.len() as int) =~= ps@);
    r
}

impl SmsClassifier {
    /// The rule that this classifier holds for category `c`.
    pub closed spec fn rule(&self, c: SmsCategory) -> Option<RuleView> {
        match c {
            SmsCategory::Verification => opt_rule_view(self.verification),
            SmsCategory::Notification => opt_rule_view(self.notification),
            SmsCategory::Promotion => opt_rule_view(self.promotion),
            SmsCategory::Finance => opt_rule_view(self.finance),
            SmsCategory::Default => opt_rule_view(self.default),
        }
    }

    /// The rule of each category, as a function: `rule` itself.
    pub open spec fn rules(&self) -> spec_fn(SmsCategory) -> Option<RuleView> {
        |c: SmsCategory| self.rule(c)
    }

    fn get(&self, c: SmsCategory) -> (r: &Option<CategoryRules>)
        ensures
            opt_rule_view(*r) == self.rule(c),
    {
        match c {
            SmsCategory::Verification => &self.verification,
            SmsCategory::Notification => &self.notification,
            SmsCategory::Promotion => &self.promotion,
            SmsCategory::Finance => &self.finance,
            SmsCategory::Default => &self.default,
        }
    }

    fn set(&mut self, c: SmsCategory, r: CategoryRules)
        ensures
            final(self).rule(c) == Some(r.view()),
            forall|d: SmsCategory| d != c ==> final(self).rule(d) == old(self).rule(d),
    {
        match c {
            SmsCategory::Verification => self.verification = Some(r),
            SmsCategory::Notification => self.notification = Some(r),
            SmsCategory::Promotion => self.promotion = Some(r),
            SmsCategory::Finance => self.finance = Some(r),
            SmsCategory::Default => self.default = Some(r),
        }
    }

    /// Builds a classifier from the configured rules. A rule's name gives its
    /// category (see `category_named`); where several names give one category the
    /// last of them counts; patterns that do not compile are left out.
    pub fn new(config: ClassifierConfig) -> (s: SmsClassifier)
        ensures
            forall|c: SmsCategory| s.rule(c) == configured_rule(config.rules@, c),
    {
        let mut s = SmsClassifier {
            verification: None,
            notification: None,
            promotion: None,
            finance: None,
            default: None,
        };
        let rules = &config.rules;
        let mut i: usize = 0;
        while i < rules.len()
            invariant
                i <= rules.len(),
                forall|c: SmsCategory| s.rule(c) == configured_rule(rules@.take(i as int), c),
            decreases rules.len() - i,
        {
            let name = &rules[i].0;
            let rule = &rules[i].1;
            let c = SmsCategory::from_name(name.as_str());
            let patterns = match &rule.patterns {
                Some(ps) => Some(compile_all(ps)),
                None => None,
            };
            let compiled = CategoryRules { keywords: clone_strings(&rule.keywords), patterns };
            assert(compiled.view() == rule_view(*rule));
            s.set(c, compiled);
            proof {
                let pre = rules@.take(i + 1);
                assert(pre.drop_last() =~= rules@.take(i as int));
                assert(pre.last() == rules@[i as int]);
            }
            i = i + 1;
        }
        assert(rules@.take(rules.len() as int) =~= rules@);
        s
    }

    fn category_applies(&self, c: SmsCategory, text: &str) -> (r: bool)
        ensures
            r == category_matches(self.rule(c), text@),
    {
        match self.get(c) {
            None => false,
            Some(rule) => {
                let mut i: usize = 0;
                while i < rule.keywords.len()
                    invariant
                        self.rule(c) == Some(rule.view()),
                        i <= rule.keywords.len(),
                        forall|k: int|
                            0 <= k < i ==> !has_part(
                                text@,
                                lowercase(#[trigger] texts_of(rule.keywords@)[k]),
                            ),
                    decreases rule.keywords.len() - i,
                {
                    let kw = to_lowercase(rule.keywords[i].as_str());
                    if str_contains(text, kw.as_str()) {
                        assert(rule.view().keywords[i as int] == rule.keywords@[i as int]@);
                        return true;
                    }
                    i = i + 1;
                }
                match &rule.patterns {
                    None => false,
                    Some(ps) => {
                        let mut j: usize = 0;
                        while j < ps.len()
                            invariant
                                self.rule(c) == Some(rule.view()),
                                rule.patterns == Some(*ps),
                                j <= ps.len(),
                                forall|k: int|
                                    0 <= k < j ==> !regex_is_match(
                                        #[trigger] ps@[k].source(),
                                        text@,
                                    ),
                            decreases ps.len() - j,
                        {
                            if pattern_is_match(&ps[j], text) {
                                proof {
                                    let srcs = pattern_sources(ps@);
                                    match rule.view().patterns {
                                        Some(q) => {
                                            assert(q == srcs);
                                            assert(q[j as int] == ps@[j as int].source());
                                        },
                                        None => {},
                                    }
                                }
                                return true;
                            }
                            j = j + 1;
                        }
                        let ghost srcs = pattern_sources(ps@);
                        assert forall|k: int| 0 <= k < srcs.len() implies !regex_is_match(
                            #[trigger] srcs[k],
                            text@,
                        ) by {
                            assert(srcs[k] == ps@[k].source());
                        }
                        false
                    }
                }
            }
        }
    }

    /// The category of a message: the text is lower-cased, then the rules of
    /// Verification, Finance, Notification and Promotion are tried in that order,
    /// and the first that matches gives the category; Default where none does.
    pub fn classify(&self, content: &str) -> (c: SmsCategory)
        ensures
            c == classify_text(self.rules(), lowercase(content@)),
    {
        let lower = to_lowercase(content);
        let text = lower.as_str();
        if self.category_applies(SmsCategory::Verification, text) {
            SmsCategory::Verification
        } else if self.category_applies(SmsCategory::Finance, text) {
            SmsCategory::Finance
        } else if self.category_applies(SmsCategory::Notification, text) {
            SmsCategory::Notification
        } else if self.category_applies(SmsCategory::Promotion, text) {
            SmsCategory::Promotion
        } else {
            SmsCategory::Default
        }
    }
}

} // verus!

verus! {

/// The categories are tried in priority order: a matching Verification rule wins
/// over every other; the result is Default exactly when no rule of Verification,
/// Finance, Notification or Promotion matches; and any other result is a category
/// whose rule matches, with no rule of higher priority matching.
pub proof fn law_classify_priority(rule: spec_fn(SmsCategory) -> Option<RuleView>, text: Seq<char>)
    ensures
        category_matches(rule(SmsCategory::Verification), text) ==> classify_text(rule, text)
            == SmsCategory::Verification,
        classify_text(rule, text) == SmsCategory::Default <==> !category_matches(
            rule(SmsCategory::Verification),
            text,
        ) && !category_matches(rule(SmsCategory::Finance), text) && !category_matches(
            rule(SmsCategory::Notification),
            text,
        ) && !category_matches(rule(SmsCategory::Promotion), text),
        classify_text(rule, text) != SmsCategory::Default ==> category_matches(
            rule(classify_text(rule, text)),
            text,
        ),
        classify_text(rule, text) == SmsCategory::Promotion ==> !category_matches(
            rule(SmsCategory::Notification),
            text,
        ) && !category_matches(rule(SmsCategory::Finance), text),
        classify_text(rule, text) == SmsCategory::Notification ==> !category_matches(
            rule(SmsCategory::Finance),
            text,
        ),
{
}

/// A category without a rule is never the result, but for Default.
pub proof fn law_unruled_category_never_chosen(rule: spec_fn(SmsCategory) -> Option<RuleView>, text: Seq<char>, c: SmsCategory)
    requires
        rule(c) is None,
        c != SmsCategory::Default,
    ensures
        classify_text(rule, text) != c,
{
}

} // verus!

verus! {

/// The place of a category in the order in which the rules are tried:
/// Verification, Finance, Notification, Promotion, and Default last.
pub open spec fn priority(c: SmsCategory) -> int {
    match c {
        SmsCategory::Verification => 0,
        SmsCategory::Finance => 1,
        SmsCategory::Notification => 2,
        SmsCategory::Promotion => 3,
        SmsCategory::Default => 4,
    }
}

/// Every keyword of a rule counts, whichever its place in the rule: where the
/// lower-cased `i`-th keyword of category `c`'s rule occurs in the (lower-cased)
/// text, the text gets category `c` or one that is tried before it.
pub proof fn law_every_keyword_counts(
    rule: spec_fn(SmsCategory) -> Option<RuleView>,
    text: Seq<char>,
    c: SmsCategory,
    i: int,
)
    requires
        c != SmsCategory::Default,
        rule(c) matches Some(r) && 0 <= i < r.keywords.len() && has_part(
            text,
            lowercase(r.keywords[i]),
        ),
    ensures
        priority(classify_text(rule, text)) <= priority(c),
        classify_text(rule, text) != SmsCategory::Default,
{
    let r = rule(c).unwrap();
    assert(has_part(text, lowercase(r.keywords[i])));
    assert(rule_matches(r, text));
}

/// Every compiled pattern of a rule counts, whichever its place in the rule: where
/// the `j`-th pattern of category `c`'s rule matches the (lower-cased) text, the
/// text gets category `c` or one that is tried before it.
pub proof fn law_every_pattern_counts(
    rule: spec_fn(SmsCategory) -> Option<RuleView>,
    text: Seq<char>,
    c: SmsCategory,
    j: int,
)
    requires
        c != SmsCategory::Default,
        rule(c) matches Some(r) && r.patterns matches Some(ps) && 0 <= j < ps.len()
            && regex_is_match(ps[j], text),
    ensures
        priority(classify_text(rule, text)) <= priority(c),
        classify_text(rule, text) != SmsCategory::Default,
{
    let r = rule(c).unwrap();
    let ps = r.patterns.unwrap();
    assert(regex_is_match(ps[j], text));
    assert(rule_matches(r, text));
}

/// A rule matches only through one of its keywords or one of its patterns: where
/// no lower-cased keyword occurs in the text and no pattern matches it, the text
/// does not get that rule's category.
pub proof fn law_nothing_else_counts(
    rule: spec_fn(SmsCategory) -> Option<RuleView>,
    text: Seq<char>,
    c: SmsCategory,
)
    requires
        c != SmsCategory::Default,
        rule(c) matches Some(r) && (forall|i: int|
            0 <= i < r.keywords.len() ==> !has_part(text, lowercase(#[trigger] r.keywords[i])))
            && (r.patterns matches Some(ps) ==> forall|j: int|
            0 <= j < ps.len() ==> !regex_is_match(#[trigger] ps[j], text)),
    ensures
        classify_text(rule, text) != c,
{
}

} // verus!
