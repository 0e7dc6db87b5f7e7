use sms_reader::classifier::{SmsCategory, SmsClassifier};
use sms_reader::config::{CategoryRule, ClassifierConfig};

fn rule(keywords: &[&str], patterns: Option<&[&str]>) -> CategoryRule {
    CategoryRule {
        keywords: keywords.iter().map(|s| s.to_string()).collect(),
        patterns: patterns.map(|ps| ps.iter().map(|s| s.to_string()).collect()),
    }
}

#[test]
fn test_classify_verification() {
    let config = ClassifierConfig {
        enabled: true,
        rules: vec![(
            "验证码".to_string(),
            CategoryRule {
                keywords: vec!["验证码".to_string()],
                patterns: Some(vec!["\\d{4,6}".to_string()]),
            },
        )],
    };
    let classifier = SmsClassifier::new(config);
    assert_eq!(classifier.classify("您的验证码是123456"), SmsCategory::Verification);
}

fn classifier_of(rules: Vec<(&str, CategoryRule)>) -> SmsClassifier {
    SmsClassifier::new(ClassifierConfig {
        enabled: true,
        rules: rules.into_iter().map(|(n, r)| (n.to_string(), r)).collect(),
    })
}

#[test]
fn verification_wins_over_finance() {
    let c = classifier_of(vec![
        ("finance", rule(&["银行"], None)),
        ("verification", rule(&["验证码"], None)),
    ]);
    assert_eq!(c.classify("银行验证码 8888"), SmsCategory::Verification);
    assert_eq!(c.classify("银行卡余额"), SmsCategory::Finance);
}

#[test]
fn finance_before_notification_before_promotion() {
    let c = classifier_of(vec![
        ("promotion", rule(&["优惠"], None)),
        ("notification", rule(&["通知"], None)),
        ("金融", rule(&["转账"], None)),
    ]);
    assert_eq!(c.classify("转账通知 优惠"), SmsCategory::Finance);
    assert_eq!(c.classify("通知 优惠"), SmsCategory::Notification);
    assert_eq!(c.classify("优惠"), SmsCategory::Promotion);
    assert_eq!(c.classify("hello"), SmsCategory::Default);
}

#[test]
fn keywords_and_text_are_lowercased() {
    let c = classifier_of(vec![("verification", rule(&["Code"], None))]);
    assert_eq!(c.classify("Your CODE is here"), SmsCategory::Verification);
    assert_eq!(c.classify("no match"), SmsCategory::Default);
}

#[test]
fn patterns_match_the_lowercased_text() {
    let c = classifier_of(vec![("verification", rule(&[], Some(&["\\d{4,6}", "^abc$"])))]);
    assert_eq!(c.classify("pin 4821"), SmsCategory::Verification);
    assert_eq!(c.classify("ABC"), SmsCategory::Verification);
    assert_eq!(c.classify("pin 48"), SmsCategory::Default);
}

#[test]
fn invalid_patterns_are_left_out() {
    let c = classifier_of(vec![("verification", rule(&[], Some(&["foo(bar", "xyz"])))]);
    assert_eq!(c.classify("foo(bar"), SmsCategory::Default);
    assert_eq!(c.classify("xyz"), SmsCategory::Verification);
}

#[test]
fn last_rule_for_a_category_counts() {
    let c = classifier_of(vec![
        ("verification", rule(&["first"], None)),
        ("验证码", rule(&["second"], None)),
    ]);
    assert_eq!(c.classify("first"), SmsCategory::Default);
    assert_eq!(c.classify("second"), SmsCategory::Verification);
}

#[test]
fn unknown_rule_names_stand_for_default_and_are_never_tried() {
    let c = classifier_of(vec![("spam", rule(&["buy"], None))]);
    assert_eq!(c.classify("buy now"), SmsCategory::Default);
}

#[test]
fn empty_classifier_gives_default() {
    let c = classifier_of(vec![]);
    assert_eq!(c.classify("您的验证码是123456"), SmsCategory::Default);
}

#[test]
fn category_labels_and_emoji() {
    assert_eq!(SmsCategory::Verification.label(), "验证码");
    assert_eq!(SmsCategory::Notification.label(), "通知");
    assert_eq!(SmsCategory::Promotion.label(), "营销");
    assert_eq!(SmsCategory::Finance.label(), "金融");
    assert_eq!(SmsCategory::Default.label(), "其他");
    assert_eq!(SmsCategory::Verification.emoji(), "🔐");
    assert_eq!(SmsCategory::Notification.emoji(), "📢");
    assert_eq!(SmsCategory::Promotion.emoji(), "🎉");
    assert_eq!(SmsCategory::Finance.emoji(), "💰");
    assert_eq!(SmsCategory::Default.emoji(), "📱");
}

#[test]
fn category_names() {
    assert_eq!(SmsCategory::from("verification"), SmsCategory::Verification);
    assert_eq!(SmsCategory::from("notification"), SmsCategory::Notification);
    assert_eq!(SmsCategory::from("promotion"), SmsCategory::Promotion);
    assert_eq!(SmsCategory::from("finance"), SmsCategory::Finance);
    assert_eq!(SmsCategory::from("Finance"), SmsCategory::Default);
    assert_eq!(SmsCategory::from(""), SmsCategory::Default);
}

#[test]
fn label_names_its_category_again() {
    for c in [
        SmsCategory::Verification,
        SmsCategory::Notification,
        SmsCategory::Promotion,
        SmsCategory::Finance,
        SmsCategory::Default,
    ] {
        assert_eq!(SmsCategory::from(c.label()), c);
    }
}

#[test]
fn a_cloned_classifier_classifies_alike() {
    let config = ClassifierConfig {
        enabled: true,
        rules: vec![(
            "finance".to_string(),
            CategoryRule { keywords: vec!["银行".to_string()], patterns: Some(vec!["\\d{4}".to_string()]) },
        )],
    };
    let c = SmsClassifier::new(config);
    let d = c.clone();
    for text in ["银行转账", "code 1234", "hello"] {
        assert_eq!(c.classify(text), d.classify(text));
    }
    assert_eq!(d.classify("code 1234"), SmsCategory::Finance);
}
