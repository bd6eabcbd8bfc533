use minifier_passes::aria_proptypes::{
    aria_prop_type, validate_boolean, AriaPropCheck, AriaPropType, AriaPropTypeStruct,
    AriaProptypes, AriaTokens,
};
use minifier_passes::jsx::{
    JsxAttribute, JsxAttributeItem, JsxAttributeName, JsxAttributeValue, JsxExpression,
};

fn row(
    prop_type: AriaPropType,
    allowed_values: Option<AriaTokens>,
    allow_undefined: bool,
    allow_boolean_values: bool,
) -> Option<AriaPropTypeStruct> {
    Some(AriaPropTypeStruct { prop_type, allowed_values, allow_undefined, allow_boolean_values })
}

fn attribute(name: &str, value: Option<JsxAttributeValue>) -> JsxAttributeItem {
    JsxAttributeItem::Attribute(JsxAttribute {
        name: JsxAttributeName::Identifier(name.to_string()),
        value,
    })
}

fn string(value: &str) -> JsxAttributeValue {
    JsxAttributeValue::StringLiteral(value.to_string())
}

fn braces(expression: JsxExpression) -> JsxAttributeValue {
    JsxAttributeValue::ExpressionContainer(expression)
}

fn valid_props() -> Vec<String> {
    ["aria-hidden", "aria-label", "aria-checked", "aria-level", "aria-sort", "aria-invalid", "aria-zoom"]
        .iter()
        .map(|s| s.to_string())
        .collect()
}

#[test]
fn table_rows_by_name() {
    assert_eq!(aria_prop_type("aria-activedescendant"), row(AriaPropType::Id, None, false, false));
    assert_eq!(aria_prop_type("aria-atomic"), row(AriaPropType::Boolean, None, false, false));
    assert_eq!(
        aria_prop_type("aria-autocomplete"),
        row(AriaPropType::Token, Some(AriaTokens::Autocomplete), false, false)
    );
    assert_eq!(aria_prop_type("aria-checked"), row(AriaPropType::Tristate, None, false, false));
    assert_eq!(aria_prop_type("aria-colcount"), row(AriaPropType::Integer, None, false, false));
    assert_eq!(aria_prop_type("aria-controls"), row(AriaPropType::IdList, None, false, false));
    assert_eq!(
        aria_prop_type("aria-current"),
        row(AriaPropType::Token, Some(AriaTokens::Current), false, true)
    );
    assert_eq!(
        aria_prop_type("aria-dropeffect"),
        row(AriaPropType::TokenList, Some(AriaTokens::Dropeffect), false, false)
    );
    assert_eq!(aria_prop_type("aria-expanded"), row(AriaPropType::Boolean, None, true, false));
    assert_eq!(aria_prop_type("aria-grabbed"), row(AriaPropType::Boolean, None, true, false));
    assert_eq!(
        aria_prop_type("aria-haspopup"),
        row(AriaPropType::Token, Some(AriaTokens::Haspopup), false, true)
    );
    assert_eq!(aria_prop_type("aria-hidden"), row(AriaPropType::Boolean, None, true, false));
    assert_eq!(
        aria_prop_type("aria-invalid"),
        row(AriaPropType::Token, Some(AriaTokens::Invalid), false, true)
    );
    assert_eq!(aria_prop_type("aria-label"), row(AriaPropType::String, None, false, false));
    assert_eq!(aria_prop_type("aria-level"), row(AriaPropType::Integer, None, false, false));
    assert_eq!(
        aria_prop_type("aria-live"),
        row(AriaPropType::Token, Some(AriaTokens::Live), false, false)
    );
    assert_eq!(
        aria_prop_type("aria-orientation"),
        row(AriaPropType::Token, Some(AriaTokens::Orientation), false, false)
    );
    assert_eq!(aria_prop_type("aria-pressed"), row(AriaPropType::Tristate, None, false, false));
    assert_eq!(
        aria_prop_type("aria-relevant"),
        row(AriaPropType::TokenList, Some(AriaTokens::Relevant), false, false)
    );
    assert_eq!(aria_prop_type("aria-selected"), row(AriaPropType::Boolean, None, true, false));
    assert_eq!(
        aria_prop_type("aria-sort"),
        row(AriaPropType::Token, Some(AriaTokens::Sort), false, false)
    );
    assert_eq!(aria_prop_type("aria-valuemax"), row(AriaPropType::Number, None, false, false));
    assert_eq!(aria_prop_type("aria-valuetext"), row(AriaPropType::String, None, false, false));
}

#[test]
fn table_has_a_row_for_each_known_attribute_and_no_other() {
    let names = [
        "aria-activedescendant", "aria-atomic", "aria-autocomplete", "aria-braillelabel",
        "aria-brailleroledescription", "aria-busy", "aria-checked", "aria-colcount",
        "aria-colindex", "aria-colspan", "aria-controls", "aria-current", "aria-describedby",
        "aria-description", "aria-details", "aria-disabled", "aria-dropeffect",
        "aria-errormessage", "aria-expanded", "aria-flowto", "aria-grabbed", "aria-haspopup",
        "aria-hidden", "aria-invalid", "aria-keyshortcuts", "aria-label", "aria-labelledby",
        "aria-level", "aria-live", "aria-modal", "aria-multiline", "aria-multiselectable",
        "aria-orientation", "aria-owns", "aria-placeholder", "aria-posinset", "aria-pressed",
        "aria-readonly", "aria-relevant", "aria-required", "aria-roledescription",
        "aria-rowcount", "aria-rowindex", "aria-rowspan", "aria-selected", "aria-setsize",
        "aria-sort", "aria-valuemax", "aria-valuemin", "aria-valuenow", "aria-valuetext",
    ];
    assert_eq!(names.len(), 51);
    for name in names {
        assert!(aria_prop_type(name).is_some(), "{}", name);
    }
    for name in ["", "aria-", "aria-foo", "abcaria-hidden", "aria-hidden ", "ARIA-HIDDEN", "hidden"] {
        assert_eq!(aria_prop_type(name), None);
    }
}

#[test]
fn token_sets() {
    let sets: [(AriaTokens, &[&str]); 9] = [
        (AriaTokens::Autocomplete, &["inline", "list", "both", "none"]),
        (AriaTokens::Current, &["page", "step", "location", "date", "time"]),
        (AriaTokens::Dropeffect, &["copy", "execute", "link", "move", "none", "popup"]),
        (AriaTokens::Haspopup, &["menu", "listbox", "tree", "grid", "dialog"]),
        (AriaTokens::Invalid, &["grammar", "spelling"]),
        (AriaTokens::Live, &["assertive", "off", "polite"]),
        (AriaTokens::Orientation, &["vertical", "undefined", "horizontal"]),
        (AriaTokens::Relevant, &["additions", "all", "removals", "text"]),
        (AriaTokens::Sort, &["ascending", "descending", "none", "other"]),
    ];
    let every: Vec<&str> = sets.iter().flat_map(|(_, tokens)| tokens.iter().copied()).collect();
    for (set, tokens) in sets {
        for token in &every {
            assert_eq!(set.contains(token), tokens.contains(token), "{:?} {}", set, token);
        }
        assert!(!set.contains(""));
        assert!(!set.contains("ASCENDING"));
        assert!(!set.contains("descnding"));
    }
}

#[test]
fn boolean_values() {
    assert!(validate_boolean(&string("true")));
    assert!(validate_boolean(&string("false")));
    assert!(!validate_boolean(&string("yes")));
    assert!(!validate_boolean(&string("no")));
    assert!(!validate_boolean(&string("")));
    assert!(!validate_boolean(&string("TRUE")));
    assert!(validate_boolean(&braces(JsxExpression::BooleanLiteral(true))));
    assert!(validate_boolean(&braces(JsxExpression::BooleanLiteral(false))));
    assert!(validate_boolean(&braces(JsxExpression::StringLiteral("false".to_string()))));
    assert!(!validate_boolean(&braces(JsxExpression::StringLiteral("mixed".to_string()))));
    assert!(!validate_boolean(&braces(JsxExpression::Identifier("foo".to_string()))));
    assert!(!validate_boolean(&braces(JsxExpression::TemplateLiteral {
        quasis: vec!["true".to_string()],
        expressions: 0
    })));
    assert!(!validate_boolean(&braces(JsxExpression::Other)));
    assert!(!validate_boolean(&JsxAttributeValue::Element));
    assert!(!validate_boolean(&JsxAttributeValue::Fragment));
}

#[test]
fn boolean_attributes_have_their_value_validated() {
    let hidden = aria_prop_type("aria-hidden").unwrap();
    // `<div aria-hidden="true" />` and `<div aria-hidden={true} />`
    for value in [string("true"), braces(JsxExpression::BooleanLiteral(true))] {
        assert_eq!(
            AriaProptypes.run(&attribute("aria-hidden", Some(value)), &valid_props()),
            Some(AriaPropCheck { expected: hidden, boolean_value: Some(true) })
        );
    }
    // `<div aria-hidden="yes" />` and `<div aria-hidden={foo} />`
    for value in [string("yes"), braces(JsxExpression::Identifier("foo".to_string()))] {
        assert_eq!(
            AriaProptypes.run(&attribute("aria-hidden", Some(value)), &valid_props()),
            Some(AriaPropCheck { expected: hidden, boolean_value: Some(false) })
        );
    }
}

#[test]
fn other_attributes_are_looked_up_only() {
    assert_eq!(
        AriaProptypes.run(&attribute("aria-label", Some(string("Close"))), &valid_props()),
        Some(AriaPropCheck { expected: aria_prop_type("aria-label").unwrap(), boolean_value: None })
    );
    assert_eq!(
        AriaProptypes.run(&attribute("aria-sort", Some(string("ascending"))), &valid_props()),
        Some(AriaPropCheck { expected: aria_prop_type("aria-sort").unwrap(), boolean_value: None })
    );
    assert_eq!(
        AriaProptypes.run(&attribute("aria-checked", Some(string("mixed"))), &valid_props()),
        Some(AriaPropCheck {
            expected: aria_prop_type("aria-checked").unwrap(),
            boolean_value: None
        })
    );
}

#[test]
fn attribute_names_are_compared_in_lowercase() {
    let hidden = aria_prop_type("aria-hidden").unwrap();
    for name in ["ARIA-HIDDEN", "Aria-Hidden", "aria-hiddeN"] {
        assert_eq!(
            AriaProptypes.run(&attribute(name, Some(string("false"))), &valid_props()),
            Some(AriaPropCheck { expected: hidden, boolean_value: Some(true) })
        );
    }
}

#[test]
fn attributes_outside_the_rule() {
    let props = valid_props();
    // `<div aria-foo="true" />`: not a valid ARIA property.
    assert_eq!(AriaProptypes.run(&attribute("aria-foo", Some(string("true"))), &props), None);
    // `<div abcaria-foo="true" />`: does not begin with `aria-`.
    assert_eq!(AriaProptypes.run(&attribute("abcaria-foo", Some(string("true"))), &props), None);
    assert_eq!(AriaProptypes.run(&attribute("hidden", Some(string("true"))), &props), None);
    // `<div aria-hidden />`: no value.
    assert_eq!(AriaProptypes.run(&attribute("aria-hidden", None), &props), None);
    // A valid ARIA property without a row in the table.
    assert_eq!(AriaProptypes.run(&attribute("aria-zoom", Some(string("true"))), &props), None);
    // A row in the table, but not among the valid properties handed in.
    assert_eq!(AriaProptypes.run(&attribute("aria-busy", Some(string("true"))), &props), None);
    assert_eq!(AriaProptypes.run(&attribute("aria-hidden", Some(string("true"))), &vec![]), None);
    assert_eq!(AriaProptypes.run(&JsxAttributeItem::SpreadAttribute, &props), None);
    // A namespaced name is read as `namespace:name`.
    let namespaced = JsxAttributeItem::Attribute(JsxAttribute {
        name: JsxAttributeName::NamespacedName {
            namespace: "aria-hidden".to_string(),
            name: "x".to_string(),
        },
        value: Some(string("true")),
    });
    assert_eq!(AriaProptypes.run(&namespaced, &props), None);
    let mut with_namespaced = props.clone();
    with_namespaced.push("aria-hidden:x".to_string());
    assert_eq!(AriaProptypes.run(&namespaced, &with_namespaced), None);
}

/// Every attribute that the table's names cover, as the linter would hand it
/// in.
fn known_props() -> Vec<String> {
    [
        "aria-activedescendant",
        "aria-atomic",
        "aria-autocomplete",
        "aria-braillelabel",
        "aria-brailleroledescription",
        "aria-busy",
        "aria-checked",
        "aria-colcount",
        "aria-colindex",
        "aria-colspan",
        "aria-controls",
        "aria-current",
        "aria-describedby",
        "aria-description",
        "aria-details",
        "aria-disabled",
        "aria-dropeffect",
        "aria-errormessage",
        "aria-expanded",
        "aria-flowto",
        "aria-grabbed",
        "aria-haspopup",
        "aria-hidden",
        "aria-invalid",
        "aria-keyshortcuts",
        "aria-label",
        "aria-labelledby",
        "aria-level",
        "aria-live",
        "aria-modal",
        "aria-multiline",
        "aria-multiselectable",
        "aria-orientation",
        "aria-owns",
        "aria-placeholder",
        "aria-posinset",
        "aria-pressed",
        "aria-readonly",
        "aria-relevant",
        "aria-required",
        "aria-roledescription",
        "aria-rowcount",
        "aria-rowindex",
        "aria-rowspan",
        "aria-selected",
        "aria-setsize",
        "aria-sort",
        "aria-valuemax",
        "aria-valuemin",
        "aria-valuenow",
        "aria-valuetext",
    ]
    .iter()
    .map(|s| s.to_string())
    .collect()
}

fn template(quasis: &[&str], expressions: usize) -> JsxExpression {
    JsxExpression::TemplateLiteral {
        quasis: quasis.iter().map(|q| q.to_string()).collect(),
        expressions,
    }
}

fn finding(item: &JsxAttributeItem) -> Option<(AriaPropType, Option<bool>)> {
    AriaProptypes.run(item, &known_props()).map(|check| (check.expected.prop_type, check.boolean_value))
}

#[test]
fn aria_proptypes_test() {
    // Each attribute with what the rule finds of it: the type that the
    // attribute expects and, for a boolean attribute, whether the value is a
    // boolean. The rule reports nothing of either list yet.
    let pass = vec![
        // <div aria-foo="true" />
        (attribute("aria-foo", Some(string("true"))), None),
        // <div abcaria-foo="true" />
        (attribute("abcaria-foo", Some(string("true"))), None),
        // <div aria-hidden={true} />
        (attribute("aria-hidden", Some(braces(JsxExpression::BooleanLiteral(true)))), Some((AriaPropType::Boolean, Some(true)))),
        // <div aria-hidden="true" />
        (attribute("aria-hidden", Some(string("true"))), Some((AriaPropType::Boolean, Some(true)))),
        // <div aria-hidden={"false"} />
        (attribute("aria-hidden", Some(braces(JsxExpression::StringLiteral("false".to_string())))), Some((AriaPropType::Boolean, Some(true)))),
        // <div aria-hidden={!false} />
        (attribute("aria-hidden", Some(braces(JsxExpression::Other))), Some((AriaPropType::Boolean, Some(false)))),
        // <div aria-hidden />
        (attribute("aria-hidden", None), None),
        // <div aria-hidden={false} />
        (attribute("aria-hidden", Some(braces(JsxExpression::BooleanLiteral(false)))), Some((AriaPropType::Boolean, Some(true)))),
        // <div aria-hidden={!true} />
        (attribute("aria-hidden", Some(braces(JsxExpression::Other))), Some((AriaPropType::Boolean, Some(false)))),
        // <div aria-hidden={!"yes"} />
        (attribute("aria-hidden", Some(braces(JsxExpression::Other))), Some((AriaPropType::Boolean, Some(false)))),
        // <div aria-hidden={foo} />
        (attribute("aria-hidden", Some(braces(JsxExpression::Identifier("foo".to_string())))), Some((AriaPropType::Boolean, Some(false)))),
        // <div aria-hidden={foo.bar} />
        (attribute("aria-hidden", Some(braces(JsxExpression::Other))), Some((AriaPropType::Boolean, Some(false)))),
        // <div aria-hidden={null} />
        (attribute("aria-hidden", Some(braces(JsxExpression::Other))), Some((AriaPropType::Boolean, Some(false)))),
        // <div aria-hidden={undefined} />
        (attribute("aria-hidden", Some(braces(JsxExpression::Identifier("undefined".to_string())))), Some((AriaPropType::Boolean, Some(false)))),
        // <div aria-hidden={<div />} />
        (attribute("aria-hidden", Some(braces(JsxExpression::Other))), Some((AriaPropType::Boolean, Some(false)))),
        // <div aria-label="Close" />
        (attribute("aria-label", Some(string("Close"))), Some((AriaPropType::String, None))),
        // <div aria-label={`Close`} />
        (attribute("aria-label", Some(braces(template(&["Close"], 0)))), Some((AriaPropType::String, None))),
        // <div aria-label={foo} />
        (attribute("aria-label", Some(braces(JsxExpression::Identifier("foo".to_string())))), Some((AriaPropType::String, None))),
        // <div aria-label={foo.bar} />
        (attribute("aria-label", Some(braces(JsxExpression::Other))), Some((AriaPropType::String, None))),
        // <div aria-label={null} />
        (attribute("aria-label", Some(braces(JsxExpression::Other))), Some((AriaPropType::String, None))),
        // <div aria-label={undefined} />
        (attribute("aria-label", Some(braces(JsxExpression::Identifier("undefined".to_string())))), Some((AriaPropType::String, None))),
        // <input aria-invalid={error ? "true" : "false"} />
        (attribute("aria-invalid", Some(braces(JsxExpression::Other))), Some((AriaPropType::Token, None))),
        // <input aria-invalid={undefined ? "true" : "false"} />
        (attribute("aria-invalid", Some(braces(JsxExpression::Other))), Some((AriaPropType::Token, None))),
        // <div aria-checked={true} />
        (attribute("aria-checked", Some(braces(JsxExpression::BooleanLiteral(true)))), Some((AriaPropType::Tristate, None))),
        // <div aria-checked="true" />
        (attribute("aria-checked", Some(string("true"))), Some((AriaPropType::Tristate, None))),
        // <div aria-checked={"false"} />
        (attribute("aria-checked", Some(braces(JsxExpression::StringLiteral("false".to_string())))), Some((AriaPropType::Tristate, None))),
        // <div aria-checked={!false} />
        (attribute("aria-checked", Some(braces(JsxExpression::Other))), Some((AriaPropType::Tristate, None))),
        // <div aria-checked />
        (attribute("aria-checked", None), None),
        // <div aria-checked={false} />
        (attribute("aria-checked", Some(braces(JsxExpression::BooleanLiteral(false)))), Some((AriaPropType::Tristate, None))),
        // <div aria-checked={!true} />
        (attribute("aria-checked", Some(braces(JsxExpression::Other))), Some((AriaPropType::Tristate, None))),
        // <div aria-checked={!"yes"} />
        (attribute("aria-checked", Some(braces(JsxExpression::Other))), Some((AriaPropType::Tristate, None))),
        // <div aria-checked={foo} />
        (attribute("aria-checked", Some(braces(JsxExpression::Identifier("foo".to_string())))), Some((AriaPropType::Tristate, None))),
        // <div aria-checked={foo.bar} />
        (attribute("aria-checked", Some(braces(JsxExpression::Other))), Some((AriaPropType::Tristate, None))),
        // <div aria-checked="mixed" />
        (attribute("aria-checked", Some(string("mixed"))), Some((AriaPropType::Tristate, None))),
        // <div aria-checked={`mixed`} />
        (attribute("aria-checked", Some(braces(template(&["mixed"], 0)))), Some((AriaPropType::Tristate, None))),
        // <div aria-checked={null} />
        (attribute("aria-checked", Some(braces(JsxExpression::Other))), Some((AriaPropType::Tristate, None))),
        // <div aria-checked={undefined} />
        (attribute("aria-checked", Some(braces(JsxExpression::Identifier("undefined".to_string())))), Some((AriaPropType::Tristate, None))),
        // <div aria-level={123} />
        (attribute("aria-level", Some(braces(JsxExpression::Other))), Some((AriaPropType::Integer, None))),
        // <div aria-level={-123} />
        (attribute("aria-level", Some(braces(JsxExpression::Other))), Some((AriaPropType::Integer, None))),
        // <div aria-level={+123} />
        (attribute("aria-level", Some(braces(JsxExpression::Other))), Some((AriaPropType::Integer, None))),
        // <div aria-level={~123} />
        (attribute("aria-level", Some(braces(JsxExpression::Other))), Some((AriaPropType::Integer, None))),
        // <div aria-level={"123"} />
        (attribute("aria-level", Some(braces(JsxExpression::StringLiteral("123".to_string())))), Some((AriaPropType::Integer, None))),
        // <div aria-level={`123`} />
        (attribute("aria-level", Some(braces(template(&["123"], 0)))), Some((AriaPropType::Integer, None))),
        // <div aria-level="123" />
        (attribute("aria-level", Some(string("123"))), Some((AriaPropType::Integer, None))),
        // <div aria-level={foo} />
        (attribute("aria-level", Some(braces(JsxExpression::Identifier("foo".to_string())))), Some((AriaPropType::Integer, None))),
        // <div aria-level={foo.bar} />
        (attribute("aria-level", Some(braces(JsxExpression::Other))), Some((AriaPropType::Integer, None))),
        // <div aria-level={null} />
        (attribute("aria-level", Some(braces(JsxExpression::Other))), Some((AriaPropType::Integer, None))),
        // <div aria-level={undefined} />
        (attribute("aria-level", Some(braces(JsxExpression::Identifier("undefined".to_string())))), Some((AriaPropType::Integer, None))),
        // <div aria-valuemax={123} />
        (attribute("aria-valuemax", Some(braces(JsxExpression::Other))), Some((AriaPropType::Number, None))),
        // <div aria-valuemax={-123} />
        (attribute("aria-valuemax", Some(braces(JsxExpression::Other))), Some((AriaPropType::Number, None))),
        // <div aria-valuemax={+123} />
        (attribute("aria-valuemax", Some(braces(JsxExpression::Other))), Some((AriaPropType::Number, None))),
        // <div aria-valuemax={~123} />
        (attribute("aria-valuemax", Some(braces(JsxExpression::Other))), Some((AriaPropType::Number, None))),
        // <div aria-valuemax={"123"} />
        (attribute("aria-valuemax", Some(braces(JsxExpression::StringLiteral("123".to_string())))), Some((AriaPropType::Number, None))),
        // <div aria-valuemax={`123`} />
        (attribute("aria-valuemax", Some(braces(template(&["123"], 0)))), Some((AriaPropType::Number, None))),
        // <div aria-valuemax="123" />
        (attribute("aria-valuemax", Some(string("123"))), Some((AriaPropType::Number, None))),
        // <div aria-valuemax={foo} />
        (attribute("aria-valuemax", Some(braces(JsxExpression::Identifier("foo".to_string())))), Some((AriaPropType::Number, None))),
        // <div aria-valuemax={foo.bar} />
        (attribute("aria-valuemax", Some(braces(JsxExpression::Other))), Some((AriaPropType::Number, None))),
        // <div aria-valuemax={null} />
        (attribute("aria-valuemax", Some(braces(JsxExpression::Other))), Some((AriaPropType::Number, None))),
        // <div aria-valuemax={undefined} />
        (attribute("aria-valuemax", Some(braces(JsxExpression::Identifier("undefined".to_string())))), Some((AriaPropType::Number, None))),
        // <div aria-sort="ascending" />
        (attribute("aria-sort", Some(string("ascending"))), Some((AriaPropType::Token, None))),
        // <div aria-sort="ASCENDING" />
        (attribute("aria-sort", Some(string("ASCENDING"))), Some((AriaPropType::Token, None))),
        // <div aria-sort={"ascending"} />
        (attribute("aria-sort", Some(braces(JsxExpression::StringLiteral("ascending".to_string())))), Some((AriaPropType::Token, None))),
        // <div aria-sort={`ascending`} />
        (attribute("aria-sort", Some(braces(template(&["ascending"], 0)))), Some((AriaPropType::Token, None))),
        // <div aria-sort="descending" />
        (attribute("aria-sort", Some(string("descending"))), Some((AriaPropType::Token, None))),
        // <div aria-sort={"descending"} />
        (attribute("aria-sort", Some(braces(JsxExpression::StringLiteral("descending".to_string())))), Some((AriaPropType::Token, None))),
        // <div aria-sort={`descending`} />
        (attribute("aria-sort", Some(braces(template(&["descending"], 0)))), Some((AriaPropType::Token, None))),
        // <div aria-sort="none" />
        (attribute("aria-sort", Some(string("none"))), Some((AriaPropType::Token, None))),
        // <div aria-sort={"none"} />
        (attribute("aria-sort", Some(braces(JsxExpression::StringLiteral("none".to_string())))), Some((AriaPropType::Token, None))),
        // <div aria-sort={`none`} />
        (attribute("aria-sort", Some(braces(template(&["none"], 0)))), Some((AriaPropType::Token, None))),
        // <div aria-sort="other" />
        (attribute("aria-sort", Some(string("other"))), Some((AriaPropType::Token, None))),
        // <div aria-sort={"other"} />
        (attribute("aria-sort", Some(braces(JsxExpression::StringLiteral("other".to_string())))), Some((AriaPropType::Token, None))),
        // <div aria-sort={`other`} />
        (attribute("aria-sort", Some(braces(template(&["other"], 0)))), Some((AriaPropType::Token, None))),
        // <div aria-sort={foo} />
        (attribute("aria-sort", Some(braces(JsxExpression::Identifier("foo".to_string())))), Some((AriaPropType::Token, None))),
        // <div aria-sort={foo.bar} />
        (attribute("aria-sort", Some(braces(JsxExpression::Other))), Some((AriaPropType::Token, None))),
        // <div aria-invalid={true} />
        (attribute("aria-invalid", Some(braces(JsxExpression::BooleanLiteral(true)))), Some((AriaPropType::Token, None))),
        // <div aria-invalid="true" />
        (attribute("aria-invalid", Some(string("true"))), Some((AriaPropType::Token, None))),
        // <div aria-invalid={false} />
        (attribute("aria-invalid", Some(braces(JsxExpression::BooleanLiteral(false)))), Some((AriaPropType::Token, None))),
        // <div aria-invalid="false" />
        (attribute("aria-invalid", Some(string("false"))), Some((AriaPropType::Token, None))),
        // <div aria-invalid="grammar" />
        (attribute("aria-invalid", Some(string("grammar"))), Some((AriaPropType::Token, None))),
        // <div aria-invalid="spelling" />
        (attribute("aria-invalid", Some(string("spelling"))), Some((AriaPropType::Token, None))),
        // <div aria-invalid={null} />
        (attribute("aria-invalid", Some(braces(JsxExpression::Other))), Some((AriaPropType::Token, None))),
        // <div aria-invalid={undefined} />
        (attribute("aria-invalid", Some(braces(JsxExpression::Identifier("undefined".to_string())))), Some((AriaPropType::Token, None))),
        // <div aria-relevant="additions" />
        (attribute("aria-relevant", Some(string("additions"))), Some((AriaPropType::TokenList, None))),
        // <div aria-relevant={"additions"} />
        (attribute("aria-relevant", Some(braces(JsxExpression::StringLiteral("additions".to_string())))), Some((AriaPropType::TokenList, None))),
        // <div aria-relevant={`additions`} />
        (attribute("aria-relevant", Some(braces(template(&["additions"], 0)))), Some((AriaPropType::TokenList, None))),
        // <div aria-relevant="additions removals" />
        (attribute("aria-relevant", Some(string("additions removals"))), Some((AriaPropType::TokenList, None))),
        // <div aria-relevant="additions additions" />
        (attribute("aria-relevant", Some(string("additions additions"))), Some((AriaPropType::TokenList, None))),
        // <div aria-relevant={"additions removals"} />
        (attribute("aria-relevant", Some(braces(JsxExpression::StringLiteral("additions removals".to_string())))), Some((AriaPropType::TokenList, None))),
        // <div aria-relevant={`additions removals`} />
        (attribute("aria-relevant", Some(braces(template(&["additions removals"], 0)))), Some((AriaPropType::TokenList, None))),
        // <div aria-relevant="additions removals text" />
        (attribute("aria-relevant", Some(string("additions removals text"))), Some((AriaPropType::TokenList, None))),
        // <div aria-relevant={"additions removals text"} />
        (attribute("aria-relevant", Some(braces(JsxExpression::StringLiteral("additions removals text".to_string())))), Some((AriaPropType::TokenList, None))),
        // <div aria-relevant={`additions removals text`} />
        (attribute("aria-relevant", Some(braces(template(&["additions removals text"], 0)))), Some((AriaPropType::TokenList, None))),
        // <div aria-relevant="additions removals text all" />
        (attribute("aria-relevant", Some(string("additions removals text all"))), Some((AriaPropType::TokenList, None))),
        // <div aria-relevant={"additions removals text all"} />
        (attribute("aria-relevant", Some(braces(JsxExpression::StringLiteral("additions removals text all".to_string())))), Some((AriaPropType::TokenList, None))),
        // <div aria-relevant={`removals additions text all`} />
        (attribute("aria-relevant", Some(braces(template(&["removals additions text all"], 0)))), Some((AriaPropType::TokenList, None))),
        // <div aria-relevant={foo} />
        (attribute("aria-relevant", Some(braces(JsxExpression::Identifier("foo".to_string())))), Some((AriaPropType::TokenList, None))),
        // <div aria-relevant={foo.bar} />
        (attribute("aria-relevant", Some(braces(JsxExpression::Other))), Some((AriaPropType::TokenList, None))),
        // <div aria-relevant={null} />
        (attribute("aria-relevant", Some(braces(JsxExpression::Other))), Some((AriaPropType::TokenList, None))),
        // <div aria-relevant={undefined} />
        (attribute("aria-relevant", Some(braces(JsxExpression::Identifier("undefined".to_string())))), Some((AriaPropType::TokenList, None))),
        // <div aria-activedescendant="ascending" />
        (attribute("aria-activedescendant", Some(string("ascending"))), Some((AriaPropType::Id, None))),
        // <div aria-activedescendant="ASCENDING" />
        (attribute("aria-activedescendant", Some(string("ASCENDING"))), Some((AriaPropType::Id, None))),
        // <div aria-activedescendant={"ascending"} />
        (attribute("aria-activedescendant", Some(braces(JsxExpression::StringLiteral("ascending".to_string())))), Some((AriaPropType::Id, None))),
        // <div aria-activedescendant={`ascending`} />
        (attribute("aria-activedescendant", Some(braces(template(&["ascending"], 0)))), Some((AriaPropType::Id, None))),
        // <div aria-activedescendant="descending" />
        (attribute("aria-activedescendant", Some(string("descending"))), Some((AriaPropType::Id, None))),
        // <div aria-activedescendant={"descending"} />
        (attribute("aria-activedescendant", Some(braces(JsxExpression::StringLiteral("descending".to_string())))), Some((AriaPropType::Id, None))),
        // <div aria-activedescendant={`descending`} />
        (attribute("aria-activedescendant", Some(braces(template(&["descending"], 0)))), Some((AriaPropType::Id, None))),
        // <div aria-activedescendant="none" />
        (attribute("aria-activedescendant", Some(string("none"))), Some((AriaPropType::Id, None))),
        // <div aria-activedescendant={"none"} />
        (attribute("aria-activedescendant", Some(braces(JsxExpression::StringLiteral("none".to_string())))), Some((AriaPropType::Id, None))),
        // <div aria-activedescendant={`none`} />
        (attribute("aria-activedescendant", Some(braces(template(&["none"], 0)))), Some((AriaPropType::Id, None))),
        // <div aria-activedescendant="other" />
        (attribute("aria-activedescendant", Some(string("other"))), Some((AriaPropType::Id, None))),
        // <div aria-activedescendant={"other"} />
        (attribute("aria-activedescendant", Some(braces(JsxExpression::StringLiteral("other".to_string())))), Some((AriaPropType::Id, None))),
        // <div aria-activedescendant={`other`} />
        (attribute("aria-activedescendant", Some(braces(template(&["other"], 0)))), Some((AriaPropType::Id, None))),
        // <div aria-activedescendant={foo} />
        (attribute("aria-activedescendant", Some(braces(JsxExpression::Identifier("foo".to_string())))), Some((AriaPropType::Id, None))),
        // <div aria-activedescendant={foo.bar} />
        (attribute("aria-activedescendant", Some(braces(JsxExpression::Other))), Some((AriaPropType::Id, None))),
        // <div aria-activedescendant={null} />
        (attribute("aria-activedescendant", Some(braces(JsxExpression::Other))), Some((AriaPropType::Id, None))),
        // <div aria-activedescendant={undefined} />
        (attribute("aria-activedescendant", Some(braces(JsxExpression::Identifier("undefined".to_string())))), Some((AriaPropType::Id, None))),
        // <div aria-labelledby="additions" />
        (attribute("aria-labelledby", Some(string("additions"))), Some((AriaPropType::IdList, None))),
        // <div aria-labelledby={"additions"} />
        (attribute("aria-labelledby", Some(braces(JsxExpression::StringLiteral("additions".to_string())))), Some((AriaPropType::IdList, None))),
        // <div aria-labelledby={`additions`} />
        (attribute("aria-labelledby", Some(braces(template(&["additions"], 0)))), Some((AriaPropType::IdList, None))),
        // <div aria-labelledby="additions removals" />
        (attribute("aria-labelledby", Some(string("additions removals"))), Some((AriaPropType::IdList, None))),
        // <div aria-labelledby="additions additions" />
        (attribute("aria-labelledby", Some(string("additions additions"))), Some((AriaPropType::IdList, None))),
        // <div aria-labelledby={"additions removals"} />
        (attribute("aria-labelledby", Some(braces(JsxExpression::StringLiteral("additions removals".to_string())))), Some((AriaPropType::IdList, None))),
        // <div aria-labelledby={`additions removals`} />
        (attribute("aria-labelledby", Some(braces(template(&["additions removals"], 0)))), Some((AriaPropType::IdList, None))),
        // <div aria-labelledby="additions removals text" />
        (attribute("aria-labelledby", Some(string("additions removals text"))), Some((AriaPropType::IdList, None))),
        // <div aria-labelledby={"additions removals text"} />
        (attribute("aria-labelledby", Some(braces(JsxExpression::StringLiteral("additions removals text".to_string())))), Some((AriaPropType::IdList, None))),
        // <div aria-labelledby={`additions removals text`} />
        (attribute("aria-labelledby", Some(braces(template(&["additions removals text"], 0)))), Some((AriaPropType::IdList, None))),
        // <div aria-labelledby="additions removals text all" />
        (attribute("aria-labelledby", Some(string("additions removals text all"))), Some((AriaPropType::IdList, None))),
        // <div aria-labelledby={"additions removals text all"} />
        (attribute("aria-labelledby", Some(braces(JsxExpression::StringLiteral("additions removals text all".to_string())))), Some((AriaPropType::IdList, None))),
        // <div aria-labelledby={`removals additions text all`} />
        (attribute("aria-labelledby", Some(braces(template(&["removals additions text all"], 0)))), Some((AriaPropType::IdList, None))),
        // <div aria-labelledby={foo} />
        (attribute("aria-labelledby", Some(braces(JsxExpression::Identifier("foo".to_string())))), Some((AriaPropType::IdList, None))),
        // <div aria-labelledby={foo.bar} />
        (attribute("aria-labelledby", Some(braces(JsxExpression::Other))), Some((AriaPropType::IdList, None))),
        // <div aria-labelledby={null} />
        (attribute("aria-labelledby", Some(braces(JsxExpression::Other))), Some((AriaPropType::IdList, None))),
        // <div aria-labelledby={undefined} />
        (attribute("aria-labelledby", Some(braces(JsxExpression::Identifier("undefined".to_string())))), Some((AriaPropType::IdList, None))),
    ];

    let fail = vec![
        // <div aria-hidden="yes" />
        (attribute("aria-hidden", Some(string("yes"))), Some((AriaPropType::Boolean, Some(false)))),
        // <div aria-hidden="no" />
        (attribute("aria-hidden", Some(string("no"))), Some((AriaPropType::Boolean, Some(false)))),
        // <div aria-hidden={1234} />
        (attribute("aria-hidden", Some(braces(JsxExpression::Other))), Some((AriaPropType::Boolean, Some(false)))),
        // <div aria-hidden={`${abc}`} />
        (attribute("aria-hidden", Some(braces(template(&["", ""], 1)))), Some((AriaPropType::Boolean, Some(false)))),
        // <div aria-label />
        (attribute("aria-label", None), None),
        // <div aria-label={true} />
        (attribute("aria-label", Some(braces(JsxExpression::BooleanLiteral(true)))), Some((AriaPropType::String, None))),
        // <div aria-label={false} />
        (attribute("aria-label", Some(braces(JsxExpression::BooleanLiteral(false)))), Some((AriaPropType::String, None))),
        // <div aria-label={1234} />
        (attribute("aria-label", Some(braces(JsxExpression::Other))), Some((AriaPropType::String, None))),
        // <div aria-label={!true} />
        (attribute("aria-label", Some(braces(JsxExpression::Other))), Some((AriaPropType::String, None))),
        // <div aria-checked="yes" />
        (attribute("aria-checked", Some(string("yes"))), Some((AriaPropType::Tristate, None))),
        // <div aria-checked="no" />
        (attribute("aria-checked", Some(string("no"))), Some((AriaPropType::Tristate, None))),
        // <div aria-checked={1234} />
        (attribute("aria-checked", Some(braces(JsxExpression::Other))), Some((AriaPropType::Tristate, None))),
        // <div aria-checked={`${abc}`} />
        (attribute("aria-checked", Some(braces(template(&["", ""], 1)))), Some((AriaPropType::Tristate, None))),
        // <div aria-level="yes" />
        (attribute("aria-level", Some(string("yes"))), Some((AriaPropType::Integer, None))),
        // <div aria-level="no" />
        (attribute("aria-level", Some(string("no"))), Some((AriaPropType::Integer, None))),
        // <div aria-level={`abc`} />
        (attribute("aria-level", Some(braces(template(&["abc"], 0)))), Some((AriaPropType::Integer, None))),
        // <div aria-level={true} />
        (attribute("aria-level", Some(braces(JsxExpression::BooleanLiteral(true)))), Some((AriaPropType::Integer, None))),
        // <div aria-level />
        (attribute("aria-level", None), None),
        // <div aria-level={"false"} />
        (attribute("aria-level", Some(braces(JsxExpression::StringLiteral("false".to_string())))), Some((AriaPropType::Integer, None))),
        // <div aria-level={!"false"} />
        (attribute("aria-level", Some(braces(JsxExpression::Other))), Some((AriaPropType::Integer, None))),
        // <div aria-valuemax="yes" />
        (attribute("aria-valuemax", Some(string("yes"))), Some((AriaPropType::Number, None))),
        // <div aria-valuemax="no" />
        (attribute("aria-valuemax", Some(string("no"))), Some((AriaPropType::Number, None))),
        // <div aria-valuemax={`abc`} />
        (attribute("aria-valuemax", Some(braces(template(&["abc"], 0)))), Some((AriaPropType::Number, None))),
        // <div aria-valuemax={true} />
        (attribute("aria-valuemax", Some(braces(JsxExpression::BooleanLiteral(true)))), Some((AriaPropType::Number, None))),
        // <div aria-valuemax />
        (attribute("aria-valuemax", None), None),
        // <div aria-valuemax={"false"} />
        (attribute("aria-valuemax", Some(braces(JsxExpression::StringLiteral("false".to_string())))), Some((AriaPropType::Number, None))),
        // <div aria-valuemax={!"false"} />
        (attribute("aria-valuemax", Some(braces(JsxExpression::Other))), Some((AriaPropType::Number, None))),
        // <div aria-sort="" />
        (attribute("aria-sort", Some(string(""))), Some((AriaPropType::Token, None))),
        // <div aria-sort="descnding" />
        (attribute("aria-sort", Some(string("descnding"))), Some((AriaPropType::Token, None))),
        // <div aria-sort />
        (attribute("aria-sort", None), None),
        // <div aria-sort={true} />
        (attribute("aria-sort", Some(braces(JsxExpression::BooleanLiteral(true)))), Some((AriaPropType::Token, None))),
        // <div aria-sort={"false"} />
        (attribute("aria-sort", Some(braces(JsxExpression::StringLiteral("false".to_string())))), Some((AriaPropType::Token, None))),
        // <div aria-sort="ascending descending" />
        (attribute("aria-sort", Some(string("ascending descending"))), Some((AriaPropType::Token, None))),
        // <div aria-relevant="" />
        (attribute("aria-relevant", Some(string(""))), Some((AriaPropType::TokenList, None))),
        // <div aria-relevant="foobar" />
        (attribute("aria-relevant", Some(string("foobar"))), Some((AriaPropType::TokenList, None))),
        // <div aria-relevant />
        (attribute("aria-relevant", None), None),
        // <div aria-relevant={true} />
        (attribute("aria-relevant", Some(braces(JsxExpression::BooleanLiteral(true)))), Some((AriaPropType::TokenList, None))),
        // <div aria-relevant={"false"} />
        (attribute("aria-relevant", Some(braces(JsxExpression::StringLiteral("false".to_string())))), Some((AriaPropType::TokenList, None))),
        // <div aria-relevant="additions removalss" />
        (attribute("aria-relevant", Some(string("additions removalss"))), Some((AriaPropType::TokenList, None))),
        // <div aria-relevant="additions removalss " />
        (attribute("aria-relevant", Some(string("additions removalss "))), Some((AriaPropType::TokenList, None))),
    ];

    for (item, expected) in pass.iter().chain(fail.iter()) {
        assert_eq!(finding(item), *expected);
    }
}

#[test]
fn check_takes_the_name_as_given() {
    let props = known_props();
    let hidden = aria_prop_type("aria-hidden").unwrap();
    assert_eq!(
        AriaProptypes.check("aria-hidden", &Some(string("true")), &props),
        Some(AriaPropCheck { expected: hidden, boolean_value: Some(true) })
    );
    assert_eq!(
        AriaProptypes.check("aria-hidden", &Some(string("yes")), &props),
        Some(AriaPropCheck { expected: hidden, boolean_value: Some(false) })
    );
    assert_eq!(
        AriaProptypes.check("aria-level", &Some(string("yes")), &props),
        Some(AriaPropCheck { expected: aria_prop_type("aria-level").unwrap(), boolean_value: None })
    );
    // The name is not put in lowercase here.
    assert_eq!(AriaProptypes.check("ARIA-HIDDEN", &Some(string("true")), &props), None);
    assert_eq!(AriaProptypes.check("aria-hidden", &None, &props), None);
    assert_eq!(AriaProptypes.check("aria-hidden", &Some(string("true")), &vec![]), None);
    assert_eq!(AriaProptypes.check("aria-foo", &Some(string("true")), &props), None);
    assert_eq!(AriaProptypes.check("hidden", &Some(string("true")), &props), None);
}
