//! The lint rule on the values of ARIA state and property attributes.

use crate::jsx::{
    JsxAttributeItem,
    JsxAttributeName,
    JsxAttributeValue,
    JsxExpression,
};
use crate::text::{lowercase_of, same_text, spec_starts_with, starts_with, to_lowercase};
use vstd::prelude::*;
use vstd::string::StringExecFns;

verus! {

/// The value type that an ARIA attribute expects.
#[derive(Clone, Copy, Debug, PartialEq, Eq, Structural)]
pub enum AriaPropType {
    String,
    Boolean,
    Id,
    /// true/false or "mixed"
    Tristate,
    Integer,
    Number,
    IdList,
    Token,
    TokenList,
}

/// The closed sets of tokens that token-valued ARIA attributes accept.
#[derive(Clone, Copy, Debug, PartialEq, Eq, Structural)]
pub enum AriaTokens {
    /// The values of `aria-autocomplete`.
    Autocomplete,
    /// The values of `aria-current`.
    Current,
    /// The values of `aria-dropeffect`.
    Dropeffect,
    /// The values of `aria-haspopup`.
    Haspopup,
    /// The values of `aria-invalid`.
    Invalid,
    /// The values of `aria-live`.
    Live,
    /// The values of `aria-orientation`.
    Orientation,
    /// The values of `aria-relevant`.
    Relevant,
    /// The values of `aria-sort`.
    Sort,
}

/// What is known of one ARIA attribute: its value type, the tokens it is
/// limited to, and whether it also takes `undefined` or a boolean.
#[derive(Clone, Copy, Debug, PartialEq, Eq, Structural)]
pub struct AriaPropTypeStruct {
    pub prop_type: AriaPropType,
    pub allowed_values: Option<AriaTokens>,
    pub allow_undefined: bool,
    pub allow_boolean_values: bool,
}

/// A row of the table of ARIA attributes.
pub open spec fn spec_entry(
    prop_type: AriaPropType,
    allowed_values: Option<AriaTokens>,
    allow_undefined: bool,
    allow_boolean_values: bool,
) -> AriaPropTypeStruct {
    AriaPropTypeStruct { prop_type, allowed_values, allow_undefined, allow_boolean_values }
}

/// Makes a row of the table.
fn entry(
    prop_type: AriaPropType,
    allowed_values: Option<AriaTokens>,
    allow_undefined: bool,
    allow_boolean_values: bool,
) -> (row: AriaPropTypeStruct)
    ensures
        row == spec_entry(prop_type, allowed_values, allow_undefined, allow_boolean_values),
{
    AriaPropTypeStruct { prop_type, allowed_values, allow_undefined, allow_boolean_values }
}

impl AriaTokens {
    /// The tokens of the set.
    pub open spec fn tokens(self) -> Set<Seq<char>> {
        match self {
            AriaTokens::Autocomplete => set!["inline"@, "list"@, "both"@, "none"@],
            AriaTokens::Current => set!["page"@, "step"@, "location"@, "date"@, "time"@],
            AriaTokens::Dropeffect => set!["copy"@, "execute"@, "link"@, "move"@, "none"@, "popup"@],
            AriaTokens::Haspopup => set!["menu"@, "listbox"@, "tree"@, "grid"@, "dialog"@],
            AriaTokens::Invalid => set!["grammar"@, "spelling"@],
            AriaTokens::Live => set!["assertive"@, "off"@, "polite"@],
            AriaTokens::Orientation => set!["vertical"@, "undefined"@, "horizontal"@],
            AriaTokens::Relevant => set!["additions"@, "all"@, "removals"@, "text"@],
            AriaTokens::Sort => set!["ascending"@, "descending"@, "none"@, "other"@],
        }
    }

    /// Whether `token` is one of the set's tokens.
    pub fn contains(self, token: &str) -> (b: bool)
        ensures
            b == self.tokens().contains(token@),
    {
        match self {
            AriaTokens::Autocomplete => same_text(token, "inline") || same_text(token, "list") || same_text(token, "both") || same_text(token, "none"),
            AriaTokens::Current => same_text(token, "page") || same_text(token, "step") || same_text(token, "location") || same_text(token, "date") || same_text(token, "time"),
            AriaTokens::Dropeffect => same_text(token, "copy") || same_text(token, "execute") || same_text(token, "link") || same_text(token, "move") || same_text(token, "none") || same_text(token, "popup"),
            AriaTokens::Haspopup => same_text(token, "menu") || same_text(token, "listbox") || same_text(token, "tree") || same_text(token, "grid") || same_text(token, "dialog"),
            AriaTokens::Invalid => same_text(token, "grammar") || same_text(token, "spelling"),
            AriaTokens::Live => same_text(token, "assertive") || same_text(token, "off") || same_text(token, "polite"),
            AriaTokens::Orientation => same_text(token, "vertical") || same_text(token, "undefined") || same_text(token, "horizontal"),
            AriaTokens::Relevant => same_text(token, "additions") || same_text(token, "all") || same_text(token, "removals") || same_text(token, "text"),
            AriaTokens::Sort => same_text(token, "ascending") || same_text(token, "descending") || same_text(token, "none") || same_text(token, "other"),
        }
    }
}

/// The rows of the table of ARIA attributes for the names from `aria-a` to
/// `aria-c`.
pub open spec fn spec_rows_a_to_c(name: Seq<char>) -> Option<AriaPropTypeStruct> {
    if name == "aria-activedescendant"@ {
        Some(spec_entry(AriaPropType::Id, None, false, false))
    } else if name == "aria-atomic"@ {
        Some(spec_entry(AriaPropType::Boolean, None, false, false))
    } else if name == "aria-autocomplete"@ {
        Some(spec_entry(AriaPropType::Token, Some(AriaTokens::Autocomplete), false, false))
    } else if name == "aria-braillelabel"@ {
        Some(spec_entry(AriaPropType::String, None, false, false))
    } else if name == "aria-brailleroledescription"@ {
        Some(spec_entry(AriaPropType::String, None, false, false))
    } else if name == "aria-busy"@ {
        Some(spec_entry(AriaPropType::Boolean, None, false, false))
    } else if name == "aria-checked"@ {
        Some(spec_entry(AriaPropType::Tristate, None, false, false))
    } else if name == "aria-colcount"@ {
        Some(spec_entry(AriaPropType::Integer, None, false, false))
    } else if name == "aria-colindex"@ {
        Some(spec_entry(AriaPropType::Integer, None, false, false))
    } else if name == "aria-colspan"@ {
        Some(spec_entry(AriaPropType::Integer, None, false, false))
    } else if name == "aria-controls"@ {
        Some(spec_entry(AriaPropType::IdList, None, false, false))
    } else if name == "aria-current"@ {
        Some(spec_entry(AriaPropType::Token, Some(AriaTokens::Current), false, true))
    } else {
        None
    }
}

fn rows_a_to_c(name: &str) -> (row: Option<AriaPropTypeStruct>)
    ensures
        row == spec_rows_a_to_c(name@),
{
    if same_text(name, "aria-activedescendant") {
        Some(entry(AriaPropType::Id, None, false, false))
    } else if same_text(name, "aria-atomic") {
        Some(entry(AriaPropType::Boolean, None, false, false))
    } else if same_text(name, "aria-autocomplete") {
        Some(entry(AriaPropType::Token, Some(AriaTokens::Autocomplete), false, false))
    } else if same_text(name, "aria-braillelabel") {
        Some(entry(AriaPropType::String, None, false, false))
    } else if same_text(name, "aria-brailleroledescription") {
        Some(entry(AriaPropType::String, None, false, false))
    } else if same_text(name, "aria-busy") {
        Some(entry(AriaPropType::Boolean, None, false, false))
    } else if same_text(name, "aria-checked") {
        Some(entry(AriaPropType::Tristate, None, false, false))
    } else if same_text(name, "aria-colcount") {
        Some(entry(AriaPropType::Integer, None, false, false))
    } else if same_text(name, "aria-colindex") {
        Some(entry(AriaPropType::Integer, None, false, false))
    } else if same_text(name, "aria-colspan") {
        Some(entry(AriaPropType::Integer, None, false, false))
    } else if same_text(name, "aria-controls") {
        Some(entry(AriaPropType::IdList, None, false, false))
    } else if same_text(name, "aria-current") {
        Some(entry(AriaPropType::Token, Some(AriaTokens::Current), false, true))
    } else {
        None
    }
}

/// The rows of the table of ARIA attributes for the names from `aria-d` to
/// `aria-k`.
pub open spec fn spec_rows_d_to_k(name: Seq<char>) -> Option<AriaPropTypeStruct> {
    if name == "aria-describedby"@ {
        Some(spec_entry(AriaPropType::IdList, None, false, false))
    } else if name == "aria-description"@ {
        Some(spec_entry(AriaPropType::String, None, false, false))
    } else if name == "aria-details"@ {
        Some(spec_entry(AriaPropType::Id, None, false, false))
    } else if name == "aria-disabled"@ {
        Some(spec_entry(AriaPropType::Boolean, None, false, false))
    } else if name == "aria-dropeffect"@ {
        Some(spec_entry(AriaPropType::TokenList, Some(AriaTokens::Dropeffect), false, false))
    } else if name == "aria-errormessage"@ {
        Some(spec_entry(AriaPropType::Id, None, false, false))
    } else if name == "aria-expanded"@ {
        Some(spec_entry(AriaPropType::Boolean, None, true, false))
    } else if name == "aria-flowto"@ {
        Some(spec_entry(AriaPropType::IdList, None, false, false))
    } else if name == "aria-grabbed"@ {
        Some(spec_entry(AriaPropType::Boolean, None, true, false))
    } else if name == "aria-haspopup"@ {
        Some(spec_entry(AriaPropType::Token, Some(AriaTokens::Haspopup), false, true))
    } else if name == "aria-hidden"@ {
        Some(spec_entry(AriaPropType::Boolean, None, true, false))
    } else if name == "aria-invalid"@ {
        Some(spec_entry(AriaPropType::Token, Some(AriaTokens::Invalid), false, true))
    } else if name == "aria-keyshortcuts"@ {
        Some(spec_entry(AriaPropType::String, None, false, false))
    } else {
        None
    }
}

fn rows_d_to_k(name: &str) -> (row: Option<AriaPropTypeStruct>)
    ensures
        row == spec_rows_d_to_k(name@),
{
    if same_text(name, "aria-describedby") {
        Some(entry(AriaPropType::IdList, None, false, false))
    } else if same_text(name, "aria-description") {
        Some(entry(AriaPropType::String, None, false, false))
    } else if same_text(name, "aria-details") {
        Some(entry(AriaPropType::Id, None, false, false))
    } else if same_text(name, "aria-disabled") {
        Some(entry(AriaPropType::Boolean, None, false, false))
    } else if same_text(name, "aria-dropeffect") {
        Some(entry(AriaPropType::TokenList, Some(AriaTokens::Dropeffect), false, false))
    } else if same_text(name, "aria-errormessage") {
        Some(entry(AriaPropType::Id, None, false, false))
    } else if same_text(name, "aria-expanded") {
        Some(entry(AriaPropType::Boolean, None, true, false))
    } else if same_text(name, "aria-flowto") {
        Some(entry(AriaPropType::IdList, None, false, false))
    } else if same_text(name, "aria-grabbed") {
        Some(entry(AriaPropType::Boolean, None, true, false))
    } else if same_text(name, "aria-haspopup") {
        Some(entry(AriaPropType::Token, Some(AriaTokens::Haspopup), false, true))
    } else if same_text(name, "aria-hidden") {
        Some(entry(AriaPropType::Boolean, None, true, false))
    } else if same_text(name, "aria-invalid") {
        Some(entry(AriaPropType::Token, Some(AriaTokens::Invalid), false, true))
    } else if same_text(name, "aria-keyshortcuts") {
        Some(entry(AriaPropType::String, None, false, false))
    } else {
        None
    }
}

/// The rows of the table of ARIA attributes for the names from `aria-l` to
/// `aria-p`.
pub open spec fn spec_rows_l_to_p(name: Seq<char>) -> Option<AriaPropTypeStruct> {
    if name == "aria-label"@ {
        Some(spec_entry(AriaPropType::String, None, false, false))
    } else if name == "aria-labelledby"@ {
        Some(spec_entry(AriaPropType::IdList, None, false, false))
    } else if name == "aria-level"@ {
        Some(spec_entry(AriaPropType::Integer, None, false, false))
    } else if name == "aria-live"@ {
        Some(spec_entry(AriaPropType::Token, Some(AriaTokens::Live), false, false))
    } else if name == "aria-modal"@ {
        Some(spec_entry(AriaPropType::Boolean, None, false, false))
    } else if name == "aria-multiline"@ {
        Some(spec_entry(AriaPropType::Boolean, None, false, false))
    } else if name == "aria-multiselectable"@ {
        Some(spec_entry(AriaPropType::Boolean, None, false, false))
    } else if name == "aria-orientation"@ {
        Some(spec_entry(AriaPropType::Token, Some(AriaTokens::Orientation), false, false))
    } else if name == "aria-owns"@ {
        Some(spec_entry(AriaPropType::IdList, None, false, false))
    } else if name == "aria-placeholder"@ {
        Some(spec_entry(AriaPropType::String, None, false, false))
    } else if name == "aria-posinset"@ {
        Some(spec_entry(AriaPropType::Integer, None, false, false))
    } else if name == "aria-pressed"@ {
        Some(spec_entry(AriaPropType::Tristate, None, false, false))
    } else {
        None
    }
}

fn rows_l_to_p(name: &str) -> (row: Option<AriaPropTypeStruct>)
    ensures
        row == spec_rows_l_to_p(name@),
{
    if same_text(name, "aria-label") {
        Some(entry(AriaPropType::String, None, false, false))
    } else if same_text(name, "aria-labelledby") {
        Some(entry(AriaPropType::IdList, None, false, false))
    } else if same_text(name, "aria-level") {
        Some(entry(AriaPropType::Integer, None, false, false))
    } else if same_text(name, "aria-live") {
        Some(entry(AriaPropType::Token, Some(AriaTokens::Live), false, false))
    } else if same_text(name, "aria-modal") {
        Some(entry(AriaPropType::Boolean, None, false, false))
    } else if same_text(name, "aria-multiline") {
        Some(entry(AriaPropType::Boolean, None, false, false))
    } else if same_text(name, "aria-multiselectable") {
        Some(entry(AriaPropType::Boolean, None, false, false))
    } else if same_text(name, "aria-orientation") {
        Some(entry(AriaPropType::Token, Some(AriaTokens::Orientation), false, false))
    } else if same_text(name, "aria-owns") {
        Some(entry(AriaPropType::IdList, None, false, false))
    } else if same_text(name, "aria-placeholder") {
        Some(entry(AriaPropType::String, None, false, false))
    } else if same_text(name, "aria-posinset") {
        Some(entry(AriaPropType::Integer, None, false, false))
    } else if same_text(name, "aria-pressed") {
        Some(entry(AriaPropType::Tristate, None, false, false))
    } else {
        None
    }
}

/// The rows of the table of ARIA attributes for the names from `aria-r` to
/// `aria-v`.
pub open spec fn spec_rows_r_to_v(name: Seq<char>) -> Option<AriaPropTypeStruct> {
    if name == "aria-readonly"@ {
        Some(spec_entry(AriaPropType::Boolean, None, false, false))
    } else if name == "aria-relevant"@ {
        Some(spec_entry(AriaPropType::TokenList, Some(AriaTokens::Relevant), false, false))
    } else if name == "aria-required"@ {
        Some(spec_entry(AriaPropType::Boolean, None, false, false))
    } else if name == "aria-roledescription"@ {
        Some(spec_entry(AriaPropType::String, None, false, false))
    } else if name == "aria-rowcount"@ {
        Some(spec_entry(AriaPropType::Integer, None, false, false))
    } else if name == "aria-rowindex"@ {
        Some(spec_entry(AriaPropType::Integer, None, false, false))
    } else if name == "aria-rowspan"@ {
        Some(spec_entry(AriaPropType::Integer, None, false, false))
    } else if name == "aria-selected"@ {
        Some(spec_entry(AriaPropType::Boolean, None, true, false))
    } else if name == "aria-setsize"@ {
        Some(spec_entry(AriaPropType::Integer, None, false, false))
    } else if name == "aria-sort"@ {
        Some(spec_entry(AriaPropType::Token, Some(AriaTokens::Sort), false, false))
    } else if name == "aria-valuemax"@ {
        Some(spec_entry(AriaPropType::Number, None, false, false))
    } else if name == "aria-valuemin"@ {
        Some(spec_entry(AriaPropType::Number, None, false, false))
    } else if name == "aria-valuenow"@ {
        Some(spec_entry(AriaPropType::Number, None, false, false))
    } else if name == "aria-valuetext"@ {
        Some(spec_entry(AriaPropType::String, None, false, false))
    } else {
        None
    }
}

fn rows_r_to_v(name: &str) -> (row: Option<AriaPropTypeStruct>)
    ensures
        row == spec_rows_r_to_v(name@),
{
    if same_text(name, "aria-readonly") {
        Some(entry(AriaPropType::Boolean, None, false, false))
    } else if same_text(name, "aria-relevant") {
        Some(entry(AriaPropType::TokenList, Some(AriaTokens::Relevant), false, false))
    } else if same_text(name, "aria-required") {
        Some(entry(AriaPropType::Boolean, None, false, false))
    } else if same_text(name, "aria-roledescription") {
        Some(entry(AriaPropType::String, None, false, false))
    } else if same_text(name, "aria-rowcount") {
        Some(entry(AriaPropType::Integer, None, false, false))
    } else if same_text(name, "aria-rowindex") {
        Some(entry(AriaPropType::Integer, None, false, false))
    } else if same_text(name, "aria-rowspan") {
        Some(entry(AriaPropType::Integer, None, false, false))
    } else if same_text(name, "aria-selected") {
        Some(entry(AriaPropType::Boolean, None, true, false))
    } else if same_text(name, "aria-setsize") {
        Some(entry(AriaPropType::Integer, None, false, false))
    } else if same_text(name, "aria-sort") {
        Some(entry(AriaPropType::Token, Some(AriaTokens::Sort), false, false))
    } else if same_text(name, "aria-valuemax") {
        Some(entry(AriaPropType::Number, None, false, false))
    } else if same_text(name, "aria-valuemin") {
        Some(entry(AriaPropType::Number, None, false, false))
    } else if same_text(name, "aria-valuenow") {
        Some(entry(AriaPropType::Number, None, false, false))
    } else if same_text(name, "aria-valuetext") {
        Some(entry(AriaPropType::String, None, false, false))
    } else {
        None
    }
}

/// The table of ARIA attributes, by attribute name.
pub open spec fn spec_aria_prop_type(name: Seq<char>) -> Option<AriaPropTypeStruct> {
    if spec_rows_a_to_c(name).is_some() {
        spec_rows_a_to_c(name)
    } else if spec_rows_d_to_k(name).is_some() {
        spec_rows_d_to_k(name)
    } else if spec_rows_l_to_p(name).is_some() {
        spec_rows_l_to_p(name)
    } else {
        spec_rows_r_to_v(name)
    }
}

/// Looks an attribute name up in the table of ARIA attributes.
pub fn aria_prop_type(name: &str) -> (entry: Option<AriaPropTypeStruct>)
    ensures
        entry == spec_aria_prop_type(name@),
{
    let row = rows_a_to_c(name);
    if row.is_some() {
        return row;
    }
    let row = rows_d_to_k(name);
    if row.is_some() {
        return row;
    }
    let row = rows_l_to_p(name);
    if row.is_some() {
        return row;
    }
    rows_r_to_v(name)
}

/// The name of an attribute as one text: `name`, or `namespace:name`.
pub open spec fn spec_attribute_name(name: JsxAttributeName) -> Seq<char> {
    match name {
        JsxAttributeName::Identifier(name) => name@,
        JsxAttributeName::NamespacedName { namespace, name } => namespace@ + ":"@ + name@,
    }
}

/// The text is `true` or `false`.
pub open spec fn is_boolean_text(text: Seq<char>) -> bool {
    text == "true"@ || text == "false"@
}

/// The attribute value is a boolean: a boolean literal, or the text `true`
/// or `false` as a string.
pub open spec fn spec_validate_boolean(value: JsxAttributeValue) -> bool {
    match value {
        JsxAttributeValue::StringLiteral(s) => is_boolean_text(s@),
        JsxAttributeValue::ExpressionContainer(expression) => match expression {
            JsxExpression::BooleanLiteral(_) => true,
            JsxExpression::StringLiteral(s) => is_boolean_text(s@),
            _ => false,
        },
        _ => false,
    }
}

/// What the rule establishes of an ARIA attribute with a value.
#[derive(Clone, Copy, Debug, PartialEq, Eq, Structural)]
pub struct AriaPropCheck {
    /// The table's row for the attribute.
    pub expected: AriaPropTypeStruct,
    /// For an attribute of boolean type, whether its value is a boolean.
    pub boolean_value: Option<bool>,
}

/// The rule's finding for an attribute by its name in lowercase and its
/// value: none unless the name begins with `aria-`, is among the valid ARIA
/// properties and has a row in the table, and the attribute has a value.
pub open spec fn spec_check(
    name: Seq<char>,
    value: Option<JsxAttributeValue>,
    valid_aria_props: Seq<Seq<char>>,
) -> Option<AriaPropCheck> {
    if spec_starts_with(name, "aria-"@) && valid_aria_props.contains(name) {
        match (value, spec_aria_prop_type(name)) {
            (Some(value), Some(expected)) => Some(
                AriaPropCheck {
                    expected,
                    boolean_value: if expected.prop_type == AriaPropType::Boolean {
                        Some(spec_validate_boolean(value))
                    } else {
                        None
                    },
                },
            ),
            _ => None,
        }
    } else {
        None
    }
}

/// The rule's finding for one attribute item: that of `spec_check` for an
/// attribute, by its name put in lowercase; none for a spread.
pub open spec fn spec_run(item: JsxAttributeItem, valid_aria_props: Seq<Seq<char>>) -> Option<
    AriaPropCheck,
> {
    match item {
        JsxAttributeItem::Attribute(attribute) => spec_check(
            lowercase_of(spec_attribute_name(attribute.name)),
            attribute.value,
            valid_aria_props,
        ),
        JsxAttributeItem::SpreadAttribute => None,
    }
}

/// The rule: the value of an ARIA state or property must be of the type
/// that the attribute expects.
#[derive(Debug, Default, Clone, Copy)]
pub struct AriaProptypes;

/// The name of an attribute as one text.
fn get_jsx_attribute_name(name: &JsxAttributeName) -> (text: String)
    ensures
        text@ == spec_attribute_name(*name),
{
    match name {
        JsxAttributeName::Identifier(name) => String::from_str(name.as_str()),
        JsxAttributeName::NamespacedName { namespace, name } => {
            let mut text = String::from_str(namespace.as_str());
            text.append(":");
            text.append(name.as_str());
            text
        },
    }
}

/// Whether `text` is one of `texts`.
fn contains_text(texts: &Vec<String>, text: &str) -> (found: bool)
    ensures
        found == texts@.map_values(|t: String| t@).contains(text@),
{
    let ghost views = texts@.map_values(|t: String| t@);
    let mut i: usize = 0;
    while i < texts.len()
        invariant
            i <= texts.len(),
            views == texts@.map_values(|t: String| t@),
            forall|j: int| 0 <= j < i ==> views[j] != text@,
        decreases texts.len() - i,
    {
        if same_text(texts[i].as_str(), text) {
            assert(views[i as int] == text@);
            return true;
        }
        i += 1;
    }
    false
}

/// Whether an attribute value is a boolean.
pub fn validate_boolean(value: &JsxAttributeValue) -> (valid: bool)
    ensures
        valid == spec_validate_boolean(*value),
{
    match value {
        JsxAttributeValue::StringLiteral(s) => same_text(s.as_str(), "true") || same_text(
            s.as_str(),
            "false",
        ),
        JsxAttributeValue::ExpressionContainer(expression) => match expression {
            JsxExpression::BooleanLiteral(_) => true,
            JsxExpression::StringLiteral(s) => same_text(s.as_str(), "true") || same_text(
                s.as_str(),
                "false",
            ),
            _ => false,
        },
        _ => false,
    }
}

impl AriaProptypes {
    /// Checks an attribute, given by its name in lowercase and its value,
    /// against the table of ARIA attributes.
    pub fn check(
        &self,
        name: &str,
        value: &Option<JsxAttributeValue>,
        valid_aria_props: &Vec<String>,
    ) -> (check: Option<AriaPropCheck>)
        ensures
            check == spec_check(name@, *value, valid_aria_props@.map_values(|t: String| t@)),
    {
        if !starts_with(name, "aria-") || !contains_text(valid_aria_props, name) {
            return None;
        }
        let value = match value {
            Some(value) => value,
            None => {
                return None;
            },
        };
        let expected = match aria_prop_type(name) {
            Some(expected) => expected,
            None => {
                return None;
            },
        };
        let boolean_value = match expected.prop_type {
            AriaPropType::Boolean => Some(validate_boolean(value)),
            _ => None,
        };
        Some(AriaPropCheck { expected, boolean_value })
    }

    /// Checks one attribute item against the table of ARIA attributes.
    /// `valid_aria_props` lists the attribute names that the linter knows as
    /// ARIA states and properties.
    pub fn run(&self, item: &JsxAttributeItem, valid_aria_props: &Vec<String>) -> (check: Option<
        AriaPropCheck,
    >)
        ensures
            check == spec_run(*item, valid_aria_props@.map_values(|t: String| t@)),
    {
        let attribute = match item {
            JsxAttributeItem::Attribute(attribute) => attribute,
            JsxAttributeItem::SpreadAttribute => {
                return None;
            },
        };
        let name = to_lowercase(get_jsx_attribute_name(&attribute.name).as_str());
        self.check(name.as_str(), &attribute.value, valid_aria_props)
    }
}

} // verus!
