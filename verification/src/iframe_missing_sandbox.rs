//! The lint rule that asks every `iframe` element for a `sandbox` attribute.

use crate::diagnostics::Diagnostic;
use crate::jsx::{
    JsxAttributeItem,
    JsxAttributeName,
    JsxAttributeValue,
    JsxElementName,
    JsxExpression,
    JsxOpeningElement,
    Span,
};
use crate::text::{eq_lowercase, lowercase_of, same_text};
use vstd::prelude::*;

verus! {

/// The rule: an `iframe` element must carry a `sandbox` attribute, which
/// restricts what the framed content may do.
#[derive(Debug, Default, Clone, Copy)]
pub struct IframeMissingSandbox;

/// What the rule found on an opening element.
pub enum SandboxCheck {
    /// The element is not an `iframe`: the rule has nothing to say.
    NotAnIframe,
    /// An `iframe` without a `sandbox` attribute, with the diagnostic that
    /// reports it.
    Missing(Diagnostic),
    /// An `iframe` with a `sandbox` attribute. `has_value` says whether the
    /// attribute holds a value that is not plainly empty.
    Present { has_value: bool },
}

/// The element is written with a plain name and resolves to `iframe`.
pub open spec fn is_iframe(element: JsxOpeningElement) -> bool {
    &&& element.name is Identifier
    &&& element.element_type matches Some(element_type)
    &&& element_type@ == "iframe"@
}

/// The item is an attribute named `sandbox`, in any letter case.
pub open spec fn is_sandbox_attribute(item: JsxAttributeItem) -> bool {
    &&& item matches JsxAttributeItem::Attribute(attribute)
    &&& attribute.name matches JsxAttributeName::Identifier(name)
    &&& lowercase_of(name@) == lowercase_of("sandbox"@)
}

/// The value that an attribute item carries, if any.
pub open spec fn prop_value(item: JsxAttributeItem) -> Option<JsxAttributeValue> {
    match item {
        JsxAttributeItem::Attribute(attribute) => attribute.value,
        JsxAttributeItem::SpreadAttribute => None,
    }
}

/// The attribute value is one that is not plainly empty: a non-empty string,
/// a template with text and interpolations, or an identifier other than
/// `undefined`.
pub open spec fn spec_has_value(value: Option<JsxAttributeValue>) -> bool {
    match value {
        Some(JsxAttributeValue::StringLiteral(s)) => s@.len() > 0,
        Some(JsxAttributeValue::ExpressionContainer(expression)) => match expression {
            JsxExpression::StringLiteral(s) => s@.len() > 0,
            JsxExpression::TemplateLiteral { quasis, expressions } => {
                &&& quasis@.len() > 0
                &&& expressions > 0
                &&& exists|i: int| 0 <= i < quasis@.len() && (#[trigger] quasis@[i])@.len() > 0
            },
            JsxExpression::Identifier(name) => name@ != "undefined"@,
            _ => false,
        },
        _ => false,
    }
}

/// `diagnostic` is the warning for an `iframe` without `sandbox`, pointing
/// at `span`.
pub open spec fn is_missing_sandbox_diagnostic(diagnostic: Diagnostic, span: Span) -> bool {
    &&& diagnostic.message@
        == "eslint-plugin-react(iframe-missing-sandbox): Missing `sandbox` attribute for the `iframe` element."@
    &&& diagnostic.help@ == "Provide sandbox property for iframe element."@
    &&& diagnostic.label == span
}

/// The diagnostic for an `iframe` without `sandbox`, labelled at `span0`.
fn iframe_missing_sandbox_diagnostic(span0: Span) -> (diagnostic: Diagnostic)
    ensures
        is_missing_sandbox_diagnostic(diagnostic, span0),
{
    Diagnostic {
        message: "eslint-plugin-react(iframe-missing-sandbox): Missing `sandbox` attribute for the `iframe` element.",
        help: "Provide sandbox property for iframe element.",
        label: span0,
    }
}

/// The first attribute named `name`, compared in lowercase.
fn has_jsx_prop_lowercase(element: &JsxOpeningElement, name: &str) -> (found: Option<usize>)
    ensures
        found matches Some(i) ==> {
            &&& i < element.attributes@.len()
            &&& element.attributes@[i as int] matches JsxAttributeItem::Attribute(attribute)
            &&& attribute.name matches JsxAttributeName::Identifier(n)
            &&& lowercase_of(n@) == lowercase_of(name@)
        },
        forall|j: int|
            0 <= j < (match found {
                Some(i) => i as int,
                None => element.attributes@.len() as int,
            }) ==> !({
                &&& #[trigger] element.attributes@[j] matches JsxAttributeItem::Attribute(attribute)
                &&& attribute.name matches JsxAttributeName::Identifier(n)
                &&& lowercase_of(n@) == lowercase_of(name@)
            }),
{
    let mut i: usize = 0;
    while i < element.attributes.len()
        invariant
            i <= element.attributes.len(),
            forall|j: int|
                0 <= j < i ==> !({
                    &&& #[trigger] element.attributes@[j] matches JsxAttributeItem::Attribute(attribute)
                    &&& attribute.name matches JsxAttributeName::Identifier(n)
                    &&& lowercase_of(n@) == lowercase_of(name@)
                }),
        decreases element.attributes.len() - i,
    {
        match &element.attributes[i] {
            JsxAttributeItem::Attribute(attribute) => match &attribute.name {
                JsxAttributeName::Identifier(n) => {
                    if eq_lowercase(n.as_str(), name) {
                        return Some(i);
                    }
                },
                _ => {},
            },
            JsxAttributeItem::SpreadAttribute => {},
        }
        i += 1;
    }
    None
}

fn any_quasi_has_text(quasis: &Vec<String>) -> (any: bool)
    ensures
        any == exists|i: int| 0 <= i < quasis@.len() && (#[trigger] quasis@[i])@.len() > 0,
{
    let mut i: usize = 0;
    while i < quasis.len()
        invariant
            i <= quasis.len(),
            forall|j: int| 0 <= j < i ==> (#[trigger] quasis@[j])@.len() == 0,
        decreases quasis.len() - i,
    {
        if !quasis[i].as_str().is_empty() {
            return true;
        }
        i += 1;
    }
    false
}

impl IframeMissingSandbox {
    /// Whether an attribute value is one that is not plainly empty.
    pub fn has_value(value: &Option<JsxAttributeValue>) -> (given: bool)
        ensures
            given == spec_has_value(*value),
    {
        match value {
            Some(JsxAttributeValue::StringLiteral(s)) => !s.as_str().is_empty(),
            Some(JsxAttributeValue::ExpressionContainer(expression)) => match expression {
                JsxExpression::StringLiteral(s) => !s.as_str().is_empty(),
                JsxExpression::TemplateLiteral { quasis, expressions } => {
                    let has_text = any_quasi_has_text(quasis);
                    quasis.len() > 0 && *expressions > 0 && has_text
                },
                JsxExpression::Identifier(name) => !same_text(name.as_str(), "undefined"),
                _ => false,
            },
            _ => false,
        }
    }

    /// Checks one opening element. An `iframe` with no attribute named
    /// `sandbox`, in any letter case, is reported with a warning that points
    /// at the element's name; for one that has the attribute, the first such
    /// attribute is examined.
    pub fn run(&self, element: &JsxOpeningElement) -> (check: SandboxCheck)
        ensures
            check is NotAnIframe <==> !is_iframe(*element),
            check is Missing <==> is_iframe(*element) && forall|i: int|
                0 <= i < element.attributes@.len() ==> !is_sandbox_attribute(
                    #[trigger] element.attributes@[i],
                ),
            check matches SandboxCheck::Missing(diagnostic) ==> {
                &&& element.name matches JsxElementName::Identifier(span)
                &&& is_missing_sandbox_diagnostic(diagnostic, span)
            },
            check matches SandboxCheck::Present { has_value } ==> exists|i: int|
                {
                    &&& 0 <= i < element.attributes@.len()
                    &&& is_sandbox_attribute(#[trigger] element.attributes@[i])
                    &&& forall|j: int| 0 <= j < i ==> !is_sandbox_attribute(#[trigger] element.attributes@[j])
                    &&& has_value == spec_has_value(prop_value(element.attributes@[i]))
                },
    {
        let span = match &element.name {
            JsxElementName::Identifier(span) => *span,
            JsxElementName::Other => {
                return SandboxCheck::NotAnIframe;
            },
        };
        let is_iframe = match &element.element_type {
            Some(name) => same_text(name.as_str(), "iframe"),
            None => false,
        };
        if !is_iframe {
            return SandboxCheck::NotAnIframe;
        }
        match has_jsx_prop_lowercase(element, "sandbox") {
            None => SandboxCheck::Missing(iframe_missing_sandbox_diagnostic(span)),
            Some(i) => {
                let has_value = match &element.attributes[i] {
                    JsxAttributeItem::Attribute(attribute) => Self::has_value(&attribute.value),
                    JsxAttributeItem::SpreadAttribute => false,
                };
                assert(is_sandbox_attribute(element.attributes@[i as int]));
                SandboxCheck::Present { has_value }
            },
        }
    }
}

} // verus!
