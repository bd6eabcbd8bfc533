//! The parts of a JSX element that the lint rules read.

use vstd::prelude::*;

verus! {

/// A place in the source text: the offsets at which it starts and ends.
#[derive(Clone, Copy, Debug, PartialEq, Eq, Structural)]
pub struct Span {
    pub start: u32,
    pub end: u32,
}

/// An expression between braces in attribute position.
pub enum JsxExpression {
    BooleanLiteral(bool),
    StringLiteral(String),
    /// A template literal: the raw text of each quasi, and the number of
    /// interpolated expressions.
    TemplateLiteral { quasis: Vec<String>, expressions: usize },
    /// An identifier reference, by name.
    Identifier(String),
    /// Any other expression, or none (`{}`).
    Other,
}

/// The value of a JSX attribute.
pub enum JsxAttributeValue {
    /// `<Component foo="bar" />`
    StringLiteral(String),
    /// `<Component foo={someExpr} />`
    ExpressionContainer(JsxExpression),
    /// `<Component foo=<Element /> />`
    Element,
    /// `<Component foo=<></> />`
    Fragment,
}

/// The name of a JSX attribute.
pub enum JsxAttributeName {
    /// `foo`
    Identifier(String),
    /// `foo:bar`
    NamespacedName { namespace: String, name: String },
}

/// `name="value"`, or `name` alone.
pub struct JsxAttribute {
    pub name: JsxAttributeName,
    pub value: Option<JsxAttributeValue>,
}

/// One item of an opening element's attribute list.
pub enum JsxAttributeItem {
    Attribute(JsxAttribute),
    /// `{...props}`
    SpreadAttribute,
}

/// The name of a JSX element.
pub enum JsxElementName {
    /// `<div />`, with the place of the name in the source.
    Identifier(Span),
    /// `<Apple />`, `<Apple:Orange />`, `<Apple.Orange />`, `<this />`
    Other,
}

/// An opening element: `<name attributes>`.
pub struct JsxOpeningElement {
    pub name: JsxElementName,
    /// The element type that the name resolves to, if it resolves to one.
    pub element_type: Option<String>,
    pub attributes: Vec<JsxAttributeItem>,
}

} // verus!
