//! The off-chain document of an asset: its display name, its image and its
//! ordered list of attributes.

use vstd::prelude::*;

verus! {

/// A number as a document holds it. An integer is kept as a machine integer;
/// any other number is kept as the decimal text that the document's reader
/// gives for it.
#[derive(Clone, Debug, PartialEq, Eq)]
pub enum JsonNumber {
    Unsigned(u64),
    Signed(i64),
    Real(String),
}

/// Mathematical value of a [`JsonNumber`].
pub enum JsonNumberView {
    Integer(int),
    Real(Seq<char>),
}

impl View for JsonNumber {
    type V = JsonNumberView;

    open spec fn view(&self) -> JsonNumberView {
        match *self {
            JsonNumber::Unsigned(n) => JsonNumberView::Integer(n as int),
            JsonNumber::Signed(n) => JsonNumberView::Integer(n as int),
            JsonNumber::Real(text) => JsonNumberView::Real(text@),
        }
    }
}

/// The value of one attribute, by shape. What an array or an object holds
/// is not kept: no rule reads it.
#[derive(Clone, Debug, PartialEq, Eq)]
pub enum AttributeValue {
    Null,
    Bool(bool),
    Number(JsonNumber),
    Text(String),
    Array,
    Object,
}

/// Mathematical value of an [`AttributeValue`].
pub enum AttributeValueView {
    Null,
    Bool(bool),
    Number(JsonNumberView),
    Text(Seq<char>),
    Array,
    Object,
}

impl View for AttributeValue {
    type V = AttributeValueView;

    open spec fn view(&self) -> AttributeValueView {
        match *self {
            AttributeValue::Null => AttributeValueView::Null,
            AttributeValue::Bool(b) => AttributeValueView::Bool(b),
            AttributeValue::Number(n) => AttributeValueView::Number(n@),
            AttributeValue::Text(text) => AttributeValueView::Text(text@),
            AttributeValue::Array => AttributeValueView::Array,
            AttributeValue::Object => AttributeValueView::Object,
        }
    }
}

/// One trait of an asset: its name and its value.
#[derive(Clone, Debug, PartialEq, Eq)]
pub struct Attribute {
    pub trait_type: String,
    pub value: AttributeValue,
}

/// Mathematical value of an [`Attribute`].
pub struct AttributeView {
    pub trait_type: Seq<char>,
    pub value: AttributeValueView,
}

impl View for Attribute {
    type V = AttributeView;

    open spec fn view(&self) -> AttributeView {
        AttributeView { trait_type: self.trait_type@, value: self.value@ }
    }
}

/// The values of the attributes of `attributes`, in order.
pub open spec fn attribute_views(attributes: Seq<Attribute>) -> Seq<AttributeView> {
    Seq::new(attributes.len(), |i: int| attributes[i]@)
}

/// The document that an asset's on-chain record points to.
#[derive(Clone, Debug, PartialEq, Eq)]
pub struct OffChainDocument {
    pub name: String,
    pub image: String,
    pub attributes: Vec<Attribute>,
}

/// Mathematical value of an [`OffChainDocument`].
pub struct OffChainDocumentView {
    pub name: Seq<char>,
    pub image: Seq<char>,
    pub attributes: Seq<AttributeView>,
}

impl View for OffChainDocument {
    type V = OffChainDocumentView;

    open spec fn view(&self) -> OffChainDocumentView {
        OffChainDocumentView {
            name: self.name@,
            image: self.image@,
            attributes: attribute_views(self.attributes@),
        }
    }
}

/// Whether an HTTP status stands for success: the codes from 200 to 299.
pub open spec fn success_status(code: u16) -> bool {
    200 <= code <= 299
}

/// Whether a response with this HTTP status carries a document. Any other
/// status counts as the location being unreachable.
pub fn is_success_status(code: u16) -> (success: bool)
    ensures
        success == success_status(code),
{
    200 <= code && code <= 299
}

} // verus!
