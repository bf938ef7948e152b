//! Normalization of a document's attributes into rows of text.

use crate::decimal::decimal;
use crate::decimal::signed_text;
use crate::decimal::unsigned_text;
use crate::document::attribute_views;
use crate::document::Attribute;
use crate::document::AttributeValue;
use crate::document::AttributeValueView;
use crate::document::AttributeView;
use crate::document::JsonNumber;
use crate::document::JsonNumberView;
use crate::error::MineError;
use crate::error::MineErrorView;
use crate::error::Shape;
use vstd::prelude::*;

verus! {

/// One normalized attribute: the name of a trait and its value as text.
#[derive(Clone, Debug, PartialEq, Eq)]
pub struct TraitRow {
    pub trait_type: String,
    pub value: String,
}

/// Mathematical value of a [`TraitRow`].
pub struct TraitRowView {
    pub trait_type: Seq<char>,
    pub value: Seq<char>,
}

impl View for TraitRow {
    type V = TraitRowView;

    open spec fn view(&self) -> TraitRowView {
        TraitRowView { trait_type: self.trait_type@, value: self.value@ }
    }
}

/// The values of the rows of `rows`, in order.
pub open spec fn row_views(rows: Seq<TraitRow>) -> Seq<TraitRowView> {
    Seq::new(rows.len(), |i: int| rows[i]@)
}

/// The shape for which `value` is refused, if it is refused.
pub open spec fn refused_shape(value: AttributeValueView) -> Option<Shape> {
    match value {
        AttributeValueView::Null => Some(Shape::Null),
        AttributeValueView::Bool(_) => Some(Shape::Boolean),
        AttributeValueView::Array => Some(Shape::Array),
        AttributeValueView::Object => Some(Shape::Object),
        AttributeValueView::Number(_) => None,
        AttributeValueView::Text(_) => None,
    }
}

/// The text of a number: decimal for an integer, as given for any other.
pub open spec fn number_text(number: JsonNumberView) -> Seq<char> {
    match number {
        JsonNumberView::Integer(n) => decimal(n),
        JsonNumberView::Real(text) => text,
    }
}

/// The text under which an accepted value is stored: a number in decimal,
/// a text verbatim.
pub open spec fn value_text(value: AttributeValueView) -> Seq<char> {
    match value {
        AttributeValueView::Number(number) => number_text(number),
        AttributeValueView::Text(text) => text,
        _ => Seq::empty(),
    }
}

/// The row that an accepted attribute becomes.
pub open spec fn row_of(attribute: AttributeView) -> TraitRowView {
    TraitRowView { trait_type: attribute.trait_type, value: value_text(attribute.value) }
}

/// Whether position `k` holds the first attribute with a refused value.
pub open spec fn is_first_refused(attributes: Seq<AttributeView>, k: int) -> bool {
    &&& 0 <= k < attributes.len()
    &&& refused_shape(attributes[k].value) is Some
    &&& forall|i: int| 0 <= i < k ==> refused_shape(#[trigger] attributes[i].value) is None
}

/// Whether every attribute holds an accepted value.
pub open spec fn all_accepted(attributes: Seq<AttributeView>) -> bool {
    forall|i: int| 0 <= i < attributes.len() ==> refused_shape(#[trigger] attributes[i].value) is None
}

/// The failure that the refused attribute at position `k` causes: it names
/// the trait and the shape met.
pub open spec fn refusal(attributes: Seq<AttributeView>, k: int) -> MineErrorView {
    MineErrorView::UnsupportedAttributeShape {
        trait_type: attributes[k].trait_type,
        shape: refused_shape(attributes[k].value)->0,
    }
}

/// What normalization gives for `attributes`: one row per attribute, in the
/// order of the document, where every value is accepted; else the failure
/// for the first refused one.
pub open spec fn normalized(attributes: Seq<AttributeView>) -> Result<Seq<TraitRowView>, MineErrorView> {
    if all_accepted(attributes) {
        Ok(Seq::new(attributes.len(), |i: int| row_of(attributes[i])))
    } else {
        Err(refusal(attributes, choose|k: int| is_first_refused(attributes, k)))
    }
}

/// At most one position holds the first refused attribute.
pub proof fn lemma_first_refused_is_unique(attributes: Seq<AttributeView>, j: int, k: int)
    requires
        is_first_refused(attributes, j),
        is_first_refused(attributes, k),
    ensures
        j == k,
{
    if j < k {
        assert(refused_shape(attributes[j].value) is None);
    } else if k < j {
        assert(refused_shape(attributes[k].value) is None);
    }
}

/// Where position `k` holds the first refused attribute, normalization fails
/// with the failure for it.
pub proof fn lemma_normalized_refuses(attributes: Seq<AttributeView>, k: int)
    requires
        is_first_refused(attributes, k),
    ensures
        normalized(attributes) == Err::<Seq<TraitRowView>, MineErrorView>(refusal(attributes, k)),
{
    assert(refused_shape(attributes[k].value) is Some);
    assert(!all_accepted(attributes));
    let chosen = choose|j: int| is_first_refused(attributes, j);
    lemma_first_refused_is_unique(attributes, chosen, k);
}

/// The shape for which `value` is refused, if it is refused.
fn shape_of(value: &AttributeValue) -> (shape: Option<Shape>)
    ensures
        shape == refused_shape(value@),
{
    match value {
        AttributeValue::Null => Some(Shape::Null),
        AttributeValue::Bool(_) => Some(Shape::Boolean),
        AttributeValue::Array => Some(Shape::Array),
        AttributeValue::Object => Some(Shape::Object),
        AttributeValue::Number(_) => None,
        AttributeValue::Text(_) => None,
    }
}

/// Renders a number as the text under which it is stored.
pub fn render_number(number: &JsonNumber) -> (text: String)
    ensures
        text@ == number_text(number@),
{
    match number {
        JsonNumber::Unsigned(n) => unsigned_text(*n),
        JsonNumber::Signed(n) => signed_text(*n),
        JsonNumber::Real(text) => text.clone(),
    }
}

/// The row that an accepted attribute becomes.
fn row_for(attribute: &Attribute) -> (row: TraitRow)
    requires
        refused_shape(attribute@.value) is None,
    ensures
        row@ == row_of(attribute@),
{
    let value = match &attribute.value {
        AttributeValue::Number(number) => render_number(number),
        AttributeValue::Text(text) => text.clone(),
        _ => String::new(),
    };
    TraitRow { trait_type: attribute.trait_type.clone(), value }
}

/// Turns the attributes of a document into rows of text.
///
/// Gives one row per attribute, in the order of the document, exactly where
/// every value is a number or a text. Otherwise it fails for the first
/// attribute whose value is null, a boolean, an array or an object, naming
/// its trait and that shape.
pub fn normalize(attributes: &Vec<Attribute>) -> (r: Result<Vec<TraitRow>, MineError>)
    ensures
        match normalized(attribute_views(attributes@)) {
            Ok(rows) => r matches Ok(out) && row_views(out@) == rows,
            Err(failure) => r matches Err(e) && e@ == failure,
        },
{
    let ghost views = attribute_views(attributes@);
    let mut rows: Vec<TraitRow> = Vec::new();
    let mut i: usize = 0;
    while i < attributes.len()
        invariant
            i <= attributes.len(),
            views == attribute_views(attributes@),
            rows@.len() == i,
            forall|j: int| 0 <= j < i ==> refused_shape(#[trigger] views[j].value) is None,
            forall|j: int| 0 <= j < i ==> (#[trigger] rows@[j])@ == row_of(views[j]),
        decreases attributes.len() - i,
    {
        let attribute = &attributes[i];
        assert(attribute@ == views[i as int]);
        match shape_of(&attribute.value) {
            Some(shape) => {
                proof {
                    assert(is_first_refused(views, i as int));
                    lemma_normalized_refuses(views, i as int);
                }
                return Err(
                    MineError::UnsupportedAttributeShape {
                        trait_type: attribute.trait_type.clone(),
                        shape,
                    },
                );
            },
            None => {
                rows.push(row_for(attribute));
            },
        }
        i = i + 1;
    }
    proof {
        assert(all_accepted(views));
        assert(row_views(rows@) =~= Seq::new(views.len(), |k: int| row_of(views[k])));
    }
    Ok(rows)
}

/// Rows keep the order of the document: where normalization succeeds, the
/// row at each position is the one for the attribute at that position.
pub proof fn lemma_normalized_keeps_order(attributes: Seq<AttributeView>, i: int)
    requires
        normalized(attributes) is Ok,
        0 <= i < attributes.len(),
    ensures
        normalized(attributes)->Ok_0.len() == attributes.len(),
        normalized(attributes)->Ok_0[i] == row_of(attributes[i]),
{
}

/// A value that is null, a boolean, an array or an object makes
/// normalization fail with an unsupported-shape failure, wherever it stands.
pub proof fn lemma_normalized_rejects(attributes: Seq<AttributeView>, i: int)
    requires
        0 <= i < attributes.len(),
        refused_shape(attributes[i].value) is Some,
    ensures
        normalized(attributes) is Err,
        normalized(attributes)->Err_0 is UnsupportedAttributeShape,
{
    assert(!all_accepted(attributes));
}

} // verus!
