//! The failures that end a mining run.

use vstd::prelude::*;

verus! {

/// A shape of attribute value that normalization does not accept.
#[derive(Clone, Copy, Debug, PartialEq, Eq, Structural)]
pub enum Shape {
    Null,
    Boolean,
    Array,
    Object,
}

/// Why a run was aborted.
#[derive(Clone, Debug, PartialEq, Eq)]
pub enum MineError {
    /// An identifier line is not a well-formed identifier.
    Input,
    /// No address can be derived for the identifier.
    Derivation,
    /// A network boundary could not be reached or answered without success.
    Network,
    /// No account exists at the derived address.
    NotFound,
    /// The account bytes do not follow the metadata layout.
    Decode,
    /// The off-chain body is not a document with the required fields.
    Format,
    /// An attribute holds a value of a shape that is not handled.
    UnsupportedAttributeShape { trait_type: String, shape: Shape },
    /// The store already holds the mint or metadata address.
    Constraint,
}

/// Mathematical value of a [`MineError`].
pub enum MineErrorView {
    Input,
    Derivation,
    Network,
    NotFound,
    Decode,
    Format,
    UnsupportedAttributeShape { trait_type: Seq<char>, shape: Shape },
    Constraint,
}

impl View for MineError {
    type V = MineErrorView;

    open spec fn view(&self) -> MineErrorView {
        match *self {
            MineError::Input => MineErrorView::Input,
            MineError::Derivation => MineErrorView::Derivation,
            MineError::Network => MineErrorView::Network,
            MineError::NotFound => MineErrorView::NotFound,
            MineError::Decode => MineErrorView::Decode,
            MineError::Format => MineErrorView::Format,
            MineError::UnsupportedAttributeShape { trait_type, shape } =>
                MineErrorView::UnsupportedAttributeShape { trait_type: trait_type@, shape },
            MineError::Constraint => MineErrorView::Constraint,
        }
    }
}

} // verus!
