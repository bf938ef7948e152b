//! Mining of digital-asset metadata: the rules by which an asset identifier
//! becomes relational rows, with the contracts that Verus proves of them.

pub mod address;
pub mod collection;
pub mod decimal;
pub mod defaults;
pub mod document;
pub mod driver;
pub mod error;
pub mod normalize;
pub mod order;
pub mod record;
pub mod run;
pub mod store;
pub mod summary;
pub mod text;
