//! A zero-copy, read-only representation of a tree of typed values.
//!
//! The tree is built bottom-up by a producer (for example a parser) and is
//! never mutated afterwards: every operation offered here is a total, pure
//! read. Consumers work against the capability traits in [`capabilities`],
//! so an algorithm written once runs over any realization of them; the one
//! provided here, in [`borrowed`], holds text payloads as `&str` references
//! into an externally-owned buffer, so a tree is valid exactly as long as
//! that buffer lives, while the structural containers (child lists, field
//! lists, annotation lists) are owned by the tree itself.

pub mod borrowed;
pub mod capabilities;
pub mod types;

pub use types::AnyInt;
pub use types::IonType;
pub use types::SymbolId;
