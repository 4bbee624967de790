//! Validation rules for records of a content-addressed, append-only graph.
//!
//! Every rule judges plain values and answers with a [`Verdict`]: the record is
//! admissible, it is rejected for a named reason, or nothing can be said until
//! some referenced hashes have reached this node.

pub mod aggregate;
pub mod confirm;
pub mod identity;
pub mod record;
pub mod resolve;
pub mod rules;
pub mod verdict;

pub use aggregate::reduce_callback_results;
pub use confirm::{confirm_resolved_dependency, Resolution};
pub use identity::{AgentKey, DhtHash};
pub use record::{Entry, Header, HeaderKind, Record, Timestamp};
pub use resolve::{must_get_header_and_entry, Error, Fetched, Step};
pub use rules::{
    validate_same_author, validate_value_is_none, validate_value_is_some,
    validate_value_matches_create_author, validate_value_matches_edit_author,
    validate_value_matches_original_author, validate_value_matches_original_author_for_edit,
};
pub use verdict::{Reason, ReasonView, Verdict, VerdictView};
