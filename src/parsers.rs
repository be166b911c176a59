//! Readings of field values that the API sends as text.

use vstd::prelude::*;
use crate::properties::NodeType;
use crate::properties::PrivacyLevel;

verus! {

/// Whether an optional string is absent or empty; such fields are left out
/// when a value is written.
pub fn is_none_or_empty_str(tst: &Option<String>) -> (r: bool)
    ensures
        r == match tst {
            Some(s) => s@.len() == 0,
            None => true,
        },
{
    match tst {
        Some(s) => s.as_str().is_empty(),
        None => true,
    }
}

/// The node type that a name stands for; an unknown name is `Unknown`.
pub fn node_type_from_name(s: &str) -> (r: NodeType)
    ensures
        r == match NodeType::spec_from_name(s@) {
            Some(t) => t,
            None => NodeType::Unknown,
        },
{
    match NodeType::from_name(s) {
        Some(t) => t,
        None => NodeType::Unknown,
    }
}

/// The privacy level that a name stands for; an unknown name is `Unknown`.
pub fn privacy_from_name(s: &str) -> (r: PrivacyLevel)
    ensures
        r == match PrivacyLevel::spec_from_name(s@) {
            Some(p) => p,
            None => PrivacyLevel::Unknown,
        },
{
    match PrivacyLevel::from_name(s) {
        Some(p) => p,
        None => PrivacyLevel::Unknown,
    }
}

} // verus!
