//! The validation error shared by the builders that require at least one tag
//! name before they can be finalized.

use vstd::prelude::*;
use vstd::string::*;

verus! {

/// The message reported when a builder that requires at least one tag name is
/// finalized without one.
pub open spec fn tag_name_required_msg() -> Seq<char> {
    "At least one tag must be specified using the tag_name() function of the related_tags::Builder."@
}

/// Builds the required-tag validation error message.
pub fn tag_name_required_error() -> (s: String)
    ensures
        s@ == tag_name_required_msg(),
{
    String::from_str(
        "At least one tag must be specified using the tag_name() function of the related_tags::Builder.",
    )
}

} // verus!
