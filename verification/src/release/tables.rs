//! Get the release tables for a given release: the response shape and the argument builder for the release/tables endpoint.

use std::collections::HashMap;

use vstd::prelude::*;
use vstd::string::*;
use crate::fragment::{decimal_string, spec_decimal};

verus! {

/// Response data structure for the release/tables endpoint.
pub struct Response {
    /// The release table name.
    pub name: Option<String>,
    /// The requested table element id.
    pub element_id: Option<usize>,
    /// The release id the table belongs to.
    pub release_id: String,
    /// The table elements, keyed by element id.
    pub elements: HashMap<String, Element>,
}

/// One element of a release table.
pub struct Element {
    /// The element id.
    pub element_id: usize,
    /// The release id the element belongs to.
    pub release_id: usize,
    /// The series the element refers to, if any.
    pub series_id: Option<String>,
    /// The parent element id, if any.
    pub parent_id: Option<usize>,
    /// The line number of the element.
    pub line: Option<String>,
    /// The element type.
    pub etype: String,
    /// The name of the element.
    pub name: String,
    /// The indentation level of the element.
    pub level: String,
    /// The children of this element.
    pub children: Vec<Element>,
}

/// Argument builder for the release/tables endpoint.
///
/// Each method appends one argument to the builder, which can then be
/// passed to the client to apply the arguments to a request.  The builder
/// does no validity checking of the arguments nor does it check for
/// duplicates.
pub struct Builder {
    option_string: String,
}

impl Builder {
    /// The query-string fragment accumulated so far.
    pub closed spec fn fragment(&self) -> Seq<char> {
        self.option_string@
    }

    /// An empty builder: no arguments set.
    pub fn new() -> (b: Builder)
        ensures
            b.fragment() == Seq::<char>::empty(),
    {
        Builder {
            option_string: String::new(),
        }
    }

    /// Returns the accumulated arguments as a URL-formatted fragment,
    /// consuming the builder.
    pub fn options(self) -> (r: String)
        ensures
            r@ == self.fragment(),
    {
        self.option_string
    }

    /// Adds an element_id argument: the release table element to retrieve.
    pub fn element_id(&mut self, id: usize)
        ensures
            final(self).fragment() == old(self).fragment() + "&element_id="@ + spec_decimal(
                id as nat,
            ),
    {
        self.option_string.append("&element_id=");
        let digits = decimal_string(id);
        self.option_string.append(digits.as_str());
    }

    /// Requests that observation values be returned with the table elements.
    pub fn include_observation_values(&mut self)
        ensures
            final(self).fragment() == old(self).fragment() + "&include_observation_values=true"@,
    {
        self.option_string.append("&include_observation_values=true");
    }

    /// Adds an observation_date argument (a date formatted as YYYY-MM-DD).
    pub fn observation_date(&mut self, date: &str)
        ensures
            final(self).fragment() == old(self).fragment() + "&observation_date="@ + date@,
    {
        self.option_string.append("&observation_date=");
        self.option_string.append(date);
    }
}

} // verus!
