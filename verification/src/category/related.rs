//! Argument builder for the category/related endpoint.

use vstd::prelude::*;
use vstd::string::*;

verus! {

/// Argument builder for the category/related endpoint.
///
/// Each method appends one argument to the builder, which can then be passed
/// to the client to apply the arguments to a request.  The builder does no
/// validity checking of the arguments nor does it check for duplicates.
pub struct Builder {
    option_string: String,
}

impl Builder {
    /// The query-string fragment accumulated so far.
    pub closed spec fn fragment(&self) -> Seq<char> {
        self.option_string@
    }

    /// An empty builder: no arguments set.
    pub fn new() -> (b: Builder)
        ensures
            b.fragment() == Seq::<char>::empty(),
    {
        Builder { option_string: String::new() }
    }

    /// Returns the accumulated arguments as a URL-formatted fragment,
    /// consuming the builder.
    pub fn options(self) -> (r: String)
        ensures
            r@ == self.fragment(),
    {
        self.option_string
    }

    /// Adds a realtime_start argument (a date formatted as YYYY-MM-DD).
    pub fn realtime_start(&mut self, start_date: &str)
        ensures
            final(self).fragment() == old(self).fragment() + "&realtime_start="@ + start_date@,
    {
        self.option_string.append("&realtime_start=");
        self.option_string.append(start_date);
    }

    /// Adds a realtime_end argument (a date formatted as YYYY-MM-DD).
    pub fn realtime_end(&mut self, end_date: &str)
        ensures
            final(self).fragment() == old(self).fragment() + "&realtime_end="@ + end_date@,
    {
        self.option_string.append("&realtime_end=");
        self.option_string.append(end_date);
    }
}

} // verus!
