//! Get the categories for an economic data series: the response shape, its decoder, and the argument builder for the series/categories endpoint.

use vstd::prelude::*;
use vstd::string::*;
use crate::json;
use crate::decode::{decode_failure, failure_from_body, u64_to_usize, usize_item_ok};

verus! {

/// Response data structure for the categories of a series.
pub struct Response {
    /// The categories returned by the query.
    pub categories: Vec<Category>,
}

/// Information about one particular category.
pub struct Category {
    /// The category ID number.
    pub id: usize,
    /// The category name.
    pub name: String,
    /// The parent ID number of the category.
    pub parent_id: usize,
}

/// Element `i` of the `categories` array carries every required field,
/// with the integer fields small enough to hold.
pub open spec fn category_item_ok(body: Seq<char>, i: int) -> bool {
    &&& usize_item_ok(body, "categories"@, i, "id"@)
    &&& json::json_item_str(body, "categories"@, i, "name"@) is Some
    &&& usize_item_ok(body, "categories"@, i, "parent_id"@)
}

/// The decoded value `t` holds exactly the fields of element `i` of the
/// `categories` array.
pub open spec fn category_item_matches(body: Seq<char>, i: int, t: Category) -> bool {
    &&& Some(t.id as u64) == json::json_item_u64(body, "categories"@, i, "id"@)
    &&& Some(t.name@) == json::json_item_str(body, "categories"@, i, "name"@)
    &&& Some(t.parent_id as u64) == json::json_item_u64(body, "categories"@, i, "parent_id"@)
}

/// The body matches the success shape of this endpoint.
pub open spec fn series_categories_shape_ok(body: Seq<char>) -> bool {
    &&& json::json_arr_len(body, "categories"@) is Some
    &&& forall|i: int|
        0 <= i < json::json_arr_len(body, "categories"@)->Some_0 ==> #[trigger] category_item_ok(
            body,
            i,
        )
}

/// The decoded response `resp` holds exactly the fields of `body`.
pub open spec fn response_matches(body: Seq<char>, resp: Response) -> bool {
    &&& resp.categories@.len() == json::json_arr_len(body, "categories"@)->Some_0
    &&& forall|i: int|
        0 <= i < resp.categories@.len() ==> category_item_matches(body, i, #[trigger] resp.categories@[i])
}

/// Decodes a response body of this endpoint: the success shape when the
/// body matches it, otherwise the failure that the dual-shape protocol
/// prescribes.
pub fn from_body(text: &str) -> (r: Result<Response, String>)
    ensures
        r is Ok <==> series_categories_shape_ok(text@),
        r matches Ok(resp) ==> response_matches(text@, resp),
        r matches Err(e) ==> e@ == decode_failure(text@),
{
    let n = match json::arr_len(text, "categories") {
        Some(n) => n,
        None => {
            return Err(failure_from_body(text));
        },
    };
    let mut categories: Vec<Category> = Vec::new();
    let mut i: usize = 0;
    while i < n
        invariant
            i <= n,
            json::json_arr_len(text@, "categories"@) == Some(n),
            categories@.len() == i,
            forall|j: int| 0 <= j < i ==> #[trigger] category_item_ok(text@, j),
            forall|j: int| 0 <= j < i ==> category_item_matches(text@, j, #[trigger] categories@[j]),
        decreases n - i,
    {
        let id = match json::item_u64(text, "categories", i, "id") {
            Some(v) => match u64_to_usize(v) {
                Some(v) => v,
                None => {
                    proof {
                        assert(!category_item_ok(text@, i as int));
                        assert(!series_categories_shape_ok(text@));
                    }
                    return Err(failure_from_body(text));
                },
            },
            None => {
                proof {
                    assert(!category_item_ok(text@, i as int));
                    assert(!series_categories_shape_ok(text@));
                }
                return Err(failure_from_body(text));
            },
        };
        let name = match json::item_str(text, "categories", i, "name") {
            Some(v) => v,
            None => {
                proof {
                    assert(!category_item_ok(text@, i as int));
                    assert(!series_categories_shape_ok(text@));
                }
                return Err(failure_from_body(text));
            },
        };
        let parent_id = match json::item_u64(text, "categories", i, "parent_id") {
            Some(v) => match u64_to_usize(v) {
                Some(v) => v,
                None => {
                    proof {
                        assert(!category_item_ok(text@, i as int));
                        assert(!series_categories_shape_ok(text@));
                    }
                    return Err(failure_from_body(text));
                },
            },
            None => {
                proof {
                    assert(!category_item_ok(text@, i as int));
                    assert(!series_categories_shape_ok(text@));
                }
                return Err(failure_from_body(text));
            },
        };
        categories.push(Category { id, name, parent_id });
        i = i + 1;
    }
    Ok(Response { categories })
}

/// Argument builder for the series/categories endpoint.
///
/// Each method appends one argument to the builder, which can then be
/// passed to the client to apply the arguments to a request.  The builder
/// does no validity checking of the arguments nor does it check for
/// duplicates.
pub struct Builder {
    option_string: String,
}

impl Builder {
    /// The query-string fragment accumulated so far.
    pub closed spec fn fragment(&self) -> Seq<char> {
        self.option_string@
    }

    /// An empty builder: no arguments set.
    pub fn new() -> (b: Builder)
        ensures
            b.fragment() == Seq::<char>::empty(),
    {
        Builder {
            option_string: String::new(),
        }
    }

    /// Returns the accumulated arguments as a URL-formatted fragment,
    /// consuming the builder.
    pub fn options(self) -> (r: String)
        ensures
            r@ == self.fragment(),
    {
        self.option_string
    }

    /// Adds a realtime_start argument (a date formatted as YYYY-MM-DD).
    pub fn realtime_start(&mut self, start_date: &str)
        ensures
            final(self).fragment() == old(self).fragment() + "&realtime_start="@ + start_date@,
    {
        self.option_string.append("&realtime_start=");
        self.option_string.append(start_date);
    }

    /// Adds a realtime_end argument (a date formatted as YYYY-MM-DD).
    pub fn realtime_end(&mut self, end_date: &str)
        ensures
            final(self).fragment() == old(self).fragment() + "&realtime_end="@ + end_date@,
    {
        self.option_string.append("&realtime_end=");
        self.option_string.append(end_date);
    }
}

} // verus!
