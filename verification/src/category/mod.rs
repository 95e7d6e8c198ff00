//! Categories of economic data: the shared response shape of the category,
//! category/children and category/related endpoints, and its decoder.

pub mod children;
pub mod related;
pub mod related_tags;
pub mod series;
pub mod tags;

use vstd::prelude::*;
use crate::json;
use crate::decode::{decode_failure, failure_from_body, opt_str_view, u64_to_usize};

verus! {

/// Response data structure for a collection of categories.
#[derive(Debug)]
pub struct Response {
    /// List of categories returned by the query.
    pub categories: Vec<Category>,
}

/// Information about one particular category.
#[derive(Debug)]
pub struct Category {
    /// The category ID number.
    pub id: usize,
    /// The category name.
    pub name: String,
    /// The parent ID number of the category.
    pub parent_id: usize,
    /// Additional information about the category.
    pub notes: Option<String>,
}

/// Element `i` of the `categories` array carries every required field, with
/// the integer fields small enough to hold.
pub open spec fn category_item_ok(body: Seq<char>, i: int) -> bool {
    &&& match json::json_item_u64(body, "categories"@, i, "id"@) {
        Some(v) => v <= usize::MAX as u64,
        None => false,
    }
    &&& json::json_item_str(body, "categories"@, i, "name"@) is Some
    &&& match json::json_item_u64(body, "categories"@, i, "parent_id"@) {
        Some(v) => v <= usize::MAX as u64,
        None => false,
    }
}

/// The body matches the success shape of the category endpoints: a
/// `categories` array whose elements all carry the required fields.
pub open spec fn category_shape_ok(body: Seq<char>) -> bool {
    &&& json::json_arr_len(body, "categories"@) is Some
    &&& forall|i: int|
        0 <= i < json::json_arr_len(body, "categories"@)->Some_0 ==> #[trigger] category_item_ok(
            body,
            i,
        )
}

/// The decoded category `c` holds exactly the fields of element `i` of the
/// `categories` array.
pub open spec fn category_item_matches(body: Seq<char>, i: int, c: Category) -> bool {
    &&& Some(c.id as u64) == json::json_item_u64(body, "categories"@, i, "id"@)
    &&& Some(c.name@) == json::json_item_str(body, "categories"@, i, "name"@)
    &&& Some(c.parent_id as u64) == json::json_item_u64(body, "categories"@, i, "parent_id"@)
    &&& opt_str_view(c.notes) == json::json_item_str(body, "categories"@, i, "notes"@)
}

/// Decodes a response body of the category endpoints: the success shape when
/// the body matches it, otherwise the failure that the dual-shape protocol
/// prescribes.
pub fn from_body(text: &str) -> (r: Result<Response, String>)
    ensures
        r is Ok <==> category_shape_ok(text@),
        r matches Ok(resp) ==> {
            &&& resp.categories@.len() == json::json_arr_len(text@, "categories"@)->Some_0
            &&& forall|i: int|
                0 <= i < resp.categories@.len() ==> category_item_matches(
                    text@,
                    i,
                    #[trigger] resp.categories@[i],
                )
        },
        r matches Err(e) ==> e@ == decode_failure(text@),
{
    let n = match json::arr_len(text, "categories") {
        Some(n) => n,
        None => {
            return Err(failure_from_body(text));
        },
    };
    let mut categories: Vec<Category> = Vec::new();
    let mut i: usize = 0;
    while i < n
        invariant
            i <= n,
            json::json_arr_len(text@, "categories"@) == Some(n),
            categories@.len() == i,
            forall|j: int| 0 <= j < i ==> #[trigger] category_item_ok(text@, j),
            forall|j: int|
                0 <= j < i ==> category_item_matches(text@, j, #[trigger] categories@[j]),
        decreases n - i,
    {
        let id64 = match json::item_u64(text, "categories", i, "id") {
            Some(v) => v,
            None => {
                proof {
                    assert(!category_item_ok(text@, i as int));
                    assert(!category_shape_ok(text@));
                }
                return Err(failure_from_body(text));
            },
        };
        let id = match u64_to_usize(id64) {
            Some(v) => v,
            None => {
                proof {
                    assert(!category_item_ok(text@, i as int));
                    assert(!category_shape_ok(text@));
                }
                return Err(failure_from_body(text));
            },
        };
        let name = match json::item_str(text, "categories", i, "name") {
            Some(v) => v,
            None => {
                proof {
                    assert(!category_item_ok(text@, i as int));
                    assert(!category_shape_ok(text@));
                }
                return Err(failure_from_body(text));
            },
        };
        let parent64 = match json::item_u64(text, "categories", i, "parent_id") {
            Some(v) => v,
            None => {
                proof {
                    assert(!category_item_ok(text@, i as int));
                    assert(!category_shape_ok(text@));
                }
                return Err(failure_from_body(text));
            },
        };
        let parent_id = match u64_to_usize(parent64) {
            Some(v) => v,
            None => {
                proof {
                    assert(!category_item_ok(text@, i as int));
                    assert(!category_shape_ok(text@));
                }
                return Err(failure_from_body(text));
            },
        };
        let notes = json::item_str(text, "categories", i, "notes");
        categories.push(Category { id, name, parent_id, notes });
        i = i + 1;
    }
    Ok(Response { categories })
}

} // verus!
