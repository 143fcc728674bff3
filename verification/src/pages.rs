use vstd::prelude::*;
use vstd::string::*;

use crate::errors::RunError;
use crate::text::{joined, seq_views, join_strings};

verus! {

/// What a listing response body decodes to: `None` when the body is not a
/// JSON object whose `stories` field is an array, and otherwise the compact
/// JSON text of each element of that array, in array order.
pub uninterp spec fn stories_of(body: Seq<char>) -> Option<Seq<Seq<char>>>;

/// Relies on `serde_json::from_str`, `serde_json::Map::remove` and
/// `serde_json::to_string`: the body parses as a JSON object whose `stories`
/// field is an array exactly when the result is `Some`, and each returned
/// string is the compact JSON text of the corresponding array element. All
/// three depend on the body's characters alone.
#[verifier::external_body]
fn parse_stories(body: &str) -> (r: Option<Vec<String>>)
    ensures
        match r {
            Some(v) => stories_of(body@) == Some(seq_views(v@)),
            None => stories_of(body@) is None,
        },
{
    match serde_json::from_str::<serde_json::Value>(body) {
        Ok(serde_json::Value::Object(mut object)) => match object.remove("stories") {
            Some(serde_json::Value::Array(items)) => Some(
                items.iter().map(|v| serde_json::to_string(v).unwrap_or_default()).collect(),
            ),
            _ => None,
        },
        _ => None,
    }
}

/// Decodes one listing response body into its stories, in page order.
/// Returns the decode error exactly when the body is not a JSON object
/// whose `stories` field is an array.
pub fn decode_page(body: &str) -> (r: Result<Vec<String>, RunError>)
    ensures
        match r {
            Ok(v) => stories_of(body@) == Some(seq_views(v@)),
            Err(e) => e == RunError::Decode && stories_of(body@) is None,
        },
{
    match parse_stories(body) {
        Some(stories) => Ok(stories),
        None => Err(RunError::Decode),
    }
}

/// The output document for a sequence of story texts: a JSON object with the
/// single field `stories`, holding the stories joined into one array.
pub open spec fn output_doc_of(stories: Seq<Seq<char>>) -> Seq<char> {
    "{\"stories\":["@ + joined(stories, ","@) + "]}"@
}

/// Renders the output document for the accumulated stories.
pub fn render_output(stories: &Vec<String>) -> (r: String)
    ensures
        r@ == output_doc_of(seq_views(stories@)),
{
    let mut r = String::from_str("{\"stories\":[");
    let joined_stories = join_strings(stories, ",");
    r.append(joined_stories.as_str());
    r.append("]}");
    r
}

/// Persistence is idempotent in format: rendering the same accumulated
/// stories twice yields byte-identical documents.
pub proof fn lemma_render_deterministic(stories: Seq<Seq<char>>, first: Seq<char>, second: Seq<char>)
    requires
        first == output_doc_of(stories),
        second == output_doc_of(stories),
    ensures
        first == second,
{
}

/// The output document for no stories at all is the empty listing.
pub proof fn lemma_empty_output_doc()
    ensures
        output_doc_of(Seq::<Seq<char>>::empty()) == "{\"stories\":[]}"@,
{
    reveal_strlit("{\"stories\":[");
    reveal_strlit("]}");
    reveal_strlit("{\"stories\":[]}");
    assert(output_doc_of(Seq::<Seq<char>>::empty()) =~= "{\"stories\":[]}"@);
}

} // verus!
