use vstd::prelude::*;
use vstd::string::*;

use crate::text::{dec_of, joined, seq_views, u64_to_decimal, join_strings};

verus! {

/// The `application/x-www-form-urlencoded` escaping of one name or value:
/// what `url::form_urlencoded` appends for a single string.
pub uninterp spec fn form_escaped(s: Seq<char>) -> Seq<char>;

/// Relies on `url::form_urlencoded::Serializer::append_pair`: starting from an
/// empty target it appends the escaped name, `=`, and the escaped value, each
/// escaped by the `application/x-www-form-urlencoded` byte serializer, which
/// depends on the string's characters alone.
#[verifier::external_body]
fn encode_pair(name: &str, value: &str) -> (r: String)
    ensures
        r@ == form_escaped(name@) + "="@ + form_escaped(value@),
{
    let mut serializer = url::form_urlencoded::Serializer::new(String::new());
    serializer.append_pair(name, value);
    serializer.finish()
}

/// The encoding of one name/value pair: escaped name, `=`, escaped value.
pub open spec fn pair_encoded(p: (Seq<char>, Seq<char>)) -> Seq<char> {
    form_escaped(p.0) + "="@ + form_escaped(p.1)
}

/// The url-encoded form body for a sequence of name/value pairs: the encoded
/// pairs joined with `&`.
pub open spec fn form_body_of(pairs: Seq<(Seq<char>, Seq<char>)>) -> Seq<char> {
    joined(pairs.map_values(|p: (Seq<char>, Seq<char>)| pair_encoded(p)), "&"@)
}

/// The views of a vector of string pairs.
pub open spec fn pair_views(pairs: Seq<(String, String)>) -> Seq<(Seq<char>, Seq<char>)> {
    pairs.map_values(|p: (String, String)| (p.0@, p.1@))
}

/// Encodes the pairs as an `application/x-www-form-urlencoded` body.
pub fn encode_pairs(pairs: &Vec<(String, String)>) -> (r: String)
    ensures
        r@ == form_body_of(pair_views(pairs@)),
{
    let mut parts: Vec<String> = Vec::new();
    let mut i: usize = 0;
    while i < pairs.len()
        invariant
            i <= pairs.len(),
            seq_views(parts@) =~= pair_views(pairs@).map_values(
                |p: (Seq<char>, Seq<char>)| pair_encoded(p),
            ).take(i as int),
        decreases pairs.len() - i,
    {
        let part = encode_pair(pairs[i].0.as_str(), pairs[i].1.as_str());
        parts.push(part);
        proof {
            let encoded = pair_views(pairs@).map_values(
                |p: (Seq<char>, Seq<char>)| pair_encoded(p),
            );
            assert(seq_views(parts@) =~= encoded.take(i as int).push(encoded[i as int]));
            assert(encoded.take(i as int).push(encoded[i as int]) =~= encoded.take(i + 1));
        }
        i += 1;
    }
    proof {
        let encoded = pair_views(pairs@).map_values(
            |p: (Seq<char>, Seq<char>)| pair_encoded(p),
        );
        assert(encoded.take(pairs@.len() as int) =~= encoded);
    }
    join_strings(&parts, "&")
}

/// The name/value pairs of a login request: always the username, and the
/// password only when one is present and non-empty. An explicitly empty
/// password is treated exactly as an absent one.
pub open spec fn login_pairs(username: Seq<char>, password: Option<Seq<char>>) -> Seq<
    (Seq<char>, Seq<char>),
> {
    match password {
        Some(p) => if p.len() > 0 {
            seq![("username"@, username), ("password"@, p)]
        } else {
            seq![("username"@, username)]
        },
        None => seq![("username"@, username)],
    }
}

/// The view of an optional string slice.
pub open spec fn opt_view(s: Option<&str>) -> Option<Seq<char>> {
    match s {
        Some(s) => Some(s@),
        None => None,
    }
}

/// Builds the url-encoded body of the login request.
pub fn login_body(username: &str, password: Option<&str>) -> (r: String)
    ensures
        r@ == form_body_of(login_pairs(username@, opt_view(password))),
{
    let mut pairs: Vec<(String, String)> = Vec::new();
    pairs.push((String::from_str("username"), String::from_str(username)));
    if let Some(p) = password {
        if !p.is_empty() {
            pairs.push((String::from_str("password"), String::from_str(p)));
        }
    }
    proof {
        assert(pair_views(pairs@) =~= login_pairs(username@, opt_view(password)));
    }
    encode_pairs(&pairs)
}

/// An empty password and an absent password give the same login request
/// pairs, and hence the same request body.
pub proof fn lemma_empty_password_like_absent(username: Seq<char>)
    ensures
        login_pairs(username, Some(Seq::<char>::empty())) == login_pairs(username, None),
        form_body_of(login_pairs(username, Some(Seq::<char>::empty()))) == form_body_of(
            login_pairs(username, None),
        ),
{
}

/// The name/value pairs of a listing request: the page index, if one is
/// given, then one `h` pair for each story-hash filter.
pub open spec fn page_pairs(page: Option<u64>, hashes: Option<Seq<Seq<char>>>) -> Seq<
    (Seq<char>, Seq<char>),
> {
    (match page {
        Some(n) => seq![("page"@, dec_of(n as nat))],
        None => Seq::<(Seq<char>, Seq<char>)>::empty(),
    }) + (match hashes {
        Some(hs) => hs.map_values(|h: Seq<char>| ("h"@, h)),
        None => Seq::<(Seq<char>, Seq<char>)>::empty(),
    })
}

/// The views of an optional vector of strings.
pub open spec fn opt_seq_views(v: Option<Vec<String>>) -> Option<Seq<Seq<char>>> {
    match v {
        Some(v) => Some(seq_views(v@)),
        None => None,
    }
}

/// Builds the url-encoded body of a listing request.
pub fn starred_stories_body(page: Option<u64>, story_hashes: Option<Vec<String>>) -> (r: String)
    ensures
        r@ == form_body_of(page_pairs(page, opt_seq_views(story_hashes))),
{
    let ghost target = page_pairs(page, opt_seq_views(story_hashes));
    let mut pairs: Vec<(String, String)> = Vec::new();
    if let Some(n) = page {
        pairs.push((String::from_str("page"), u64_to_decimal(n)));
    }
    let ghost base = pairs@.len() as int;
    if let Some(hashes) = &story_hashes {
        let mut i: usize = 0;
        while i < hashes.len()
            invariant
                i <= hashes.len(),
                pairs@.len() == base + i,
                pair_views(pairs@) =~= target.take(base + i),
                base + hashes@.len() == target.len(),
                forall|j: int| 0 <= j < hashes@.len() ==> target[base + j] == (
                    "h"@,
                    hashes@[j]@,
                ),
            decreases hashes.len() - i,
        {
            pairs.push((String::from_str("h"), hashes[i].clone()));
            proof {
                assert(pair_views(pairs@) =~= target.take(base + i).push(target[base + i]));
                assert(target.take(base + i).push(target[base + i]) =~= target.take(base + i + 1));
            }
            i += 1;
        }
    }
    proof {
        assert(pair_views(pairs@) =~= target);
    }
    encode_pairs(&pairs)
}

} // verus!
