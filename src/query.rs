//! Decoding of a URL query string into key/value pairs, and lookup in them.
use vstd::prelude::*;

verus! {

#[verifier::external_type_specification]
#[verifier::external_body]
pub struct ExDecodeError(serde_urlencoded::de::Error);

/// What `serde_urlencoded` makes of a query string read as a list of
/// string pairs: the pairs in the order they stand, or `None` where it fails.
pub uninterp spec fn decoded_pairs(query: Seq<char>) -> Option<Seq<(Seq<char>, Seq<char>)>>;

/// The pairs as sequences of characters.
pub open spec fn pairs_view(pairs: Seq<(String, String)>) -> Seq<(Seq<char>, Seq<char>)> {
    pairs.map_values(|p: (String, String)| (p.0@, p.1@))
}

/// Relies on serde_urlencoded::from_str, with `Vec<(String, String)>` as the
/// target: the percent-decoded pairs of an `application/x-www-form-urlencoded`
/// string, in order. Its result depends on the string alone.
#[verifier::external_body]
fn decode_pairs(query: &str) -> (r: Result<Vec<(String, String)>, serde_urlencoded::de::Error>)
    ensures
        match r {
            Ok(pairs) => decoded_pairs(query@) == Some(pairs_view(pairs@)),
            Err(_) => decoded_pairs(query@) is None,
        },
{
    serde_urlencoded::from_str::<Vec<(String, String)>>(query)
}

/// A query string that could not be decoded.
#[derive(Debug, PartialEq, Eq, Structural, Clone, Copy)]
pub enum QueryError {
    Undecodable,
}

/// Decodes `query` into its key/value pairs, in order.
pub fn parse_query(query: &str) -> (r: Result<Vec<(String, String)>, QueryError>)
    ensures
        match r {
            Ok(pairs) => decoded_pairs(query@) == Some(pairs_view(pairs@)),
            Err(e) => decoded_pairs(query@) is None && e == QueryError::Undecodable,
        },
{
    match decode_pairs(query) {
        Ok(pairs) => Ok(pairs),
        Err(_) => Err(QueryError::Undecodable),
    }
}

/// The value of the last pair whose key is `key`: a later pair with the same
/// key overrides an earlier one.
pub open spec fn last_value(pairs: Seq<(Seq<char>, Seq<char>)>, key: Seq<char>) -> Option<Seq<char>>
    decreases pairs.len(),
{
    if pairs.len() == 0 {
        None
    } else if pairs.last().0 == key {
        Some(pairs.last().1)
    } else {
        last_value(pairs.drop_last(), key)
    }
}

/// An optional string as an optional sequence of characters.
pub open spec fn opt_text(o: Option<String>) -> Option<Seq<char>> {
    match o {
        Some(s) => Some(s@),
        None => None,
    }
}

/// The value that `key` has in `pairs`, the last one where it occurs twice.
pub fn lookup(pairs: &Vec<(String, String)>, key: &str) -> (r: Option<String>)
    ensures
        opt_text(r) == last_value(pairs_view(pairs@), key@),
{
    let wanted = key.to_owned();
    let mut i: usize = pairs.len();
    assert(pairs_view(pairs@).take(i as int) == pairs_view(pairs@));
    while i > 0
        invariant
            i <= pairs@.len(),
            wanted@ == key@,
            last_value(pairs_view(pairs@), key@) == last_value(pairs_view(pairs@).take(i as int), key@),
        decreases i,
    {
        let ghost prefix = pairs_view(pairs@).take(i as int);
        assert(prefix.drop_last() == pairs_view(pairs@).take(i - 1));
        assert(prefix.last() == (pairs@[i - 1].0@, pairs@[i - 1].1@));
        if pairs[i - 1].0 == wanted {
            return Some(pairs[i - 1].1.clone());
        }
        i = i - 1;
    }
    assert(pairs_view(pairs@).take(0) == Seq::<(Seq<char>, Seq<char>)>::empty());
    None
}

} // verus!
