//! Extracting the flow identifier from the redirect `Location` the
//! upstream browser endpoint answers with. The URL itself is decoded by
//! the `url` crate; picking the `flow` query parameter out of the decoded
//! pairs is this module's verified logic.

use vstd::prelude::*;
use crate::model::FlowError;
use crate::text::str_eq;

verus! {

/// What the `url` crate decodes out of a location string: its query pairs
/// in order, or nothing when the string is no URL at all. The result
/// depends on the string alone.
pub uninterp spec fn url_query_pairs(loc: Seq<char>) -> Option<Seq<(Seq<char>, Seq<char>)>>;

/// Relies on `url::Url::parse`, `url::Url::join` and
/// `url::Url::query_pairs`: the decoded query pairs of a location string
/// depend on that string alone. A relative location is resolved against a
/// fixed placeholder base, which carries no query of its own.
#[verifier::external_body]
fn parse_query_pairs(location: &str) -> (r: Option<Vec<(String, String)>>)
    ensures
        match r {
            Some(v) => url_query_pairs(location@) == Some(v.deep_view()),
            None => url_query_pairs(location@) is None,
        },
{
    let absolute = url::Url::parse(location).or_else(
        |_| url::Url::parse("http://relative.invalid").and_then(|base| base.join(location)),
    );
    match absolute {
        Ok(u) => Some(u.query_pairs().map(|(k, v)| (k.into_owned(), v.into_owned())).collect()),
        Err(_) => None,
    }
}

/// The value of the first query pair with the given key, if any.
pub open spec fn first_param(pairs: Seq<(Seq<char>, Seq<char>)>, key: Seq<char>) -> Option<
    Seq<char>,
>
    decreases pairs.len(),
{
    if pairs.len() == 0 {
        None
    } else if pairs[0].0 == key {
        Some(pairs[0].1)
    } else {
        first_param(pairs.drop_first(), key)
    }
}

/// The flow identifier a redirect location carries: the first `flow`
/// query parameter of the parsed URL.
pub open spec fn flow_id_of_location(loc: Seq<char>) -> Option<Seq<char>> {
    match url_query_pairs(loc) {
        Some(pairs) => first_param(pairs, "flow"@),
        None => None,
    }
}

/// Parses the redirect location and extracts the `flow` query parameter.
/// Fails with `MissingFlowIdentifier` when the location does not parse as
/// a URL or carries no `flow` parameter.
pub fn flow_id_from_location(location: &str) -> (r: Result<String, FlowError>)
    ensures
        match r {
            Ok(id) => flow_id_of_location(location@) == Some::<Seq<char>>(id@),
            Err(e) => flow_id_of_location(location@) is None && e
                == FlowError::MissingFlowIdentifier,
        },
{
    let pairs = match parse_query_pairs(location) {
        Some(pairs) => pairs,
        None => {
            return Err(FlowError::MissingFlowIdentifier);
        },
    };
    let n = pairs.len();
    proof {
        assert(pairs.deep_view().len() == n);
        assert(pairs.deep_view().subrange(0, n as int) =~= pairs.deep_view());
    }
    let mut i: usize = 0;
    while i < n
        invariant
            n == pairs@.len(),
            n == pairs.deep_view().len(),
            0 <= i <= n,
            url_query_pairs(location@) == Some(pairs.deep_view()),
            first_param(pairs.deep_view(), "flow"@) == first_param(
                pairs.deep_view().subrange(i as int, n as int),
                "flow"@,
            ),
        decreases n - i,
    {
        proof {
            assert(pairs.deep_view()[i as int] == (pairs@[i as int].0@, pairs@[i as int].1@));
            assert(pairs.deep_view().subrange(i as int, n as int)[0] == pairs.deep_view()[i as int]);
            assert(pairs.deep_view().subrange(i as int, n as int).drop_first()
                =~= pairs.deep_view().subrange(i as int + 1, n as int));
        }
        if str_eq(pairs[i].0.as_str(), "flow") {
            return Ok(pairs[i].1.clone());
        }
        i += 1;
    }
    Err(FlowError::MissingFlowIdentifier)
}

} // verus!
