//! Plain-value model of one outbound HTTP exchange, plus first-match
//! lookups over header lists and cookie jars.
//!
//! The calling boundary performs the actual network call: it sends exactly
//! what an [`HttpRequest`] describes and hands the answer back as an
//! [`HttpResponse`] whose header names are lowercased (HTTP header names
//! compare case-insensitively; lowercasing them once keeps every lookup in
//! this core an exact match).

use vstd::prelude::*;
use crate::model::{Cookie, FlowError};
use crate::text::contains_seq;
use crate::text::str_contains;
use crate::text::str_eq;

verus! {

/// One outbound request, fully determined by plain values. `query` holds
/// decoded key/value pairs; the transport encodes them into the URL.
#[derive(Clone, Debug)]
pub struct HttpRequest {
    pub method: String,
    pub url: String,
    pub query: Vec<(String, String)>,
    pub headers: Vec<(String, String)>,
    pub body: Option<String>,
}

/// One upstream response, reduced to the plain values the orchestration
/// reads: status, headers (names lowercased, in wire order, repeated names
/// kept), the response cookies in wire order, and the body text.
#[derive(Clone, Debug)]
pub struct HttpResponse {
    pub status: u16,
    pub headers: Vec<(String, String)>,
    pub cookies: Vec<Cookie>,
    pub body: String,
}

/// All values of headers with the given name, in order.
pub open spec fn header_values(hs: Seq<(String, String)>, name: Seq<char>) -> Seq<Seq<char>>
    decreases hs.len(),
{
    if hs.len() == 0 {
        Seq::empty()
    } else if hs[0].0@ == name {
        seq![hs[0].1@] + header_values(hs.drop_first(), name)
    } else {
        header_values(hs.drop_first(), name)
    }
}

/// A cookie name that carries a CSRF token: the upstream appends a
/// per-flow suffix to "csrf_token", so containment is required, not
/// equality.
pub open spec fn is_csrf_name(name: Seq<char>) -> bool {
    contains_seq(name, "csrf_token"@)
}

/// The first cookie of the jar whose name carries a CSRF token, as a
/// (name, value) pair of views.
pub open spec fn csrf_first(jar: Seq<Cookie>) -> Option<(Seq<char>, Seq<char>)>
    decreases jar.len(),
{
    if jar.len() == 0 {
        None
    } else if is_csrf_name(jar[0].name@) {
        Some((jar[0].name@, jar[0].value@))
    } else {
        csrf_first(jar.drop_first())
    }
}

/// Collects the values of every header with the given name, in order.
pub fn header_value_all(hs: &Vec<(String, String)>, name: &str) -> (r: Vec<String>)
    ensures
        r@.len() == header_values(hs@, name@).len(),
        forall|i: int|
            0 <= i < r@.len() ==> r@[i]@ == header_values(hs@, name@)[i],
{
    let n = hs.len();
    proof {
        assert(hs@.subrange(0, n as int) =~= hs@);
        assert(hs@.take(0) =~= Seq::<(String, String)>::empty());
        assert(header_values(hs@.take(0), name@) + header_values(hs@, name@) =~= header_values(
            hs@,
            name@,
        ));
    }
    let mut out: Vec<String> = Vec::new();
    let mut i: usize = 0;
    while i < n
        invariant
            n == hs@.len(),
            0 <= i <= n,
            header_values(hs@, name@) == header_values(
                hs@.take(i as int),
                name@,
            ) + header_values(hs@.subrange(i as int, n as int), name@),
            out@.len() == header_values(hs@.take(i as int), name@).len(),
            forall|k: int|
                0 <= k < out@.len() ==> out@[k]@ == header_values(hs@.take(i as int), name@)[k],
        decreases n - i,
    {
        proof {
            assert(hs@.subrange(i as int, n as int)[0] == hs@[i as int]);
            assert(hs@.subrange(i as int, n as int).drop_first() =~= hs@.subrange(
                i as int + 1,
                n as int,
            ));
            lemma_header_values_snoc(hs@, name@, i as int);
        }
        if str_eq(hs[i].0.as_str(), name) {
            out.push(hs[i].1.clone());
        }
        i += 1;
    }
    proof {
        assert(hs@.take(n as int) =~= hs@);
    }
    out
}

/// Splitting the scan after one more element moves that element from the
/// tail to the collected prefix.
proof fn lemma_header_values_snoc(hs: Seq<(String, String)>, name: Seq<char>, i: int)
    requires
        0 <= i < hs.len(),
    ensures
        header_values(hs.take(i + 1), name) == header_values(hs.take(i), name) + (
        if hs[i].0@ == name {
            seq![hs[i].1@]
        } else {
            Seq::<Seq<char>>::empty()
        }),
    decreases i,
{
    if i == 0 {
        assert(hs.take(1)[0] == hs[0]);
        assert(hs.take(1).drop_first() =~= hs.take(0));
        assert(hs.take(0).len() == 0);
        assert(header_values(hs.take(0), name) =~= Seq::<Seq<char>>::empty());
        if hs[0].0@ == name {
            assert(header_values(hs.take(1), name) == seq![hs[0].1@] + header_values(
                hs.take(1).drop_first(),
                name,
            ));
            assert(header_values(hs.take(1), name) =~= seq![hs[0].1@]);
        } else {
            assert(header_values(hs.take(1), name) == header_values(
                hs.take(1).drop_first(),
                name,
            ));
            assert(header_values(hs.take(1), name) =~= Seq::<Seq<char>>::empty());
        }
    } else {
        lemma_header_values_snoc(hs.drop_first(), name, i - 1);
        assert(hs.take(i + 1).drop_first() =~= hs.drop_first().take(i));
        assert(hs.take(i).drop_first() =~= hs.drop_first().take(i - 1));
        assert(hs.take(i + 1)[0] == hs[0]);
        assert(hs.take(i)[0] == hs[0]);
        assert(hs.drop_first()[i - 1] == hs[i]);
    }
}

/// Finds the first cookie of the jar whose name carries a CSRF token.
/// Fails with `MissingCsrfCookie` when no cookie name matches.
pub fn find_csrf_cookie(jar: &Vec<Cookie>) -> (r: Result<Cookie, FlowError>)
    ensures
        match r {
            Ok(c) => csrf_first(jar@) == Some((c.name@, c.value@)),
            Err(e) => csrf_first(jar@) is None && e == FlowError::MissingCsrfCookie,
        },
{
    let n = jar.len();
    proof {
        assert(jar@.subrange(0, n as int) =~= jar@);
    }
    let mut i: usize = 0;
    while i < n
        invariant
            n == jar@.len(),
            0 <= i <= n,
            csrf_first(jar@) == csrf_first(jar@.subrange(i as int, n as int)),
        decreases n - i,
    {
        proof {
            assert(jar@.subrange(i as int, n as int)[0] == jar@[i as int]);
            assert(jar@.subrange(i as int, n as int).drop_first() =~= jar@.subrange(
                i as int + 1,
                n as int,
            ));
        }
        if str_contains(jar[i].name.as_str(), "csrf_token") {
            return Ok(Cookie { name: jar[i].name.clone(), value: jar[i].value.clone() });
        }
        i += 1;
    }
    Err(FlowError::MissingCsrfCookie)
}

} // verus!
