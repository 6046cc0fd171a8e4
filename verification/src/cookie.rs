//! Cookie-header extraction for the request context: each `cookie` header
//! parses into a name/value pair, and the parsed context answers key lookups
//! with JSON-shaped string values.

use vstd::prelude::*;
use vstd::map::*;

use crate::http::{entries_map, lemma_entries_map_absent, lemma_entries_map_index,
    lemma_entries_map_update, unique_keys};
use crate::json::{JsonValue, JsonView};
use crate::text::str_eq;

verus! {

/// Name for what `cookie::Cookie::parse` extracts from a header: the parsed
/// name and value depend on the header text alone, or nothing when the text
/// does not parse as a cookie.
pub uninterp spec fn cookie_pair_of(s: Seq<char>) -> Option<(Seq<char>, Seq<char>)>;

/// Relies on `cookie::Cookie::parse` to split a header into the cookie's
/// name and value.
#[verifier::external_body]
fn parse_cookie_pair(s: &str) -> (r: Option<(String, String)>)
    ensures
        match r {
            Some(p) => cookie_pair_of(s@) == Some((p.0@, p.1@)),
            None => cookie_pair_of(s@) is None,
        },
{
    match cookie::Cookie::parse(s) {
        Ok(c) => Some((c.name().to_owned(), c.value().to_owned())),
        Err(_) => None,
    }
}

/// Why cookie extraction failed.
#[derive(Clone, Copy, Debug, PartialEq, Eq, Structural)]
pub enum ContextParsingError {
    /// A `cookie` header did not parse as a cookie.
    Malformed,
}

/// The element-wise view of the header values.
pub open spec fn headers_view(s: Seq<String>) -> Seq<Seq<char>> {
    Seq::new(s.len(), |i: int| if 0 <= i < s.len() {
        s[i]@
    } else {
        Seq::empty()
    })
}

/// The cookie map the headers denote: each header parses into one
/// name/value pair, later headers winning on a repeated name; one header
/// that does not parse fails the whole extraction.
pub open spec fn cookies_map_spec(headers: Seq<Seq<char>>) -> Result<
    Map<Seq<char>, Seq<char>>,
    ContextParsingError,
>
    decreases headers.len(),
{
    if headers.len() == 0 {
        Ok(Map::empty())
    } else {
        match (cookies_map_spec(headers.drop_last()), cookie_pair_of(headers.last())) {
            (Ok(m), Some(p)) => Ok(m.insert(p.0, p.1)),
            _ => Err(ContextParsingError::Malformed),
        }
    }
}

/// A failing prefix fails the whole extraction.
proof fn lemma_cookies_err_extends(hs: Seq<Seq<char>>, i: int)
    requires
        0 <= i <= hs.len(),
        cookies_map_spec(hs.take(i)) is Err,
    ensures
        cookies_map_spec(hs) is Err,
    decreases hs.len() - i,
{
    if i < hs.len() {
        assert(hs.take(i + 1).drop_last() =~= hs.take(i));
        lemma_cookies_err_extends(hs, i + 1);
    } else {
        assert(hs.take(i) =~= hs);
    }
}

/// The cookies of one request, by name.
#[derive(Debug, PartialEq)]
pub struct ParsedCookieContext {
    cookies: Vec<(String, String)>,
}

impl View for ParsedCookieContext {
    type V = Map<Seq<char>, Seq<char>>;

    closed spec fn view(&self) -> Map<Seq<char>, Seq<char>> {
        entries_map(self.cookies@)
    }
}

impl ParsedCookieContext {
    /// The internal shape every operation preserves: cookie names are
    /// pairwise distinct.
    pub closed spec fn wf(&self) -> bool {
        unique_keys(self.cookies@)
    }

    /// The context-annotation name this extractor answers for.
    pub fn annotation_name(&self) -> (r: &'static str)
        ensures
            r@ == "cookie"@,
    {
        "cookie"
    }

    /// The value of the named cookie, as a JSON-shaped string; nothing when
    /// no key was asked for or the cookie is absent.
    #[verifier::loop_isolation(false)]
    pub fn extract_context_field(&self, key: Option<&str>) -> (r: Option<JsonValue>)
        requires
            self.wf(),
        ensures
            match key {
                None => r is None,
                Some(k) => match r {
                    Some(v) => self@.contains_key(k@) && v@ == JsonView::Str(self@[k@]),
                    None => !self@.contains_key(k@),
                },
            },
    {
        let k = match key {
            Some(k) => k,
            None => {
                return None;
            },
        };
        let ghost s = self.cookies@;
        let mut i: usize = 0;
        while i < self.cookies.len()
            invariant
                i <= s.len(),
                self.cookies@ == s,
                unique_keys(s),
                forall|j: int| 0 <= j < i ==> (#[trigger] s[j]).0@ != k@,
            decreases s.len() - i,
        {
            if str_eq(self.cookies[i].0.as_str(), k) {
                proof {
                    lemma_entries_map_index(s, i as int);
                }
                return Some(JsonValue::Str(self.cookies[i].1.clone()));
            }
            i = i + 1;
        }
        proof {
            lemma_entries_map_absent(s, k@);
        }
        None
    }
}

/// Extracts request-context values from `cookie` headers.
#[derive(Debug, PartialEq)]
pub struct CookieExtractor;

impl CookieExtractor {
    /// Parses every `cookie` header value into a name/value pair, exactly as
    /// the cookie-map model says; one malformed header fails the extraction.
    /// Each header value is parsed whole, under standard cookie semantics:
    /// the pair is the text before the first `;`, split at its first `=` and
    /// trimmed, and any `;`-separated attribute segments after it are
    /// dropped, never joined onto the value.
    #[verifier::loop_isolation(false)]
    pub fn parse_context(cookie_headers: &Vec<String>) -> (r: Result<
        ParsedCookieContext,
        ContextParsingError,
    >)
        ensures
            match r {
                Ok(c) => c.wf() && cookies_map_spec(headers_view(cookie_headers@)) == Ok::<
                    _,
                    ContextParsingError,
                >(c@),
                Err(e) => cookies_map_spec(headers_view(cookie_headers@)) == Err::<
                    Map<Seq<char>, Seq<char>>,
                    _,
                >(e),
            },
    {
        let ghost hs = headers_view(cookie_headers@);
        let mut out: Vec<(String, String)> = Vec::new();
        let mut i: usize = 0;
        proof {
            assert(hs.take(0) =~= Seq::<Seq<char>>::empty());
        }
        while i < cookie_headers.len()
            invariant
                i <= cookie_headers.len(),
                unique_keys(out@),
                cookies_map_spec(hs.take(i as int)) == Ok::<_, ContextParsingError>(
                    entries_map(out@),
                ),
            decreases cookie_headers.len() - i,
        {
            proof {
                assert(hs.take(i + 1).drop_last() =~= hs.take(i as int));
                assert(hs.take(i + 1).last() == hs[i as int]);
            }
            match parse_cookie_pair(cookie_headers[i].as_str()) {
                Some(pair) => {
                    insert_cookie(&mut out, pair.0, pair.1);
                },
                None => {
                    proof {
                        lemma_cookies_err_extends(hs, i + 1);
                    }
                    return Err(ContextParsingError::Malformed);
                },
            }
            i = i + 1;
        }
        proof {
            assert(hs.take(cookie_headers@.len() as int) =~= hs);
        }
        Ok(ParsedCookieContext { cookies: out })
    }
}

/// Stores a cookie under its name, replacing any previous value.
#[verifier::loop_isolation(false)]
fn insert_cookie(entries: &mut Vec<(String, String)>, name: String, value: String)
    requires
        unique_keys(old(entries)@),
    ensures
        unique_keys(final(entries)@),
        entries_map(final(entries)@) == entries_map(old(entries)@).insert(name@, value@),
{
    let ghost s0 = entries@;
    let mut i: usize = 0;
    while i < entries.len()
        invariant
            i <= entries@.len(),
            entries@ == s0,
            forall|j: int| 0 <= j < i ==> (#[trigger] s0[j]).0@ != name@,
        decreases entries@.len() - i,
    {
        if str_eq(entries[i].0.as_str(), name.as_str()) {
            proof {
                lemma_entries_map_update(s0, i as int, (name, value));
            }
            entries.set(i, (name, value));
            return ;
        }
        i = i + 1;
    }
    proof {
        assert(unique_keys(s0.push((name, value)))) by {
            assert(forall|a: int, b: int|
                0 <= a < b < s0.push((name, value)).len() && b < s0.len() ==> (#[trigger] s0.push(
                    (name, value),
                )[a]).0@ != (#[trigger] s0.push((name, value))[b]).0@);
        }
        assert(s0.push((name, value)).drop_last() =~= s0);
    }
    entries.push((name, value));
}

} // verus!
