//! Properties of a whole query, proved from the models of its steps.
use vstd::prelude::*;

use crate::foreign::status_digits;
use crate::query::{
    call_outcome, link_target, message_prefix, request_url_of, status_failure, ErrorKind, Outcome,
};
use crate::text::{occurs_at, replace_all};

verus! {

/// Whether `t` occurs somewhere in `s`.
pub open spec fn contains(s: Seq<char>, t: Seq<char>) -> bool {
    exists|k: int| occurs_at(s, t, k)
}

/// The link that body mode reports for an optional `Link` header value.
pub open spec fn reported_link(link: Option<Seq<char>>) -> Seq<char> {
    match link {
        Some(l) => link_target(l),
        None => Seq::empty(),
    }
}

/// In body mode, a 200 response yields exactly its body text, with the link
/// taken from the `Link` header (brackets and `; rel="next"` removed), or an
/// empty link when there is no such header.
pub proof fn lemma_body_mode_success(
    digest: Option<Seq<char>>,
    link: Option<Seq<char>>,
    body: Seq<char>,
)
    ensures
        call_outcome(200, false, digest, link, Ok(body)) == Ok::<
            (Seq<char>, Seq<char>),
            (ErrorKind, Seq<char>),
        >((body, reported_link(link))),
        link is None ==> reported_link(link).len() == 0,
{
}

/// In digest mode, a 200 response that carries the digest header yields
/// exactly that header's value and an empty link, whatever the body.
pub proof fn lemma_digest_mode_success(
    digest: Seq<char>,
    link: Option<Seq<char>>,
    body: Result<Seq<char>, Seq<char>>,
)
    ensures
        call_outcome(200, true, Some(digest), link, body) == Ok::<
            (Seq<char>, Seq<char>),
            (ErrorKind, Seq<char>),
        >((digest, Seq::empty())),
{
}

/// Any status other than 200 fails the query with a status error whose
/// message holds the status code's digits.
pub proof fn lemma_status_failure(
    status: u16,
    extract_digest: bool,
    digest: Option<Seq<char>>,
    link: Option<Seq<char>>,
    body: Result<Seq<char>, Seq<char>>,
)
    requires
        100 <= status <= 999,
        status != 200,
    ensures
        call_outcome(status, extract_digest, digest, link, body) matches Err((kind, message))
            && kind == ErrorKind::StatusError && contains(message, status_digits(status)),
{
    let message = status_failure(status).1;
    let k = message_prefix().len() as int;
    assert(message.subrange(k, k + 3) =~= status_digits(status));
    assert(occurs_at(message, status_digits(status), k));
}

/// Whether no occurrence of `pat` can start inside `p`: from each position
/// of `p` some character within `p` differs from the pattern.
pub open spec fn no_start_within(p: Seq<char>, pat: Seq<char>) -> bool {
    forall|i: int| 0 <= i < p.len() ==> #[trigger] mismatch_from(p, pat, i)
}

/// Whether, from position `i` of `p`, some character within `p` differs
/// from the pattern.
pub open spec fn mismatch_from(p: Seq<char>, pat: Seq<char>, i: int) -> bool {
    exists|j: int| 0 <= j < pat.len() && i + j < p.len() && #[trigger] p[i + j] != pat[j]
}

/// Text in which no occurrence of the pattern starts is left as it is by the
/// replacement, whatever follows it.
pub proof fn lemma_replace_skips(p: Seq<char>, rest: Seq<char>, pat: Seq<char>, by: Seq<char>)
    requires
        no_start_within(p, pat),
    ensures
        replace_all(p + rest, pat, by) == p + replace_all(rest, pat, by),
    decreases p.len(),
{
    if p.len() == 0 {
        assert(p + rest =~= rest);
        assert(p + replace_all(rest, pat, by) =~= replace_all(rest, pat, by));
    } else {
        let s = p + rest;
        assert(mismatch_from(p, pat, 0));
        let j = choose|j: int| 0 <= j < pat.len() && 0 + j < p.len() && #[trigger] p[0 + j] != pat[j];
        assert(s[j] != pat[j]);
        let tail = p.drop_first();
        assert(no_start_within(tail, pat)) by {
            assert forall|i: int| 0 <= i < tail.len() implies #[trigger] mismatch_from(
                tail,
                pat,
                i,
            ) by {
                assert(mismatch_from(p, pat, i + 1));
                let j2 = choose|j: int|
                    0 <= j < pat.len() && (i + 1) + j < p.len() && #[trigger] p[(i + 1) + j]
                        != pat[j];
                assert(tail[i + j2] == p[(i + 1) + j2]);
            }
        }
        lemma_replace_skips(tail, rest, pat, by);
        assert(s.drop_first() =~= tail + rest);
        if s.len() < pat.len() {
            assert(rest.len() < pat.len());
            assert(tail + rest =~= s.drop_first());
            assert(s =~= p + rest);
            assert(p + replace_all(rest, pat, by) =~= p + rest);
        } else {
            assert(s.subrange(0, pat.len() as int)[j] != pat[j]);
            assert(s.subrange(0, pat.len() as int) != pat);
            assert(seq![s[0]] + (tail + replace_all(rest, pat, by)) =~= p + replace_all(
                rest,
                pat,
                by,
            ));
        }
    }
}

/// Without a token the request goes over plain HTTP: a URL given with the
/// `https` scheme is sent with `http`, and one given with `http` keeps it.
/// With a token the URL is sent exactly as given.
pub proof fn lemma_request_scheme(rest: Seq<char>, url: Seq<char>, token: Seq<char>)
    ensures
        request_url_of("https://"@ + rest, Seq::empty()) == "http://"@ + replace_all(
            rest,
            "https"@,
            "http"@,
        ),
        request_url_of("http://"@ + rest, Seq::empty()) == "http://"@ + replace_all(
            rest,
            "https"@,
            "http"@,
        ),
        token.len() > 0 ==> request_url_of(url, token) == url,
{
    reveal_strlit("https://");
    reveal_strlit("http://");
    reveal_strlit("https");
    reveal_strlit("http");
    reveal_strlit("://");
    let pat = "https"@;
    let by = "http"@;
    let sep = "://"@;
    assert(no_start_within(sep, pat)) by {
        assert forall|i: int| 0 <= i < sep.len() implies #[trigger] mismatch_from(sep, pat, i) by {
            assert(sep[i + 0] != pat[0]);
        }
    }
    lemma_replace_skips(sep, rest, pat, by);
    let s = "https://"@ + rest;
    assert(s.subrange(0, 5) =~= pat);
    assert(s.subrange(5, s.len() as int) =~= sep + rest);
    assert(by + (sep + replace_all(rest, pat, by)) =~= "http://"@ + replace_all(rest, pat, by));
    let plain = "http://"@;
    assert(no_start_within(plain, pat)) by {
        assert forall|i: int| 0 <= i < plain.len() implies #[trigger] mismatch_from(
            plain,
            pat,
            i,
        ) by {
            if i == 0 {
                assert(plain[i + 4] != pat[4]);
            } else {
                assert(plain[i + 0] != pat[0]);
            }
        }
    }
    lemma_replace_skips(plain, rest, pat, by);
}

/// Two queries in the same mode, answered with the same response, give the
/// same result: nothing is carried from one query to the next.
pub proof fn lemma_repeat_query(
    status: u16,
    extract_digest: bool,
    digest: Option<Seq<char>>,
    link: Option<Seq<char>>,
    body: Result<Seq<char>, Seq<char>>,
    first: Outcome,
    second: Outcome,
)
    requires
        first == call_outcome(status, extract_digest, digest, link, body),
        second == call_outcome(status, extract_digest, digest, link, body),
    ensures
        first == second,
{
}

} // verus!
