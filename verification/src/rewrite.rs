//! The path rewriter: from the route's base path, the inbound path and the
//! upstream's address to the URL of the outbound request.
//!
//! The mapping is one to one. What follows the base path in the inbound path
//! is what follows the upstream's address in the outbound URL, with exactly one
//! slash between the two. The trim is best effort: an inbound path that does
//! not start with the base path is still forwarded, with only its leading
//! slashes taken off.

use vstd::prelude::*;
use vstd::string::StrSliceExecFns;
use vstd::string::StringExecFns;
use crate::message::option_view;
use crate::text::{
    chars_of,
    lemma_trim_leading,
    lemma_trim_trailing,
    skip_run,
    starts_with,
    trim_leading,
    trim_trailing,
    trimmed_len,
    without_prefix,
};

verus! {

/// The base path as it is matched against inbound paths: with a leading slash
/// put before it, where it is not empty and has none.
pub open spec fn normalized_base(base_path: Seq<char>) -> Seq<char> {
    if base_path.len() > 0 && base_path[0] != '/' {
        seq!['/'] + base_path
    } else {
        base_path
    }
}

/// The part of the inbound path that is forwarded: the path without the base
/// path at its start, and without the slashes that then lead it.
pub open spec fn relative_path(base_path: Seq<char>, path: Seq<char>) -> Seq<char> {
    trim_leading(without_prefix(path, normalized_base(base_path)), '/')
}

/// The outbound URL: the upstream's address without trailing slashes, one
/// slash, and the relative path.
pub open spec fn resolved_url(base_path: Seq<char>, path: Seq<char>, upstream: Seq<char>) -> Seq<
    char,
> {
    trim_trailing(upstream, '/') + seq!['/'] + relative_path(base_path, path)
}

/// `url` followed by `?` and the query, where there is one.
pub open spec fn with_query(url: Seq<char>, query: Option<Seq<char>>) -> Seq<char> {
    match query {
        Some(q) => url + seq!['?'] + q,
        None => url,
    }
}

/// The characters of the base path as it is matched: see [`normalized_base`].
pub fn normalize_base(base_path: &str) -> (chars: Vec<char>)
    ensures
        chars@ == normalized_base(base_path@),
{
    let base = chars_of(base_path);
    if base.len() > 0 && base[0] != '/' {
        let mut chars: Vec<char> = Vec::new();
        chars.push('/');
        let mut i: usize = 0;
        while i < base.len()
            invariant
                i <= base.len(),
                chars@ == seq!['/'] + base@.take(i as int),
            decreases base.len() - i,
        {
            assert(base@.take(i as int + 1) =~= base@.take(i as int).push(base@[i as int]));
            chars.push(base[i]);
            i = i + 1;
        }
        assert(base@.take(i as int) =~= base@);
        chars
    } else {
        base
    }
}

/// Computes the URL that a request for `uri` is forwarded to, for a route
/// mounted at `base_path` in front of the upstream at `proxy_address`.
pub fn remove_relative_path(uri: &str, base_path: String, proxy_address: String) -> (url: String)
    ensures
        url@ == resolved_url(base_path@, uri@, proxy_address@),
{
    let path = chars_of(uri);
    let base = normalize_base(base_path.as_str());
    let matched: usize = if starts_with(&path, &base) {
        base.len()
    } else {
        0
    };
    assert(path@.skip(matched as int) == without_prefix(uri@, normalized_base(base_path@))) by {
        assert(path@.skip(0) =~= path@);
    }
    let start = skip_run(&path, matched, '/');
    let upstream = chars_of(proxy_address.as_str());
    let end = trimmed_len(&upstream, '/');

    let mut url = String::from_str(proxy_address.as_str().substring_char(0, end));
    url.append("/");
    url.append(uri.substring_char(start, path.len()));
    proof {
        reveal_strlit("/");
        assert("/"@ =~= seq!['/']);
        assert(proxy_address@.subrange(0, end as int) =~= upstream@.take(end as int));
        assert(uri@.subrange(start as int, path.len() as int) =~= path@.skip(start as int));
    }
    url
}

/// Appends the captured query to a resolved URL: see [`with_query`].
pub fn append_query(url: String, query: &Option<String>) -> (full: String)
    ensures
        full@ == with_query(url@, option_view(*query)),
{
    match query {
        Some(q) => {
            let mut full = url;
            full.append("?");
            full.append(q.as_str());
            proof {
                reveal_strlit("?");
                assert("?"@ =~= seq!['?']);
            }
            full
        },
        None => url,
    }
}

/// Exactly one slash separates the two parts of a resolved URL: the part
/// before it is the start of the upstream's address and does not end in a
/// slash, and the part behind it is the end of the inbound path and does not
/// start with one.
pub proof fn lemma_one_separator(base_path: Seq<char>, path: Seq<char>, upstream: Seq<char>)
    ensures
        ({
            let head = trim_trailing(upstream, '/');
            let tail = relative_path(base_path, path);
            &&& resolved_url(base_path, path, upstream) == head + seq!['/'] + tail
            &&& head.is_prefix_of(upstream)
            &&& head.len() > 0 ==> head.last() != '/'
            &&& tail.is_suffix_of(path)
            &&& tail.len() > 0 ==> tail[0] != '/'
        }),
{
    let head = trim_trailing(upstream, '/');
    let tail = relative_path(base_path, path);
    let rest = without_prefix(path, normalized_base(base_path));
    lemma_trim_trailing(upstream, '/');
    lemma_trim_leading(rest, '/');
    assert(head =~= upstream.subrange(0, head.len() as int));
    let cut = path.len() - tail.len();
    assert(tail =~= path.subrange(cut, path.len() as int)) by {
        if normalized_base(base_path).is_prefix_of(path) {
            assert(rest == path.skip(normalized_base(base_path).len() as int));
        }
    }
}

/// Nothing that follows the base path is lost: where the inbound path is the
/// base path and a rest, the rest is forwarded, without the slashes that lead
/// it.
pub proof fn lemma_rest_is_forwarded(base_path: Seq<char>, rest: Seq<char>)
    ensures
        relative_path(base_path, normalized_base(base_path) + rest) == trim_leading(rest, '/'),
{
    let base = normalized_base(base_path);
    let path = base + rest;
    assert(path.subrange(0, base.len() as int) =~= base);
    assert(path.skip(base.len() as int) =~= rest);
}

/// A route without a base path forwards the whole inbound path, without its
/// leading slashes.
pub proof fn lemma_empty_base(path: Seq<char>)
    ensures
        relative_path(Seq::<char>::empty(), path) == trim_leading(path, '/'),
{
    lemma_rest_is_forwarded(Seq::<char>::empty(), path);
    assert(Seq::<char>::empty() + path =~= path);
}

} // verus!
