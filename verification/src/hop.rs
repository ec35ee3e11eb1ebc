//! The hop-by-hop header filter.
//!
//! Hop-by-hop headers describe one connection. A proxy keeps two independent
//! connections, so it relays none of them, in either direction. All other
//! headers pass through as they are: duplicates stay, and so does their order.

use vstd::prelude::*;

verus! {

/// One header line: its name, and its value as raw bytes.
#[derive(Clone, Debug, PartialEq, Eq)]
pub struct Header {
    pub name: String,
    pub value: Vec<u8>,
}

/// What a header is in contracts: the characters of its name, and its value.
pub type HeaderModel = (Seq<char>, Seq<u8>);

impl View for Header {
    type V = HeaderModel;

    open spec fn view(&self) -> HeaderModel {
        (self.name@, self.value@)
    }
}

impl DeepView for Header {
    type V = HeaderModel;

    open spec fn deep_view(&self) -> HeaderModel {
        self@
    }
}

impl Header {
    /// A header with the same name and value.
    pub fn duplicate(&self) -> (copy: Header)
        ensures
            copy@ == self@,
    {
        Header { name: self.name.clone(), value: self.value.clone() }
    }
}

/// `c`, or its lower-case form where `c` is one of the letters `A` to `Z`.
pub open spec fn ascii_lower(c: char) -> char {
    if 'A' <= c && c <= 'Z' {
        ((c as u32) + 32) as char
    } else {
        c
    }
}

/// Whether two strings are the same up to the case of the letters `a` to `z`.
/// No other character has a second form: the comparison knows no locale.
pub open spec fn eq_ignoring_ascii_case(a: Seq<char>, b: Seq<char>) -> bool {
    &&& a.len() == b.len()
    &&& forall|i: int| 0 <= i < a.len() ==> ascii_lower(#[trigger] a[i]) == ascii_lower(b[i])
}

/// Whether `name` is one of the eight hop-by-hop header names, in any case.
pub open spec fn is_hop_name(name: Seq<char>) -> bool {
    ||| eq_ignoring_ascii_case("Connection"@, name)
    ||| eq_ignoring_ascii_case("Keep-Alive"@, name)
    ||| eq_ignoring_ascii_case("Proxy-Authenticate"@, name)
    ||| eq_ignoring_ascii_case("Proxy-Authorization"@, name)
    ||| eq_ignoring_ascii_case("Te"@, name)
    ||| eq_ignoring_ascii_case("Trailers"@, name)
    ||| eq_ignoring_ascii_case("Transfer-Encoding"@, name)
    ||| eq_ignoring_ascii_case("Upgrade"@, name)
}

/// The headers that are relayed: those of `headers` whose name is no
/// hop-by-hop name, in the order in which they stand there.
pub open spec fn end_to_end(headers: Seq<HeaderModel>) -> Seq<HeaderModel>
    decreases headers.len(),
{
    if headers.len() == 0 {
        Seq::empty()
    } else if is_hop_name(headers.last().0) {
        end_to_end(headers.drop_last())
    } else {
        end_to_end(headers.drop_last()).push(headers.last())
    }
}

/// Compares `name` with `other` through `unicase::Ascii`.
///
/// Trusted: the comparison of an `Ascii` with a string, which is
/// `str::eq_ignore_ascii_case`, holds exactly of two strings of equal length
/// whose characters agree pairwise once the letters `A` to `Z` are lowered.
#[verifier::external_body]
fn ascii_eq(name: &str, other: &str) -> (same: bool)
    ensures
        same == eq_ignoring_ascii_case(name@, other@),
{
    unicase::Ascii::new(name) == other
}

/// Checks whether a header name is a hop-by-hop name.
pub fn is_hop_header(header_name: &str) -> (hop: bool)
    ensures
        hop == is_hop_name(header_name@),
{
    ascii_eq("Connection", header_name)
        || ascii_eq("Keep-Alive", header_name)
        || ascii_eq("Proxy-Authenticate", header_name)
        || ascii_eq("Proxy-Authorization", header_name)
        || ascii_eq("Te", header_name)
        || ascii_eq("Trailers", header_name)
        || ascii_eq("Transfer-Encoding", header_name)
        || ascii_eq("Upgrade", header_name)
}

/// Copies the headers that are relayed, leaving the hop-by-hop headers out.
pub fn remove_hop_headers(headers: &Vec<Header>) -> (kept: Vec<Header>)
    ensures
        kept.deep_view() == end_to_end(headers.deep_view()),
{
    let mut kept: Vec<Header> = Vec::new();
    let mut i: usize = 0;
    assert(headers.deep_view().take(0) =~= Seq::<HeaderModel>::empty());
    while i < headers.len()
        invariant
            i <= headers.len(),
            kept.deep_view() == end_to_end(headers.deep_view().take(i as int)),
        decreases headers.len() - i,
    {
        let ghost seen = headers.deep_view().take(i as int);
        let ghost next = headers.deep_view().take(i as int + 1);
        assert(next.drop_last() =~= seen);
        assert(next.last() == headers@[i as int]@);
        if !is_hop_header(headers[i].name.as_str()) {
            let copy = headers[i].duplicate();
            let ghost before = kept.deep_view();
            kept.push(copy);
            assert(kept.deep_view() =~= before.push(copy@));
        }
        i = i + 1;
    }
    assert(headers.deep_view().take(i as int) =~= headers.deep_view());
    kept
}

/// No relayed header has a hop-by-hop name, and each one is a header of the
/// input.
pub proof fn lemma_end_to_end_sound(headers: Seq<HeaderModel>)
    ensures
        forall|i: int|
            0 <= i < end_to_end(headers).len() ==> {
                &&& !is_hop_name((#[trigger] end_to_end(headers)[i]).0)
                &&& headers.contains(end_to_end(headers)[i])
            },
    decreases headers.len(),
{
    if headers.len() > 0 {
        let front = headers.drop_last();
        lemma_end_to_end_sound(front);
        assert forall|i: int| 0 <= i < end_to_end(headers).len() implies {
            &&& !is_hop_name((#[trigger] end_to_end(headers)[i]).0)
            &&& headers.contains(end_to_end(headers)[i])
        } by {
            if i < end_to_end(front).len() {
                let h = end_to_end(front)[i];
                assert(front.contains(h));
                let j = choose|j: int| 0 <= j < front.len() && front[j] == h;
                assert(headers[j] == h);
            } else {
                assert(headers[headers.len() - 1] == headers.last());
            }
        }
    }
}

/// Every header of the input whose name is no hop-by-hop name is relayed.
pub proof fn lemma_end_to_end_complete(headers: Seq<HeaderModel>)
    ensures
        forall|i: int|
            0 <= i < headers.len() && !is_hop_name((#[trigger] headers[i]).0)
                ==> end_to_end(headers).contains(headers[i]),
    decreases headers.len(),
{
    if headers.len() > 0 {
        let front = headers.drop_last();
        lemma_end_to_end_complete(front);
        assert forall|i: int|
            0 <= i < headers.len() && !is_hop_name((#[trigger] headers[i]).0) implies end_to_end(
            headers,
        ).contains(headers[i]) by {
            if i < front.len() {
                assert(front[i] == headers[i]);
                let j = choose|j: int|
                    0 <= j < end_to_end(front).len() && end_to_end(front)[j] == front[i];
                assert(end_to_end(headers)[j] == headers[i]);
            } else {
                assert(end_to_end(headers)[end_to_end(headers).len() - 1] == headers[i]);
            }
        }
    }
}

/// Filtering twice is filtering once.
pub proof fn lemma_end_to_end_idempotent(headers: Seq<HeaderModel>)
    ensures
        end_to_end(end_to_end(headers)) == end_to_end(headers),
    decreases headers.len(),
{
    if headers.len() > 0 {
        lemma_end_to_end_idempotent(headers.drop_last());
        let rest = end_to_end(headers.drop_last());
        if !is_hop_name(headers.last().0) {
            assert(rest.push(headers.last()).drop_last() =~= rest);
        }
    }
}

} // verus!
