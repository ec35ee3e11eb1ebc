//! Character-level helpers on strings: the sequences that the rewriting rules
//! are stated over, and the scans that compute them.

use vstd::prelude::*;

verus! {

/// `s` without its leading run of `c`.
pub open spec fn trim_leading(s: Seq<char>, c: char) -> Seq<char>
    decreases s.len(),
{
    if s.len() > 0 && s[0] == c {
        trim_leading(s.drop_first(), c)
    } else {
        s
    }
}

/// `s` without its trailing run of `c`.
pub open spec fn trim_trailing(s: Seq<char>, c: char) -> Seq<char>
    decreases s.len(),
{
    if s.len() > 0 && s.last() == c {
        trim_trailing(s.drop_last(), c)
    } else {
        s
    }
}

/// `s` with `prefix` taken off its start once, where it starts with it;
/// otherwise `s` itself.
pub open spec fn without_prefix(s: Seq<char>, prefix: Seq<char>) -> Seq<char> {
    if prefix.is_prefix_of(s) {
        s.skip(prefix.len() as int)
    } else {
        s
    }
}

/// The characters of `s`, in order.
pub fn chars_of(s: &str) -> (chars: Vec<char>)
    ensures
        chars@ == s@,
{
    let mut chars: Vec<char> = Vec::new();
    for c in it: s.chars()
        invariant
            it.seq() == s@,
            chars@ == s@.take(it.index() as int),
    {
        chars.push(c);
    }
    chars
}

/// The index just behind the run of `c` that starts at `from`. An index
/// behind the end of `chars` is handed back as it is.
pub fn skip_run(chars: &Vec<char>, from: usize, c: char) -> (at: usize)
    ensures
        from <= at,
        from <= chars.len() ==> at <= chars.len(),
        from <= chars.len() ==> chars@.skip(at as int) == trim_leading(chars@.skip(from as int), c),
        from > chars.len() ==> at == from,
{
    if from > chars.len() {
        return from;
    }
    let mut at: usize = from;
    while at < chars.len() && chars[at] == c
        invariant
            from <= at <= chars.len(),
            trim_leading(chars@.skip(at as int), c) == trim_leading(chars@.skip(from as int), c),
        decreases chars.len() - at,
    {
        assert(chars@.skip(at as int).drop_first() =~= chars@.skip(at as int + 1));
        at = at + 1;
    }
    at
}

/// The length of `chars` without its trailing run of `c`.
pub fn trimmed_len(chars: &Vec<char>, c: char) -> (len: usize)
    ensures
        len <= chars.len(),
        chars@.take(len as int) == trim_trailing(chars@, c),
{
    let mut len: usize = chars.len();
    assert(chars@.take(len as int) =~= chars@);
    while len > 0 && chars[len - 1] == c
        invariant
            len <= chars.len(),
            trim_trailing(chars@.take(len as int), c) == trim_trailing(chars@, c),
        decreases len,
    {
        assert(chars@.take(len as int).drop_last() =~= chars@.take(len as int - 1));
        len = len - 1;
    }
    len
}

/// Whether `chars` begins with `prefix`.
pub fn starts_with(chars: &Vec<char>, prefix: &Vec<char>) -> (yes: bool)
    ensures
        yes == prefix@.is_prefix_of(chars@),
{
    if prefix.len() > chars.len() {
        return false;
    }
    let mut i: usize = 0;
    while i < prefix.len()
        invariant
            i <= prefix.len() <= chars.len(),
            forall|j: int| 0 <= j < i ==> prefix@[j] == chars@[j],
        decreases prefix.len() - i,
    {
        if prefix[i] != chars[i] {
            assert(chars@.subrange(0, prefix@.len() as int)[i as int] == chars@[i as int]);
            return false;
        }
        i = i + 1;
    }
    true
}

/// What `trim_leading` leaves is the end of `s`: it takes off nothing but
/// `c`, and what is left does not start with `c`.
pub proof fn lemma_trim_leading(s: Seq<char>, c: char)
    ensures
        trim_leading(s, c).len() <= s.len(),
        trim_leading(s, c) == s.skip(s.len() - trim_leading(s, c).len()),
        forall|i: int| 0 <= i < s.len() - trim_leading(s, c).len() ==> s[i] == c,
        trim_leading(s, c).len() > 0 ==> trim_leading(s, c)[0] != c,
    decreases s.len(),
{
    if s.len() > 0 && s[0] == c {
        let rest = s.drop_first();
        lemma_trim_leading(rest, c);
        let cut = rest.len() - trim_leading(rest, c).len();
        assert(rest.skip(cut) =~= s.skip(cut + 1));
        assert forall|i: int| 0 <= i < cut + 1 implies s[i] == c by {
            if i > 0 {
                assert(rest[i - 1] == s[i]);
            }
        }
    } else {
        assert(s.skip(0) =~= s);
    }
}

/// What `trim_trailing` leaves is the start of `s`: it takes off nothing but
/// `c`, and what is left does not end in `c`.
pub proof fn lemma_trim_trailing(s: Seq<char>, c: char)
    ensures
        trim_trailing(s, c).len() <= s.len(),
        trim_trailing(s, c) == s.take(trim_trailing(s, c).len() as int),
        forall|i: int| trim_trailing(s, c).len() <= i < s.len() ==> s[i] == c,
        trim_trailing(s, c).len() > 0 ==> trim_trailing(s, c).last() != c,
    decreases s.len(),
{
    if s.len() > 0 && s.last() == c {
        let rest = s.drop_last();
        lemma_trim_trailing(rest, c);
        let kept = trim_trailing(rest, c).len() as int;
        assert(rest.take(kept) =~= s.take(kept));
        assert forall|i: int| kept <= i < s.len() implies s[i] == c by {
            if i < rest.len() {
                assert(rest[i] == s[i]);
            }
        }
    } else {
        assert(s.take(s.len() as int) =~= s);
    }
}

} // verus!
