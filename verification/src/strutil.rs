//! Small verified helpers over strings and their character-sequence views:
//! splitting at a separator, suffix after the last separator, prefix tests.

use vstd::prelude::*;

verus! {

/// The prefix of `s` up to (excluding) the first occurrence of `sep`,
/// or all of `s` if `sep` does not occur.
pub open spec fn take_until(s: Seq<char>, sep: char) -> Seq<char>
    decreases s.len(),
{
    if s.len() == 0 {
        s
    } else if s[0] == sep {
        Seq::empty()
    } else {
        seq![s[0]] + take_until(s.skip(1), sep)
    }
}

/// What follows the first occurrence of `sep` in `s`, or `None` if `sep`
/// does not occur in `s`.
pub open spec fn after_first(s: Seq<char>, sep: char) -> Option<Seq<char>>
    decreases s.len(),
{
    if s.len() == 0 {
        None
    } else if s[0] == sep {
        Some(s.skip(1))
    } else {
        after_first(s.skip(1), sep)
    }
}

/// The suffix of `s` after the last occurrence of `sep`, or all of `s` if
/// `sep` does not occur in `s`.
pub open spec fn after_last(s: Seq<char>, sep: char) -> Seq<char>
    decreases s.len(),
{
    if s.len() == 0 {
        s
    } else if s[s.len() - 1] == sep {
        Seq::empty()
    } else {
        after_last(s.take(s.len() - 1), sep) + seq![s[s.len() - 1]]
    }
}

/// What follows a first occurrence is shorter than the whole.
pub proof fn lemma_after_first_shorter(s: Seq<char>, sep: char)
    ensures
        after_first(s, sep) matches Some(rest) ==> rest.len() < s.len(),
    decreases s.len(),
{
    if s.len() > 0 && s[0] != sep {
        lemma_after_first_shorter(s.skip(1), sep);
    }
}

/// At the first occurrence of `sep`, `take_until` is the part before it and
/// `after_first` the part behind it.
pub proof fn lemma_split_at_first(s: Seq<char>, sep: char, i: int)
    requires
        0 <= i < s.len(),
        s[i] == sep,
        forall|j: int| 0 <= j < i ==> s[j] != sep,
    ensures
        take_until(s, sep) =~= s.subrange(0, i),
        after_first(s, sep) == Some(s.skip(i + 1)),
    decreases i,
{
    if i == 0 {
    } else {
        lemma_split_at_first(s.skip(1), sep, i - 1);
        assert(s.skip(1).subrange(0, i - 1) =~= s.subrange(1, i));
        assert(take_until(s, sep) =~= seq![s[0]] + s.subrange(1, i));
        assert(s.skip(1).skip(i) =~= s.skip(i + 1));
    }
}

/// Without an occurrence of `sep`, `take_until` is all of `s` and
/// `after_first` is `None`.
pub proof fn lemma_split_absent(s: Seq<char>, sep: char)
    requires
        forall|j: int| 0 <= j < s.len() ==> s[j] != sep,
    ensures
        take_until(s, sep) =~= s,
        after_first(s, sep) is None,
    decreases s.len(),
{
    if s.len() == 0 {
    } else {
        lemma_split_absent(s.skip(1), sep);
    }
}

/// At the last occurrence of `sep`, `after_last` is the part behind it.
pub proof fn lemma_after_last_at(s: Seq<char>, sep: char, i: int)
    requires
        0 <= i < s.len(),
        s[i] == sep,
        forall|j: int| i < j < s.len() ==> s[j] != sep,
    ensures
        after_last(s, sep) =~= s.skip(i + 1),
    decreases s.len(),
{
    if i == s.len() - 1 {
    } else {
        lemma_after_last_at(s.take(s.len() - 1), sep, i);
        assert(s.take(s.len() - 1).skip(i + 1) =~= s.subrange(i + 1, s.len() - 1));
        assert(s.subrange(i + 1, s.len() - 1) + seq![s[s.len() - 1]] =~= s.skip(i + 1));
    }
}

/// Without an occurrence of `sep`, `after_last` is all of `s`.
pub proof fn lemma_after_last_absent(s: Seq<char>, sep: char)
    requires
        forall|j: int| 0 <= j < s.len() ==> s[j] != sep,
    ensures
        after_last(s, sep) =~= s,
    decreases s.len(),
{
    if s.len() == 0 {
    } else {
        lemma_after_last_absent(s.take(s.len() - 1), sep);
    }
}

/// The index of the first occurrence of `sep` in `s`, if any.
pub fn find_char(s: &str, sep: char) -> (r: Option<usize>)
    ensures
        match r {
            Some(i) => {
                &&& i < s@.len()
                &&& s@[i as int] == sep
                &&& forall|j: int| 0 <= j < i ==> s@[j] != sep
            },
            None => forall|j: int| 0 <= j < s@.len() ==> s@[j] != sep,
        },
{
    let n = s.unicode_len();
    let mut i: usize = 0;
    while i < n
        invariant
            i <= n,
            n == s@.len(),
            forall|j: int| 0 <= j < i ==> s@[j] != sep,
        decreases n - i,
    {
        if s.get_char(i) == sep {
            return Some(i);
        }
        i = i + 1;
    }
    None
}

/// The index of the last occurrence of `sep` in `s`, if any.
pub fn rfind_char(s: &str, sep: char) -> (r: Option<usize>)
    ensures
        match r {
            Some(i) => {
                &&& i < s@.len()
                &&& s@[i as int] == sep
                &&& forall|j: int| i < j < s@.len() ==> s@[j] != sep
            },
            None => forall|j: int| 0 <= j < s@.len() ==> s@[j] != sep,
        },
{
    let n = s.unicode_len();
    let mut i: usize = n;
    while i > 0
        invariant
            i <= n,
            n == s@.len(),
            forall|j: int| i <= j < s@.len() ==> s@[j] != sep,
        decreases i,
    {
        i = i - 1;
        if s.get_char(i) == sep {
            return Some(i);
        }
    }
    None
}

/// Whether two string slices hold the same characters.
pub fn str_eq(a: &str, b: &str) -> (r: bool)
    ensures
        r == (a@ == b@),
{
    let sa = a.to_owned();
    let sb = b.to_owned();
    sa == sb
}

/// Whether `prefix` is a prefix of `s`.
pub fn str_starts_with(s: &str, prefix: &str) -> (r: bool)
    ensures
        r == prefix@.is_prefix_of(s@),
{
    let n = s.unicode_len();
    let p = prefix.unicode_len();
    if p > n {
        false
    } else {
        let head = s.substring_char(0, p);
        str_eq(head, prefix)
    }
}

} // verus!
