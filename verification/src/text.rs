//! Text as sequences of characters: prefixes, occurrences and the cuts made at them.

use vstd::prelude::*;

verus! {

/// The texts that a sequence of strings holds, in order.
pub open spec fn texts(v: Seq<String>) -> Seq<Seq<char>> {
    v.map_values(|s: String| s@)
}

/// The texts of a sequence that grew by one string are the former texts and the
/// text of that string.
pub proof fn lemma_texts_push(v: Seq<String>, s: String)
    ensures
        texts(v.push(s)) == texts(v).push(s@),
{
    assert(texts(v.push(s)) =~= texts(v).push(s@));
}

/// Whether `pat` stands in `s` at position `at`.
pub open spec fn occurs_at(s: Seq<char>, pat: Seq<char>, at: int) -> bool {
    &&& 0 <= at
    &&& at + pat.len() <= s.len()
    &&& s.subrange(at, at + pat.len()) == pat
}

/// Whether `s` begins with `pat`.
pub open spec fn has_prefix(s: Seq<char>, pat: Seq<char>) -> bool {
    occurs_at(s, pat, 0)
}

/// Whether `pat` stands somewhere in `s`.
pub open spec fn has_occurrence(s: Seq<char>, pat: Seq<char>) -> bool {
    exists|at: int| occurs_at(s, pat, at)
}

/// Whether `at` is the first position at which `pat` stands in `s`.
pub open spec fn first_occurrence(s: Seq<char>, pat: Seq<char>, at: int) -> bool {
    &&& occurs_at(s, pat, at)
    &&& forall|k: int| 0 <= k < at ==> !occurs_at(s, pat, k)
}

/// The characters of a string, in order.
pub fn chars_of(s: &str) -> (r: Vec<char>)
    ensures
        r@ == s@,
{
    let mut out: Vec<char> = Vec::new();
    for c in it: s.chars()
        invariant
            it.seq() == s@,
            out@ == s@.take(it.index() as int),
    {
        out.push(c);
        assert(s@.take(it.index() + 1) =~= s@.take(it.index() as int).push(c));
    }
    assert(s@.take(s@.len() as int) =~= s@);
    out
}

/// Whether `pat` stands in `s` at position `at`.
pub fn matches_at(s: &Vec<char>, pat: &Vec<char>, at: usize) -> (r: bool)
    ensures
        r == occurs_at(s@, pat@, at as int),
{
    if pat.len() > s.len() || at > s.len() - pat.len() {
        return false;
    }
    let mut i: usize = 0;
    while i < pat.len()
        invariant
            at + pat.len() <= s.len(),
            i <= pat.len(),
            forall|k: int| 0 <= k < i ==> s@[at + k] == pat@[k],
        decreases pat.len() - i,
    {
        if s[at + i] != pat[i] {
            assert(s@.subrange(at as int, at + pat.len())[i as int] == s@[at + i]);
            return false;
        }
        i += 1;
    }
    assert(s@.subrange(at as int, at + pat.len()) =~= pat@);
    true
}

/// The first position at which `pat` stands in `s`, if it stands there at all.
pub fn find_first(s: &Vec<char>, pat: &Vec<char>) -> (r: Option<usize>)
    ensures
        match r {
            Some(at) => first_occurrence(s@, pat@, at as int),
            None => !has_occurrence(s@, pat@),
        },
{
    if pat.len() > s.len() {
        return None;
    }
    let last: usize = s.len() - pat.len();
    let mut at: usize = 0;
    loop
        invariant
            last == s.len() - pat.len(),
            pat.len() <= s.len(),
            at <= last,
            forall|k: int| 0 <= k < at ==> !occurs_at(s@, pat@, k),
        decreases last - at,
    {
        if matches_at(s, pat, at) {
            return Some(at);
        }
        if at == last {
            return None;
        }
        at += 1;
    }
}

/// Whether `s` begins with `pat`.
pub fn starts_with(s: &str, pat: &str) -> (r: bool)
    ensures
        r == has_prefix(s@, pat@),
{
    let sc = chars_of(s);
    let pc = chars_of(pat);
    matches_at(&sc, &pc, 0)
}

/// Whether `pat` stands somewhere in `s`.
pub fn contains(s: &str, pat: &str) -> (r: bool)
    ensures
        r == has_occurrence(s@, pat@),
{
    let sc = chars_of(s);
    let pc = chars_of(pat);
    find_first(&sc, &pc).is_some()
}

/// The part of `s` from position `from` up to, not including, position `to`.
pub fn slice_of(s: &str, from: usize, to: usize) -> (r: String)
    requires
        from <= to <= s@.len(),
    ensures
        r@ == s@.subrange(from as int, to as int),
{
    s.substring_char(from, to).to_owned()
}

/// What stands before and after the first occurrence of `pat` in `s`, or `None`
/// when `pat` does not occur.
pub fn split_once(s: &str, pat: &str) -> (r: Option<(String, String)>)
    ensures
        r.is_some() == has_occurrence(s@, pat@),
        match r {
            Some((before, after)) => {
                &&& first_occurrence(s@, pat@, before@.len() as int)
                &&& before@ == s@.subrange(0, before@.len() as int)
                &&& after@ == s@.subrange((before@.len() + pat@.len()) as int, s@.len() as int)
            },
            None => true,
        },
{
    let sc = chars_of(s);
    let pc = chars_of(pat);
    match find_first(&sc, &pc) {
        Some(at) => {
            let total: usize = sc.len();
            let width: usize = pc.len();
            assert(occurs_at(sc@, pc@, at as int));
            let before = slice_of(s, 0, at);
            let after = slice_of(s, at + width, total);
            Some((before, after))
        },
        None => None,
    }
}

/// `s` without the copies of `pat` that it begins with, one after another.
pub open spec fn without_leading(s: Seq<char>, pat: Seq<char>) -> Seq<char>
    decreases s.len(),
{
    if pat.len() > 0 && has_prefix(s, pat) {
        without_leading(s.subrange(pat.len() as int, s.len() as int), pat)
    } else {
        s
    }
}

/// `s` without the copies of `pat` that it begins with, one after another.
pub fn trim_start_matches(s: &str, pat: &str) -> (r: String)
    ensures
        r@ == without_leading(s@, pat@),
{
    let sc = chars_of(s);
    let pc = chars_of(pat);
    let mut at: usize = 0;
    assert(s@.subrange(0, s@.len() as int) =~= s@);
    if pc.len() > 0 {
        while matches_at(&sc, &pc, at)
            invariant
                sc@ == s@,
                pc@ == pat@,
                pc.len() > 0,
                at <= sc.len(),
                without_leading(s@, pat@) == without_leading(
                    s@.subrange(at as int, s@.len() as int),
                    pat@,
                ),
            decreases sc.len() - at,
        {
            proof {
                let rest = s@.subrange(at as int, s@.len() as int);
                assert(rest.subrange(0, pat@.len() as int) =~= s@.subrange(
                    at as int,
                    at + pat@.len(),
                ));
                assert(rest.subrange(pat@.len() as int, rest.len() as int) =~= s@.subrange(
                    at + pat@.len(),
                    s@.len() as int,
                ));
            }
            at += pc.len();
        }
        proof {
            let rest = s@.subrange(at as int, s@.len() as int);
            if at + pat@.len() <= s@.len() {
                assert(rest.subrange(0, pat@.len() as int) =~= s@.subrange(
                    at as int,
                    at + pat@.len(),
                ));
            }
        }
    }
    slice_of(s, at, sc.len())
}

/// A string with the text of `a` followed by the text of `b`.
pub fn joined(a: &str, b: &str) -> (r: String)
    ensures
        r@ == a@ + b@,
{
    let mut out = a.to_owned();
    out.append(b);
    out
}

/// Whether two strings hold the same text.
pub fn same_text(a: &str, b: &str) -> (r: bool)
    ensures
        r == (a@ == b@),
{
    let ac = chars_of(a);
    let bc = chars_of(b);
    if ac.len() != bc.len() {
        return false;
    }
    let r = matches_at(&ac, &bc, 0);
    assert(a@.subrange(0, a@.len() as int) =~= a@);
    r
}

/// Whether one of the strings of `list` holds the text of `s`.
pub fn list_contains(list: &Vec<String>, s: &str) -> (r: bool)
    ensures
        r == texts(list@).contains(s@),
{
    let mut i: usize = 0;
    while i < list.len()
        invariant
            i <= list.len(),
            forall|k: int| 0 <= k < i ==> texts(list@)[k] != s@,
        decreases list.len() - i,
    {
        if same_text(list[i].as_str(), s) {
            assert(texts(list@)[i as int] == s@);
            return true;
        }
        i += 1;
    }
    false
}

/// A copy of each string of `list`, in order.
pub fn clone_list(list: &Vec<String>) -> (r: Vec<String>)
    ensures
        texts(r@) == texts(list@),
{
    let mut out: Vec<String> = Vec::new();
    let mut i: usize = 0;
    while i < list.len()
        invariant
            i <= list.len(),
            texts(out@) == texts(list@).take(i as int),
        decreases list.len() - i,
    {
        proof {
            lemma_texts_push(out@, list@[i as int]);
        }
        out.push(list[i].clone());
        assert(texts(list@).take(i + 1) =~= texts(list@).take(i as int).push(list@[i as int]@));
        i += 1;
    }
    assert(texts(list@).take(list@.len() as int) =~= texts(list@));
    out
}

/// `line` without the carriage return that it ends with, if it ends with one.
pub open spec fn without_cr(line: Seq<char>) -> Seq<char> {
    if line.len() > 0 && line.last() == '\r' {
        line.drop_last()
    } else {
        line
    }
}

/// The lines of `s` from position `start` on, where the text up to position
/// `at` is known to hold no line feed after `start`.
pub open spec fn lines_from(s: Seq<char>, start: int, at: int) -> Seq<Seq<char>>
    decreases s.len() - at,
{
    if at >= s.len() {
        if start < s.len() {
            seq![s.subrange(start, s.len() as int)]
        } else {
            Seq::empty()
        }
    } else if s[at] == '\n' {
        seq![without_cr(s.subrange(start, at))] + lines_from(s, at + 1, at + 1)
    } else {
        lines_from(s, start, at + 1)
    }
}

/// The lines of `s`. A line ends with a line feed, or with a carriage return
/// and a line feed, neither of which belongs to it; what follows the last line
/// feed is a line as it stands, unless nothing follows.
pub open spec fn lines_of(s: Seq<char>) -> Seq<Seq<char>> {
    lines_from(s, 0, 0)
}

/// The lines of `s`.
pub fn lines(s: &str) -> (r: Vec<String>)
    ensures
        texts(r@) == lines_of(s@),
{
    let chars = chars_of(s);
    let mut out: Vec<String> = Vec::new();
    let mut start: usize = 0;
    let mut at: usize = 0;
    assert(texts(out@) + lines_from(s@, 0, 0) =~= lines_of(s@));
    while at < chars.len()
        invariant
            chars@ == s@,
            start <= at <= chars.len(),
            texts(out@) + lines_from(s@, start as int, at as int) == lines_of(s@),
        decreases chars.len() - at,
    {
        if chars[at] == '\n' {
            let end = if at > start && chars[at - 1] == '\r' {
                at - 1
            } else {
                at
            };
            let line = slice_of(s, start, end);
            proof {
                let whole = s@.subrange(start as int, at as int);
                if at > start {
                    assert(whole.last() == s@[at - 1]);
                }
                assert(line@ =~= without_cr(whole));
                lemma_texts_push(out@, line);
                assert((texts(out@) + seq![line@]) + lines_from(s@, at + 1, at + 1) =~= texts(out@)
                    + (seq![line@] + lines_from(s@, at + 1, at + 1)));
                assert(texts(out@).push(line@) =~= texts(out@) + seq![line@]);
            }
            out.push(line);
            start = at + 1;
        }
        at += 1;
    }
    if start < chars.len() {
        let line = slice_of(s, start, chars.len());
        proof {
            lemma_texts_push(out@, line);
            assert(texts(out@).push(line@) =~= texts(out@) + seq![line@]);
        }
        out.push(line);
    } else {
        assert(texts(out@) + Seq::<Seq<char>>::empty() =~= texts(out@));
    }
    out
}

} // verus!
