//! String helpers used by the URL classifier, with contracts over the
//! character views of the strings involved.

use vstd::prelude::*;

verus! {

/// Equality test on string slices, specified over their character views.
pub fn str_eq(a: &str, b: &str) -> (r: bool)
    ensures
        r == (a@ == b@),
{
    let a_owned = a.to_owned();
    let b_owned = b.to_owned();
    a_owned == b_owned
}

/// The characters of `prefix` followed by the characters of `rest`.
pub open spec fn with_prefix(prefix: Seq<char>, rest: Seq<char>) -> Seq<char> {
    prefix + rest
}

/// Strips `prefix` from the front of `s`, if `s` begins with it.
pub fn str_strip_prefix<'a>(s: &'a str, prefix: &str) -> (r: Option<&'a str>)
    ensures
        match r {
            Some(rest) => s@ == with_prefix(prefix@, rest@),
            None => !prefix@.is_prefix_of(s@),
        },
{
    let n = prefix.unicode_len();
    let m = s.unicode_len();
    if n > m {
        return None;
    }
    let head = s.substring_char(0, n);
    if str_eq(head, prefix) {
        let rest = s.substring_char(n, m);
        proof {
            assert(s@ == with_prefix(prefix@, rest@)) by {
                assert(prefix@ + rest@ =~= s@);
            }
        }
        Some(rest)
    } else {
        proof {
            if prefix@.is_prefix_of(s@) {
                assert(head@ =~= prefix@);
            }
        }
        None
    }
}

/// The segments joined with a single `/` between consecutive segments.
pub open spec fn join_slash(segs: Seq<Seq<char>>) -> Seq<char>
    decreases segs.len(),
{
    if segs.len() == 0 {
        Seq::empty()
    } else if segs.len() == 1 {
        segs[0]
    } else {
        segs[0] + seq!['/'] + join_slash(segs.skip(1))
    }
}

proof fn lemma_join_slash_push(segs: Seq<Seq<char>>, last: Seq<char>)
    ensures
        join_slash(segs.push(last)) == if segs.len() == 0 {
            last
        } else {
            join_slash(segs) + seq!['/'] + last
        },
    decreases segs.len(),
{
    if segs.len() == 0 {
        assert(segs.push(last).len() == 1);
        assert(segs.push(last)[0] == last);
    } else if segs.len() == 1 {
        let pushed = segs.push(last);
        assert(pushed.skip(1) =~= seq![last]);
        assert(join_slash(seq![last]) == last);
        assert(join_slash(pushed) == pushed[0] + seq!['/'] + join_slash(pushed.skip(1)));
        assert(pushed[0] == segs[0]);
        assert(join_slash(segs) == segs[0]);
    } else {
        lemma_join_slash_push(segs.skip(1), last);
        assert(segs.push(last).skip(1) =~= segs.skip(1).push(last));
        assert(join_slash(segs) + seq!['/'] + last =~= segs[0] + seq!['/'] + (join_slash(
            segs.skip(1),
        ) + seq!['/'] + last));
    }
}

/// Joins the given segments with `/` separators, starting at index `from`.
pub fn join_segments(segs: &Vec<String>, from: usize) -> (r: String)
    requires
        from <= segs@.len(),
    ensures
        r@ == join_slash(segs.deep_view().skip(from as int)),
{
    let ghost all = segs.deep_view().skip(from as int);
    let mut acc = String::new();
    let mut i: usize = from;
    while i < segs.len()
        invariant
            from <= i <= segs@.len(),
            all == segs.deep_view().skip(from as int),
            segs.deep_view().len() == segs@.len(),
            acc@ == join_slash(segs.deep_view().subrange(from as int, i as int)),
        decreases segs@.len() - i,
    {
        if i > from {
            acc.append("/");
        }
        acc.append(segs[i].as_str());
        proof {
            let prev = segs.deep_view().subrange(from as int, i as int);
            let cur = segs.deep_view().subrange(from as int, i + 1);
            assert(cur =~= prev.push(segs.deep_view()[i as int]));
            lemma_join_slash_push(prev, segs.deep_view()[i as int]);
            reveal_strlit("/");
            assert(acc@ =~= join_slash(cur));
        }
        i = i + 1;
    }
    proof {
        assert(segs.deep_view().subrange(from as int, segs@.len() as int) =~= all);
    }
    acc
}

/// Two character sequences of different lengths differ.
pub proof fn seq_ne_by_len(a: Seq<char>, b: Seq<char>)
    requires
        a.len() != b.len(),
    ensures
        a != b,
{
}

/// Two character sequences that differ at an index differ.
pub proof fn seq_ne_at(a: Seq<char>, b: Seq<char>, i: int)
    requires
        0 <= i < a.len(),
        0 <= i < b.len(),
        a[i] != b[i],
    ensures
        a != b,
{
}

/// A sequence is a prefix of itself followed by anything, and stripping
/// it leaves exactly the rest.
pub proof fn lemma_prefix_of_concat(p: Seq<char>, rest: Seq<char>)
    ensures
        p.is_prefix_of(p + rest),
        (p + rest).skip(p.len() as int) == rest,
{
    assert(p =~= (p + rest).subrange(0, p.len() as int));
    assert((p + rest).skip(p.len() as int) =~= rest);
}

/// A sequence that differs from the head of `s` at some index is not a
/// prefix of `s`.
pub proof fn lemma_not_prefix_at(p: Seq<char>, s: Seq<char>, i: int)
    requires
        0 <= i < p.len(),
        i < s.len(),
        p[i] != s[i],
    ensures
        !p.is_prefix_of(s),
{
    if p.is_prefix_of(s) {
        assert(p[i] == s.subrange(0, p.len() as int)[i]);
    }
}

/// The first position at or after `from` where `c` occurs in `s`.
pub open spec fn find_char_from(s: Seq<char>, from: int, c: char) -> Option<int>
    decreases s.len() - from,
{
    if from < 0 || from >= s.len() {
        None
    } else if s[from] == c {
        Some(from)
    } else {
        find_char_from(s, from + 1, c)
    }
}

/// The first occurrence is the one before which the character is absent.
pub proof fn lemma_find_char_first(s: Seq<char>, from: int, c: char, j: int)
    requires
        0 <= from <= j < s.len(),
        s[j] == c,
        forall|k: int| from <= k < j ==> s[k] != c,
    ensures
        find_char_from(s, from, c) == Some(j),
    decreases j - from,
{
    if from < j {
        lemma_find_char_first(s, from + 1, c, j);
    }
}

/// The value of the first pair in `q` whose key is `key`, if any.
pub open spec fn first_value_for(q: Seq<(Seq<char>, Seq<char>)>, key: Seq<char>) -> Option<
    Seq<char>,
>
    decreases q.len(),
{
    if q.len() == 0 {
        None
    } else if q[0].0 == key {
        Some(q[0].1)
    } else {
        first_value_for(q.skip(1), key)
    }
}

/// Finds the value of the first pair whose key equals `key`.
pub fn find_first_value(pairs: &Vec<(String, String)>, key: &str) -> (r: Option<String>)
    ensures
        match r {
            Some(v) => first_value_for(pairs.deep_view(), key@) == Some(v@),
            None => first_value_for(pairs.deep_view(), key@) is None,
        },
{
    let ghost all = pairs.deep_view();
    proof {
        assert(all.skip(0) =~= all);
    }
    let mut i: usize = 0;
    while i < pairs.len()
        invariant
            i <= pairs@.len(),
            all == pairs.deep_view(),
            all.len() == pairs@.len(),
            first_value_for(all, key@) == first_value_for(all.skip(i as int), key@),
        decreases pairs@.len() - i,
    {
        proof {
            assert(all.skip(i as int).len() == all.len() - i);
            assert(all.skip(i as int)[0] == all[i as int]);
            assert(all.skip(i as int).skip(1) =~= all.skip(i + 1));
        }
        if str_eq(pairs[i].0.as_str(), key) {
            let v = pairs[i].1.clone();
            return Some(v);
        }
        i = i + 1;
    }
    proof {
        assert(all.skip(i as int).len() == 0);
    }
    None
}

} // verus!
