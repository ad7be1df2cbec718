//! Separator-splitting of character sequences.
//!
//! The durable log is plain delimited text: lines separated by `'\n'`,
//! fields separated by `','`, with no escaping (no produced field value can
//! contain a separator). Splitting is therefore the whole grammar, stated
//! once as `split_on` and implemented by `split_str`.

use vstd::prelude::*;
use vstd::string::StrSliceExecFns;
use vstd::string::StringExecFns;

verus! {

/// The segments of `s` between occurrences of `sep`. There is always at
/// least one segment; `n` separators yield `n + 1` segments, empty ones
/// included.
pub open spec fn split_on(s: Seq<char>, sep: char) -> Seq<Seq<char>>
    decreases s.len(),
{
    if s.len() == 0 {
        seq![Seq::<char>::empty()]
    } else if s.last() == sep {
        split_on(s.drop_last(), sep).push(Seq::<char>::empty())
    } else {
        let p = split_on(s.drop_last(), sep);
        p.update(p.len() - 1, p.last().push(s.last()))
    }
}

/// Splitting never yields an empty list of segments.
pub proof fn lemma_split_on_len(s: Seq<char>, sep: char)
    ensures
        split_on(s, sep).len() >= 1,
    decreases s.len(),
{
    if s.len() == 0 {
    } else {
        lemma_split_on_len(s.drop_last(), sep);
    }
}

/// A sequence free of the separator splits to exactly itself.
pub proof fn lemma_split_on_clean(s: Seq<char>, sep: char)
    requires
        forall|i: int| 0 <= i < s.len() ==> s[i] != sep,
    ensures
        split_on(s, sep) =~~= seq![s],
    decreases s.len(),
{
    if s.len() == 0 {
        assert(split_on(s, sep) =~~= seq![s]);
    } else {
        lemma_split_on_clean(s.drop_last(), sep);
        assert(s.drop_last().push(s.last()) =~= s);
    }
}

/// Splitting distributes over a separator: the segments of
/// `a + [sep] + b` are the segments of `a` followed by those of `b`.
pub proof fn lemma_split_on_join(a: Seq<char>, b: Seq<char>, sep: char)
    ensures
        split_on(a + seq![sep] + b, sep) =~~= split_on(a, sep) + split_on(b, sep),
    decreases b.len(),
{
    let s = a + seq![sep] + b;
    if b.len() == 0 {
        assert(s.last() == sep);
        assert(s.drop_last() =~= a);
        assert(split_on(s, sep) == split_on(a, sep).push(Seq::<char>::empty()));
        assert(split_on(b, sep) == seq![Seq::<char>::empty()]);
    } else {
        lemma_split_on_join(a, b.drop_last(), sep);
        lemma_split_on_len(b.drop_last(), sep);
        let pa = split_on(a, sep);
        let pb = split_on(b.drop_last(), sep);
        assert(s.last() == b.last());
        assert(s.drop_last() =~= a + seq![sep] + b.drop_last());
        if b.last() == sep {
            assert(split_on(s, sep) =~~= (pa + pb).push(Seq::<char>::empty()));
            assert((pa + pb).push(Seq::<char>::empty()) =~~= pa + pb.push(Seq::<char>::empty()));
        } else {
            let p = pa + pb;
            assert(split_on(s, sep) =~~= p.update(p.len() - 1, p.last().push(b.last())));
            assert(p.last() == pb.last());
            assert(p.update(p.len() - 1, p.last().push(b.last())) =~~= pa + pb.update(
                pb.len() - 1,
                pb.last().push(b.last()),
            ));
        }
    }
}

/// Splits `s` at every occurrence of `sep`, keeping empty segments.
pub fn split_str(s: &str, sep: char) -> (r: Vec<String>)
    ensures
        r@.map_values(|t: String| t@) == split_on(s@, sep),
{
    let n = s.unicode_len();
    let mut parts: Vec<String> = Vec::new();
    let mut start: usize = 0;
    let mut i: usize = 0;
    while i < n
        invariant
            start <= i <= n,
            n == s@.len(),
            forall|j: int| start <= j < i ==> s@[j] != sep,
            parts@.map_values(|t: String| t@).push(s@.subrange(start as int, i as int))
                =~~= split_on(s@.take(i as int), sep),
        decreases n - i,
    {
        let c = s.get_char(i);
        proof {
            assert(s@.take(i as int + 1).drop_last() =~= s@.take(i as int));
            assert(s@.take(i as int + 1).last() == s@[i as int]);
        }
        if c == sep {
            let piece = String::from_str(s.substring_char(start, i));
            parts.push(piece);
            start = i + 1;
            proof {
                assert(parts@.map_values(|t: String| t@).push(
                    s@.subrange(start as int, i as int + 1),
                ) =~~= split_on(s@.take(i as int + 1), sep));
            }
        } else {
            proof {
                let p = split_on(s@.take(i as int), sep);
                lemma_split_on_len(s@.take(i as int), sep);
                assert(p.last() == s@.subrange(start as int, i as int));
                assert(s@.subrange(start as int, i as int).push(s@[i as int]) =~= s@.subrange(
                    start as int,
                    i as int + 1,
                ));
                assert(parts@.map_values(|t: String| t@).push(
                    s@.subrange(start as int, i as int + 1),
                ) =~~= split_on(s@.take(i as int + 1), sep));
            }
        }
        i = i + 1;
    }
    let last_piece = String::from_str(s.substring_char(start, n));
    parts.push(last_piece);
    proof {
        assert(s@.take(n as int) =~= s@);
        assert(parts@.map_values(|t: String| t@) =~~= split_on(s@, sep));
    }
    parts
}

} // verus!
