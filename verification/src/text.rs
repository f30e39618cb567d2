//! Character-level helpers on `&str`, stated over the character view `s@`.

use vstd::prelude::*;
use vstd::string::*;

verus! {

/// The part of `s` after its last `'.'`, or all of `s` when it holds no `'.'`.
/// This is the last item that splitting `s` at every `'.'` yields.
pub open spec fn last_segment(s: Seq<char>) -> Seq<char>
    decreases s.len(),
{
    if s.len() == 0 {
        s
    } else if s.last() == '.' {
        Seq::empty()
    } else {
        last_segment(s.drop_last()).push(s.last())
    }
}

/// The last segment holds no `'.'`.
pub proof fn lemma_last_segment_has_no_dot(s: Seq<char>)
    ensures
        !last_segment(s).contains('.'),
    decreases s.len(),
{
    if s.len() > 0 && s.last() != '.' {
        lemma_last_segment_has_no_dot(s.drop_last());
        let t = last_segment(s.drop_last());
        assert forall|i: int| 0 <= i < t.push(s.last()).len() implies t.push(s.last())[i]
            != '.' by {
            if i < t.len() {
                assert(t.push(s.last())[i] == t[i]);
            }
        }
    }
}

/// The last segment is a suffix of the string.
pub proof fn lemma_last_segment_is_suffix(s: Seq<char>)
    ensures
        last_segment(s).len() <= s.len(),
        last_segment(s) == s.skip(s.len() - last_segment(s).len()),
    decreases s.len(),
{
    if s.len() > 0 {
        lemma_last_segment_is_suffix(s.drop_last());
        if s.last() == '.' {
            assert(s.skip(s.len() as int) =~= Seq::<char>::empty());
        } else {
            let t = last_segment(s.drop_last());
            assert(s.skip(s.len() - t.len() - 1) =~= s.drop_last().skip(
                s.drop_last().len() - t.len(),
            ).push(s.last()));
        }
    }
}

/// A string without `'.'` is its own last segment.
pub proof fn lemma_last_segment_without_dot(s: Seq<char>)
    requires
        !s.contains('.'),
    ensures
        last_segment(s) == s,
    decreases s.len(),
{
    if s.len() > 0 {
        assert(s[s.len() - 1] == s.last());
        assert(!s.drop_last().contains('.')) by {
            if s.drop_last().contains('.') {
                let i = choose|i: int| 0 <= i < s.drop_last().len() && s.drop_last()[i] == '.';
                assert(s[i] == '.');
            }
        }
        lemma_last_segment_without_dot(s.drop_last());
        assert(s.drop_last().push(s.last()) =~= s);
    }
}

/// Whether the characters of `s` from `from` up to `to` are exactly those of `lit`.
pub fn chars_equal(s: &str, from: usize, to: usize, lit: &str) -> (r: bool)
    requires
        from <= to <= s@.len(),
    ensures
        r == (s@.subrange(from as int, to as int) == lit@),
{
    let n: usize = lit.unicode_len();
    if to - from != n {
        proof {
            assert(s@.subrange(from as int, to as int).len() != lit@.len());
        }
        return false;
    }
    let mut i: usize = 0;
    while i < n
        invariant
            n == lit@.len(),
            to - from == n,
            from <= to <= s@.len(),
            i <= n,
            forall|j: int| 0 <= j < i ==> s@[from + j] == lit@[j],
        decreases n - i,
    {
        if s.get_char(from + i) != lit.get_char(i) {
            proof {
                assert(s@.subrange(from as int, to as int)[i as int] != lit@[i as int]);
            }
            return false;
        }
        i = i + 1;
    }
    proof {
        assert(s@.subrange(from as int, to as int) =~= lit@);
    }
    true
}

/// Index at which the last `'.'`-separated segment of `s` starts.
pub fn last_segment_start(s: &str) -> (start: usize)
    ensures
        start <= s@.len(),
        s@.subrange(start as int, s@.len() as int) == last_segment(s@),
{
    let n: usize = s.unicode_len();
    let mut start: usize = 0;
    let mut i: usize = 0;
    while i < n
        invariant
            n == s@.len(),
            start <= i <= n,
            s@.subrange(start as int, i as int) == last_segment(s@.take(i as int)),
        decreases n - i,
    {
        let c = s.get_char(i);
        proof {
            assert(s@.take(i + 1).drop_last() =~= s@.take(i as int));
            assert(s@.take(i + 1).last() == c);
        }
        if c == '.' {
            start = i + 1;
            proof {
                assert(s@.subrange(start as int, (i + 1) as int) =~= Seq::<char>::empty());
            }
        } else {
            proof {
                assert(s@.subrange(start as int, (i + 1) as int) =~= s@.subrange(
                    start as int,
                    i as int,
                ).push(c));
            }
        }
        i = i + 1;
    }
    proof {
        assert(s@.take(n as int) =~= s@);
    }
    start
}

} // verus!
