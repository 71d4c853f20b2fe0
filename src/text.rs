//! Character-level helpers on strings.
use vstd::prelude::*;
use vstd::string::StrSliceExecFns;

verus! {

/// Whether two strings hold the same characters.
pub fn str_eq(a: &str, b: &str) -> (r: bool)
    ensures
        r == (a@ == b@),
{
    let n = a.unicode_len();
    let m = b.unicode_len();
    if n != m {
        return false;
    }
    let mut i: usize = 0;
    while i < n
        invariant
            n == a@.len(),
            m == b@.len(),
            n == m,
            i <= n,
            a@.subrange(0, i as int) == b@.subrange(0, i as int),
        decreases n - i,
    {
        if a.get_char(i) != b.get_char(i) {
            assert(a@[i as int] != b@[i as int]);
            return false;
        }
        assert(a@.subrange(0, i + 1) =~= a@.subrange(0, i as int).push(a@[i as int]));
        assert(b@.subrange(0, i + 1) =~= b@.subrange(0, i as int).push(b@[i as int]));
        i = i + 1;
    }
    assert(a@ =~= a@.subrange(0, n as int));
    assert(b@ =~= b@.subrange(0, n as int));
    true
}


/// The segments of `s` between its `.` characters, in order; a string with
/// no `.` is one segment, and the empty string is one empty segment.
pub open spec fn split_dot(s: Seq<char>) -> Seq<Seq<char>>
    decreases s.len(),
{
    if s.len() == 0 {
        seq![Seq::<char>::empty()]
    } else {
        let rest = split_dot(s.drop_last());
        if s.last() == '.' {
            rest.push(Seq::<char>::empty())
        } else {
            rest.update(rest.len() - 1, rest.last().push(s.last()))
        }
    }
}

/// There is always at least one segment.
pub proof fn lemma_split_dot_nonempty(s: Seq<char>)
    ensures
        split_dot(s).len() >= 1,
    decreases s.len(),
{
    if s.len() > 0 {
        lemma_split_dot_nonempty(s.drop_last());
    }
}

/// The segments joined back together, with a `.` between each two.
pub open spec fn join_dot(segments: Seq<Seq<char>>) -> Seq<char>
    decreases segments.len(),
{
    if segments.len() <= 1 {
        if segments.len() == 0 {
            Seq::<char>::empty()
        } else {
            segments[0]
        }
    } else {
        join_dot(segments.drop_last()) + seq!['.'] + segments.last()
    }
}

/// `split_dot` is the split on `.`: no segment holds a `.`, and joining the
/// segments with `.` gives back the string, so that the order and the number
/// of the segments are those of the string.
pub proof fn lemma_split_dot_is_split(s: Seq<char>)
    ensures
        join_dot(split_dot(s)) == s,
        forall|i: int, j: int|
            0 <= i < split_dot(s).len() && 0 <= j < split_dot(s)[i].len() ==> #[trigger] split_dot(
                s,
            )[i][j] != '.',
    decreases s.len(),
{
    if s.len() == 0 {
        assert(join_dot(split_dot(s)) =~= s);
    } else {
        let rest = split_dot(s.drop_last());
        lemma_split_dot_is_split(s.drop_last());
        lemma_split_dot_nonempty(s.drop_last());
        if s.last() == '.' {
            let segs = rest.push(Seq::<char>::empty());
            assert(segs.drop_last() =~= rest);
            assert(join_dot(segs) =~= s);
            assert forall|i: int, j: int|
                0 <= i < segs.len() && 0 <= j < segs[i].len() implies #[trigger] segs[i][j] != '.' by {
                if i < rest.len() {
                    assert(segs[i] == rest[i]);
                    assert(rest[i][j] != '.');
                }
            }
        } else {
            let n = rest.len();
            let segs = rest.update(n - 1, rest.last().push(s.last()));
            if n == 1 {
                assert(join_dot(segs) =~= s);
            } else {
                assert(segs.drop_last() =~= rest.drop_last());
                assert(join_dot(rest) == join_dot(rest.drop_last()) + seq!['.'] + rest.last());
                assert(segs.last() == rest.last().push(s.last()));
                assert(join_dot(segs) == join_dot(rest.drop_last()) + seq!['.'] + segs.last());
                assert(s =~= s.drop_last().push(s.last()));
                assert(join_dot(segs) =~= s);
            }
            assert forall|i: int, j: int|
                0 <= i < segs.len() && 0 <= j < segs[i].len() implies #[trigger] segs[i][j] != '.' by {
                if i < n - 1 {
                    assert(segs[i] == rest[i]);
                    assert(rest[i][j] != '.');
                } else if j < rest.last().len() {
                    assert(segs[i][j] == rest[n - 1][j]);
                    assert(rest[n - 1][j] != '.');
                }
            }
        }
    }
}

/// The characters of each string.
pub open spec fn views(v: Seq<String>) -> Seq<Seq<char>> {
    v.map_values(|x: String| x@)
}

/// Splits `s` on `.`, keeping empty segments.
pub fn split_on_dot(s: &str) -> (r: Vec<String>)
    ensures
        views(r@) == split_dot(s@),
{
    let n = s.unicode_len();
    let mut out: Vec<String> = Vec::new();
    let mut start: usize = 0;
    let mut i: usize = 0;
    assert(s@.subrange(0, 0) =~= Seq::<char>::empty());
    assert(views(out@).push(s@.subrange(0, 0)) =~= seq![Seq::<char>::empty()]);
    while i < n
        invariant
            n == s@.len(),
            start <= i <= n,
            split_dot(s@.subrange(0, i as int)) == views(out@).push(s@.subrange(start as int, i as int)),
        decreases n - i,
    {
        let c = s.get_char(i);
        let ghost prefix = s@.subrange(0, i + 1);
        assert(prefix.drop_last() =~= s@.subrange(0, i as int));
        assert(prefix.last() == c);
        proof {
            lemma_split_dot_nonempty(s@.subrange(0, i as int));
        }
        if c == '.' {
            let ghost before = out@;
            let seg = String::from_str(s.substring_char(start, i));
            out.push(seg);
            assert(views(out@) =~= views(before).push(seg@));
            start = i + 1;
            assert(s@.subrange(start as int, i + 1) =~= Seq::<char>::empty());
        } else {
            assert(s@.subrange(start as int, i + 1) =~= s@.subrange(start as int, i as int).push(c));
        }
        i = i + 1;
    }
    assert(s@.subrange(0, n as int) =~= s@);
    let last = String::from_str(s.substring_char(start, n));
    out.push(last);
    assert(views(out@) =~= split_dot(s@));
    out
}

} // verus!
