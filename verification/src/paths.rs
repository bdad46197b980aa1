//! Path construction from the directory stack. The stack holds the names of
//! the directories descended into from the fixed root `.`; joining it with
//! `/` and prefixing `./` yields the current resolved path.

use vstd::prelude::*;

verus! {

/// The characters of `segments` joined with `/`: empty for an empty stack,
/// otherwise the segments in order with a single separator between them.
pub open spec fn joined_segments(segments: Seq<Seq<char>>) -> Seq<char>
    decreases segments.len(),
{
    if segments.len() == 0 {
        Seq::<char>::empty()
    } else if segments.len() == 1 {
        segments[0]
    } else {
        segments[0] + "/"@ + joined_segments(segments.drop_first())
    }
}

/// The resolved path for a directory stack: `./` at the root, otherwise
/// `./` followed by the stack joined with `/`.
pub open spec fn joined_path(segments: Seq<Seq<char>>) -> Seq<char> {
    if segments.len() == 0 {
        "./"@
    } else {
        "./"@ + joined_segments(segments)
    }
}

/// Joins the first `n` entries of the stack into a resolved path.
pub fn join_path_prefix(path_stack: &Vec<String>, n: usize) -> (r: String)
    requires
        n <= path_stack.len(),
    ensures
        r@ == joined_path(path_stack.deep_view().take(n as int)),
{
    let ghost segs = path_stack.deep_view().take(n as int);
    if n == 0 {
        let r = String::from_str("./");
        assert(r@ == joined_path(segs));
        return r;
    }
    let mut r = String::from_str("./");
    r.append(path_stack[0].as_str());
    assert(r@ == "./"@ + segs[0]);
    let mut i: usize = 1;
    while i < n
        invariant
            1 <= i <= n <= path_stack.len(),
            segs == path_stack.deep_view().take(n as int),
            r@ == "./"@ + joined_segments(segs.take(i as int)),
        decreases n - i,
    {
        r.append("/");
        r.append(path_stack[i].as_str());
        proof {
            lemma_joined_segments_push(segs.take(i as int), segs[i as int]);
            assert(segs.take(i as int).push(segs[i as int]) =~= segs.take(i + 1 as int));
        }
        i = i + 1;
    }
    proof {
        assert(segs.take(n as int) =~= segs);
    }
    r
}

/// Appending one segment to a non-empty join adds a separator and the
/// segment; to an empty join it adds just the segment.
proof fn lemma_joined_segments_push(segments: Seq<Seq<char>>, seg: Seq<char>)
    ensures
        segments.len() == 0 ==> joined_segments(segments.push(seg)) == seg,
        segments.len() > 0 ==> joined_segments(segments.push(seg)) == joined_segments(segments)
            + "/"@ + seg,
    decreases segments.len(),
{
    if segments.len() == 0 {
        assert(segments.push(seg)[0] == seg);
    } else if segments.len() == 1 {
        assert(segments.push(seg).drop_first() =~= seq![seg]);
        assert(joined_segments(seq![seg]) == seg);
        assert(segments.push(seg)[0] == segments[0]);
    } else {
        lemma_joined_segments_push(segments.drop_first(), seg);
        assert(segments.push(seg).drop_first() =~= segments.drop_first().push(seg));
        assert(segments.push(seg)[0] == segments[0]);
        assert(joined_segments(segments.push(seg)) == segments[0] + "/"@ + (joined_segments(
            segments.drop_first(),
        ) + "/"@ + seg));
        assert(segments[0] + "/"@ + (joined_segments(segments.drop_first()) + "/"@ + seg)
            =~= (segments[0] + "/"@ + joined_segments(segments.drop_first())) + "/"@ + seg);
    }
}

/// The resolved path for the whole directory stack: `./` for an empty stack,
/// otherwise `./` followed by the stack entries joined with `/`.
pub fn join_path(path_stack: &Vec<String>) -> (r: String)
    ensures
        r@ == joined_path(path_stack.deep_view()),
{
    let n = path_stack.len();
    let r = join_path_prefix(path_stack, n);
    proof {
        assert(path_stack.deep_view().take(n as int) =~= path_stack.deep_view());
    }
    r
}

} // verus!
