//! Node paths, written the way the host engine writes them: segments
//! separated by `/`, a leading `/` making the path absolute, `.` naming the
//! current node and `..` its parent. Empty segments (as in `a//b`) are
//! skipped, so the empty path has no segments at all: resolved relative to
//! a node it names that node itself, while a path of slashes alone is
//! absolute with no segments and names nothing.

use vstd::prelude::*;
use vstd::string::StrSliceExecFns;

verus! {

/// One parsed path segment, at the specification level.
pub enum SegV {
    /// `.`: the current node.
    Cur,
    /// `..`: the parent of the current node.
    Par,
    /// Any other segment: a child of the given name.
    Name(Seq<char>),
}

/// A parsed path at the specification level.
pub struct PathV {
    pub absolute: bool,
    pub segs: Seq<SegV>,
}

/// One parsed path segment of a concrete path string; a name is kept as a
/// character range of that string.
#[derive(Clone, Copy)]
pub enum Seg {
    Cur,
    Par,
    Name(usize, usize),
}

/// The segments that one raw segment run contributes: none when it is
/// empty, otherwise its classification.
pub open spec fn finish(cur: Seq<char>) -> Seq<SegV> {
    if cur.len() == 0 {
        Seq::empty()
    } else if cur == seq!['.'] {
        seq![SegV::Cur]
    } else if cur == seq!['.', '.'] {
        seq![SegV::Par]
    } else {
        seq![SegV::Name(cur)]
    }
}

/// The segments of `s` from position `i` on, with `cur` the run of
/// characters read since the last separator.
pub open spec fn parse_from(s: Seq<char>, i: int, cur: Seq<char>) -> Seq<SegV>
    decreases s.len() - i,
{
    if i < 0 || i >= s.len() {
        finish(cur)
    } else if s[i] == '/' {
        finish(cur) + parse_from(s, i + 1, Seq::empty())
    } else {
        parse_from(s, i + 1, cur.push(s[i]))
    }
}

pub open spec fn spec_is_absolute(s: Seq<char>) -> bool {
    s.len() > 0 && s[0] == '/'
}

/// The engine's reading of a path string.
pub open spec fn parse_path(s: Seq<char>) -> PathV {
    PathV { absolute: spec_is_absolute(s), segs: parse_from(s, 0, Seq::empty()) }
}

/// A range segment that stays inside its path string.
pub open spec fn seg_wf(p: Seq<char>, s: Seg) -> bool {
    match s {
        Seg::Name(a, b) => a <= b <= p.len(),
        _ => true,
    }
}

pub open spec fn seg_view(p: Seq<char>, s: Seg) -> SegV {
    match s {
        Seg::Cur => SegV::Cur,
        Seg::Par => SegV::Par,
        Seg::Name(a, b) => SegV::Name(p.subrange(a as int, b as int)),
    }
}

pub open spec fn segs_view(p: Seq<char>, v: Seq<Seg>) -> Seq<SegV> {
    v.map(|i: int, s: Seg| seg_view(p, s))
}

/// Classifies the raw run `path[start..end]`: skipped when empty, the
/// current-node or parent mark, or a child name.
fn classify_run(path: &str, start: usize, end: usize) -> (r: Option<Seg>)
    requires
        start <= end <= path@.len(),
    ensures
        ({
            let run = path@.subrange(start as int, end as int);
            match r {
                Option::None => finish(run) == Seq::<SegV>::empty(),
                Option::Some(seg) => seg_wf(path@, seg) && finish(run) == seq![
                    seg_view(path@, seg),
                ],
            }
        }),
{
    let ghost run = path@.subrange(start as int, end as int);
    let len = end - start;
    if len == 0 {
        assert(finish(run) =~= Seq::<SegV>::empty());
        None
    } else if len == 1 && path.get_char(start) == '.' {
        assert(run =~= seq!['.']);
        Some(Seg::Cur)
    } else if len == 2 && path.get_char(start) == '.' && path.get_char(start + 1) == '.' {
        assert(run =~= seq!['.', '.']);
        Some(Seg::Par)
    } else {
        proof {
            if run == seq!['.'] {
                assert(run.len() == 1 && run[0] == '.');
            }
            if run == seq!['.', '.'] {
                assert(run.len() == 2 && run[0] == '.' && run[1] == '.');
            }
        }
        Some(Seg::Name(start, end))
    }
}

/// Splits a path string into its segments, as `parse_path` reads it.
pub(crate) fn parse(path: &str) -> (r: (bool, Vec<Seg>))
    ensures
        r.0 == spec_is_absolute(path@),
        segs_view(path@, r.1@) == parse_path(path@).segs,
        forall|k: int| 0 <= k < r.1@.len() ==> seg_wf(path@, #[trigger] r.1@[k]),
{
    let n = path.unicode_len();
    let absolute = n > 0 && path.get_char(0) == '/';
    let mut segs: Vec<Seg> = Vec::new();
    let mut start: usize = 0;
    let mut i: usize = 0;
    proof {
        assert(path@.subrange(0, 0) =~= Seq::<char>::empty());
        assert(segs_view(path@, Seq::<Seg>::empty()) + parse_from(path@, 0, Seq::empty())
            =~= parse_from(path@, 0, Seq::empty()));
    }
    while i < n
        invariant
            n == path@.len(),
            start <= i <= n,
            forall|k: int| 0 <= k < segs@.len() ==> seg_wf(path@, #[trigger] segs@[k]),
            parse_from(path@, 0, Seq::empty()) == segs_view(path@, segs@) + parse_from(
                path@,
                i as int,
                path@.subrange(start as int, i as int),
            ),
        decreases n - i,
    {
        let ghost run = path@.subrange(start as int, i as int);
        if path.get_char(i) == '/' {
            let ghost before = segs@;
            match classify_run(path, start, i) {
                Option::Some(seg) => segs.push(seg),
                Option::None => (),
            }
            proof {
                assert(segs_view(path@, segs@) =~= segs_view(path@, before) + finish(run));
                assert(parse_from(path@, i as int, run) == finish(run) + parse_from(
                    path@,
                    i as int + 1,
                    Seq::empty(),
                ));
                assert((segs_view(path@, before) + finish(run)) + parse_from(
                    path@,
                    i as int + 1,
                    Seq::empty(),
                ) =~= segs_view(path@, before) + (finish(run) + parse_from(
                    path@,
                    i as int + 1,
                    Seq::empty(),
                )));
                assert(path@.subrange(i as int + 1, i as int + 1) =~= Seq::<char>::empty());
            }
            start = i + 1;
        } else {
            proof {
                assert(run.push(path@[i as int]) =~= path@.subrange(start as int, i as int + 1));
                assert(parse_from(path@, i as int, run) == parse_from(
                    path@,
                    i as int + 1,
                    run.push(path@[i as int]),
                ));
            }
        }
        i = i + 1;
    }
    let ghost run = path@.subrange(start as int, n as int);
    let ghost before = segs@;
    match classify_run(path, start, n) {
        Option::Some(seg) => segs.push(seg),
        Option::None => (),
    }
    proof {
        assert(segs_view(path@, segs@) =~= segs_view(path@, before) + finish(run));
        assert(parse_from(path@, n as int, run) == finish(run));
    }
    (absolute, segs)
}

/// Whether `name` spells exactly the characters `s[a..b]`.
pub(crate) fn str_range_eq(s: &str, a: usize, b: usize, name: &str) -> (r: bool)
    requires
        a <= b <= s@.len(),
    ensures
        r == (name@ == s@.subrange(a as int, b as int)),
{
    let m = name.unicode_len();
    if m != b - a {
        return false;
    }
    let mut j: usize = 0;
    while j < m
        invariant
            m == name@.len(),
            m == b - a,
            a <= b <= s@.len(),
            j <= m,
            forall|k: int| 0 <= k < j ==> name@[k] == s@[a + k],
        decreases m - j,
    {
        if name.get_char(j) != s.get_char(a + j) {
            proof {
                assert(s@.subrange(a as int, b as int)[j as int] == s@[a + j]);
            }
            return false;
        }
        j = j + 1;
    }
    proof {
        assert(name@ =~= s@.subrange(a as int, b as int));
    }
    true
}

} // verus!
