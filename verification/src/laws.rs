//! The laws of the lookup helpers, stated over the specification functions
//! that the executable functions' contracts are pinned to: a name lookup
//! that finds a child of the requested class returns exactly that child;
//! a missing child and a child of the wrong class are both plain absence;
//! single-segment name lookup is the one-segment case of general path
//! resolution; and lookups are idempotent while the scene does not change.

use vstd::prelude::*;

use crate::lookup::Engine;
use crate::lookup::MainLoopState;
use crate::lookup::NodeExt;
use crate::lookup::spec_autoload;
use crate::path::SegV;
use crate::path::finish;
use crate::path::parse_from;
use crate::path::parse_path;
use crate::tree::SceneTree;

verus! {

/// A name that is a single path segment: non-empty, without separators, and
/// not one of the two navigation marks.
pub open spec fn plain_name(s: Seq<char>) -> bool {
    &&& s.len() > 0
    &&& forall|j: int| 0 <= j < s.len() ==> s[j] != '/'
    &&& s != seq!['.']
    &&& s != seq!['.', '.']
}

/// Parsing a string with no separator left of the end yields one final run.
proof fn lemma_parse_no_slash(s: Seq<char>, i: int, cur: Seq<char>)
    requires
        0 <= i <= s.len(),
        forall|j: int| i <= j < s.len() ==> s[j] != '/',
    ensures
        parse_from(s, i, cur) == finish(cur + s.subrange(i, s.len() as int)),
    decreases s.len() - i,
{
    if i >= s.len() {
        assert(cur + s.subrange(i, s.len() as int) =~= cur);
    } else {
        lemma_parse_no_slash(s, i + 1, cur.push(s[i]));
        assert(cur.push(s[i]) + s.subrange(i + 1, s.len() as int) =~= cur + s.subrange(
            i,
            s.len() as int,
        ));
    }
}

/// A plain name parses to a relative path of exactly one name segment.
pub proof fn lemma_plain_name_parses(s: Seq<char>)
    requires
        plain_name(s),
    ensures
        !parse_path(s).absolute,
        parse_path(s).segs == seq![SegV::Name(s)],
{
    lemma_parse_no_slash(s, 0, Seq::empty());
    assert(Seq::<char>::empty() + s.subrange(0, s.len() as int) =~= s);
}

/// Single-segment name lookup is the special case of general path
/// resolution: resolving the one-segment path made of a name is exactly the
/// direct child lookup by that name.
pub proof fn lemma_single_segment_is_child_lookup(t: SceneTree, c: usize, nm: Seq<char>)
    ensures
        t.resolve_from(c, seq![SegV::Name(nm)]) == t.child_named(c, nm),
{
    let segs = seq![SegV::Name(nm)];
    assert(segs[0] == SegV::Name(nm));
    match t.child_named(c, nm) {
        Option::Some(n) => {
            assert(t.resolve_from(n, segs.drop_first()) == Some(n));
        },
        Option::None => {},
    }
}

/// When a direct child of `from` named `name` exists and is of the
/// requested class, the typed lookup returns exactly that child.
pub proof fn lemma_lookup_finds_typed_child(
    t: SceneTree,
    from: usize,
    name: Seq<char>,
    target: usize,
    c: usize,
)
    requires
        t.wf(),
        from < t.node_count(),
        plain_name(name),
        t.child_named(from, name) == Some(c),
        t.cast_ok(c, target),
    ensures
        t.spec_get_node_as(from, name, target) == Some(c),
{
    lemma_plain_name_parses(name);
    lemma_single_segment_is_child_lookup(t, from, name);
}

/// When no direct child of `from` is named `name`, the typed lookup is
/// absence, whatever class was requested.
pub proof fn lemma_lookup_missing_is_absent(
    t: SceneTree,
    from: usize,
    name: Seq<char>,
    target: usize,
)
    requires
        t.wf(),
        from < t.node_count(),
        plain_name(name),
        t.child_named(from, name) == None::<usize>,
    ensures
        t.spec_get_node_as(from, name, target) == None::<usize>,
{
    lemma_plain_name_parses(name);
    lemma_single_segment_is_child_lookup(t, from, name);
}

/// When the child named `name` exists but is not of the requested class,
/// the typed lookup is the same absence as for a missing child: the result
/// does not tell the two failures apart.
pub proof fn lemma_lookup_wrong_type_is_absent(
    t: SceneTree,
    from: usize,
    name: Seq<char>,
    target: usize,
    c: usize,
)
    requires
        t.wf(),
        from < t.node_count(),
        plain_name(name),
        t.child_named(from, name) == Some(c),
        !t.cast_ok(c, target),
    ensures
        t.spec_get_node_as(from, name, target) == None::<usize>,
{
    lemma_plain_name_parses(name);
    lemma_single_segment_is_child_lookup(t, from, name);
}

/// `autoload` finds a direct child of the running tree's root when it bears
/// the requested name and class.
pub proof fn lemma_autoload_finds_typed_child(e: Engine, name: Seq<char>, target: usize, c: usize)
    requires
        e.wf(),
        e.main_loop matches MainLoopState::Tree(t) && t.node_count() > 0 && plain_name(name)
            && t.child_named(0, name) == Some(c) && t.cast_ok(c, target),
    ensures
        spec_autoload(e, name, target) == Some(c),
{
    match e.main_loop {
        MainLoopState::Tree(t) => {
            lemma_lookup_finds_typed_child(t, 0, name, target, c);
        },
        _ => {},
    }
}

/// `autoload` is absence when the root has no child of the given name.
pub proof fn lemma_autoload_missing_is_absent(e: Engine, name: Seq<char>, target: usize)
    requires
        e.wf(),
        e.main_loop matches MainLoopState::Tree(t) && t.node_count() > 0 && plain_name(name)
            && t.child_named(0, name) == None::<usize>,
    ensures
        spec_autoload(e, name, target) == None::<usize>,
{
    match e.main_loop {
        MainLoopState::Tree(t) => {
            lemma_lookup_missing_is_absent(t, 0, name, target);
        },
        _ => {},
    }
}

/// `autoload` is absence when the named child exists but is not of the
/// requested class — the same absence as for a missing child.
pub proof fn lemma_autoload_wrong_type_is_absent(
    e: Engine,
    name: Seq<char>,
    target: usize,
    c: usize,
)
    requires
        e.wf(),
        e.main_loop matches MainLoopState::Tree(t) && t.node_count() > 0 && plain_name(name)
            && t.child_named(0, name) == Some(c) && !t.cast_ok(c, target),
    ensures
        spec_autoload(e, name, target) == None::<usize>,
{
    match e.main_loop {
        MainLoopState::Tree(t) => {
            lemma_lookup_wrong_type_is_absent(t, 0, name, target, c);
        },
        _ => {},
    }
}

/// Lookups are idempotent: the contract of `autoload` pins its result to a
/// function of the engine state, the name and the requested class alone, so
/// two lookups with no intervening scene mutation return the same result.
pub proof fn lemma_autoload_idempotent(
    e: Engine,
    name: Seq<char>,
    target: usize,
    r1: Option<usize>,
    r2: Option<usize>,
)
    requires
        r1 == spec_autoload(e, name, target),
        r2 == spec_autoload(e, name, target),
    ensures
        r1 == r2,
{
}

} // verus!
