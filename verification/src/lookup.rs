//! The convenience lookups the library exists for: resolve a path in a live
//! scene graph and hand back the node only when a checked downcast to the
//! caller's requested class succeeds. Every failure — no main loop, a main
//! loop that is no scene tree, no root, no node at the path, a failed cast —
//! collapses to the one absence signal, and the caller cannot tell them
//! apart.

use vstd::prelude::*;

use crate::tree::SceneTree;

verus! {

/// Node lookup with a typed downcast, as an extension of any node-like
/// value: here a well-formed scene tree together with the index of the node
/// the lookup starts from.
pub trait NodeExt {
    /// The receiver is sound enough to look up nodes in.
    spec fn lookup_wf(&self) -> bool;

    /// `i` names a live node of the receiver.
    spec fn has_node(&self, i: usize) -> bool;

    /// How many script classes the receiver knows.
    spec fn native_count(&self) -> nat;

    /// What `get_node_as` returns.
    spec fn spec_get_node_as(&self, from: usize, path: Seq<char>, target: usize) -> Option<usize>;

    /// What `get_node_as_instance` returns.
    spec fn spec_get_node_as_instance(&self, from: usize, path: Seq<char>, native: usize) -> Option<
        usize,
    >;

    /// The node at `path` relative to `from`, downcast to engine class
    /// `target`; absence when the path resolves to nothing or the node is
    /// not of that class.
    fn get_node_as(&self, from: usize, path: &str, target: usize) -> (r: Option<usize>)
        requires
            self.lookup_wf(),
            self.has_node(from),
        ensures
            r == self.spec_get_node_as(from, path@, target),
            r matches Option::Some(n) ==> self.has_node(n),
    ;

    /// The node at `path` relative to `from`, required to carry script
    /// class `native` and to be castable to that class's base; absence on
    /// any failure, exactly as for `get_node_as`.
    fn get_node_as_instance(&self, from: usize, path: &str, native: usize) -> (r: Option<usize>)
        requires
            self.lookup_wf(),
            self.has_node(from),
            native < self.native_count(),
        ensures
            r == self.spec_get_node_as_instance(from, path@, native),
            r matches Option::Some(n) ==> self.has_node(n),
    ;
}

impl NodeExt for SceneTree {
    open spec fn lookup_wf(&self) -> bool {
        self.wf()
    }

    open spec fn has_node(&self, i: usize) -> bool {
        i < self.node_count()
    }

    open spec fn native_count(&self) -> nat {
        self.natives.count()
    }

    open spec fn spec_get_node_as(&self, from: usize, path: Seq<char>, target: usize) -> Option<
        usize,
    > {
        match self.spec_get_node(from, path) {
            Option::Some(n) => if self.cast_ok(n, target) {
                Some(n)
            } else {
                None
            },
            Option::None => None,
        }
    }

    open spec fn spec_get_node_as_instance(
        &self,
        from: usize,
        path: Seq<char>,
        native: usize,
    ) -> Option<usize> {
        match self.spec_get_node(from, path) {
            Option::Some(n) => if self.cast_ok(n, self.natives.bases@[native as int])
                && self.nodes@[n as int].script == Some(native) {
                Some(n)
            } else {
                None
            },
            Option::None => None,
        }
    }

    fn get_node_as(&self, from: usize, path: &str, target: usize) -> (r: Option<usize>) {
        match self.get_node(from, path) {
            Option::Some(n) => {
                proof {
                    assert(self.node_ok(n as int));
                }
                if self.classes.is_subclass_of(self.nodes[n].class, target) {
                    Some(n)
                } else {
                    None
                }
            },
            Option::None => None,
        }
    }

    fn get_node_as_instance(&self, from: usize, path: &str, native: usize) -> (r: Option<usize>) {
        match self.get_node(from, path) {
            Option::Some(n) => {
                proof {
                    assert(self.node_ok(n as int));
                }
                let base = self.natives.bases[native];
                if self.classes.is_subclass_of(self.nodes[n].class, base) {
                    match self.nodes[n].script {
                        Option::Some(sc) => if sc == native {
                            Some(n)
                        } else {
                            None
                        },
                        Option::None => None,
                    }
                } else {
                    None
                }
            },
            Option::None => None,
        }
    }
}

/// Whether the engine currently runs a main loop, and what it is.
pub enum MainLoopState {
    /// No main loop is set.
    Absent,
    /// A main loop runs, but it is not a scene tree.
    NotSceneTree,
    /// The running main loop is this scene tree.
    Tree(SceneTree),
}

/// The reachable state of the host engine's singleton: its main loop.
pub struct Engine {
    pub main_loop: MainLoopState,
}

impl Engine {
    /// Whatever scene tree the engine runs is well-formed.
    pub open spec fn wf(self) -> bool {
        match self.main_loop {
            MainLoopState::Tree(t) => t.wf(),
            _ => true,
        }
    }
}

/// What `autoload` returns: the node named by `name` under the running
/// scene tree's root, downcast to `target`; absence when there is no main
/// loop, the main loop is no scene tree, the tree has no root, nothing is
/// at `name`, or the cast fails.
pub open spec fn spec_autoload(e: Engine, name: Seq<char>, target: usize) -> Option<usize> {
    match e.main_loop {
        MainLoopState::Tree(t) => if t.node_count() == 0 {
            None
        } else {
            t.spec_get_node_as(0, name, target)
        },
        _ => None,
    }
}

/// A reference to an auto-load node: a child of the running scene tree's
/// root, looked up by `name` and downcast to engine class `target`.
/// Absence on every failure, with no report of the cause.
pub fn autoload(engine: &Engine, name: &str, target: usize) -> (r: Option<usize>)
    requires
        engine.wf(),
    ensures
        r == spec_autoload(*engine, name@, target),
{
    match &engine.main_loop {
        MainLoopState::Tree(t) => {
            if t.nodes.len() == 0 {
                None
            } else {
                t.get_node_as(0, name, target)
            }
        },
        _ => None,
    }
}

} // verus!
