//! The scene graph: a tree of named, classed nodes owned by the host
//! engine, modelled as an arena in which every node names a parent that was
//! added before it. Node `0` is the root. Among the children of one parent,
//! the order of addition is the child order, so the first child bearing a
//! name is the one with the lowest index.

use vstd::prelude::*;
use vstd::string::StrSliceExecFns;

use crate::classes::ClassTable;
use crate::classes::NativeClassTable;
use crate::classes::is_subclass;
use crate::path::Seg;
use crate::path::SegV;
use crate::path::parse;
use crate::path::parse_path;
use crate::path::seg_view;
use crate::path::seg_wf;
use crate::path::segs_view;
use crate::path::str_range_eq;

verus! {

/// One live node: its name, its engine class, the script class attached to
/// it if any, and its parent's index (the root names itself).
pub struct Node {
    pub name: String,
    pub class: usize,
    pub script: Option<usize>,
    pub parent: usize,
}

/// A scene tree together with the class registries it draws on.
pub struct SceneTree {
    pub classes: ClassTable,
    pub natives: NativeClassTable,
    pub nodes: Vec<Node>,
}

impl SceneTree {
    pub open spec fn node_count(self) -> nat {
        self.nodes@.len()
    }

    /// Node `i` is sound: registered class and script, and a parent added
    /// before it (the root is its own parent).
    pub open spec fn node_ok(self, i: int) -> bool {
        let n = self.nodes@[i];
        &&& n.class < self.classes.count()
        &&& (n.script matches Option::Some(sc) ==> sc < self.natives.count())
        &&& (i == 0 ==> n.parent == 0)
        &&& (i > 0 ==> n.parent < i)
    }

    /// A well-formed tree over well-formed registries.
    pub open spec fn wf(self) -> bool {
        &&& self.classes.wf()
        &&& self.natives.wf_for(self.classes)
        &&& forall|i: int| 0 <= i < self.node_count() ==> #[trigger] self.node_ok(i)
    }

    /// The first child of `c` named `nm`, scanning nodes from index `j` on.
    pub open spec fn child_named_from(self, c: usize, nm: Seq<char>, j: int) -> Option<usize>
        decreases self.node_count() - j,
    {
        if j >= self.node_count() {
            None
        } else if 1 <= j && self.nodes@[j].parent == c && self.nodes@[j].name@ == nm {
            Some(j as usize)
        } else {
            self.child_named_from(c, nm, j + 1)
        }
    }

    /// The first child of `c` named `nm`, or absence.
    pub open spec fn child_named(self, c: usize, nm: Seq<char>) -> Option<usize> {
        self.child_named_from(c, nm, 1)
    }

    /// One resolution step from node `c`: stay, step to the parent (absent
    /// at the root), or descend to a named child.
    pub open spec fn step(self, c: usize, seg: SegV) -> Option<usize> {
        match seg {
            SegV::Cur => Some(c),
            SegV::Par => if c == 0 {
                None
            } else {
                Some(self.nodes@[c as int].parent)
            },
            SegV::Name(nm) => self.child_named(c, nm),
        }
    }

    /// Resolves a run of segments from node `c`; any failed step makes the
    /// whole resolution absent.
    pub open spec fn resolve_from(self, c: usize, segs: Seq<SegV>) -> Option<usize>
        decreases segs.len(),
    {
        if segs.len() == 0 {
            Some(c)
        } else {
            match self.step(c, segs[0]) {
                Option::Some(n) => self.resolve_from(n, segs.drop_first()),
                Option::None => None,
            }
        }
    }

    /// What the engine's `get_node` returns for `path` from node `from`: a
    /// relative path resolves from `from`; an absolute path must open with
    /// the root's own name and resolves from the root.
    pub open spec fn spec_get_node(self, from: usize, path: Seq<char>) -> Option<usize> {
        let p = parse_path(path);
        if p.absolute {
            if self.node_count() == 0 || p.segs.len() == 0 {
                None
            } else {
                match p.segs[0] {
                    SegV::Name(nm) => if nm == self.nodes@[0].name@ {
                        self.resolve_from(0, p.segs.drop_first())
                    } else {
                        None
                    },
                    _ => None,
                }
            }
        } else {
            self.resolve_from(from, p.segs)
        }
    }

    /// Whether a checked downcast of node `n` to engine class `target`
    /// succeeds: the node's class is `target` or a descendant of it.
    pub open spec fn cast_ok(self, n: usize, target: usize) -> bool {
        is_subclass(self.classes.parents@, self.nodes@[n as int].class, target)
    }

    /// A tree whose registries are given and that holds no node yet.
    pub fn new(classes: ClassTable, natives: NativeClassTable) -> (r: SceneTree)
        requires
            classes.wf(),
            natives.wf_for(classes),
        ensures
            r.wf(),
            r.classes == classes,
            r.natives == natives,
            r.nodes@ == Seq::<Node>::empty(),
    {
        SceneTree { classes, natives, nodes: Vec::new() }
    }

    /// Adds the root node to an empty tree and returns its index.
    pub fn add_root(&mut self, name: String, class: usize, script: Option<usize>) -> (idx: usize)
        requires
            old(self).wf(),
            old(self).node_count() == 0,
            class < old(self).classes.count(),
            script matches Option::Some(sc) ==> sc < old(self).natives.count(),
        ensures
            final(self).wf(),
            idx == 0,
            final(self).classes == old(self).classes,
            final(self).natives == old(self).natives,
            final(self).nodes@ == old(self).nodes@.push(
                (Node { name, class, script, parent: 0 }),
            ),
    {
        self.nodes.push(Node { name, class, script, parent: 0 });
        0
    }

    /// Adds a child of `parent` and returns its index. The new node comes
    /// after every existing child of `parent`, so it is found by name only
    /// where no earlier sibling bears the same name.
    pub fn add_child(&mut self, parent: usize, name: String, class: usize, script: Option<
        usize,
    >) -> (idx: usize)
        requires
            old(self).wf(),
            parent < old(self).node_count(),
            class < old(self).classes.count(),
            script matches Option::Some(sc) ==> sc < old(self).natives.count(),
            old(self).node_count() < usize::MAX,
        ensures
            final(self).wf(),
            idx == old(self).node_count(),
            final(self).classes == old(self).classes,
            final(self).natives == old(self).natives,
            final(self).nodes@ == old(self).nodes@.push(
                (Node { name, class, script, parent }),
            ),
    {
        let idx = self.nodes.len();
        self.nodes.push(Node { name, class, script, parent });
        proof {
            assert forall|i: int| 0 <= i < self.node_count() implies #[trigger] self.node_ok(i) by {
                if i < old(self).node_count() {
                    assert(old(self).node_ok(i));
                }
            }
        }
        idx
    }

    /// The first child of `c` whose name spells `s[a..b]`.
    fn find_child_range(&self, c: usize, s: &str, a: usize, b: usize) -> (r: Option<usize>)
        requires
            self.wf(),
            a <= b <= s@.len(),
        ensures
            r == self.child_named(c, s@.subrange(a as int, b as int)),
            r matches Option::Some(k) ==> k < self.node_count(),
    {
        let ghost nm = s@.subrange(a as int, b as int);
        let mut j: usize = 1;
        while j < self.nodes.len()
            invariant
                self.wf(),
                a <= b <= s@.len(),
                1 <= j,
                nm == s@.subrange(a as int, b as int),
                self.child_named(c, nm) == self.child_named_from(c, nm, j as int),
            decreases self.nodes@.len() - j,
        {
            let node = &self.nodes[j];
            if node.parent == c && str_range_eq(s, a, b, node.name.as_str()) {
                return Some(j);
            }
            j = j + 1;
        }
        None
    }

    /// The first child of `c` named `name`, or absence.
    pub fn find_child(&self, c: usize, name: &str) -> (r: Option<usize>)
        requires
            self.wf(),
            c < self.node_count(),
        ensures
            r == self.child_named(c, name@),
            r matches Option::Some(k) ==> k < self.node_count(),
    {
        let n = name.unicode_len();
        let r = self.find_child_range(c, name, 0, n);
        proof {
            assert(name@.subrange(0, name@.len() as int) =~= name@);
        }
        r
    }

    /// Resolves the parsed segments `segs[k0..]` of the string `s` from
    /// node `from`.
    fn resolve(&self, from: usize, s: &str, segs: &Vec<Seg>, k0: usize) -> (r: Option<usize>)
        requires
            self.wf(),
            from < self.node_count(),
            k0 <= segs@.len(),
            forall|k: int| 0 <= k < segs@.len() ==> seg_wf(s@, #[trigger] segs@[k]),
        ensures
            r == self.resolve_from(from, segs_view(s@, segs@).skip(k0 as int)),
            r matches Option::Some(n) ==> n < self.node_count(),
    {
        let ghost full = segs_view(s@, segs@);
        let mut cur = from;
        let mut k = k0;
        while k < segs.len()
            invariant
                self.wf(),
                k0 <= k <= segs@.len(),
                cur < self.node_count(),
                full == segs_view(s@, segs@),
                forall|k2: int| 0 <= k2 < segs@.len() ==> seg_wf(s@, #[trigger] segs@[k2]),
                self.resolve_from(from, full.skip(k0 as int)) == self.resolve_from(
                    cur,
                    full.skip(k as int),
                ),
            decreases segs@.len() - k,
        {
            proof {
                assert(full.skip(k as int).drop_first() =~= full.skip(k as int + 1));
                assert(full.skip(k as int)[0] == full[k as int]);
                assert(full[k as int] == seg_view(s@, segs@[k as int]));
            }
            match segs[k] {
                Seg::Cur => {},
                Seg::Par => {
                    if cur == 0 {
                        return None;
                    }
                    proof {
                        assert(self.node_ok(cur as int));
                    }
                    cur = self.nodes[cur].parent;
                },
                Seg::Name(a, b) => {
                    match self.find_child_range(cur, s, a, b) {
                        Option::Some(n) => {
                            cur = n;
                        },
                        Option::None => {
                            return None;
                        },
                    }
                },
            }
            k = k + 1;
        }
        proof {
            assert(full.skip(segs@.len() as int) =~= Seq::<SegV>::empty());
        }
        Some(cur)
    }

    /// The engine's path lookup: the node `path` names from `from`, or
    /// absence when any step of the resolution fails.
    pub fn get_node(&self, from: usize, path: &str) -> (r: Option<usize>)
        requires
            self.wf(),
            from < self.node_count(),
        ensures
            r == self.spec_get_node(from, path@),
            r matches Option::Some(n) ==> n < self.node_count(),
    {
        let (absolute, segs) = parse(path);
        let ghost full = segs_view(path@, segs@);
        if absolute {
            if segs.len() == 0 {
                return None;
            }
            proof {
                assert(full[0] == seg_view(path@, segs@[0]));
                assert(full.skip(1) =~= full.drop_first());
            }
            match segs[0] {
                Seg::Name(a, b) => {
                    if str_range_eq(path, a, b, self.nodes[0].name.as_str()) {
                        self.resolve(0, path, &segs, 1)
                    } else {
                        None
                    }
                },
                _ => None,
            }
        } else {
            proof {
                assert(full.skip(0) =~= full);
            }
            self.resolve(from, path, &segs, 0)
        }
    }
}

} // verus!
