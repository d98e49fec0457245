//! A tree of named, identified nodes backing the puzzle explorer pane.
//!
//! Ids are plain integers handed out by the node a child is inserted
//! under, so no global state is involved; lookups return the first node
//! carrying an id in depth-first order.

use vstd::prelude::*;

use crate::text::str_eq;

verus! {

/// A stable identifier of an explorer node.
#[derive(Debug, PartialEq, Eq, Structural, Clone, Copy)]
pub struct ExplorerId {
    pub value: usize,
}

/// A node of the explorer tree: a name, an id, and — once anything was
/// inserted below it — a list of children with an expansion flag.
pub struct ExplorerObject {
    name: String,
    id: ExplorerId,
    expanable: Option<(Vec<ExplorerObject>, bool)>,
    next_id: usize,
}

/// The first node with the given id in `node`, then in its children left
/// to right, depth first.
pub closed spec fn find_node(node: ExplorerObject, id: nat) -> Option<ExplorerObject>
    decreases node, 1nat,
{
    if node.id.value as nat == id {
        Some(node)
    } else {
        match node.expanable {
            Some((children, _)) => find_in(children@, id),
            None => None,
        }
    }
}

/// The first node with the given id within a forest, depth first.
pub closed spec fn find_in(nodes: Seq<ExplorerObject>, id: nat) -> Option<ExplorerObject>
    decreases nodes, 0nat,
{
    if nodes.len() == 0 {
        None
    } else if find_node(nodes[0], id) is Some {
        find_node(nodes[0], id)
    } else {
        find_in(nodes.subrange(1, nodes.len() as int), id)
    }
}

/// Whether some node of the forest carries the given name.
pub open spec fn has_child_named(children: Seq<ExplorerObject>, name: Seq<char>) -> bool {
    exists|j: int| 0 <= j < children.len() && (#[trigger] children[j]).spec_name() == name
}

impl ExplorerObject {
    /// The node's name.
    pub closed spec fn spec_name(&self) -> Seq<char> {
        self.name@
    }

    /// The node's id.
    pub closed spec fn spec_id(&self) -> nat {
        self.id.value as nat
    }

    /// The node's children and expansion flag, if anything was inserted.
    pub closed spec fn spec_children(&self) -> Option<(Seq<ExplorerObject>, bool)> {
        match &self.expanable {
            Some((children, expanded)) => Some((children@, *expanded)),
            None => None,
        }
    }

    /// A leaf node with the given name, id zero, no children yet.
    pub fn new(name: String) -> (r: ExplorerObject)
        ensures
            r.spec_name() == name@,
            r.spec_id() == 0,
            r.spec_children() is None,
    {
        ExplorerObject { name, id: ExplorerId { value: 0 }, expanable: None, next_id: 1 }
    }

    /// A folder node holding every given path inserted in order.
    pub fn build_folder(name: String, paths: &Vec<Vec<String>>) -> (r: ExplorerObject)
        ensures
            r.spec_name() == name@,
            r.spec_id() == 0,
    {
        let ghost name_chars = name@;
        let mut folder = ExplorerObject::new(name);
        let mut i: usize = 0;
        while i < paths.len()
            invariant
                folder.spec_name() == name_chars,
                folder.spec_id() == 0,
            decreases paths@.len() - i,
        {
            folder.push_path(paths[i].as_slice());
            i = i + 1;
        }
        folder
    }

    /// Appends a fully built node as the last child, making this node
    /// expandable (and collapsed) if it was a leaf.
    pub fn push(&mut self, object: ExplorerObject)
        ensures
            final(self).spec_name() == old(self).spec_name(),
            final(self).spec_id() == old(self).spec_id(),
            match old(self).spec_children() {
                Some((children, expanded)) => final(self).spec_children() == Some(
                    (children.push(object), expanded),
                ),
                None => final(self).spec_children() == Some((seq![object], false)),
            },
    {
        match &mut self.expanable {
            Some((children, _expanded)) => {
                children.push(object);
            },
            None => {
                let mut children: Vec<ExplorerObject> = Vec::new();
                children.push(object);
                proof {
                    assert(children@ =~= seq![object]);
                }
                self.expanable = Some((children, false));
            },
        }
    }

    /// Inserts a path of names below this node: each segment reuses the
    /// first existing child of that name, and a missing child is created
    /// with the next id of the node it is inserted under. An empty path
    /// changes nothing.
    pub fn push_path(&mut self, path: &[String])
        ensures
            final(self).spec_name() == old(self).spec_name(),
            final(self).spec_id() == old(self).spec_id(),
            path@.len() > 0 ==> (final(self).spec_children() matches Some((children, _))
                && has_child_named(children, path@[0]@)),
            path@.len() == 0 ==> final(self).spec_children() == old(self).spec_children(),
    {
        self.push_path_from(path, 0);
    }

    #[verifier::loop_isolation(false)]
    fn push_path_from(&mut self, path: &[String], from: usize)
        ensures
            final(self).spec_name() == old(self).spec_name(),
            final(self).spec_id() == old(self).spec_id(),
            from < path@.len() ==> (final(self).spec_children() matches Some((children, _))
                && has_child_named(children, path@[from as int]@)),
            from >= path@.len() ==> final(self).spec_children() == old(self).spec_children(),
        decreases path@.len() - from,
    {
        if from >= path.len() {
            return ;
        }
        let fresh_id = self.next_id;
        if self.next_id < usize::MAX {
            self.next_id = self.next_id + 1;
        }
        if self.expanable.is_none() {
            let mut node = ExplorerObject {
                name: path[from].clone(),
                id: ExplorerId { value: fresh_id },
                expanable: None,
                next_id: 1,
            };
            node.push_path_from(path, from + 1);
            let ghost node_snapshot = node;
            let mut children: Vec<ExplorerObject> = Vec::new();
            children.push(node);
            proof {
                assert(children@[0] == node_snapshot);
            }
            self.expanable = Some((children, false));
            proof {
                let cs = self.spec_children().unwrap().0;
                assert(cs[0].spec_name() == path@[from as int]@);
                assert(has_child_named(cs, path@[from as int]@));
            }
            return ;
        }
        match &mut self.expanable {
            Some((children, _expanded)) => {
                let n = children.len();
                let mut found: Option<usize> = None;
                let mut j: usize = 0;
                while j < n
                    invariant
                        n == children@.len(),
                        j <= n,
                        from < path@.len(),
                        match found {
                            Some(k) => k < n && children@[k as int].spec_name()
                                == path@[from as int]@,
                            None => true,
                        },
                    decreases n - j,
                {
                    if found.is_none() && str_eq(children[j].name.as_str(), path[from].as_str()) {
                        found = Some(j);
                    }
                    j = j + 1;
                }
                match found {
                    Some(k) => {
                        children[k].push_path_from(path, from + 1);
                        proof {
                            assert(children@[k as int].spec_name() == path@[from as int]@);
                            assert(has_child_named(children@, path@[from as int]@));
                        }
                    },
                    None => {
                        let mut node = ExplorerObject {
                            name: path[from].clone(),
                            id: ExplorerId { value: fresh_id },
                            expanable: None,
                            next_id: 1,
                        };
                        node.push_path_from(path, from + 1);
                        let ghost node_snapshot = node;
                        children.push(node);
                        proof {
                            assert(children@[children@.len() - 1] == node_snapshot);
                            assert(children@[children@.len() - 1].spec_name()
                                == path@[from as int]@);
                            assert(has_child_named(children@, path@[from as int]@));
                        }
                    },
                }
            },
            None => {
                proof {
                    assert(false);
                }
            },
        }
    }

    /// The node's id.
    pub fn id(&self) -> (r: ExplorerId)
        ensures
            r.value as nat == self.spec_id(),
    {
        self.id
    }

    /// The node's name.
    pub fn name(&self) -> (r: &String)
        ensures
            r@ == self.spec_name(),
    {
        &self.name
    }

    /// The node's children and expansion flag, if it is expandable.
    pub fn expanded(&self) -> (r: Option<(&Vec<ExplorerObject>, bool)>)
        ensures
            match r {
                Some((children, flag)) => self.spec_children() == Some((children@, flag)),
                None => self.spec_children() is None,
            },
    {
        match &self.expanable {
            Some((children, expanded)) => Some((children, *expanded)),
            None => None,
        }
    }

    /// Sets the expansion flag; a leaf node stays a leaf.
    pub fn expand(&mut self, value: bool)
        ensures
            final(self).spec_name() == old(self).spec_name(),
            final(self).spec_id() == old(self).spec_id(),
            match old(self).spec_children() {
                Some((children, _)) => final(self).spec_children() == Some((children, value)),
                None => final(self).spec_children() == old(self).spec_children(),
            },
    {
        if let Some((_, expanded)) = &mut self.expanable {
            *expanded = value;
        }
    }

    /// The first node carrying the id, in depth-first order, per
    /// [`find_node`].
    #[verifier::loop_isolation(false)]
    pub fn get_by_id(&self, id: ExplorerId) -> (r: Option<&ExplorerObject>)
        ensures
            match r {
                Some(node) => find_node(*self, id.value as nat) == Some(*node),
                None => find_node(*self, id.value as nat) is None,
            },
        decreases *self,
    {
        if self.id.value == id.value {
            return Some(self);
        }
        match &self.expanable {
            Some((children, _)) => {
                let n = children.len();
                proof {
                    assert(children@.subrange(0, n as int) =~= children@);
                }
                let mut j: usize = 0;
                while j < n
                    invariant
                        n == children@.len(),
                        j <= n,
                        find_in(children@, id.value as nat) == find_in(
                            children@.subrange(j as int, n as int),
                            id.value as nat,
                        ),
                    decreases n - j,
                {
                    proof {
                        let tail = children@.subrange(j as int, n as int);
                        assert(tail[0] == children@[j as int]);
                        assert(tail.subrange(1, tail.len() as int) =~= children@.subrange(
                            j + 1,
                            n as int,
                        ));
                    }
                    let child = &children[j];
                    proof {
                        assert(self.expanable is Some);
                        let pair = self.expanable->0;
                        assert(self.expanable == Some(pair));
                        assert(pair.0 == *children);
                        assert(pair.0@ == children@);
                        assert(decreases_to!(*self => self.expanable));
                        assert(decreases_to!(self.expanable => pair));
                        assert(decreases_to!(pair => pair.0));
                        assert(decreases_to!(pair.0 => pair.0@));
                        assert(decreases_to!(children@ => children@[j as int]));
                        assert(decreases_to!(*self => children@[j as int]));
                    }
                    match child.get_by_id(id) {
                        Some(node) => {
                            return Some(node);
                        },
                        None => {},
                    }
                    j = j + 1;
                }
                proof {
                    assert(children@.subrange(n as int, n as int).len() == 0);
                    assert(find_in(children@, id.value as nat) is None);
                }
                None
            },
            None => None,
        }
    }
}

} // verus!
