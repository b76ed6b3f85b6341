use vstd::prelude::*;

verus! {

/// The error returned when a name is searched that no node of the tree has.
/// It keeps the name that was searched.
#[derive(Debug)]
pub struct NoSuchNodeError {
    pub name: String,
}

impl NoSuchNodeError {
    /// The name that was searched and not found.
    pub fn cause_name(&self) -> (r: &str)
        ensures
            r@ == self.name@,
    {
        self.name.as_str()
    }

    /// A sentence that says which name was not found.
    pub fn message(&self) -> (r: String)
        ensures
            r@ == "There is no node with the name \""@ + self.name@ + "\" in the tree"@,
    {
        let mut r = "There is no node with the name \"".to_owned();
        r.append(self.name.as_str());
        r.append("\" in the tree");
        r
    }
}

/// A node of the menu tree: a category that groups other nodes, or a
/// location that carries the index of its vertex in the cost graph.
#[derive(Debug)]
pub enum MenuTree {
    /// A category other nodes are put into.
    MiddleNode { name: String, children: Vec<MenuTree> },
    /// A location, with the index of its vertex in the graph.
    EndNode { name: String, index: usize },
}

/// A menu tree in mathematical terms: each node with its name, a category
/// with its children in order, a location with the index of its vertex.
pub enum NodeView {
    Category(Seq<char>, Seq<NodeView>),
    Location(Seq<char>, int),
}

impl MenuTree {
    /// The tree in mathematical terms.
    pub open spec fn shape(self) -> NodeView
        decreases self,
    {
        match self {
            MenuTree::MiddleNode { name, children } => NodeView::Category(
                name@,
                shapes(children@),
            ),
            MenuTree::EndNode { name, index } => NodeView::Location(name@, index as int),
        }
    }

    /// The node's own name.
    pub open spec fn label(self) -> Seq<char> {
        match self {
            MenuTree::MiddleNode { name, .. } => name@,
            MenuTree::EndNode { name, .. } => name@,
        }
    }

    /// The first node, in depth-first pre-order (a node before its children,
    /// the children in their stored order), whose name is `key`.
    pub open spec fn find(self, key: Seq<char>) -> Option<MenuTree>
        decreases self, 0int,
    {
        if self.label() == key {
            Some(self)
        } else {
            match self {
                MenuTree::EndNode { .. } => None,
                MenuTree::MiddleNode { children, .. } => find_from(children@, key, 0),
            }
        }
    }

    /// Every location in the tree carries an index below `n`.
    pub open spec fn handles_below(self, n: int) -> bool
        decreases self,
    {
        match self {
            MenuTree::EndNode { index, .. } => index < n,
            MenuTree::MiddleNode { children, .. } => forall|i: int|
                0 <= i < children@.len() ==> (#[trigger] children@[i]).handles_below(n),
        }
    }

    /// Whether every location in the tree carries an index below `n`.
    pub fn handles_within(&self, n: usize) -> (r: bool)
        ensures
            r == self.handles_below(n as int),
        decreases self,
    {
        match self {
            MenuTree::EndNode { index, .. } => *index < n,
            MenuTree::MiddleNode { name, children } => {
                let mut i: usize = 0;
                while i < children.len()
                    invariant
                        i <= children@.len(),
                        self == (MenuTree::MiddleNode { name: *name, children: *children }),
                        forall|j: int| 0 <= j < i ==> (#[trigger] children@[j]).handles_below(n as int),
                    decreases children@.len() - i,
                {
                    let child = &children[i];
                    assert(decreases_to!(*self => self->children));
                    assert(decreases_to!(self => children@[i as int]));
                    if !child.handles_within(n) {
                        return false;
                    }
                    i = i + 1;
                }
                true
            },
        }
    }

    /// What a search finds lies in the tree, so it carries an index below any
    /// bound that all of the tree's indices are below.
    pub proof fn lemma_found_within(self, key: Seq<char>, n: int)
        requires
            self.handles_below(n),
            self.find(key) is Some,
        ensures
            self.find(key)->0.handles_below(n),
        decreases self, 0int,
    {
        if self.label() != key {
            match self {
                MenuTree::EndNode { .. } => {},
                MenuTree::MiddleNode { children, .. } => {
                    lemma_found_among_within(children@, key, 0, n);
                },
            }
        }
    }

    /// The name of the node.
    pub fn name(&self) -> (r: &str)
        ensures
            r@ == self.label(),
    {
        match self {
            MenuTree::MiddleNode { name, .. } => name.as_str(),
            MenuTree::EndNode { name, .. } => name.as_str(),
        }
    }

    /// The name of the node.
    pub fn get_name(&self) -> (r: &str)
        ensures
            r@ == self.label(),
    {
        self.name()
    }

    /// The index of a location's vertex in the graph. Only a location has
    /// one: asking a category is a mistake of the caller.
    pub fn get_index(&self) -> (r: usize)
        requires
            self is EndNode,
        ensures
            r == self->index,
    {
        match self {
            MenuTree::EndNode { index, .. } => *index,
            MenuTree::MiddleNode { .. } => unreached(),
        }
    }

    /// The first node with the given name, for callers that know it is in the
    /// tree.
    pub fn node(&self, name: &str) -> (r: &MenuTree)
        requires
            self.find(name@) is Some,
        ensures
            self.find(name@) == Some(*r),
    {
        match self.search(name) {
            Ok(node) => node,
            Err(_) => unreached(),
        }
    }

    /// Searches the tree for the first node with the given name.
    ///
    /// If no node has that name, a [`NoSuchNodeError`] that holds the name is
    /// returned.
    pub fn search(&self, search_name: &str) -> (r: Result<&MenuTree, NoSuchNodeError>)
        ensures
            match r {
                Ok(node) => self.find(search_name@) == Some(*node),
                Err(e) => self.find(search_name@) is None && e.name@ == search_name@,
            },
    {
        let key = search_name.to_owned();
        match self.search_key(&key) {
            Some(node) => Ok(node),
            None => Err(NoSuchNodeError { name: key }),
        }
    }

    fn search_key(&self, key: &String) -> (r: Option<&MenuTree>)
        ensures
            match r {
                Some(node) => self.find(key@) == Some(*node),
                None => self.find(key@) is None,
            },
        decreases self,
    {
        match self {
            MenuTree::EndNode { name, .. } => {
                if name.eq(key) {
                    Some(self)
                } else {
                    None
                }
            },
            MenuTree::MiddleNode { name, children } => {
                if name.eq(key) {
                    return Some(self);
                }
                let mut i: usize = 0;
                while i < children.len()
                    invariant
                        i <= children@.len(),
                        self.find(key@) == find_from(children@, key@, i as int),
                        self == (MenuTree::MiddleNode { name: *name, children: *children }),
                    decreases children@.len() - i,
                {
                    let child = &children[i];
                    assert(decreases_to!(self => children@[i as int]));
                    let found = child.search_key(key);
                    if found.is_some() {
                        return found;
                    }
                    i = i + 1;
                }
                None
            },
        }
    }
}

/// The shapes of the subtrees `nodes`, in order.
pub open spec fn shapes(nodes: Seq<MenuTree>) -> Seq<NodeView>
    decreases nodes,
{
    if nodes.len() == 0 {
        Seq::empty()
    } else {
        shapes(nodes.drop_last()).push(nodes.last().shape())
    }
}

/// The first node named `key` among the subtrees `nodes[i..]`, each searched
/// in depth-first pre-order.
pub open spec fn find_from(nodes: Seq<MenuTree>, key: Seq<char>, i: int) -> Option<MenuTree>
    decreases nodes, nodes.len() - i,
{
    if i < 0 || i >= nodes.len() {
        None
    } else {
        match nodes[i].find(key) {
            Some(n) => Some(n),
            None => find_from(nodes, key, i + 1),
        }
    }
}

/// What a search among subtrees finds lies in one of them.
pub proof fn lemma_found_among_within(nodes: Seq<MenuTree>, key: Seq<char>, i: int, n: int)
    requires
        forall|j: int| 0 <= j < nodes.len() ==> (#[trigger] nodes[j]).handles_below(n),
        find_from(nodes, key, i) is Some,
    ensures
        find_from(nodes, key, i)->0.handles_below(n),
    decreases nodes, nodes.len() - i,
{
    if 0 <= i < nodes.len() {
        if nodes[i].find(key) is Some {
            nodes[i].lemma_found_within(key, n);
        } else {
            lemma_found_among_within(nodes, key, i + 1, n);
        }
    }
}

} // verus!
