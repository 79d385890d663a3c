//! The document tree: what a parsed document holds, before anything is made of it.

use vstd::prelude::*;

verus! {

/// A node of a parsed document, with all that hangs below it.
#[derive(Debug, PartialEq)]
pub enum Node {
    /// A string.
    Text(String),
    /// An integer.
    Integer(i64),
    /// A real number, by the IEEE 754 bit pattern of its double-precision value.
    Real(u64),
    /// A truth value.
    Boolean(bool),
    /// A date, a time or both, in the notation of the document.
    Moment(String),
    /// An array.
    List(Vec<Node>),
    /// A table: its keys with their values, in the order of the keys.
    Table(Vec<(String, Node)>),
}

/// The mathematical model of a [`Node`].
pub enum Tree {
    Text(Seq<char>),
    Integer(i64),
    Real(u64),
    Boolean(bool),
    Moment(Seq<char>),
    List(Seq<Tree>),
    Table(Seq<(Seq<char>, Tree)>),
}

impl Node {
    /// The model of this value.
    pub open spec fn model(self) -> Tree
        decreases self,
    {
        match self {
            Node::Text(s) => Tree::Text(s@),
            Node::Integer(n) => Tree::Integer(n),
            Node::Real(bits) => Tree::Real(bits),
            Node::Boolean(b) => Tree::Boolean(b),
            Node::Moment(s) => Tree::Moment(s@),
            Node::List(items) => Tree::List(
                Seq::new(
                    items@.len(),
                    |i: int|
                        if 0 <= i < items@.len() {
                            items@[i].model()
                        } else {
                            Tree::Boolean(false)
                        },
                ),
            ),
            Node::Table(entries) => Tree::Table(
                Seq::new(
                    entries@.len(),
                    |i: int|
                        if 0 <= i < entries@.len() {
                            (entries@[i].0@, entries@[i].1.model())
                        } else {
                            (Seq::empty(), Tree::Boolean(false))
                        },
                ),
            ),
        }
    }
}

impl View for Node {
    type V = Tree;

    open spec fn view(&self) -> Tree {
        self.model()
    }
}

/// Whether `i` is the first place in `entries` that holds `key`.
pub open spec fn first_at(entries: Seq<(Seq<char>, Tree)>, key: Seq<char>, i: int) -> bool {
    &&& 0 <= i < entries.len()
    &&& entries[i].0 == key
    &&& forall|j: int| 0 <= j < i ==> (#[trigger] entries[j]).0 != key
}

/// The value that `entries` gives to `key`: that of the first entry with this key.
#[verifier::opaque]
pub open spec fn lookup(entries: Seq<(Seq<char>, Tree)>, key: Seq<char>) -> Option<Tree> {
    if exists|i: int| first_at(entries, key, i) {
        Some(entries[choose|i: int| first_at(entries, key, i)].1)
    } else {
        None
    }
}

impl Tree {
    /// The value under `key`, where this is a table that has the key.
    pub open spec fn field(self, key: Seq<char>) -> Option<Tree> {
        match self {
            Tree::Table(entries) => lookup(entries, key),
            _ => None,
        }
    }

    /// A table without entries.
    pub open spec fn empty_table() -> Tree {
        Tree::Table(Seq::empty())
    }
}

/// An item of an array lies below the array.
pub proof fn lemma_item_below(tree: Tree, i: int)
    requires
        tree is List,
        0 <= i < tree->List_0.len(),
    ensures
        decreases_to!(tree => tree->List_0[i]),
{
    match tree {
        Tree::List(items) => {
            assert(decreases_to!(tree => items));
            assert(decreases_to!(items => items[i]));
        },
        _ => {},
    }
}

/// The value of an entry lies below its table.
pub proof fn lemma_entry_below(tree: Tree, i: int)
    requires
        tree is Table,
        0 <= i < tree->Table_0.len(),
    ensures
        decreases_to!(tree => tree->Table_0[i].1),
{
    match tree {
        Tree::Table(entries) => {
            assert(decreases_to!(tree => entries));
            assert(decreases_to!(entries => entries[i]));
            assert(decreases_to!(entries[i] => entries[i].1));
        },
        _ => {},
    }
}

/// Two first places of one key are the same place.
pub proof fn lemma_first_at_unique(entries: Seq<(Seq<char>, Tree)>, key: Seq<char>, i: int, j: int)
    requires
        first_at(entries, key, i),
        first_at(entries, key, j),
    ensures
        i == j,
{
    if i < j {
        assert(entries[i].0 != key);
    }
    if j < i {
        assert(entries[j].0 != key);
    }
}

impl Node {
    /// The value under `key`, where this is a table that has the key.
    pub fn get(&self, key: &str) -> (r: Option<&Node>)
        ensures
            match r {
                Some(v) => self@.field(key@) == Some(v@),
                None => self@.field(key@) is None,
            },
    {
        reveal(lookup);
        match self {
            Node::Table(entries) => {
                let ghost model = self@->Table_0;
                let mut i: usize = 0;
                while i < entries.len()
                    invariant
                        i <= entries.len(),
                        self@ == Tree::Table(model),
                        model.len() == entries@.len(),
                        forall|j: int|
                            0 <= j < entries@.len() ==> (#[trigger] model[j]) == (
                                entries@[j].0@,
                                entries@[j].1@,
                            ),
                        forall|j: int| 0 <= j < i ==> (#[trigger] model[j]).0 != key@,
                    decreases entries.len() - i,
                {
                    if crate::strings::same_text(entries[i].0.as_str(), key) {
                        proof {
                            reveal(lookup);
                            assert(first_at(model, key@, i as int));
                            let c = choose|c: int| first_at(model, key@, c);
                            lemma_first_at_unique(model, key@, i as int, c);
                        }
                        return Some(&entries[i].1);
                    }
                    i += 1;
                }
                proof {
                    assert forall|c: int| !first_at(model, key@, c) by {
                        if first_at(model, key@, c) {
                            assert(model[c].0 != key@);
                        }
                    }
                }
                None
            },
            _ => None,
        }
    }

    /// The text of a string.
    pub fn as_text(&self) -> (r: Option<&str>)
        ensures
            match r {
                Some(s) => self@ == Tree::Text(s@),
                None => !(self@ is Text),
            },
    {
        match self {
            Node::Text(s) => Some(s.as_str()),
            _ => None,
        }
    }

    /// The number of an integer.
    pub fn as_integer(&self) -> (r: Option<i64>)
        ensures
            match r {
                Some(n) => self@ == Tree::Integer(n),
                None => !(self@ is Integer),
            },
    {
        match self {
            Node::Integer(n) => Some(*n),
            _ => None,
        }
    }

    /// The items of an array.
    pub fn as_list(&self) -> (r: Option<&Vec<Node>>)
        ensures
            match r {
                Some(items) => self@ is List && self@->List_0.len() == items@.len() && forall|
                    i: int,
                | 0 <= i < items@.len() ==> (#[trigger] self@->List_0[i]) == items@[i]@,
                None => !(self@ is List),
            },
    {
        match self {
            Node::List(items) => {
                assert(self@ is List);
                assert(self@->List_0.len() == items@.len());
                Some(items)
            },
            _ => None,
        }
    }

    /// The entries of a table.
    pub fn as_table(&self) -> (r: Option<&Vec<(String, Node)>>)
        ensures
            match r {
                Some(entries) => self@ is Table && self@->Table_0.len() == entries@.len()
                    && forall|i: int|
                    0 <= i < entries@.len() ==> (#[trigger] self@->Table_0[i]) == (
                        entries@[i].0@,
                        entries@[i].1@,
                    ),
                None => !(self@ is Table),
            },
    {
        match self {
            Node::Table(entries) => Some(entries),
            _ => None,
        }
    }
}

} // verus!
