//! The named variants of one kind of widget.

use crate::assoc::{find, lemma_map_of_agrees, map_of};
use crate::color::{Color, ColorMap};
use crate::error::{Error, Fault};
use crate::node::{Node, Tree};
use vstd::pervasive::unreached;
use vstd::prelude::*;

verus! {

/// A style sheet of one kind of widget.
pub trait Sheet: Sized {
    /// The sheet that a node writes, with `local` for the colours that the document names.
    spec fn of(t: Tree, local: Map<Seq<char>, Color>) -> Result<Self, Fault>;

    /// The sheet of a variant that sets nothing.
    spec fn baseline() -> Self;

    /// Reads a sheet.
    fn decode(v: &Node, local: &ColorMap) -> (r: Result<Self, Error>)
        ensures
            match r {
                Ok(sheet) => Self::of(v@, local@) == Ok::<Self, Fault>(sheet),
                Err(e) => Self::of(v@, local@) == Err::<Self, Fault>(e@),
            },
    ;

    /// The sheet of a variant that sets nothing.
    fn base() -> (r: Self)
        ensures
            r == Self::baseline(),
    ;

    /// A table without entries writes the sheet that sets nothing.
    proof fn lemma_empty_is_baseline(local: Map<Seq<char>, Color>)
        ensures
            Self::of(Tree::empty_table(), local) == Ok::<Self, Fault>(Self::baseline()),
    ;

    /// A node that writes no sheet is at fault for what it holds.
    proof fn lemma_fault_is_of_document(t: Tree, local: Map<Seq<char>, Color>)
        ensures
            Self::of(t, local) matches Err(e) ==> e.of_document(),
    ;
}

/// The name of the variant that every map of sheets holds.
pub open spec fn default_name() -> Seq<char> {
    "default"@
}

/// The variants that the first `n` entries of a table write, a later entry replacing an
/// earlier one of its name; the fault of the first entry that writes no sheet.
pub open spec fn variants_of<S: Sheet>(
    entries: Seq<(Seq<char>, Tree)>,
    n: nat,
    local: Map<Seq<char>, Color>,
) -> Result<Map<Seq<char>, S>, Fault>
    decreases n,
{
    if n == 0 {
        Ok(Map::empty())
    } else {
        match variants_of::<S>(entries, (n - 1) as nat, local) {
            Err(e) => Err(e),
            Ok(m) => match S::of(entries[n - 1].1, local) {
                Err(e) => Err(e),
                Ok(sheet) => Ok(m.insert(entries[n - 1].0, sheet)),
            },
        }
    }
}

/// The variants with the default one added, where they do not hold it.
pub open spec fn initialized<S: Sheet>(m: Map<Seq<char>, S>) -> Map<Seq<char>, S> {
    if m.contains_key(default_name()) {
        m
    } else {
        m.insert(default_name(), S::baseline())
    }
}

/// The map of sheets that the section of a kind of widget writes.
///
/// A section left out writes no variant, and a section that is no table is a fault. The
/// default variant is there in any case.
#[verifier::opaque]
pub open spec fn sheet_map_of<S: Sheet>(node: Option<Tree>, local: Map<Seq<char>, Color>) -> Result<
    Map<Seq<char>, S>,
    Fault,
> {
    match node {
        None => Ok(initialized::<S>(Map::empty())),
        Some(Tree::Table(entries)) => match variants_of::<S>(entries, entries.len(), local) {
            Ok(m) => Ok(initialized(m)),
            Err(e) => Err(e),
        },
        Some(_) => Err(Fault::Shape),
    }
}

/// Once an entry is at fault, the fault stays whatever follows.
pub proof fn lemma_fault_stays<S: Sheet>(
    entries: Seq<(Seq<char>, Tree)>,
    k: nat,
    n: nat,
    local: Map<Seq<char>, Color>,
)
    requires
        k <= n,
        variants_of::<S>(entries, k, local) is Err,
    ensures
        variants_of::<S>(entries, n, local) == variants_of::<S>(entries, k, local),
    decreases n,
{
    if k < n {
        lemma_fault_stays::<S>(entries, k, (n - 1) as nat, local);
    }
}

/// Every name among the variants is the key of one of the entries.
pub proof fn lemma_variant_names<S: Sheet>(
    entries: Seq<(Seq<char>, Tree)>,
    n: nat,
    local: Map<Seq<char>, Color>,
    name: Seq<char>,
)
    requires
        n <= entries.len(),
        variants_of::<S>(entries, n, local) is Ok,
        forall|i: int| 0 <= i < n ==> (#[trigger] entries[i]).0 != name,
    ensures
        !variants_of::<S>(entries, n, local)->Ok_0.contains_key(name),
    decreases n,
{
    if n > 0 {
        assert(entries[n - 1].0 != name);
        lemma_variant_names::<S>(entries, (n - 1) as nat, local, name);
    }
}

/// A section that writes no map of sheets is at fault for what it holds.
pub proof fn lemma_section_fault_is_of_document<S: Sheet>(
    node: Option<Tree>,
    local: Map<Seq<char>, Color>,
)
    ensures
        sheet_map_of::<S>(node, local) matches Err(e) ==> e.of_document(),
{
    reveal(sheet_map_of);
    match node {
        Some(Tree::Table(entries)) => {
            lemma_variants_fault_is_of_document::<S>(entries, entries.len(), local);
        },
        _ => {},
    }
}

/// Entries that write no variants are at fault for what they hold.
pub proof fn lemma_variants_fault_is_of_document<S: Sheet>(
    entries: Seq<(Seq<char>, Tree)>,
    n: nat,
    local: Map<Seq<char>, Color>,
)
    ensures
        variants_of::<S>(entries, n, local) matches Err(e) ==> e.of_document(),
    decreases n,
{
    if n > 0 {
        lemma_variants_fault_is_of_document::<S>(entries, (n - 1) as nat, local);
        S::lemma_fault_is_of_document(entries[n - 1].1, local);
    }
}

/// Every variant of a section was written by an entry of the section under its name.
pub proof fn lemma_variant_was_written<S: Sheet>(
    entries: Seq<(Seq<char>, Tree)>,
    n: nat,
    local: Map<Seq<char>, Color>,
    name: Seq<char>,
)
    requires
        n <= entries.len(),
        variants_of::<S>(entries, n, local) is Ok,
        variants_of::<S>(entries, n, local)->Ok_0.contains_key(name),
    ensures
        exists|i: int|
            0 <= i < n && (#[trigger] entries[i]).0 == name && S::of(entries[i].1, local) == Ok::<
                S,
                Fault,
            >(variants_of::<S>(entries, n, local)->Ok_0[name]),
    decreases n,
{
    if n > 0 {
        if entries[n - 1].0 == name {
            assert(entries[n - 1].0 == name && S::of(entries[n - 1].1, local) == Ok::<S, Fault>(
                variants_of::<S>(entries, n, local)->Ok_0[name],
            ));
        } else {
            lemma_variant_was_written::<S>(entries, (n - 1) as nat, local, name);
        }
    }
}

/// Every map of sheets that a section writes holds the default variant.
pub proof fn lemma_default_is_there<S: Sheet>(node: Option<Tree>, local: Map<Seq<char>, Color>)
    requires
        sheet_map_of::<S>(node, local) is Ok,
    ensures
        sheet_map_of::<S>(node, local)->Ok_0.contains_key(default_name()),
{
    reveal(sheet_map_of);
}

/// Where a section names no default variant, or is left out, the default variant is the sheet
/// that sets nothing.
pub proof fn lemma_unnamed_default_is_baseline<S: Sheet>(
    node: Option<Tree>,
    local: Map<Seq<char>, Color>,
)
    requires
        sheet_map_of::<S>(node, local) is Ok,
        node matches Some(Tree::Table(entries)) ==> forall|i: int|
            0 <= i < entries.len() ==> (#[trigger] entries[i]).0 != default_name(),
    ensures
        sheet_map_of::<S>(node, local)->Ok_0[default_name()] == S::baseline(),
{
    reveal(sheet_map_of);
    match node {
        Some(Tree::Table(entries)) => {
            lemma_variant_names::<S>(entries, entries.len(), local, default_name());
        },
        _ => {},
    }
}

/// That a map of sheets holds no variant of some name.
#[derive(Debug, PartialEq, Eq)]
pub struct LookupError {
    /// The name that was asked for.
    pub name: String,
}

/// The style sheets of one kind of widget, each under the name of its variant.
///
/// A map always holds the variant `default`.
#[derive(Debug)]
pub struct SheetMap<S> {
    entries: Vec<(String, S)>,
}

impl<S> View for SheetMap<S> {
    type V = Map<Seq<char>, S>;

    closed spec fn view(&self) -> Map<Seq<char>, S> {
        map_of(self.entries@, self.entries@.len())
    }
}

impl<S> SheetMap<S> {
    #[verifier::type_invariant]
    spec fn holds_default(self) -> bool {
        map_of(self.entries@, self.entries@.len()).contains_key(default_name())
    }

    /// The sheet of the variant `default`.
    pub fn get_default(&self) -> (r: &S)
        ensures
            self@.contains_key(default_name()),
            *r == self@[default_name()],
    {
        proof {
            use_type_invariant(self);
        }
        match find(&self.entries, "default") {
            Some(sheet) => sheet,
            None => unreached(),
        }
    }

    /// The sheet of the variant `name`, or the fact that there is none.
    pub fn get(&self, name: &str) -> (r: Result<&S, LookupError>)
        ensures
            match r {
                Ok(sheet) => self@.contains_key(name@) && *sheet == self@[name@],
                Err(e) => !self@.contains_key(name@) && e.name@ == name@,
            },
    {
        match find(&self.entries, name) {
            Some(sheet) => Ok(sheet),
            None => Err(LookupError { name: name.to_owned() }),
        }
    }

    /// Whether there is a variant `name`.
    pub fn contains(&self, name: &str) -> (r: bool)
        ensures
            r == self@.contains_key(name@),
    {
        find(&self.entries, name).is_some()
    }
}

impl<S> std::ops::Deref for SheetMap<S> {
    type Target = S;

    /// The sheet of the variant `default`.
    fn deref(&self) -> (r: &S)
        ensures
            self@.contains_key(default_name()),
            *r == self@[default_name()],
    {
        self.get_default()
    }
}

impl<S: Sheet> SheetMap<S> {
    /// The map that holds the default variant alone.
    pub fn new() -> (r: SheetMap<S>)
        ensures
            r@ == initialized::<S>(Map::empty()),
    {
        let mut entries: Vec<(String, S)> = Vec::new();
        entries.push(("default".to_owned(), S::base()));
        assert(map_of(entries@, 0) == Map::<Seq<char>, S>::empty());
        SheetMap { entries }
    }

    /// Reads the section of one kind of widget.
    pub fn decode(node: Option<&Node>, local: &ColorMap) -> (r: Result<SheetMap<S>, Error>)
        ensures
            match r {
                Ok(m) => sheet_map_of::<S>(node_model(node), local@) == Ok::<
                    Map<Seq<char>, S>,
                    Fault,
                >(m@),
                Err(e) => sheet_map_of::<S>(node_model(node), local@) == Err::<
                    Map<Seq<char>, S>,
                    Fault,
                >(e@),
            },
    {
        reveal(sheet_map_of);
        let section = match node {
            None => {
                return Ok(SheetMap::new());
            },
            Some(section) => section,
        };
        let entries = match section.as_table() {
            None => {
                return Err(Error::Shape);
            },
            Some(entries) => entries,
        };
        let ghost model = section@->Table_0;
        let mut out: Vec<(String, S)> = Vec::new();
        let mut i: usize = 0;
        while i < entries.len()
            invariant
                i <= entries.len(),
                out@.len() == i,
                node_model(node) == Some(Tree::Table(model)),
                model.len() == entries@.len(),
                forall|j: int|
                    0 <= j < entries@.len() ==> (#[trigger] model[j]) == (
                        entries@[j].0@,
                        entries@[j].1@,
                    ),
                variants_of::<S>(model, i as nat, local@) == Ok::<Map<Seq<char>, S>, Fault>(
                    map_of(out@, i as nat),
                ),
            decreases entries.len() - i,
        {
            let ghost before = out@;
            assert(model[i as int] == (entries@[i as int].0@, entries@[i as int].1@));
            match S::decode(&entries[i].1, local) {
                Err(e) => {
                    proof {
                        reveal(sheet_map_of);
                        lemma_fault_stays::<S>(model, (i + 1) as nat, model.len(), local@);
                    }
                    return Err(e);
                },
                Ok(sheet) => {
                    out.push((entries[i].0.clone(), sheet));
                    proof {
                        lemma_map_of_agrees(before, out@, i as nat);
                    }
                },
            }
            i += 1;
        }
        let ghost before = out@;
        if find(&out, "default").is_none() {
            out.push(("default".to_owned(), S::base()));
            proof {
                lemma_map_of_agrees(before, out@, before.len());
            }
        }
        Ok(SheetMap { entries: out })
    }
}

/// The model of a node that may be left out.
pub open spec fn node_model(node: Option<&Node>) -> Option<Tree> {
    match node {
        Some(v) => Some(v@),
        None => None,
    }
}

} // verus!
