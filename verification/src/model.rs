//! The data a parse session owns, modeled as plain values: diagnostics
//! with an ordered severity scale, declaration-tree nodes keyed by
//! slash-delimited paths, and the typed errors of construction and of
//! queries.

use vstd::prelude::*;

verus! {

/// Diagnostic rank, from most to least severe.
#[derive(Clone, Copy, PartialEq, Eq, Structural, Debug)]
pub enum Severity {
    Error,
    Warning,
    Notice,
}

/// Position of a severity on the scale; a larger rank is more severe.
pub open spec fn severity_rank(s: Severity) -> int {
    match s {
        Severity::Error => 2,
        Severity::Warning => 1,
        Severity::Notice => 0,
    }
}

/// The label under which a severity is exported.
pub open spec fn severity_label(s: Severity) -> Seq<char> {
    match s {
        Severity::Error => seq!['e', 'r', 'r', 'o', 'r'],
        Severity::Warning => seq!['w', 'a', 'r', 'n', 'i', 'n', 'g'],
        Severity::Notice => seq!['n', 'o', 't', 'i', 'c', 'e'],
    }
}

/// The label under which a severity is exported.
pub fn severity_label_str(s: Severity) -> (r: &'static str)
    ensures
        r@ == severity_label(s),
{
    match s {
        Severity::Error => {
            let l = "error";
            proof {
                reveal_strlit("error");
                assert(l@ =~= severity_label(s));
            }
            l
        },
        Severity::Warning => {
            let l = "warning";
            proof {
                reveal_strlit("warning");
                assert(l@ =~= severity_label(s));
            }
            l
        },
        Severity::Notice => {
            let l = "notice";
            proof {
                reveal_strlit("notice");
                assert(l@ =~= severity_label(s));
            }
            l
        },
    }
}

/// Whether a diagnostic of severity `s` belongs in the diagnostics
/// query's output: everything at or below `Warning`, so `Error` entries
/// are excluded.
pub open spec fn diag_included(s: Severity) -> bool {
    severity_rank(s) <= severity_rank(Severity::Warning)
}

/// Whether a diagnostic of severity `s` belongs in the diagnostics
/// query's output.
pub fn severity_included(s: Severity) -> (r: bool)
    ensures
        r == diag_included(s),
{
    s != Severity::Error
}

/// One recorded diagnostic: severity, location, and message.
#[derive(Clone, Debug)]
pub struct Diagnostic {
    pub severity: Severity,
    pub file: String,
    pub line: u32,
    pub column: u32,
    pub message: String,
}

/// One declared property of a type node, forwarded opaquely.
#[derive(Clone, Debug)]
pub struct Property {
    pub name: String,
    pub value: String,
}

/// One node of the declaration tree: its slash-delimited path and its
/// declared properties.
#[derive(Clone, Debug)]
pub struct TypeNode {
    pub path: String,
    pub properties: Vec<Property>,
}

/// Whether `path` denotes the tree root: the empty string and `"/"`
/// are both aliases of the root.
pub open spec fn is_root_alias(path: Seq<char>) -> bool {
    path.len() == 0 || path == seq!['/']
}

/// Whether `path` denotes the tree root.
pub fn path_is_root_alias(path: &str) -> (r: bool)
    ensures
        r == is_root_alias(path@),
{
    let n = path.unicode_len();
    if n == 0 {
        true
    } else if n == 1 {
        let c = path.get_char(0);
        proof {
            if c == '/' {
                assert(path@ =~= seq!['/']);
            } else {
                assert(path@[0] == c);
            }
        }
        c == '/'
    } else {
        false
    }
}

/// The first node among `nodes` whose path is exactly `path`.
pub open spec fn first_match(nodes: Seq<TypeNode>, path: Seq<char>) -> Option<TypeNode>
    decreases nodes.len(),
{
    if nodes.len() == 0 {
        None
    } else if nodes[0].path@ == path {
        Some(nodes[0])
    } else {
        first_match(nodes.drop_first(), path)
    }
}

/// How a path is looked up in the declaration tree: the two root
/// aliases resolve to the root node, every other path requires an
/// exact match.
pub open spec fn resolve_spec(nodes: Seq<TypeNode>, path: Seq<char>) -> Option<TypeNode> {
    if is_root_alias(path) {
        if nodes.len() > 0 {
            Some(nodes[0])
        } else {
            None
        }
    } else {
        first_match(nodes, path)
    }
}

/// Relies on `str`'s `PartialEq`: slices are equal exactly when their
/// character sequences are.
#[verifier::external_body]
fn str_eq(a: &str, b: &str) -> (r: bool)
    ensures
        r == (a@ == b@),
{
    a == b
}

/// The declaration tree: a root node (path `""`) followed by every
/// further declared node, each addressed by its full path.
#[derive(Debug)]
pub struct DeclTree {
    nodes: Vec<TypeNode>,
}

impl View for DeclTree {
    type V = Seq<TypeNode>;

    closed spec fn view(&self) -> Seq<TypeNode> {
        self.nodes@
    }
}

impl DeclTree {
    /// A tree always holds its root: a first node with the empty path.
    #[verifier::type_invariant]
    pub open spec fn wf(self) -> bool {
        self@.len() >= 1 && self@[0].path@.len() == 0
    }

    /// Builds a tree holding only the root node with the given
    /// properties.
    pub fn new(root_properties: Vec<Property>) -> (r: DeclTree)
        ensures
            r@.len() == 1,
            r@[0].path@.len() == 0,
            r@[0].properties == root_properties,
    {
        let root = TypeNode { path: String::new(), properties: root_properties };
        DeclTree { nodes: vec![root] }
    }

    /// Appends one declared node; the root stays in place.
    pub fn push_node(self, node: TypeNode) -> (r: DeclTree)
        requires
            node.path@.len() > 0,
        ensures
            r@ == self@.push(node),
    {
        proof {
            use_type_invariant(&self);
        }
        let DeclTree { mut nodes } = self;
        nodes.push(node);
        DeclTree { nodes }
    }

    /// How many nodes the tree holds.
    pub fn node_count(&self) -> (n: usize)
        ensures
            n == self@.len(),
    {
        self.nodes.len()
    }

    /// The node at position `i`.
    pub fn node_at(&self, i: usize) -> (r: &TypeNode)
        requires
            i < self@.len(),
        ensures
            *r == self@[i as int],
    {
        &self.nodes[i]
    }

    /// Looks `path` up: the root for either root alias, else the first
    /// exact match.
    pub fn resolve(&self, path: &str) -> (r: Option<&TypeNode>)
        ensures
            match r {
                Some(t) => resolve_spec(self@, path@) == Some(*t),
                None => resolve_spec(self@, path@) is None,
            },
    {
        proof {
            use_type_invariant(&*self);
        }
        if path_is_root_alias(path) {
            return Some(&self.nodes[0]);
        }
        proof {
            assert(self@.skip(0) =~= self@);
        }
        let mut i: usize = 0;
        while i < self.nodes.len()
            invariant
                i <= self.nodes@.len(),
                self@ == self.nodes@,
                !is_root_alias(path@),
                first_match(self@, path@) == first_match(self@.skip(i as int), path@),
            decreases self.nodes@.len() - i,
        {
            if str_eq(self.nodes[i].path.as_str(), path) {
                proof {
                    assert(self@.skip(i as int).len() > 0);
                    assert(self@.skip(i as int)[0] == self@[i as int]);
                    assert(first_match(self@.skip(i as int), path@) == Some(self@[i as int]));
                }
                return Some(&self.nodes[i]);
            }
            proof {
                assert(self@.skip(i as int).drop_first() =~= self@.skip(i + 1 as int));
            }
            i = i + 1;
        }
        proof {
            assert(self@.skip(self.nodes@.len() as int).len() == 0);
        }
        None
    }
}

/// Everything a conforming parse front-end hands over for one ordered
/// file list: the contributing files in front-end order, the recorded
/// diagnostics, the declaration tree, and the three categorized
/// special-file lists discovered while parsing.
#[derive(Debug)]
pub struct ParseOutcome {
    pub files: Vec<String>,
    pub diagnostics: Vec<Diagnostic>,
    pub tree: DeclTree,
    pub maps: Vec<String>,
    pub scripts: Vec<String>,
    pub skins: Vec<String>,
}

/// Why construction of a session failed; each recoverable failure of
/// the parse front-end surfaces as one of these instead of aborting.
#[derive(Clone, PartialEq, Eq, Debug)]
pub enum ConstructionError {
    /// The environment (root) file could not be loaded, or the
    /// front-end could not be initialized at all.
    EnvironmentLoadFailed,
    /// An included file could not be opened; carries the offending path.
    FileOpenFailed { path: String },
    /// An input file was not valid UTF-8; carries the offending path.
    EncodingError { path: String },
}

/// Why a query failed; the session stays valid for further queries.
#[derive(Clone, PartialEq, Eq, Debug)]
pub enum QueryError {
    /// The requested path names no declared type.
    PathNotFound { path: String },
    /// Rendering the result document failed. The writers in this
    /// library are total, so no query of this library returns it; it
    /// exists for boundary compatibility.
    SerializationFailed,
}

} // verus!
