//! The parse session: it owns one front-end output for the lifetime of
//! one parse, answers the boundary queries over it, and keeps the most
//! recent serialized result in its single reusable export buffer.

use vstd::prelude::*;

use crate::json::{
    dec_str, json_str, lemma_dec_str_nul_free, lemma_json_str_nul_free, lemma_nul_free_concat,
    lemma_string_array_nul_free, nul_free, push_char, string_array_doc, write_json_str,
    write_string_array, write_u32,
};
use crate::model::{
    diag_included, is_root_alias, resolve_spec, severity_included, severity_label,
    severity_label_str, ConstructionError, DeclTree, Diagnostic, ParseOutcome, Property,
    QueryError, Severity, TypeNode,
};
use vstd::string::StringExecFns;

verus! {

/// The serialized form of one diagnostic: severity label, location,
/// and message.
pub open spec fn diag_object(d: Diagnostic) -> Seq<char> {
    "{\"severity\":"@ + json_str(severity_label(d.severity)) + ",\"file\":"@ + json_str(d.file@)
        + ",\"line\":"@ + dec_str(d.line as nat) + ",\"column\":"@ + dec_str(d.column as nat)
        + ",\"message\":"@ + json_str(d.message@) + "}"@
}

/// The diagnostics that the diagnostics query reports: those at or
/// below `Warning` severity, in recorded order; `Error` entries are
/// excluded.
pub open spec fn reported(ds: Seq<Diagnostic>) -> Seq<Diagnostic> {
    ds.filter(|d: Diagnostic| diag_included(d.severity))
}

/// The comma-separated body of a JSON array of diagnostic objects.
pub open spec fn diag_array_body(ds: Seq<Diagnostic>) -> Seq<char>
    decreases ds.len(),
{
    if ds.len() == 0 {
        Seq::<char>::empty()
    } else if ds.len() == 1 {
        diag_object(ds[0])
    } else {
        diag_array_body(ds.drop_last()) + seq![','] + diag_object(ds.last())
    }
}

/// The serialized document for the diagnostics query.
pub open spec fn diagnostics_doc(ds: Seq<Diagnostic>) -> Seq<char> {
    seq!['['] + diag_array_body(reported(ds)) + seq![']']
}

/// The comma-separated body of a JSON array of declared type paths.
pub open spec fn path_array_body(nodes: Seq<TypeNode>) -> Seq<char>
    decreases nodes.len(),
{
    if nodes.len() == 0 {
        Seq::<char>::empty()
    } else if nodes.len() == 1 {
        json_str(nodes[0].path@)
    } else {
        path_array_body(nodes.drop_last()) + seq![','] + json_str(nodes.last().path@)
    }
}

/// The serialized document for the type-list query: the path of every
/// declared type node, root included, flattened in tree order.
pub open spec fn type_list_doc(nodes: Seq<TypeNode>) -> Seq<char> {
    seq!['['] + path_array_body(nodes) + seq![']']
}

/// The comma-separated body of a JSON object holding a node's declared
/// properties.
pub open spec fn property_body(ps: Seq<Property>) -> Seq<char>
    decreases ps.len(),
{
    if ps.len() == 0 {
        Seq::<char>::empty()
    } else if ps.len() == 1 {
        json_str(ps[0].name@) + seq![':'] + json_str(ps[0].value@)
    } else {
        property_body(ps.drop_last()) + seq![','] + json_str(ps.last().name@) + seq![':']
            + json_str(ps.last().value@)
    }
}

/// The serialized document for the type-info query: the node's full
/// path and all its declared properties.
pub open spec fn type_info_doc(t: TypeNode) -> Seq<char> {
    "{\"path\":"@ + json_str(t.path@) + ",\"properties\":{"@ + property_body(t.properties@)
        + "}}"@
}

/// The serialized document for the special-files query: the three
/// categorized path lists, always under all three category names, even
/// when a list is empty.
pub open spec fn special_files_doc(
    maps: Seq<String>,
    scripts: Seq<String>,
    skins: Seq<String>,
) -> Seq<char> {
    "{\"maps\":"@ + string_array_doc(maps) + ",\"scripts\":"@ + string_array_doc(scripts)
        + ",\"skins\":"@ + string_array_doc(skins) + "}"@
}

/// Appends the serialized object for one diagnostic.
fn write_diag(out: &mut String, d: &Diagnostic)
    ensures
        final(out)@ == old(out)@ + diag_object(*d),
{
    out.append("{\"severity\":");
    write_json_str(out, severity_label_str(d.severity));
    out.append(",\"file\":");
    write_json_str(out, d.file.as_str());
    out.append(",\"line\":");
    write_u32(out, d.line);
    out.append(",\"column\":");
    write_u32(out, d.column);
    out.append(",\"message\":");
    write_json_str(out, d.message.as_str());
    out.append("}");
    proof {
        assert(out@ =~= old(out)@ + diag_object(*d));
    }
}

/// Appends the serialized node for the type-info query.
fn write_type_info(out: &mut String, t: &TypeNode)
    ensures
        final(out)@ == old(out)@ + type_info_doc(*t),
{
    let ghost start = out@;
    out.append("{\"path\":");
    write_json_str(out, t.path.as_str());
    out.append(",\"properties\":{");
    let ghost mid = out@;
    let ps = &t.properties;
    let mut i: usize = 0;
    while i < ps.len()
        invariant
            i <= ps@.len(),
            ps@ == t.properties@,
            out@ == mid + property_body(ps@.take(i as int)),
        decreases ps@.len() - i,
    {
        if i > 0 {
            push_char(out, ',');
        }
        write_json_str(out, ps[i].name.as_str());
        push_char(out, ':');
        write_json_str(out, ps[i].value.as_str());
        proof {
            assert(ps@.take(i + 1 as int).drop_last() =~= ps@.take(i as int));
            assert(ps@.take(i + 1 as int).last() == ps@[i as int]);
            assert(out@ =~= mid + property_body(ps@.take(i + 1 as int)));
        }
        i = i + 1;
    }
    out.append("}}");
    proof {
        assert(ps@.take(ps@.len() as int) =~= ps@);
        assert(out@ =~= start + type_info_doc(*t));
    }
}

/// The serialized document for the file-list query: every contributing
/// file path, in front-end order.
pub open spec fn file_list_doc(files: Seq<String>) -> Seq<char> {
    string_array_doc(files)
}

/// How one ordered file list is handed to the front-end: the last
/// entry is the environment file, and the preceding entries are
/// included files pushed deepest-first, so in reverse of the order
/// given.
#[derive(Debug)]
pub struct ParsePlan {
    pub environment: String,
    pub includes: Vec<String>,
}

/// Splits an ordered file list into the environment file and the
/// included files in push order. An empty list has no environment to
/// load, which surfaces as `EnvironmentLoadFailed`.
pub fn plan_parse(files: &Vec<String>) -> (r: Result<ParsePlan, ConstructionError>)
    ensures
        files@.len() == 0 ==> r == Err::<ParsePlan, ConstructionError>(
            ConstructionError::EnvironmentLoadFailed,
        ),
        files@.len() > 0 ==> (r matches Ok(p) && p.environment == files@.last()
            && p.includes@ == files@.drop_last().reverse()),
{
    let n = files.len();
    if n == 0 {
        return Err(ConstructionError::EnvironmentLoadFailed);
    }
    let environment = files[n - 1].clone();
    let mut includes: Vec<String> = Vec::new();
    let mut j: usize = 0;
    while j < n - 1
        invariant
            n == files@.len(),
            n >= 1,
            j <= n - 1,
            includes@.len() == j,
            forall|k: int| 0 <= k < j ==> includes@[k] == files@[n - 2 - k],
        decreases n - 1 - j,
    {
        includes.push(files[n - 2 - j].clone());
        j = j + 1;
    }
    proof {
        assert(includes@ =~= files@.drop_last().reverse());
    }
    Ok(ParsePlan { environment, includes })
}

/// A parse session. It owns the front-end's output — the contributing
/// file list, the recorded diagnostics, the declaration tree and the
/// three categorized special-file lists — which stays immutable for
/// the session's whole lifetime, and exactly one export buffer slot
/// holding the most recently exported document.
#[derive(Debug)]
pub struct ParseResult {
    pub files: Vec<String>,
    pub diagnostics: Vec<Diagnostic>,
    pub tree: DeclTree,
    pub export_buffer: Option<String>,
    pub maps: Vec<String>,
    pub scripts: Vec<String>,
    pub skins: Vec<String>,
}

impl ParseResult {
    /// The parsed state: everything the session owns except the export
    /// buffer. Queries never change it.
    pub open spec fn same_parsed_state(self, other: ParseResult) -> bool {
        &&& self.files == other.files
        &&& self.diagnostics == other.diagnostics
        &&& self.tree == other.tree
        &&& self.maps == other.maps
        &&& self.scripts == other.scripts
        &&& self.skins == other.skins
    }

    /// Builds a session from what the front-end produced for one
    /// ordered file list. Construction is atomic: a front-end failure
    /// aborts it and surfaces unchanged as the typed construction
    /// error, and a fresh session starts with an empty export buffer.
    pub fn parse(front_end: Result<ParseOutcome, ConstructionError>) -> (r: Result<
        ParseResult,
        ConstructionError,
    >)
        ensures
            match front_end {
                Ok(o) => r matches Ok(s) && s.files == o.files && s.diagnostics == o.diagnostics
                    && s.tree == o.tree && s.maps == o.maps && s.scripts == o.scripts
                    && s.skins == o.skins && s.export_buffer is None,
                Err(e) => r == Err::<ParseResult, ConstructionError>(e),
            },
    {
        match front_end {
            Ok(o) => Ok(
                ParseResult {
                    files: o.files,
                    diagnostics: o.diagnostics,
                    tree: o.tree,
                    export_buffer: None,
                    maps: o.maps,
                    scripts: o.scripts,
                    skins: o.skins,
                },
            ),
            Err(e) => Err(e),
        }
    }

    /// Serializes the file-list query result: every file path
    /// contributing to the parse, in the front-end's order.
    pub fn get_file_list(&self) -> (r: String)
        ensures
            r@ == file_list_doc(self.files@),
    {
        let mut out = String::new();
        write_string_array(&mut out, &self.files);
        proof {
            assert(out@ =~= file_list_doc(self.files@));
        }
        out
    }

    /// Serializes the diagnostics query result: the recorded
    /// diagnostics at or below `Warning` severity, in order; `Error`
    /// entries are excluded.
    pub fn get_diagnostics(&self) -> (r: String)
        ensures
            r@ == diagnostics_doc(self.diagnostics@),
    {
        let ds = &self.diagnostics;
        let mut out = String::new();
        push_char(&mut out, '[');
        let mut first: bool = true;
        let mut i: usize = 0;
        proof {
            reveal(Seq::filter);
            assert(reported(ds@.take(0)).len() == 0);
        }
        while i < ds.len()
            invariant
                i <= ds@.len(),
                ds@ == self.diagnostics@,
                first == (reported(ds@.take(i as int)).len() == 0),
                out@ == seq!['['] + diag_array_body(reported(ds@.take(i as int))),
            decreases ds@.len() - i,
        {
            let ghost prev = reported(ds@.take(i as int));
            proof {
                reveal(Seq::filter);
                assert(ds@.take(i + 1 as int).drop_last() =~= ds@.take(i as int));
                assert(ds@.take(i + 1 as int).last() == ds@[i as int]);
            }
            if severity_included(ds[i].severity) {
                if !first {
                    push_char(&mut out, ',');
                }
                write_diag(&mut out, &ds[i]);
                first = false;
                proof {
                    reveal(Seq::filter);
                    assert(reported(ds@.take(i + 1 as int)) =~= prev.push(ds@[i as int]));
                    if prev.len() > 0 {
                        assert(prev.push(ds@[i as int]).drop_last() =~= prev);
                    }
                    assert(out@ =~= seq!['['] + diag_array_body(reported(ds@.take(i + 1 as int))));
                }
            } else {
                proof {
                    reveal(Seq::filter);
                    assert(reported(ds@.take(i + 1 as int)) =~= prev);
                }
            }
            i = i + 1;
        }
        push_char(&mut out, ']');
        proof {
            assert(ds@.take(ds@.len() as int) =~= ds@);
            assert(out@ =~= diagnostics_doc(self.diagnostics@));
        }
        out
    }

    /// Serializes the type-list query result: the path of every
    /// declared type node, in tree order.
    pub fn get_type_list(&self) -> (r: String)
        ensures
            r@ == type_list_doc(self.tree@),
    {
        let mut out = String::new();
        push_char(&mut out, '[');
        let n = self.tree.node_count();
        let mut i: usize = 0;
        while i < n
            invariant
                i <= n,
                n == self.tree@.len(),
                out@ == seq!['['] + path_array_body(self.tree@.take(i as int)),
            decreases n - i,
        {
            if i > 0 {
                push_char(&mut out, ',');
            }
            let node = self.tree.node_at(i);
            write_json_str(&mut out, node.path.as_str());
            proof {
                assert(self.tree@.take(i + 1 as int).drop_last() =~= self.tree@.take(i as int));
                assert(self.tree@.take(i + 1 as int).last() == self.tree@[i as int]);
                assert(out@ =~= seq!['['] + path_array_body(self.tree@.take(i + 1 as int)));
            }
            i = i + 1;
        }
        push_char(&mut out, ']');
        proof {
            assert(self.tree@.take(n as int) =~= self.tree@);
            assert(out@ =~= type_list_doc(self.tree@));
        }
        out
    }

    /// Serializes the type-info query result for `path`: the resolved
    /// node's full document on success, `PathNotFound` naming the
    /// requested path when no declared type matches exactly. A failed
    /// lookup is an ordinary result, never an abort.
    pub fn get_type_info(&self, path: &str) -> (r: Result<String, QueryError>)
        ensures
            match resolve_spec(self.tree@, path@) {
                Some(t) => r matches Ok(doc) && doc@ == type_info_doc(t),
                None => r matches Err(e) && (e matches QueryError::PathNotFound { path: p }
                    && p@ == path@),
            },
    {
        match self.tree.resolve(path) {
            Some(node) => {
                let mut out = String::new();
                write_type_info(&mut out, node);
                proof {
                    assert(out@ =~= type_info_doc(*node));
                }
                Ok(out)
            },
            None => Err(QueryError::PathNotFound { path: path.to_owned() }),
        }
    }

    /// Serializes the special-files query result: the three categorized
    /// path lists captured at construction, always under all three
    /// category names.
    pub fn get_special_files(&self) -> (r: String)
        ensures
            r@ == special_files_doc(self.maps@, self.scripts@, self.skins@),
    {
        let mut out = String::new();
        out.append("{\"maps\":");
        write_string_array(&mut out, &self.maps);
        out.append(",\"scripts\":");
        write_string_array(&mut out, &self.scripts);
        out.append(",\"skins\":");
        write_string_array(&mut out, &self.skins);
        out.append("}");
        proof {
            assert(out@ =~= special_files_doc(self.maps@, self.scripts@, self.skins@));
        }
        out
    }

    /// Installs a serialized document in the export buffer, replacing
    /// and dropping whatever the buffer held before.
    pub fn export_string(&mut self, string: &str)
        ensures
            final(self).export_buffer matches Some(b) && b@ == string@,
            final(self).same_parsed_state(*old(self)),
    {
        self.export_buffer = Some(string.to_owned());
    }

    /// The most recently exported document, if any: a borrow into the
    /// buffer, valid until the next export on this session or until
    /// the session is destroyed.
    pub fn last_export(&self) -> (r: Option<&String>)
        ensures
            match r {
                Some(b) => self.export_buffer == Some(*b),
                None => self.export_buffer is None,
            },
    {
        self.export_buffer.as_ref()
    }

    /// Boundary operation: renders the file list and installs the
    /// document in the export buffer.
    pub fn query_file_list(&mut self) -> (r: String)
        ensures
            r@ == file_list_doc(old(self).files@),
            final(self).export_buffer matches Some(b) && b@ == r@,
            final(self).same_parsed_state(*old(self)),
    {
        let doc = self.get_file_list();
        self.export_string(doc.as_str());
        doc
    }

    /// Boundary operation: renders the filtered diagnostics and
    /// installs the document in the export buffer.
    pub fn query_diagnostics(&mut self) -> (r: String)
        ensures
            r@ == diagnostics_doc(old(self).diagnostics@),
            final(self).export_buffer matches Some(b) && b@ == r@,
            final(self).same_parsed_state(*old(self)),
    {
        let doc = self.get_diagnostics();
        self.export_string(doc.as_str());
        doc
    }

    /// Boundary operation: renders the declared type paths and installs
    /// the document in the export buffer.
    pub fn query_type_list(&mut self) -> (r: String)
        ensures
            r@ == type_list_doc(old(self).tree@),
            final(self).export_buffer matches Some(b) && b@ == r@,
            final(self).same_parsed_state(*old(self)),
    {
        let doc = self.get_type_list();
        self.export_string(doc.as_str());
        doc
    }

    /// Boundary operation: renders the node document for `path` and, on
    /// success, installs it in the export buffer. A failed lookup
    /// leaves the whole session, buffer included, as it was, and the
    /// session stays valid for further queries.
    pub fn query_type_info(&mut self, path: &str) -> (r: Result<String, QueryError>)
        ensures
            final(self).same_parsed_state(*old(self)),
            match resolve_spec(old(self).tree@, path@) {
                Some(t) => (r matches Ok(doc) && doc@ == type_info_doc(t) && (
                final(self).export_buffer matches Some(b) && b@ == doc@)),
                None => (r matches Err(e) && (e matches QueryError::PathNotFound { path: p }
                    && p@ == path@) && final(self).export_buffer == old(self).export_buffer),
            },
    {
        match self.get_type_info(path) {
            Ok(doc) => {
                self.export_string(doc.as_str());
                Ok(doc)
            },
            Err(e) => Err(e),
        }
    }

    /// Boundary operation: renders the three categorized special-file
    /// lists and installs the document in the export buffer.
    pub fn query_special_files(&mut self) -> (r: String)
        ensures
            r@ == special_files_doc(old(self).maps@, old(self).scripts@, old(self).skins@),
            final(self).export_buffer matches Some(b) && b@ == r@,
            final(self).same_parsed_state(*old(self)),
    {
        let doc = self.get_special_files();
        self.export_string(doc.as_str());
        doc
    }

    /// Destroys the session, releasing everything it owns, including
    /// any live export buffer contents. The handle is consumed, so no
    /// later query can use it.
    pub fn destroy(self) {
    }
}

/// Root alias equivalence: the empty path and `"/"` both resolve to
/// the tree root, so the type-info query exports identical documents
/// for any two root aliases.
pub proof fn lemma_root_alias_equivalence(nodes: Seq<TypeNode>, p1: Seq<char>, p2: Seq<char>)
    requires
        is_root_alias(p1),
        is_root_alias(p2),
    ensures
        resolve_spec(nodes, p1) == resolve_spec(nodes, p2),
        (match (resolve_spec(nodes, p1), resolve_spec(nodes, p2)) {
            (Some(t1), Some(t2)) => type_info_doc(t1) == type_info_doc(t2),
            (None, None) => true,
            _ => false,
        }),
{
}

/// Determinism: every query document is a function of the parsed state
/// alone, and queries leave that state unchanged, so repeated calls on
/// one session export identical sequences.
pub proof fn lemma_queries_deterministic(a: ParseResult, b: ParseResult)
    requires
        a.same_parsed_state(b),
    ensures
        file_list_doc(a.files@) == file_list_doc(b.files@),
        diagnostics_doc(a.diagnostics@) == diagnostics_doc(b.diagnostics@),
        type_list_doc(a.tree@) == type_list_doc(b.tree@),
        special_files_doc(a.maps@, a.scripts@, a.skins@) == special_files_doc(
            b.maps@,
            b.scripts@,
            b.skins@,
        ),
        forall|p: Seq<char>| resolve_spec(a.tree@, p) == resolve_spec(b.tree@, p),
{
}

proof fn lemma_diag_object_nul_free(d: Diagnostic)
    ensures
        nul_free(diag_object(d)),
{
    reveal_strlit("{\"severity\":");
    reveal_strlit(",\"file\":");
    reveal_strlit(",\"line\":");
    reveal_strlit(",\"column\":");
    reveal_strlit(",\"message\":");
    reveal_strlit("}");
    lemma_json_str_nul_free(severity_label(d.severity));
    lemma_json_str_nul_free(d.file@);
    lemma_json_str_nul_free(d.message@);
    lemma_dec_str_nul_free(d.line as nat);
    lemma_dec_str_nul_free(d.column as nat);
    let p1 = "{\"severity\":"@ + json_str(severity_label(d.severity));
    lemma_nul_free_concat("{\"severity\":"@, json_str(severity_label(d.severity)));
    let p2 = p1 + ",\"file\":"@;
    lemma_nul_free_concat(p1, ",\"file\":"@);
    let p3 = p2 + json_str(d.file@);
    lemma_nul_free_concat(p2, json_str(d.file@));
    let p4 = p3 + ",\"line\":"@;
    lemma_nul_free_concat(p3, ",\"line\":"@);
    let p5 = p4 + dec_str(d.line as nat);
    lemma_nul_free_concat(p4, dec_str(d.line as nat));
    let p6 = p5 + ",\"column\":"@;
    lemma_nul_free_concat(p5, ",\"column\":"@);
    let p7 = p6 + dec_str(d.column as nat);
    lemma_nul_free_concat(p6, dec_str(d.column as nat));
    let p8 = p7 + ",\"message\":"@;
    lemma_nul_free_concat(p7, ",\"message\":"@);
    let p9 = p8 + json_str(d.message@);
    lemma_nul_free_concat(p8, json_str(d.message@));
    lemma_nul_free_concat(p9, "}"@);
}

proof fn lemma_diag_array_body_nul_free(ds: Seq<Diagnostic>)
    ensures
        nul_free(diag_array_body(ds)),
    decreases ds.len(),
{
    if ds.len() == 1 {
        lemma_diag_object_nul_free(ds[0]);
    } else if ds.len() > 1 {
        lemma_diag_array_body_nul_free(ds.drop_last());
        lemma_diag_object_nul_free(ds.last());
        lemma_nul_free_concat(diag_array_body(ds.drop_last()), seq![',']);
        lemma_nul_free_concat(
            diag_array_body(ds.drop_last()) + seq![','],
            diag_object(ds.last()),
        );
    }
}

proof fn lemma_path_array_body_nul_free(nodes: Seq<TypeNode>)
    ensures
        nul_free(path_array_body(nodes)),
    decreases nodes.len(),
{
    if nodes.len() == 1 {
        lemma_json_str_nul_free(nodes[0].path@);
    } else if nodes.len() > 1 {
        lemma_path_array_body_nul_free(nodes.drop_last());
        lemma_json_str_nul_free(nodes.last().path@);
        lemma_nul_free_concat(path_array_body(nodes.drop_last()), seq![',']);
        lemma_nul_free_concat(
            path_array_body(nodes.drop_last()) + seq![','],
            json_str(nodes.last().path@),
        );
    }
}

proof fn lemma_property_body_nul_free(ps: Seq<Property>)
    ensures
        nul_free(property_body(ps)),
    decreases ps.len(),
{
    if ps.len() == 1 {
        lemma_json_str_nul_free(ps[0].name@);
        lemma_json_str_nul_free(ps[0].value@);
        lemma_nul_free_concat(json_str(ps[0].name@), seq![':']);
        lemma_nul_free_concat(json_str(ps[0].name@) + seq![':'], json_str(ps[0].value@));
    } else if ps.len() > 1 {
        lemma_property_body_nul_free(ps.drop_last());
        lemma_json_str_nul_free(ps.last().name@);
        lemma_json_str_nul_free(ps.last().value@);
        let p1 = property_body(ps.drop_last()) + seq![','];
        lemma_nul_free_concat(property_body(ps.drop_last()), seq![',']);
        let p2 = p1 + json_str(ps.last().name@);
        lemma_nul_free_concat(p1, json_str(ps.last().name@));
        let p3 = p2 + seq![':'];
        lemma_nul_free_concat(p2, seq![':']);
        lemma_nul_free_concat(p3, json_str(ps.last().value@));
    }
}

/// The type-info document for any node is NUL-free.
pub proof fn lemma_type_info_doc_nul_free(t: TypeNode)
    ensures
        nul_free(type_info_doc(t)),
{
    reveal_strlit("{\"path\":");
    reveal_strlit(",\"properties\":{");
    reveal_strlit("}}");
    lemma_json_str_nul_free(t.path@);
    lemma_property_body_nul_free(t.properties@);
    let p1 = "{\"path\":"@ + json_str(t.path@);
    lemma_nul_free_concat("{\"path\":"@, json_str(t.path@));
    let p2 = p1 + ",\"properties\":{"@;
    lemma_nul_free_concat(p1, ",\"properties\":{"@);
    let p3 = p2 + property_body(t.properties@);
    lemma_nul_free_concat(p2, property_body(t.properties@));
    lemma_nul_free_concat(p3, "}}"@);
}

/// Null-terminator safety: no document a query of this library exports
/// contains the NUL character, so the host can append a terminator to
/// the export buffer's contents and hand it across the boundary
/// without truncation.
pub proof fn lemma_exports_nul_free(s: ParseResult, path: Seq<char>)
    ensures
        nul_free(file_list_doc(s.files@)),
        nul_free(diagnostics_doc(s.diagnostics@)),
        nul_free(type_list_doc(s.tree@)),
        nul_free(special_files_doc(s.maps@, s.scripts@, s.skins@)),
        (resolve_spec(s.tree@, path) matches Some(t) ==> nul_free(type_info_doc(t))),
{
    lemma_string_array_nul_free(s.files@);
    lemma_diag_array_body_nul_free(reported(s.diagnostics@));
    lemma_nul_free_concat(seq!['['], diag_array_body(reported(s.diagnostics@)));
    lemma_nul_free_concat(
        seq!['['] + diag_array_body(reported(s.diagnostics@)),
        seq![']'],
    );
    lemma_path_array_body_nul_free(s.tree@);
    lemma_nul_free_concat(seq!['['], path_array_body(s.tree@));
    lemma_nul_free_concat(seq!['['] + path_array_body(s.tree@), seq![']']);
    reveal_strlit("{\"maps\":");
    reveal_strlit(",\"scripts\":");
    reveal_strlit(",\"skins\":");
    reveal_strlit("}");
    lemma_string_array_nul_free(s.maps@);
    lemma_string_array_nul_free(s.scripts@);
    lemma_string_array_nul_free(s.skins@);
    let p1 = "{\"maps\":"@ + string_array_doc(s.maps@);
    lemma_nul_free_concat("{\"maps\":"@, string_array_doc(s.maps@));
    let p2 = p1 + ",\"scripts\":"@;
    lemma_nul_free_concat(p1, ",\"scripts\":"@);
    let p3 = p2 + string_array_doc(s.scripts@);
    lemma_nul_free_concat(p2, string_array_doc(s.scripts@));
    let p4 = p3 + ",\"skins\":"@;
    lemma_nul_free_concat(p3, ",\"skins\":"@);
    let p5 = p4 + string_array_doc(s.skins@);
    lemma_nul_free_concat(p4, string_array_doc(s.skins@));
    lemma_nul_free_concat(p5, "}"@);
    match resolve_spec(s.tree@, path) {
        Some(t) => lemma_type_info_doc_nul_free(t),
        None => (),
    }
}

/// Severity filter, soundness: every diagnostic that the diagnostics
/// query reports is at or below `Warning`; none has `Error` severity.
pub proof fn lemma_reported_excludes_errors(ds: Seq<Diagnostic>, i: int)
    requires
        0 <= i < reported(ds).len(),
    ensures
        diag_included(reported(ds)[i].severity),
        reported(ds)[i].severity != Severity::Error,
{
    ds.lemma_filter_pred(|d: Diagnostic| diag_included(d.severity), i);
}

/// Severity filter, completeness: every recorded diagnostic at or
/// below `Warning` appears among the reported diagnostics.
pub proof fn lemma_reported_complete(ds: Seq<Diagnostic>, i: int)
    requires
        0 <= i < ds.len(),
        diag_included(ds[i].severity),
    ensures
        reported(ds).contains(ds[i]),
{
    ds.lemma_filter_contains(|d: Diagnostic| diag_included(d.severity), i);
}

} // verus!
