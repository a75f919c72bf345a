use vstd::prelude::*;
use vstd::string::StringExecFns;

use crate::emit::{
    diag_process_line, diag_process_line_spec, diag_service_line, diag_service_line_spec,
    push_line,
};
use crate::model::{CheckError, DiagnosticsNode};
use crate::status::str_eq;

verus! {

/// Tag names that only give the diagnostics document its shape: such a
/// node is visited but never emits a record of its own.
pub open spec fn is_structural_tag(tag: Seq<char>) -> bool {
    tag == ""@ || tag == "systeminfo"@ || tag == "machines"@ || tag == "machine"@
}

/// The status attribute of a diagnostics node, "Unknown" when absent.
pub open spec fn diag_status_view(o: Option<String>) -> Seq<char> {
    match o {
        Some(s) => s@,
        None => "Unknown"@,
    }
}

/// The worker attribute of a diagnostics node, "Unknown" when absent.
pub open spec fn diag_worker_view(o: Option<String>) -> Seq<char> {
    match o {
        Some(s) => s@,
        None => "Unknown"@,
    }
}

/// The records one diagnostics node emits for itself: none for a
/// structural wrapper, the worker aggregate for a "service" node, and a
/// per-process record for everything else.
pub open spec fn diag_own_lines(n: DiagnosticsNode, elapsed: u128, ts: u128) -> Seq<Seq<char>> {
    if is_structural_tag(n.tag_name@) {
        Seq::empty()
    } else if n.tag_name@ == "service"@ {
        seq![diag_service_line_spec(diag_status_view(n.status), elapsed, ts)]
    } else {
        seq![diag_process_line_spec(
            n.tag_name@,
            diag_worker_view(n.worker),
            diag_status_view(n.status),
            ts,
        )]
    }
}

/// The records of the trees `forest[i..]`, in document order: each
/// node's own records, then its descendants', then its right siblings'.
pub open spec fn diag_forest_lines(
    forest: Seq<DiagnosticsNode>,
    i: int,
    elapsed: u128,
    ts: u128,
) -> Seq<Seq<char>>
    decreases forest, forest.len() - i,
{
    if i < 0 || i >= forest.len() {
        Seq::empty()
    } else {
        diag_own_lines(forest[i], elapsed, ts)
            + diag_forest_lines(forest[i].children@, 0, elapsed, ts)
            + diag_forest_lines(forest, i + 1, elapsed, ts)
    }
}

/// All records of one diagnostics check over the parsed tree.
pub open spec fn diag_lines_spec(root: DiagnosticsNode, elapsed: u128, ts: u128) -> Seq<
    Seq<char>,
> {
    diag_forest_lines(seq![root], 0, elapsed, ts)
}

/// The status attribute as an owned string, "Unknown" when absent.
fn status_or_unknown(o: &Option<String>) -> (r: String)
    ensures
        r@ == diag_status_view(*o),
{
    match o {
        Some(s) => s.clone(),
        None => String::from_str("Unknown"),
    }
}

/// Appends the records of the subtree rooted at `n`, in document order.
fn push_diag_lines(out: &mut Vec<String>, n: &DiagnosticsNode, elapsed: u128, ts: u128)
    ensures
        final(out).deep_view() == old(out).deep_view() + diag_own_lines(*n, elapsed, ts)
            + diag_forest_lines(n.children@, 0, elapsed, ts),
    decreases *n,
{
    let tag = n.tag_name.as_str();
    if str_eq(tag, "") || str_eq(tag, "systeminfo") || str_eq(tag, "machines") || str_eq(
        tag,
        "machine",
    ) {
        // a structural wrapper is visited for its children only
    } else if str_eq(tag, "service") {
        let status = status_or_unknown(&n.status);
        push_line(out, diag_service_line(&status, elapsed, ts));
    } else {
        let status = status_or_unknown(&n.status);
        let worker: &str = match &n.worker {
            Some(w) => w.as_str(),
            None => "Unknown",
        };
        push_line(out, diag_process_line(tag, worker, &status, ts));
    }
    proof {
        assert(out.deep_view() =~= old(out).deep_view() + diag_own_lines(*n, elapsed, ts));
    }
    let ghost mid = out.deep_view();
    let mut i: usize = 0;
    while i < n.children.len()
        invariant
            i <= n.children.len(),
            out.deep_view() + diag_forest_lines(n.children@, i as int, elapsed, ts) == mid
                + diag_forest_lines(n.children@, 0, elapsed, ts),
        decreases n.children.len() - i,
    {
        let ghost before = out.deep_view();
        push_diag_lines(out, &n.children[i], elapsed, ts);
        proof {
            assert(out.deep_view() + diag_forest_lines(n.children@, i as int + 1, elapsed, ts)
                =~= before + diag_forest_lines(n.children@, i as int, elapsed, ts));
        }
        i = i + 1;
    }
    proof {
        assert(out.deep_view() =~= out.deep_view() + diag_forest_lines(
            n.children@,
            n.children@.len() as int,
            elapsed,
            ts,
        ));
        assert(out.deep_view() =~= old(out).deep_view() + diag_own_lines(*n, elapsed, ts)
            + diag_forest_lines(n.children@, 0, elapsed, ts));
    }
}

/// Renders all records of one diagnostics check from the parsed tree,
/// in document order.
pub fn systeminfo_lines(root: &DiagnosticsNode, elapsed: u128, ts: u128) -> (out: Vec<String>)
    ensures
        out.deep_view() == diag_lines_spec(*root, elapsed, ts),
{
    let mut out: Vec<String> = Vec::new();
    proof {
        assert(out.deep_view() =~= Seq::<Seq<char>>::empty());
    }
    push_diag_lines(&mut out, root, elapsed, ts);
    proof {
        assert(diag_forest_lines(seq![*root], 1, elapsed, ts) =~= Seq::<Seq<char>>::empty());
        assert(out.deep_view() =~= diag_lines_spec(*root, elapsed, ts));
    }
    out
}

/// Declares roxmltree's node handle so wrappers can pass it around; a
/// value of it is opaque here.
#[verifier::external_type_specification]
#[verifier::external_body]
pub struct ExXmlNode<'a, 'input>(roxmltree::Node<'a, 'input>)
    where 'input: 'a;

/// Relies on roxmltree::Node: `tag_name().name()` is the node's tag name
/// (empty for non-element nodes), `attribute` looks an attribute up by
/// name, and `children()` yields the children in document order. The
/// node is copied out as plain values so the walk over them is verified.
#[verifier::external_body]
fn xml_node_to_diag(node: roxmltree::Node<'_, '_>) -> (r: DiagnosticsNode) {
    let mut children: Vec<DiagnosticsNode> = Vec::new();
    for child in node.children() {
        children.push(xml_node_to_diag(child));
    }
    DiagnosticsNode {
        tag_name: node.tag_name().name().to_string(),
        status: node.attribute("status").map(|v| v.to_string()),
        worker: node.attribute("worker").map(|v| v.to_string()),
        children,
    }
}

/// What the markup parser yields for a diagnostics document: the tree
/// of tag names, read attributes and children, or nothing when the
/// document is not well-formed. A function of the text alone.
pub uninterp spec fn xml_tree_of(xml: Seq<char>) -> Option<DiagnosticsNode>;

/// Relies on roxmltree::Document::parse: it builds the document tree for
/// well-formed markup and reports an error otherwise. The root node of
/// the returned tree is the document root, whose tag name is empty.
#[verifier::external_body]
fn parse_diagnostics_xml(xml: &str) -> (r: Option<DiagnosticsNode>)
    ensures
        r == xml_tree_of(xml@),
{
    match roxmltree::Document::parse(xml) {
        Ok(doc) => Some(xml_node_to_diag(doc.root())),
        Err(_) => None,
    }
}

/// Parses one diagnostics document and renders its records. A document
/// the markup parser rejects is a decode failure and yields no records,
/// if and only if; a well-formed one yields exactly the records of the
/// walk over its tree.
pub fn parse_system_info(xml: &String, elapsed: u128, ts: u128) -> (r: Result<
    Vec<String>,
    CheckError,
>)
    ensures
        r matches Ok(lines) ==> (xml_tree_of(xml@) matches Some(t) && lines.deep_view()
            == diag_lines_spec(t, elapsed, ts)),
        r is Err <==> xml_tree_of(xml@) is None,
        r matches Err(e) ==> e == CheckError::Decode,
{
    match parse_diagnostics_xml(xml.as_str()) {
        Some(tree) => Ok(systeminfo_lines(&tree, elapsed, ts)),
        None => Err(CheckError::Decode),
    }
}

/// Number of meaningful (non-structural) nodes in the trees `forest[i..]`.
pub open spec fn diag_meaningful_count(forest: Seq<DiagnosticsNode>, i: int) -> nat
    decreases forest, forest.len() - i,
{
    if i < 0 || i >= forest.len() {
        0
    } else {
        (if is_structural_tag(forest[i].tag_name@) {
            0nat
        } else {
            1nat
        }) + diag_meaningful_count(forest[i].children@, 0) + diag_meaningful_count(forest, i + 1)
    }
}

proof fn lemma_diag_forest_count(forest: Seq<DiagnosticsNode>, i: int, elapsed: u128, ts: u128)
    requires
        0 <= i <= forest.len(),
    ensures
        diag_forest_lines(forest, i, elapsed, ts).len() == diag_meaningful_count(forest, i),
    decreases forest, forest.len() - i,
{
    if i < forest.len() {
        lemma_diag_forest_count(forest[i].children@, 0, elapsed, ts);
        lemma_diag_forest_count(forest, i + 1, elapsed, ts);
    }
}

/// The diagnostics walk emits exactly one record per meaningful node and
/// none for a structural wrapper tag, at any nesting depth.
pub proof fn lemma_diag_structural_nodes_silent(root: DiagnosticsNode, elapsed: u128, ts: u128)
    ensures
        diag_lines_spec(root, elapsed, ts).len() == diag_meaningful_count(seq![root], 0),
{
    lemma_diag_forest_count(seq![root], 0, elapsed, ts);
}

} // verus!
