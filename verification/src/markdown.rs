use vstd::prelude::*;

use crate::highlight::{highlight_of, Highlighter};

verus! {

/// A code-block node as the scan of the parsed document reports it: whether
/// the block is fenced, its info string and its literal text.
pub struct CodeBlockScan {
    pub fenced: bool,
    pub info: String,
    pub literal: String,
}

/// Markdown rendering failed while serializing the transformed tree.
#[derive(Debug)]
pub struct MdError;

/// One scanned slot, abstracted.
pub open spec fn scan_slot_view(o: Option<CodeBlockScan>) -> Option<(bool, Seq<char>, Seq<char>)> {
    match o {
        Some(cb) => Some((cb.fenced, cb.info@, cb.literal@)),
        None => None,
    }
}

/// The scan of a document, abstracted: one slot per node of the parsed tree in
/// pre-order, a code block as its fencedness, info string and literal text,
/// every other node empty.
pub open spec fn scan_views(s: Seq<Option<CodeBlockScan>>) -> Seq<
    Option<(bool, Seq<char>, Seq<char>)>,
> {
    s.map_values(|o: Option<CodeBlockScan>| scan_slot_view(o))
}

/// One plan slot, abstracted.
pub open spec fn plan_slot_view(o: Option<String>) -> Option<Seq<char>> {
    match o {
        Some(s) => Some(s@),
        None => None,
    }
}

/// A replacement plan, abstracted: one slot per node of the parsed tree in
/// pre-order, holding the HTML that replaces the node's value, or nothing to
/// keep the node as it is.
pub open spec fn plan_views(p: Seq<Option<String>>) -> Seq<Option<Seq<char>>> {
    p.map_values(|o: Option<String>| plan_slot_view(o))
}

/// The pre-order scan of the tree the Markdown parser builds from a source
/// text. Parsing is a pure function of the source.
pub uninterp spec fn scan_of(source: Seq<char>) -> Seq<Option<(bool, Seq<char>, Seq<char>)>>;

/// The HTML the Markdown renderer produces from a source text once the given
/// plan is laid onto the parsed tree's pre-order walk — a filled slot swaps
/// that node's value for an HTML block with the given literal, in place, and
/// an empty slot leaves the node untouched — or nothing when serialization
/// fails. Rendering is a pure function of the source and the plan.
pub uninterp spec fn format_of(source: Seq<char>, plan: Seq<Option<Seq<char>>>) -> Option<
    Seq<char>,
>;

/// What the transformer plans for one scanned node: a fenced code block whose
/// info string some grammar matches is replaced by the highlighter's HTML for
/// its literal text; every other node — an unfenced block, an unrecognized
/// info string, any other kind of node — is kept as it is.
pub open spec fn plan_entry_of(entry: Option<(bool, Seq<char>, Seq<char>)>) -> Option<Seq<char>> {
    match entry {
        Some(cb) => if cb.0 {
            highlight_of(cb.1, cb.2)
        } else {
            None
        },
        None => None,
    }
}

/// The whole plan for a scanned document, node for node.
pub open spec fn spec_plan(scan: Seq<Option<(bool, Seq<char>, Seq<char>)>>) -> Seq<
    Option<Seq<char>>,
> {
    scan.map_values(|e: Option<(bool, Seq<char>, Seq<char>)>| plan_entry_of(e))
}

/// Relies on comrak's `Options`: the fixed configuration the transformer
/// parses and serializes with — the strikethrough, table, autolink and
/// task-list extensions on, heading ids generated with a fixed prefix, and raw
/// HTML kept by the renderer so that highlighted fences survive serialization.
#[verifier::external_body]
fn md_options() -> (r: comrak::Options<'static>) {
    let mut o = comrak::Options::default();
    o.extension.strikethrough = true;
    o.extension.table = true;
    o.extension.autolink = true;
    o.extension.tasklist = true;
    o.extension.header_ids = Some("user-content-".to_string());
    o.render.unsafe_ = true;
    o
}

#[verifier::external_type_specification]
#[verifier::external_body]
pub struct ExComrakOptions<'c>(comrak::Options<'c>);

/// Relies on comrak's `parse_document`: it parses CommonMark into a tree, as a
/// pure function of the source, whose pre-order walk this call copies out:
/// each code-block node as its fencedness, info string and literal text, every
/// other node as an empty slot.
#[verifier::external_body]
fn scan_markdown(source: &str) -> (scan: Vec<Option<CodeBlockScan>>)
    ensures
        scan_views(scan@) == scan_of(source@),
{
    let arena = comrak::Arena::new();
    let root = comrak::parse_document(&arena, source, &md_options());
    root.descendants().map(
        |n|
            match &n.data.borrow().value {
                comrak::nodes::NodeValue::CodeBlock(cb) => Some(
                    CodeBlockScan { fenced: cb.fenced, info: cb.info.clone(), literal: cb.literal.clone() },
                ),
                _ => None,
            },
    ).collect()
}

/// Relies on comrak's `parse_document` and `format_html`: parsing the same
/// source again yields the same tree, the plan is laid onto its pre-order
/// walk — a filled slot swaps that node's value for an HTML block carrying the
/// given literal, in place, so no sibling is dropped or reordered — and the
/// tree is serialized to HTML with the same options. A filled slot is only
/// admitted where the scan of the same source found a code block: comrak's
/// formatter panics when a table's structural nodes are replaced, and a code
/// block is never one of those.
#[verifier::external_body]
fn apply_and_format(source: &str, plan: &Vec<Option<String>>) -> (r: Result<String, MdError>)
    requires
        forall|i: int|
            0 <= i < plan@.len() ==> (plan_views(plan@)[i] is Some ==> scan_of(source@)[i] is Some),
    ensures
        r is Ok <==> format_of(source@, plan_views(plan@)) is Some,
        r matches Ok(h) ==> format_of(source@, plan_views(plan@)) == Some(h@),
{
    let arena = comrak::Arena::new();
    let opts = md_options();
    let root = comrak::parse_document(&arena, source, &opts);
    for (node, slot) in root.descendants().zip(plan.iter()) {
        if let Some(html) = slot {
            let mut block = comrak::nodes::NodeHtmlBlock::default();
            block.literal = html.clone();
            node.data.borrow_mut().value = comrak::nodes::NodeValue::HtmlBlock(block);
        }
    }
    let mut out = String::new();
    comrak::format_html(root, &opts, &mut out).map_err(|_| MdError)?;
    Ok(out)
}

/// Decides, node for node, which scanned nodes the transformer replaces: the
/// highlighter's HTML for a fenced code block whose info string it knows,
/// nothing for every other node.
pub fn plan_replacements(scan: &Vec<Option<CodeBlockScan>>, hl: &Highlighter) -> (plan: Vec<
    Option<String>,
>)
    ensures
        plan_views(plan@) == spec_plan(scan_views(scan@)),
{
    let n = scan.len();
    let mut plan: Vec<Option<String>> = Vec::new();
    let mut i: usize = 0;
    while i < n
        invariant
            i <= n,
            n == scan@.len(),
            plan@.len() == i,
            forall|k: int|
                0 <= k < i ==> plan_slot_view(#[trigger] plan@[k]) == plan_entry_of(
                    scan_slot_view(scan@[k]),
                ),
        decreases n - i,
    {
        let repl: Option<String> = match &scan[i] {
            Some(cb) => if cb.fenced {
                hl.highlight(cb.info.as_str(), cb.literal.as_str())
            } else {
                None
            },
            None => None,
        };
        assert(plan_slot_view(repl) == plan_entry_of(scan_slot_view(scan@[i as int])));
        plan.push(repl);
        i = i + 1;
    }
    proof {
        assert forall|k: int| 0 <= k < scan@.len() implies plan_views(plan@)[k] == spec_plan(
            scan_views(scan@),
        )[k] by {
            assert(plan_views(plan@)[k] == plan_slot_view(plan@[k]));
            assert(scan_views(scan@)[k] == scan_slot_view(scan@[k]));
        }
        assert(plan_views(plan@) =~= spec_plan(scan_views(scan@)));
    }
    plan
}

/// Renders a Markdown source to HTML: the document is parsed, every fenced
/// code block with a recognized info string is replaced, in place, by the
/// highlighter's HTML for its literal text, and the tree — no node dropped or
/// reordered, all others untouched — is serialized back to HTML.
pub fn render_markdown(source: &str, hl: &Highlighter) -> (r: Result<String, MdError>)
    ensures
        r is Ok <==> format_of(source@, spec_plan(scan_of(source@))) is Some,
        r matches Ok(h) ==> format_of(source@, spec_plan(scan_of(source@))) == Some(h@),
{
    let scan = scan_markdown(source);
    let plan = plan_replacements(&scan, hl);
    proof {
        let sv = scan_views(scan@);
        let pv = plan_views(plan@);
        assert(pv.len() == plan@.len());
        assert(sv.len() == scan@.len());
        assert(pv == spec_plan(sv));
        assert(spec_plan(sv).len() == sv.len());
        assert forall|i: int|
            0 <= i < plan@.len() implies (plan_views(plan@)[i] is Some ==> scan_of(source@)[i]
            is Some) by {
            assert(pv[i] == spec_plan(sv)[i]);
            assert(spec_plan(sv)[i] == plan_entry_of(sv[i]));
        }
    }
    apply_and_format(source, &plan)
}

} // verus!
