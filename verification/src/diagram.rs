//! The stage-graph diagram: a depth-first numbering of every operator node
//! within each stage, intra-stage structural edges, and inter-stage edges for
//! every unresolved shuffle dependency, rendered as a directed-graph text.
//!
//! The same traversal runs twice per stage with an identically reset counter:
//! the first pass draws the nodes and intra-stage edges, the second only the
//! cross-stage shuffle edges, so the ids the second pass refers to are the
//! ids the first pass assigned.

use vstd::prelude::*;

use crate::plan::{PlanKind, PlanNode, QueryStage};
use crate::text::{dec_str, u64_to_dec};

verus! {

/// The operator label a diagram node carries.
#[derive(Debug, Clone, Copy, PartialEq, Eq, Structural)]
pub enum KindLabel {
    Scan,
    Filter,
    Projection,
    Join,
    Aggregate,
    Sort,
    CoalesceBatches,
    Merge,
    StageBoundary,
    UnresolvedShuffle,
    Other,
}

/// One element of the stage-graph diagram: an operator box inside a stage's
/// cluster, or a directed edge. An edge whose two stages are equal is an
/// intra-stage structural edge (child to parent); one between different
/// stages is a shuffle dependency.
#[derive(Debug, Clone, Copy, PartialEq, Eq, Structural)]
pub enum DiagramItem {
    Node { stage_id: u64, node_id: u64, label: KindLabel },
    Edge { from_stage: u64, from_node: u64, to_stage: u64, to_node: u64 },
}

/// The label of a node kind.
pub open spec fn spec_kind_label(k: PlanKind) -> KindLabel {
    match k {
        PlanKind::Scan { .. } => KindLabel::Scan,
        PlanKind::Filter { .. } => KindLabel::Filter,
        PlanKind::Projection => KindLabel::Projection,
        PlanKind::Join { .. } => KindLabel::Join,
        PlanKind::Aggregate { .. } => KindLabel::Aggregate,
        PlanKind::Sort => KindLabel::Sort,
        PlanKind::CoalesceBatches { .. } => KindLabel::CoalesceBatches,
        PlanKind::Merge => KindLabel::Merge,
        PlanKind::StageBoundary { .. } => KindLabel::StageBoundary,
        PlanKind::UnresolvedShuffle { .. } => KindLabel::UnresolvedShuffle,
        PlanKind::Other { .. } => KindLabel::Other,
    }
}

/// How many node ids a traversal rooted at `p` hands out: one for `p` and
/// one for every descendant reached without passing through an unresolved
/// shuffle placeholder (a shuffle child is a transparent pass-through and
/// gets no id of its own).
pub open spec fn spec_node_count(p: PlanNode) -> nat
    decreases p, 0nat,
{
    1 + spec_children_count(p.children@, 0)
}

/// The ids handed out under the children `cs[i..]`.
pub open spec fn spec_children_count(cs: Seq<PlanNode>, i: int) -> nat
    decreases cs, cs.len() - i + 1,
{
    if i < 0 || i >= cs.len() {
        0
    } else {
        (if cs[i].kind is UnresolvedShuffle {
            0
        } else {
            spec_node_count(cs[i])
        }) + spec_children_count(cs, i + 1)
    }
}

/// One inter-stage edge per upstream stage id of `ids[j..]`, each from that
/// upstream stage's designated sink node (the node numbered one in its
/// cluster) to node `to_node` of the current stage.
pub open spec fn spec_shuffle_edges(ids: Seq<u64>, j: int, stage_id: u64, to_node: u64) -> Seq<
    DiagramItem,
>
    decreases ids.len() - j,
{
    if j < 0 || j >= ids.len() {
        Seq::empty()
    } else {
        seq![
            DiagramItem::Edge {
                from_stage: ids[j],
                from_node: 1,
                to_stage: stage_id,
                to_node,
            },
        ] + spec_shuffle_edges(ids, j + 1, stage_id, to_node)
    }
}

/// The items one traversal of the subtree `p` emits, with `start` the next
/// node id: in the entity pass (`draw` true) the node boxes and the
/// intra-stage child-to-parent edges, in the relationship pass (`draw`
/// false) only the inter-stage shuffle edges, with identical id numbering.
pub open spec fn spec_diagram(p: PlanNode, stage_id: u64, start: u64, draw: bool) -> Seq<
    DiagramItem,
>
    decreases p, 0nat,
{
    (if draw {
        seq![DiagramItem::Node { stage_id, node_id: start, label: spec_kind_label(p.kind) }]
    } else {
        Seq::empty()
    }) + spec_diagram_children(p.children@, 0, stage_id, (start + 1) as u64, start, draw)
}

/// The items the children `cs[i..]` emit, with `next` the next free node id
/// and `parent` the id of their parent.
pub open spec fn spec_diagram_children(
    cs: Seq<PlanNode>,
    i: int,
    stage_id: u64,
    next: u64,
    parent: u64,
    draw: bool,
) -> Seq<DiagramItem>
    decreases cs, cs.len() - i + 1,
{
    if i < 0 || i >= cs.len() {
        Seq::empty()
    } else {
        (match cs[i].kind {
            PlanKind::UnresolvedShuffle { upstream_stage_ids } => (if !draw {
                spec_shuffle_edges(upstream_stage_ids@, 0, stage_id, parent)
            } else {
                Seq::empty()
            }) + spec_diagram_children(cs, i + 1, stage_id, next, parent, draw),
            _ => spec_diagram(cs[i], stage_id, next, draw) + (if draw {
                seq![
                    DiagramItem::Edge {
                        from_stage: stage_id,
                        from_node: next,
                        to_stage: stage_id,
                        to_node: parent,
                    },
                ]
            } else {
                Seq::empty()
            }) + spec_diagram_children(
                cs,
                i + 1,
                stage_id,
                (next + spec_node_count(cs[i])) as u64,
                parent,
                draw,
            ),
        })
    }
}

/// The entity pass drew a box for node `node_id` of stage `stage_id`.
pub open spec fn node_drawn(pass1: Seq<DiagramItem>, stage_id: u64, node_id: u64) -> bool {
    exists|k: int|
        0 <= k < pass1.len() && (#[trigger] pass1[k] matches DiagramItem::Node {
            stage_id: s,
            node_id: n,
            label,
        } && s == stage_id && n == node_id)
}

/// `it` is an edge into stage `stage_id` whose target node the entity pass
/// `pass1` drew.
pub open spec fn edge_ok(it: DiagramItem, stage_id: u64, pass1: Seq<DiagramItem>) -> bool {
    it matches DiagramItem::Edge { to_stage, to_node, .. } && to_stage == stage_id && node_drawn(
        pass1,
        stage_id,
        to_node,
    )
}

/// `it` is an edge into stage `stage_id` whose target is `parent` or a node
/// the entity pass `pass1` drew.
pub open spec fn edge_ok_or_parent(
    it: DiagramItem,
    stage_id: u64,
    parent: u64,
    pass1: Seq<DiagramItem>,
) -> bool {
    it matches DiagramItem::Edge { to_stage, to_node, .. } && to_stage == stage_id && (to_node
        == parent || node_drawn(pass1, stage_id, to_node))
}

proof fn lemma_node_drawn_concat_left(a: Seq<DiagramItem>, b: Seq<DiagramItem>, sid: u64, n: u64)
    requires
        node_drawn(a, sid, n),
    ensures
        node_drawn(a + b, sid, n),
{
    let k = choose|k: int|
        0 <= k < a.len() && (#[trigger] a[k] matches DiagramItem::Node {
            stage_id: s,
            node_id: m,
            label,
        } && s == sid && m == n);
    assert((a + b)[k] == a[k]);
}

proof fn lemma_node_drawn_concat_right(a: Seq<DiagramItem>, b: Seq<DiagramItem>, sid: u64, n: u64)
    requires
        node_drawn(b, sid, n),
    ensures
        node_drawn(a + b, sid, n),
{
    let k = choose|k: int|
        0 <= k < b.len() && (#[trigger] b[k] matches DiagramItem::Node {
            stage_id: s,
            node_id: m,
            label,
        } && s == sid && m == n);
    assert((a + b)[k + a.len()] == b[k]);
}

proof fn lemma_shuffle_edges_target(ids: Seq<u64>, j: int, stage_id: u64, to_node: u64)
    ensures
        forall|k: int|
            0 <= k < spec_shuffle_edges(ids, j, stage_id, to_node).len() ==> (
            #[trigger] spec_shuffle_edges(ids, j, stage_id, to_node)[k] matches DiagramItem::Edge {
                to_stage,
                to_node: t,
                ..
            } && to_stage == stage_id && t == to_node),
    decreases ids.len() - j,
{
    if 0 <= j < ids.len() {
        lemma_shuffle_edges_target(ids, j + 1, stage_id, to_node);
        let es = spec_shuffle_edges(ids, j, stage_id, to_node);
        let rest = spec_shuffle_edges(ids, j + 1, stage_id, to_node);
        assert forall|k: int| 0 <= k < es.len() implies (#[trigger] es[k] matches DiagramItem::Edge {
            to_stage,
            to_node: t,
            ..
        } && to_stage == stage_id && t == to_node) by {
            if k > 0 {
                assert(es[k] == rest[k - 1]);
            }
        }
    }
}

/// Pass agreement for the children `cs[i..]`: every edge the relationship
/// pass emits targets the parent node or a node the entity pass, run over
/// the same children with the same counter, drew.
proof fn lemma_children_pass_agreement(
    cs: Seq<PlanNode>,
    i: int,
    stage_id: u64,
    next: u64,
    parent: u64,
)
    ensures
        forall|k: int|
            0 <= k < spec_diagram_children(cs, i, stage_id, next, parent, false).len()
                ==> edge_ok_or_parent(
                #[trigger] spec_diagram_children(cs, i, stage_id, next, parent, false)[k],
                stage_id,
                parent,
                spec_diagram_children(cs, i, stage_id, next, parent, true),
            ),
    decreases cs, cs.len() - i + 1,
{
    if i < 0 || i >= cs.len() {
        return ;
    }
    let p1 = spec_diagram_children(cs, i, stage_id, next, parent, true);
    let p2 = spec_diagram_children(cs, i, stage_id, next, parent, false);
    match cs[i].kind {
        PlanKind::UnresolvedShuffle { upstream_stage_ids } => {
            let edges = spec_shuffle_edges(upstream_stage_ids@, 0, stage_id, parent);
            let rest1 = spec_diagram_children(cs, i + 1, stage_id, next, parent, true);
            let rest2 = spec_diagram_children(cs, i + 1, stage_id, next, parent, false);
            lemma_shuffle_edges_target(upstream_stage_ids@, 0, stage_id, parent);
            lemma_children_pass_agreement(cs, i + 1, stage_id, next, parent);
            assert(p1 =~= rest1);
            assert(p2 =~= edges + rest2);
            assert forall|k: int| 0 <= k < p2.len() implies edge_ok_or_parent(
                #[trigger] p2[k],
                stage_id,
                parent,
                p1,
            ) by {
                if k < edges.len() {
                    assert(p2[k] == edges[k]);
                } else {
                    assert(p2[k] == rest2[k - edges.len()]);
                    assert(edge_ok_or_parent(rest2[k - edges.len()], stage_id, parent, rest1));
                    if !(rest2[k - edges.len()] matches DiagramItem::Edge { to_node, .. }
                        && to_node == parent) {
                        let t = rest2[k - edges.len()]->Edge_to_node;
                        assert(node_drawn(rest1, stage_id, t));
                    }
                }
            }
        },
        _ => {
            let child1 = spec_diagram(cs[i], stage_id, next, true);
            let child2 = spec_diagram(cs[i], stage_id, next, false);
            let link = seq![
                DiagramItem::Edge {
                    from_stage: stage_id,
                    from_node: next,
                    to_stage: stage_id,
                    to_node: parent,
                },
            ];
            let after = (next + spec_node_count(cs[i])) as u64;
            let rest1 = spec_diagram_children(cs, i + 1, stage_id, after, parent, true);
            let rest2 = spec_diagram_children(cs, i + 1, stage_id, after, parent, false);
            lemma_pass_agreement(cs[i], stage_id, next);
            lemma_children_pass_agreement(cs, i + 1, stage_id, after, parent);
            assert(p1 =~= child1 + link + rest1);
            assert(p2 =~= child2 + rest2);
            assert forall|k: int| 0 <= k < p2.len() implies edge_ok_or_parent(
                #[trigger] p2[k],
                stage_id,
                parent,
                p1,
            ) by {
                if k < child2.len() {
                    assert(p2[k] == child2[k]);
                    assert(edge_ok(child2[k], stage_id, child1));
                    let t = child2[k]->Edge_to_node;
                    lemma_node_drawn_concat_left(child1, link, stage_id, t);
                    lemma_node_drawn_concat_left(child1 + link, rest1, stage_id, t);
                    assert(p1 =~= (child1 + link) + rest1);
                } else {
                    assert(p2[k] == rest2[k - child2.len()]);
                    assert(edge_ok_or_parent(rest2[k - child2.len()], stage_id, parent, rest1));
                    if !(rest2[k - child2.len()] matches DiagramItem::Edge { to_node, .. }
                        && to_node == parent) {
                        let t = rest2[k - child2.len()]->Edge_to_node;
                        assert(node_drawn(rest1, stage_id, t));
                        lemma_node_drawn_concat_right(child1 + link, rest1, stage_id, t);
                        assert(p1 =~= (child1 + link) + rest1);
                    }
                }
            }
        },
    }
}

/// Pass agreement: the relationship pass over a subtree emits only edges
/// into the current stage, and every one of them targets a node id that the
/// entity pass, run over the same subtree with the same counter start,
/// assigned to a drawn node. The second pass may therefore rely on the
/// first pass's numbering.
pub proof fn lemma_pass_agreement(p: PlanNode, stage_id: u64, start: u64)
    ensures
        forall|k: int|
            0 <= k < spec_diagram(p, stage_id, start, false).len() ==> edge_ok(
                #[trigger] spec_diagram(p, stage_id, start, false)[k],
                stage_id,
                spec_diagram(p, stage_id, start, true),
            ),
    decreases p, 1nat,
{
    let head = seq![
        DiagramItem::Node { stage_id, node_id: start, label: spec_kind_label(p.kind) },
    ];
    let kids1 = spec_diagram_children(p.children@, 0, stage_id, (start + 1) as u64, start, true);
    let kids2 = spec_diagram_children(p.children@, 0, stage_id, (start + 1) as u64, start, false);
    let p1 = spec_diagram(p, stage_id, start, true);
    let p2 = spec_diagram(p, stage_id, start, false);
    lemma_children_pass_agreement(p.children@, 0, stage_id, (start + 1) as u64, start);
    assert(p1 =~= head + kids1);
    assert(p2 =~= kids2);
    assert forall|k: int| 0 <= k < p2.len() implies edge_ok(#[trigger] p2[k], stage_id, p1) by {
        assert(edge_ok_or_parent(kids2[k], stage_id, start, kids1));
        let t = kids2[k]->Edge_to_node;
        if t == start {
            assert((p1[0] matches DiagramItem::Node { stage_id: s, node_id: n, label } && s
                == stage_id && n == start));
            assert(node_drawn(p1, stage_id, t));
        } else {
            assert(node_drawn(kids1, stage_id, t));
            lemma_node_drawn_concat_right(head, kids1, stage_id, t);
        }
    }
}

fn kind_label(k: &PlanKind) -> (r: KindLabel)
    ensures
        r == spec_kind_label(*k),
{
    match k {
        PlanKind::Scan { .. } => KindLabel::Scan,
        PlanKind::Filter { .. } => KindLabel::Filter,
        PlanKind::Projection => KindLabel::Projection,
        PlanKind::Join { .. } => KindLabel::Join,
        PlanKind::Aggregate { .. } => KindLabel::Aggregate,
        PlanKind::Sort => KindLabel::Sort,
        PlanKind::CoalesceBatches { .. } => KindLabel::CoalesceBatches,
        PlanKind::Merge => KindLabel::Merge,
        PlanKind::StageBoundary { .. } => KindLabel::StageBoundary,
        PlanKind::UnresolvedShuffle { .. } => KindLabel::UnresolvedShuffle,
        PlanKind::Other { .. } => KindLabel::Other,
    }
}

fn shuffle_edges(
    items: &mut Vec<DiagramItem>,
    ids: &Vec<u64>,
    j: usize,
    stage_id: u64,
    to_node: u64,
)
    ensures
        final(items)@ == old(items)@ + spec_shuffle_edges(ids@, j as int, stage_id, to_node),
    decreases ids@.len() - j,
{
    if j >= ids.len() {
        proof {
            assert(old(items)@ + spec_shuffle_edges(ids@, j as int, stage_id, to_node) =~= old(
                items,
            )@);
        }
        return ;
    }
    let ghost before = items@;
    items.push(
        DiagramItem::Edge { from_stage: ids[j], from_node: 1, to_stage: stage_id, to_node },
    );
    shuffle_edges(items, ids, j + 1, stage_id, to_node);
    proof {
        assert(items@ =~= before + spec_shuffle_edges(ids@, j as int, stage_id, to_node));
    }
}

/// One traversal of the subtree `plan` for the diagram of stage `stage_id`:
/// assigns depth-first node ids starting at `*id`, appends the items
/// `spec_diagram` describes for this pass, and returns the id assigned to
/// `plan` itself. Run once with `draw_entity` and once without, with the
/// counter reset in between, the second pass's edges point at exactly the
/// ids the first pass drew.
pub fn build_exec_plan_diagram(
    items: &mut Vec<DiagramItem>,
    plan: &PlanNode,
    stage_id: u64,
    id: &mut u64,
    draw_entity: bool,
) -> (node_id: u64)
    requires
        *old(id) + spec_node_count(*plan) <= u64::MAX,
    ensures
        node_id == *old(id),
        *final(id) == *old(id) + spec_node_count(*plan),
        final(items)@ == old(items)@ + spec_diagram(*plan, stage_id, *old(id), draw_entity),
    decreases *plan, 0nat,
{
    let ghost before = items@;
    let node_id = *id;
    *id = node_id + 1;
    if draw_entity {
        items.push(
            DiagramItem::Node { stage_id, node_id, label: kind_label(&plan.kind) },
        );
    }
    diagram_children(items, &plan.children, 0, stage_id, id, node_id, draw_entity);
    proof {
        assert(items@ =~= before + spec_diagram(*plan, stage_id, node_id, draw_entity));
    }
    node_id
}

fn diagram_children(
    items: &mut Vec<DiagramItem>,
    cs: &Vec<PlanNode>,
    i: usize,
    stage_id: u64,
    id: &mut u64,
    parent: u64,
    draw_entity: bool,
)
    requires
        *old(id) + spec_children_count(cs@, i as int) <= u64::MAX,
    ensures
        *final(id) == *old(id) + spec_children_count(cs@, i as int),
        final(items)@ == old(items)@ + spec_diagram_children(
            cs@,
            i as int,
            stage_id,
            *old(id),
            parent,
            draw_entity,
        ),
    decreases cs@, cs@.len() - i + 1,
{
    if i >= cs.len() {
        proof {
            assert(old(items)@ + spec_diagram_children(
                cs@,
                i as int,
                stage_id,
                *old(id),
                parent,
                draw_entity,
            ) =~= old(items)@);
        }
        return ;
    }
    let ghost before = items@;
    let ghost start = *id;
    let is_shuffle = match &cs[i].kind {
        PlanKind::UnresolvedShuffle { .. } => true,
        _ => false,
    };
    if is_shuffle {
        match &cs[i].kind {
            PlanKind::UnresolvedShuffle { upstream_stage_ids } => {
                if !draw_entity {
                    shuffle_edges(items, upstream_stage_ids, 0, stage_id, parent);
                }
            },
            _ => {},
        }
        diagram_children(items, cs, i + 1, stage_id, id, parent, draw_entity);
        proof {
            assert(items@ =~= before + spec_diagram_children(
                cs@,
                i as int,
                stage_id,
                start,
                parent,
                draw_entity,
            ));
        }
    } else {
        let child_id = build_exec_plan_diagram(items, &cs[i], stage_id, id, draw_entity);
        if draw_entity {
            items.push(
                DiagramItem::Edge {
                    from_stage: stage_id,
                    from_node: child_id,
                    to_stage: stage_id,
                    to_node: parent,
                },
            );
        }
        diagram_children(items, cs, i + 1, stage_id, id, parent, draw_entity);
        proof {
            assert(items@ =~= before + spec_diagram_children(
                cs@,
                i as int,
                stage_id,
                start,
                parent,
                draw_entity,
            ));
        }
    }
}

/// The text of an operator label.
pub open spec fn spec_label_text(l: KindLabel) -> Seq<char> {
    match l {
        KindLabel::Scan => "Scan"@,
        KindLabel::Filter => "Filter"@,
        KindLabel::Projection => "Projection"@,
        KindLabel::Join => "Join"@,
        KindLabel::Aggregate => "Aggregate"@,
        KindLabel::Sort => "Sort"@,
        KindLabel::CoalesceBatches => "CoalesceBatches"@,
        KindLabel::Merge => "Merge"@,
        KindLabel::StageBoundary => "StageBoundary"@,
        KindLabel::UnresolvedShuffle => "UnresolvedShuffle"@,
        KindLabel::Other => "Other"@,
    }
}

/// The graph-description line of one diagram item: a box-shaped node inside
/// its stage's cluster, or a directed edge, intra-stage edges indented with
/// the cluster body and inter-stage edges at the top level.
pub open spec fn spec_item_text(it: DiagramItem) -> Seq<char> {
    match it {
        DiagramItem::Node { stage_id, node_id, label } => "\t\tstage_"@ + dec_str(stage_id as nat)
            + "_exec_"@ + dec_str(node_id as nat) + " [shape=box, label=\""@ + spec_label_text(
            label,
        ) + "\"];\n"@,
        DiagramItem::Edge { from_stage, from_node, to_stage, to_node } => (if from_stage
            == to_stage {
            "\t\t"@
        } else {
            "\t"@
        }) + "stage_"@ + dec_str(from_stage as nat) + "_exec_"@ + dec_str(from_node as nat)
            + " -> stage_"@ + dec_str(to_stage as nat) + "_exec_"@ + dec_str(to_node as nat)
            + ";\n"@,
    }
}

/// The lines of the first `i` items, concatenated.
pub open spec fn spec_items_upto(items: Seq<DiagramItem>, i: int) -> Seq<char>
    decreases i,
{
    if i <= 0 {
        Seq::empty()
    } else {
        spec_items_upto(items, i - 1) + spec_item_text(items[i - 1])
    }
}

/// The lines of all items, concatenated in order.
pub open spec fn spec_items_text(items: Seq<DiagramItem>) -> Seq<char> {
    spec_items_upto(items, items.len() as int)
}

/// One stage's cluster in the diagram: its header and label, the entity pass
/// of its subtree, and the closing brace.
pub open spec fn spec_stage_cluster(st: QueryStage) -> Seq<char> {
    "\tsubgraph cluster"@ + dec_str(st.stage_id as nat) + " {\n"@ + "\t\tlabel = \"Stage "@
        + dec_str(st.stage_id as nat) + "\";\n"@ + spec_items_text(
        spec_diagram(st.plan, st.stage_id, 0, true),
    ) + "\t}\n"@
}

/// One stage's inter-stage shuffle edges: the relationship pass of its
/// subtree, numbered exactly as the entity pass numbered it.
pub open spec fn spec_stage_links(st: QueryStage) -> Seq<char> {
    spec_items_text(spec_diagram(st.plan, st.stage_id, 0, false))
}

/// The clusters of the first `i` stages, concatenated.
pub open spec fn spec_clusters_upto(stages: Seq<QueryStage>, i: int) -> Seq<char>
    decreases i,
{
    if i <= 0 {
        Seq::empty()
    } else {
        spec_clusters_upto(stages, i - 1) + spec_stage_cluster(stages[i - 1])
    }
}

/// The shuffle edges of the first `i` stages, concatenated.
pub open spec fn spec_links_upto(stages: Seq<QueryStage>, i: int) -> Seq<char>
    decreases i,
{
    if i <= 0 {
        Seq::empty()
    } else {
        spec_links_upto(stages, i - 1) + spec_stage_links(stages[i - 1])
    }
}

/// The whole diagram text: the graph header, every stage's cluster in order,
/// every stage's shuffle edges in the same order, and the closing brace.
pub open spec fn spec_produce_diagram(stages: Seq<QueryStage>) -> Seq<char> {
    "digraph G {\n"@ + spec_clusters_upto(stages, stages.len() as int) + spec_links_upto(
        stages,
        stages.len() as int,
    ) + "}"@
}

fn label_text(l: KindLabel) -> (s: &'static str)
    ensures
        s@ == spec_label_text(l),
{
    match l {
        KindLabel::Scan => "Scan",
        KindLabel::Filter => "Filter",
        KindLabel::Projection => "Projection",
        KindLabel::Join => "Join",
        KindLabel::Aggregate => "Aggregate",
        KindLabel::Sort => "Sort",
        KindLabel::CoalesceBatches => "CoalesceBatches",
        KindLabel::Merge => "Merge",
        KindLabel::StageBoundary => "StageBoundary",
        KindLabel::UnresolvedShuffle => "UnresolvedShuffle",
        KindLabel::Other => "Other",
    }
}

fn render_item(it: &DiagramItem) -> (s: String)
    ensures
        s@ == spec_item_text(*it),
{
    match it {
        DiagramItem::Node { stage_id, node_id, label } => {
            let mut s = "\t\tstage_".to_owned();
            let sid = u64_to_dec(*stage_id);
            s.append(sid.as_str());
            s.append("_exec_");
            let nid = u64_to_dec(*node_id);
            s.append(nid.as_str());
            s.append(" [shape=box, label=\"");
            s.append(label_text(*label));
            s.append("\"];\n");
            proof {
                assert(s@ =~= spec_item_text(*it));
            }
            s
        },
        DiagramItem::Edge { from_stage, from_node, to_stage, to_node } => {
            let mut s = if *from_stage == *to_stage {
                "\t\t".to_owned()
            } else {
                "\t".to_owned()
            };
            s.append("stage_");
            let fs = u64_to_dec(*from_stage);
            s.append(fs.as_str());
            s.append("_exec_");
            let fnode = u64_to_dec(*from_node);
            s.append(fnode.as_str());
            s.append(" -> stage_");
            let ts = u64_to_dec(*to_stage);
            s.append(ts.as_str());
            s.append("_exec_");
            let tnode = u64_to_dec(*to_node);
            s.append(tnode.as_str());
            s.append(";\n");
            proof {
                assert(s@ =~= spec_item_text(*it));
            }
            s
        },
    }
}

fn render_items(items: &Vec<DiagramItem>) -> (s: String)
    ensures
        s@ == spec_items_text(items@),
{
    let mut s = String::new();
    let mut i: usize = 0;
    while i < items.len()
        invariant
            i <= items@.len(),
            s@ == spec_items_upto(items@, i as int),
        decreases items@.len() - i,
    {
        let line = render_item(&items[i]);
        s.append(line.as_str());
        i = i + 1;
    }
    s
}

/// Emits the whole stage-graph description for `stages`, exactly as
/// `spec_produce_diagram` describes: one labeled cluster per stage with
/// depth-first-numbered operator boxes and intra-stage edges, then one
/// inter-stage edge per unresolved shuffle dependency, drawn against the
/// same numbering.
pub fn produce_diagram(stages: &Vec<QueryStage>) -> (s: String)
    requires
        forall|j: int|
            0 <= j < stages@.len() ==> spec_node_count(#[trigger] stages@[j].plan) <= u64::MAX,
    ensures
        s@ == spec_produce_diagram(stages@),
{
    let mut s = "digraph G {\n".to_owned();
    let mut i: usize = 0;
    while i < stages.len()
        invariant
            i <= stages@.len(),
            s@ == "digraph G {\n"@ + spec_clusters_upto(stages@, i as int),
            forall|j: int|
                0 <= j < stages@.len() ==> spec_node_count(#[trigger] stages@[j].plan)
                    <= u64::MAX,
        decreases stages@.len() - i,
    {
        let st = &stages[i];
        s.append("\tsubgraph cluster");
        let sid = u64_to_dec(st.stage_id);
        s.append(sid.as_str());
        s.append(" {\n");
        s.append("\t\tlabel = \"Stage ");
        s.append(sid.as_str());
        s.append("\";\n");
        let mut items: Vec<DiagramItem> = Vec::new();
        let mut id: u64 = 0;
        let root_id = build_exec_plan_diagram(&mut items, &st.plan, st.stage_id, &mut id, true);
        proof {
            assert(root_id == 0);
            assert(items@ =~= spec_diagram(st.plan, st.stage_id, 0, true));
        }
        let body = render_items(&items);
        s.append(body.as_str());
        s.append("\t}\n");
        proof {
            assert(s@ =~= "digraph G {\n"@ + spec_clusters_upto(stages@, i as int + 1));
        }
        i = i + 1;
    }
    let mut i: usize = 0;
    while i < stages.len()
        invariant
            i <= stages@.len(),
            s@ == "digraph G {\n"@ + spec_clusters_upto(stages@, stages@.len() as int)
                + spec_links_upto(stages@, i as int),
            forall|j: int|
                0 <= j < stages@.len() ==> spec_node_count(#[trigger] stages@[j].plan)
                    <= u64::MAX,
        decreases stages@.len() - i,
    {
        let st = &stages[i];
        let mut items: Vec<DiagramItem> = Vec::new();
        let mut id: u64 = 0;
        let root_id = build_exec_plan_diagram(&mut items, &st.plan, st.stage_id, &mut id, false);
        proof {
            assert(root_id == 0);
            assert(items@ =~= spec_diagram(st.plan, st.stage_id, 0, false));
        }
        let body = render_items(&items);
        s.append(body.as_str());
        proof {
            assert(s@ =~= "digraph G {\n"@ + spec_clusters_upto(stages@, stages@.len() as int)
                + spec_links_upto(stages@, i as int + 1));
        }
        i = i + 1;
    }
    s.append("}");
    proof {
        assert(s@ =~= spec_produce_diagram(stages@));
    }
    s
}

} // verus!
