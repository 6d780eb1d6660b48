use stage_shuffle::diagram::{build_exec_plan_diagram, produce_diagram, DiagramItem, KindLabel};
use stage_shuffle::plan::{PlanKind, PlanNode, QueryStage};

fn leaf(kind: PlanKind) -> PlanNode {
    PlanNode { kind, children: vec![] }
}

fn scan(path: &str) -> PlanNode {
    leaf(PlanKind::Scan { path: path.to_string(), partition_count: 1 })
}

fn shuffle(upstream: Vec<u64>) -> PlanNode {
    leaf(PlanKind::UnresolvedShuffle { upstream_stage_ids: upstream })
}

fn stage(job: &str, id: u64, plan: PlanNode) -> QueryStage {
    QueryStage { job_id: job.to_string(), stage_id: id, plan }
}

#[test]
fn entity_pass_numbers_depth_first() {
    let plan = PlanNode {
        kind: PlanKind::Sort,
        children: vec![
            PlanNode { kind: PlanKind::Projection, children: vec![scan("a")] },
            scan("b"),
        ],
    };
    let mut items = Vec::new();
    let mut id: u64 = 0;
    let root = build_exec_plan_diagram(&mut items, &plan, 5, &mut id, true);
    assert_eq!(root, 0);
    assert_eq!(id, 4);
    assert_eq!(
        items,
        vec![
            DiagramItem::Node { stage_id: 5, node_id: 0, label: KindLabel::Sort },
            DiagramItem::Node { stage_id: 5, node_id: 1, label: KindLabel::Projection },
            DiagramItem::Node { stage_id: 5, node_id: 2, label: KindLabel::Scan },
            DiagramItem::Edge { from_stage: 5, from_node: 2, to_stage: 5, to_node: 1 },
            DiagramItem::Edge { from_stage: 5, from_node: 1, to_stage: 5, to_node: 0 },
            DiagramItem::Node { stage_id: 5, node_id: 3, label: KindLabel::Scan },
            DiagramItem::Edge { from_stage: 5, from_node: 3, to_stage: 5, to_node: 0 },
        ]
    );
}

#[test]
fn shuffle_dependency_yields_one_edge_matching_first_pass_id() {
    // Stage 1 depends on stage 0 through a single shuffle placeholder.
    let plan = PlanNode { kind: PlanKind::Projection, children: vec![shuffle(vec![0])] };

    let mut pass1 = Vec::new();
    let mut id: u64 = 0;
    build_exec_plan_diagram(&mut pass1, &plan, 1, &mut id, true);
    // The placeholder is a transparent pass-through: no box, no intra edge.
    assert_eq!(
        pass1,
        vec![DiagramItem::Node { stage_id: 1, node_id: 0, label: KindLabel::Projection }]
    );

    let mut pass2 = Vec::new();
    let mut id2: u64 = 0;
    build_exec_plan_diagram(&mut pass2, &plan, 1, &mut id2, false);
    assert_eq!(
        pass2,
        vec![DiagramItem::Edge { from_stage: 0, from_node: 1, to_stage: 1, to_node: 0 }]
    );
    // The counters of the two passes advanced identically, and the edge's
    // target id is the id the first pass assigned to the placeholder's parent.
    assert_eq!(id, id2);
    match (&pass1[0], &pass2[0]) {
        (DiagramItem::Node { node_id, .. }, DiagramItem::Edge { to_node, .. }) => {
            assert_eq!(node_id, to_node);
        }
        other => panic!("unexpected items: {:?}", other),
    }
}

#[test]
fn multi_dependency_fan_in_yields_one_edge_per_upstream() {
    let plan = PlanNode { kind: PlanKind::Merge, children: vec![shuffle(vec![0, 1])] };
    let mut items = Vec::new();
    let mut id: u64 = 0;
    build_exec_plan_diagram(&mut items, &plan, 2, &mut id, false);
    assert_eq!(
        items,
        vec![
            DiagramItem::Edge { from_stage: 0, from_node: 1, to_stage: 2, to_node: 0 },
            DiagramItem::Edge { from_stage: 1, from_node: 1, to_stage: 2, to_node: 0 },
        ]
    );
}

#[test]
fn diagram_text_two_stages() {
    let stages = vec![
        stage("job", 0, scan("t")),
        stage("job", 1, PlanNode { kind: PlanKind::Merge, children: vec![shuffle(vec![0])] }),
    ];
    let out = produce_diagram(&stages);
    let expected = "digraph G {\n\tsubgraph cluster0 {\n\t\tlabel = \"Stage 0\";\n\t\tstage_0_exec_0 [shape=box, label=\"Scan\"];\n\t}\n\tsubgraph cluster1 {\n\t\tlabel = \"Stage 1\";\n\t\tstage_1_exec_0 [shape=box, label=\"Merge\"];\n\t}\n\tstage_0_exec_1 -> stage_1_exec_0;\n}";
    assert_eq!(out, expected);
}

#[test]
fn diagram_text_is_deterministic() {
    let stages = vec![
        stage("job", 0, scan("t")),
        stage("job", 1, PlanNode { kind: PlanKind::Merge, children: vec![shuffle(vec![0])] }),
    ];
    assert_eq!(produce_diagram(&stages), produce_diagram(&stages));
}
