use stage_shuffle::plan::{AggExpr, Expr, JoinType, PlanKind, PlanNode};
use stage_shuffle::render::{format_agg_expr, format_expr, format_plan, FormatError};
use stage_shuffle::text::{make_indent, truncate_chars, u64_to_dec};

fn col(name: &str) -> Expr {
    Expr::Column { name: name.to_string() }
}

fn leaf(kind: PlanKind) -> PlanNode {
    PlanNode { kind, children: vec![] }
}

fn scan(path: &str, partitions: u64) -> PlanNode {
    leaf(PlanKind::Scan { path: path.to_string(), partition_count: partitions })
}

#[test]
fn expr_column_and_literal() {
    assert_eq!(format_expr(&col("price")), "price");
    assert_eq!(format_expr(&Expr::Literal { value: "42".to_string() }), "42");
}

#[test]
fn expr_binary() {
    let e = Expr::Binary {
        left: Box::new(col("a")),
        op: ">".to_string(),
        right: Box::new(Expr::Literal { value: "5".to_string() }),
    };
    assert_eq!(format_expr(&e), "a > 5");
}

#[test]
fn agg_expr_with_field() {
    let a = AggExpr { output_field: Some("SUM(x)".to_string()), operands: vec![col("x")] };
    assert_eq!(format_agg_expr(&a), Ok("SUM(x) [x]".to_string()));
}

#[test]
fn agg_expr_missing_field() {
    let a = AggExpr { output_field: None, operands: vec![col("x")] };
    assert_eq!(format_agg_expr(&a), Err(FormatError::MissingAggregateField));
}

#[test]
fn plan_filter_over_scan() {
    let plan = PlanNode {
        kind: PlanKind::Filter { predicate: col("a") },
        children: vec![scan("/data/t.csv", 2)],
    };
    let expected = "Filter: a\n  Scan: /data/t.csv; partitions=2";
    assert_eq!(format_plan(&plan, 0), Ok(expected.to_string()));
}

#[test]
fn plan_formatting_is_deterministic() {
    let plan = PlanNode {
        kind: PlanKind::Filter { predicate: col("a") },
        children: vec![scan("/data/t.csv", 2)],
    };
    let first = format_plan(&plan, 0).unwrap();
    let second = format_plan(&plan, 0).unwrap();
    assert_eq!(first, second);
}

#[test]
fn plan_children_indent_one_level_deeper() {
    let plan = PlanNode {
        kind: PlanKind::Sort,
        children: vec![PlanNode {
            kind: PlanKind::Projection,
            children: vec![scan("t", 1)],
        }],
    };
    let out = format_plan(&plan, 0).unwrap();
    let lines: Vec<&str> = out.lines().collect();
    assert_eq!(lines, vec!["Sort", "  Projection", "    Scan: t; partitions=1"]);
}

#[test]
fn plan_aggregate_and_join() {
    let agg = PlanNode {
        kind: PlanKind::Aggregate {
            group_exprs: vec![col("k")],
            agg_exprs: vec![AggExpr {
                output_field: Some("MAX(v)".to_string()),
                operands: vec![col("v")],
            }],
        },
        children: vec![leaf(PlanKind::Join {
            join_type: JoinType::Inner,
            on: vec![("l_id".to_string(), "r_id".to_string())],
        })],
    };
    let expected =
        "Aggregate: groupBy=[k], aggrExpr=[MAX(v) [v]]\n  Join: joinType=Inner, on=[(l_id, r_id)]";
    assert_eq!(format_plan(&agg, 0), Ok(expected.to_string()));
}

#[test]
fn plan_aggregate_missing_field_fails_whole_rendering() {
    let plan = PlanNode {
        kind: PlanKind::Sort,
        children: vec![leaf(PlanKind::Aggregate {
            group_exprs: vec![],
            agg_exprs: vec![AggExpr { output_field: None, operands: vec![col("v")] }],
        })],
    };
    assert_eq!(format_plan(&plan, 0), Err(FormatError::MissingAggregateField));
}

#[test]
fn plan_stage_and_shuffle_lines() {
    let boundary = leaf(PlanKind::StageBoundary { job_id: "job1".to_string(), stage_id: 7 });
    assert_eq!(format_plan(&boundary, 0), Ok("StageBoundary: job=job1, stage=7".to_string()));
    let shuffle = leaf(PlanKind::UnresolvedShuffle { upstream_stage_ids: vec![0, 3] });
    assert_eq!(format_plan(&shuffle, 0), Ok("UnresolvedShuffle: stages=[0, 3]".to_string()));
    let coalesce = leaf(PlanKind::CoalesceBatches { target_batch_size: 4096 });
    assert_eq!(format_plan(&coalesce, 1), Ok("  CoalesceBatches: batchSize=4096".to_string()));
    let merge = leaf(PlanKind::Merge);
    assert_eq!(format_plan(&merge, 0), Ok("Merge".to_string()));
}

#[test]
fn unrecognized_kind_short_description_is_kept() {
    let other = leaf(PlanKind::Other { description: "CustomExec: window".to_string() });
    assert_eq!(format_plan(&other, 0), Ok("CustomExec: window".to_string()));
}

#[test]
fn unrecognized_kind_long_description_is_truncated() {
    let long: String = "é".repeat(130);
    let other = leaf(PlanKind::Other { description: long });
    let out = format_plan(&other, 0).unwrap();
    assert_eq!(out.chars().count(), 120);
    assert!(out.chars().all(|c| c == 'é'));
}

#[test]
fn truncate_on_char_boundary() {
    assert_eq!(truncate_chars("abc", 5), "abc");
    assert_eq!(truncate_chars("abcdef", 6), "abcdef");
    assert_eq!(truncate_chars("abcdef", 4), "abcd");
    assert_eq!(truncate_chars("ααββγγ", 3), "ααβ");
    assert_eq!(truncate_chars("", 4), "");
}

#[test]
fn decimal_rendering() {
    assert_eq!(u64_to_dec(0), "0");
    assert_eq!(u64_to_dec(7), "7");
    assert_eq!(u64_to_dec(1234567890), "1234567890");
    assert_eq!(u64_to_dec(u64::MAX), "18446744073709551615");
}

#[test]
fn indentation_prefix() {
    assert_eq!(make_indent(0), "");
    assert_eq!(make_indent(3), "      ");
}
