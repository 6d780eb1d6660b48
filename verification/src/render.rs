//! Textual rendering of a plan subtree: one line per operator, children
//! indented one level deeper than their parent, every detail of the output
//! pinned by the spec functions below.

use vstd::prelude::*;

use crate::plan::{AggExpr, Expr, JoinType, PlanKind, PlanNode};
use crate::text::{dec_str, indent_sp, make_indent, truncate_chars, truncated, u64_to_dec};

verus! {

/// Why a plan failed to render.
#[derive(Debug, Clone, Copy, PartialEq, Eq, Structural)]
pub enum FormatError {
    /// An aggregate expression's output field name could not be resolved.
    MissingAggregateField,
}

/// How many characters of an unrecognized node's description are kept.
pub const DESCRIPTION_LIMIT: usize = 120;

/// The rendering of a scalar expression: a column by its name, a literal by
/// its textual value, a binary expression as `left op right`, anything else
/// by its generic description. Total, and never fails.
pub open spec fn spec_format_expr(e: Expr) -> Seq<char>
    decreases e,
{
    match e {
        Expr::Column { name } => name@,
        Expr::Literal { value } => value@,
        Expr::Binary { left, op, right } => spec_format_expr(*left) + " "@ + op@ + " "@
            + spec_format_expr(*right),
        Expr::Other { description } => description@,
    }
}

/// The renderings of `es[i..]`, joined by a comma and a space.
pub open spec fn spec_expr_list_from(es: Seq<Expr>, i: int) -> Seq<char>
    decreases es.len() - i,
{
    if i < 0 || i >= es.len() {
        Seq::empty()
    } else if i == es.len() - 1 {
        spec_format_expr(es[i])
    } else {
        spec_format_expr(es[i]) + ", "@ + spec_expr_list_from(es, i + 1)
    }
}

/// A bracketed, comma-separated list of expression renderings.
pub open spec fn spec_expr_list(es: Seq<Expr>) -> Seq<char> {
    "["@ + spec_expr_list_from(es, 0) + "]"@
}

/// The rendering of one aggregate expression: its output field name followed
/// by its operand list; `None` when no output field name is resolved.
pub open spec fn spec_format_agg_expr(a: AggExpr) -> Option<Seq<char>> {
    match a.output_field {
        None => None,
        Some(n) => Some(n@ + " "@ + spec_expr_list(a.operands@)),
    }
}

/// The renderings of `es[i..]`, joined by a comma and a space; `None` as
/// soon as one of them fails.
pub open spec fn spec_agg_list_from(es: Seq<AggExpr>, i: int) -> Option<Seq<char>>
    decreases es.len() - i,
{
    if i < 0 || i >= es.len() {
        Some(Seq::empty())
    } else if i == es.len() - 1 {
        spec_format_agg_expr(es[i])
    } else {
        match (spec_format_agg_expr(es[i]), spec_agg_list_from(es, i + 1)) {
            (Some(a), Some(b)) => Some(a + ", "@ + b),
            _ => None,
        }
    }
}

/// A bracketed list of aggregate expression renderings, or `None` when one
/// of them has no output field name.
pub open spec fn spec_agg_list(es: Seq<AggExpr>) -> Option<Seq<char>> {
    match spec_agg_list_from(es, 0) {
        None => None,
        Some(inner) => Some("["@ + inner + "]"@),
    }
}

/// One join key pair rendered as `(left, right)`.
pub open spec fn spec_pair(p: (String, String)) -> Seq<char> {
    "("@ + p.0@ + ", "@ + p.1@ + ")"@
}

/// The pair renderings of `ps[i..]`, joined by a comma and a space.
pub open spec fn spec_pair_list_from(ps: Seq<(String, String)>, i: int) -> Seq<char>
    decreases ps.len() - i,
{
    if i < 0 || i >= ps.len() {
        Seq::empty()
    } else if i == ps.len() - 1 {
        spec_pair(ps[i])
    } else {
        spec_pair(ps[i]) + ", "@ + spec_pair_list_from(ps, i + 1)
    }
}

/// A bracketed list of join key pairs.
pub open spec fn spec_pair_list(ps: Seq<(String, String)>) -> Seq<char> {
    "["@ + spec_pair_list_from(ps, 0) + "]"@
}

/// The stage ids `ids[i..]` in decimal, joined by a comma and a space.
pub open spec fn spec_id_list_from(ids: Seq<u64>, i: int) -> Seq<char>
    decreases ids.len() - i,
{
    if i < 0 || i >= ids.len() {
        Seq::empty()
    } else if i == ids.len() - 1 {
        dec_str(ids[i] as nat)
    } else {
        dec_str(ids[i] as nat) + ", "@ + spec_id_list_from(ids, i + 1)
    }
}

/// A bracketed list of stage ids.
pub open spec fn spec_id_list(ids: Seq<u64>) -> Seq<char> {
    "["@ + spec_id_list_from(ids, 0) + "]"@
}

/// The name of a join type.
pub open spec fn spec_join_type_label(t: JoinType) -> Seq<char> {
    match t {
        JoinType::Inner => "Inner"@,
        JoinType::Left => "Left"@,
        JoinType::Right => "Right"@,
        JoinType::Full => "Full"@,
    }
}

/// The one-line description of a node kind, without indentation. `None`
/// exactly when an aggregate's output field name is missing; an
/// unrecognized kind degrades to its description, truncated for
/// readability, and is not an error.
pub open spec fn spec_node_label(k: PlanKind) -> Option<Seq<char>> {
    match k {
        PlanKind::Scan { path, partition_count } => Some(
            "Scan: "@ + path@ + "; partitions="@ + dec_str(partition_count as nat),
        ),
        PlanKind::Filter { predicate } => Some("Filter: "@ + spec_format_expr(predicate)),
        PlanKind::Projection => Some("Projection"@),
        PlanKind::Join { join_type, on } => Some(
            "Join: joinType="@ + spec_join_type_label(join_type) + ", on="@ + spec_pair_list(on@),
        ),
        PlanKind::Aggregate { group_exprs, agg_exprs } => match spec_agg_list(agg_exprs@) {
            None => None,
            Some(aggs) => Some(
                "Aggregate: groupBy="@ + spec_expr_list(group_exprs@) + ", aggrExpr="@ + aggs,
            ),
        },
        PlanKind::Sort => Some("Sort"@),
        PlanKind::CoalesceBatches { target_batch_size } => Some(
            "CoalesceBatches: batchSize="@ + dec_str(target_batch_size as nat),
        ),
        PlanKind::Merge => Some("Merge"@),
        PlanKind::StageBoundary { job_id, stage_id } => Some(
            "StageBoundary: job="@ + job_id@ + ", stage="@ + dec_str(stage_id as nat),
        ),
        PlanKind::UnresolvedShuffle { upstream_stage_ids } => Some(
            "UnresolvedShuffle: stages="@ + spec_id_list(upstream_stage_ids@),
        ),
        PlanKind::Other { description } => Some(truncated(description@, DESCRIPTION_LIMIT as nat)),
    }
}

/// The height of a plan subtree: one for the node itself plus the height of
/// its tallest child.
pub open spec fn spec_height(p: PlanNode) -> nat
    decreases p, 0nat,
{
    1 + spec_children_height(p.children@, 0)
}

/// The height of the tallest of `cs[i..]`.
pub open spec fn spec_children_height(cs: Seq<PlanNode>, i: int) -> nat
    decreases cs, cs.len() - i + 1,
{
    if i < 0 || i >= cs.len() {
        0
    } else {
        let h = spec_height(cs[i]);
        let rest = spec_children_height(cs, i + 1);
        if h >= rest {
            h
        } else {
            rest
        }
    }
}

/// The full multi-line rendering of the subtree rooted at `p` at nesting
/// depth `indent`: the node's own line, then each child one level deeper,
/// children separated by line breaks. `None` exactly when some aggregate
/// in the subtree has no resolvable output field name.
pub open spec fn spec_format_plan(p: PlanNode, indent: nat) -> Option<Seq<char>>
    decreases p, 0nat,
{
    match spec_node_label(p.kind) {
        None => None,
        Some(label) => if p.children@.len() == 0 {
            Some(indent_sp(indent) + label)
        } else {
            match spec_format_children(p.children@, 0, indent + 1) {
                None => None,
                Some(cs) => Some(indent_sp(indent) + label + "\n"@ + cs),
            }
        },
    }
}

/// The renderings of the subtrees `cs[i..]`, joined by line breaks.
pub open spec fn spec_format_children(cs: Seq<PlanNode>, i: int, indent: nat) -> Option<Seq<char>>
    decreases cs, cs.len() - i + 1,
{
    if i < 0 || i >= cs.len() {
        Some(Seq::empty())
    } else if i == cs.len() - 1 {
        spec_format_plan(cs[i], indent)
    } else {
        match (spec_format_plan(cs[i], indent), spec_format_children(cs, i + 1, indent)) {
            (Some(a), Some(b)) => Some(a + "\n"@ + b),
            _ => None,
        }
    }
}

/// Renders one scalar expression, exactly as `spec_format_expr` describes.
/// Pure and total: rendering an expression never fails.
pub fn format_expr(e: &Expr) -> (s: String)
    ensures
        s@ == spec_format_expr(*e),
    decreases *e,
{
    match e {
        Expr::Column { name } => name.clone(),
        Expr::Literal { value } => value.clone(),
        Expr::Binary { left, op, right } => {
            let mut s = format_expr(&**left);
            s.append(" ");
            s.append(op.as_str());
            s.append(" ");
            let r = format_expr(&**right);
            s.append(r.as_str());
            proof {
                assert(s@ =~= spec_format_expr(**left) + " "@ + op@ + " "@ + spec_format_expr(
                    **right,
                ));
            }
            s
        },
        Expr::Other { description } => description.clone(),
    }
}

fn format_expr_list_from(es: &Vec<Expr>, i: usize) -> (s: String)
    ensures
        s@ == spec_expr_list_from(es@, i as int),
    decreases es@.len() - i,
{
    if i >= es.len() {
        String::new()
    } else if i == es.len() - 1 {
        format_expr(&es[i])
    } else {
        let mut s = format_expr(&es[i]);
        s.append(", ");
        let rest = format_expr_list_from(es, i + 1);
        s.append(rest.as_str());
        proof {
            assert(s@ =~= spec_format_expr(es@[i as int]) + ", "@ + spec_expr_list_from(
                es@,
                i as int + 1,
            ));
        }
        s
    }
}

fn format_expr_list(es: &Vec<Expr>) -> (s: String)
    ensures
        s@ == spec_expr_list(es@),
{
    let mut s = "[".to_owned();
    let inner = format_expr_list_from(es, 0);
    s.append(inner.as_str());
    s.append("]");
    proof {
        assert(s@ =~= "["@ + spec_expr_list_from(es@, 0) + "]"@);
    }
    s
}

/// Renders one aggregate expression as its output field name followed by its
/// operand expressions; fails exactly when no output field name is resolved.
pub fn format_agg_expr(a: &AggExpr) -> (r: Result<String, FormatError>)
    ensures
        r matches Ok(s) ==> spec_format_agg_expr(*a) == Some(s@),
        r is Err ==> spec_format_agg_expr(*a) is None && r == Err::<String, FormatError>(
            FormatError::MissingAggregateField,
        ),
{
    match &a.output_field {
        None => Err(FormatError::MissingAggregateField),
        Some(n) => {
            let mut s = n.clone();
            s.append(" ");
            let ops = format_expr_list(&a.operands);
            s.append(ops.as_str());
            proof {
                assert(s@ =~= n@ + " "@ + spec_expr_list(a.operands@));
            }
            Ok(s)
        },
    }
}

fn format_agg_list_from(es: &Vec<AggExpr>, i: usize) -> (r: Result<String, FormatError>)
    ensures
        r matches Ok(s) ==> spec_agg_list_from(es@, i as int) == Some(s@),
        r is Err ==> spec_agg_list_from(es@, i as int) is None && r == Err::<String, FormatError>(
            FormatError::MissingAggregateField,
        ),
    decreases es@.len() - i,
{
    if i >= es.len() {
        Ok(String::new())
    } else if i == es.len() - 1 {
        format_agg_expr(&es[i])
    } else {
        match format_agg_expr(&es[i]) {
            Err(e) => Err(e),
            Ok(mut s) => match format_agg_list_from(es, i + 1) {
                Err(e) => Err(e),
                Ok(rest) => {
                    s.append(", ");
                    s.append(rest.as_str());
                    proof {
                        assert(s@ =~= spec_format_agg_expr(es@[i as int])->Some_0 + ", "@
                            + spec_agg_list_from(es@, i as int + 1)->Some_0);
                    }
                    Ok(s)
                },
            },
        }
    }
}

fn format_agg_list(es: &Vec<AggExpr>) -> (r: Result<String, FormatError>)
    ensures
        r matches Ok(s) ==> spec_agg_list(es@) == Some(s@),
        r is Err ==> spec_agg_list(es@) is None && r == Err::<String, FormatError>(
            FormatError::MissingAggregateField,
        ),
{
    match format_agg_list_from(es, 0) {
        Err(e) => Err(e),
        Ok(inner) => {
            let mut s = "[".to_owned();
            s.append(inner.as_str());
            s.append("]");
            proof {
                assert(s@ =~= "["@ + spec_agg_list_from(es@, 0)->Some_0 + "]"@);
            }
            Ok(s)
        },
    }
}

fn format_pair_list_from(ps: &Vec<(String, String)>, i: usize) -> (s: String)
    ensures
        s@ == spec_pair_list_from(ps@, i as int),
    decreases ps@.len() - i,
{
    if i >= ps.len() {
        String::new()
    } else {
        let mut s = "(".to_owned();
        s.append(ps[i].0.as_str());
        s.append(", ");
        s.append(ps[i].1.as_str());
        s.append(")");
        proof {
            assert(s@ =~= spec_pair(ps@[i as int]));
        }
        if i == ps.len() - 1 {
            s
        } else {
            s.append(", ");
            let rest = format_pair_list_from(ps, i + 1);
            s.append(rest.as_str());
            proof {
                assert(s@ =~= spec_pair(ps@[i as int]) + ", "@ + spec_pair_list_from(
                    ps@,
                    i as int + 1,
                ));
            }
            s
        }
    }
}

fn format_pair_list(ps: &Vec<(String, String)>) -> (s: String)
    ensures
        s@ == spec_pair_list(ps@),
{
    let mut s = "[".to_owned();
    let inner = format_pair_list_from(ps, 0);
    s.append(inner.as_str());
    s.append("]");
    proof {
        assert(s@ =~= "["@ + spec_pair_list_from(ps@, 0) + "]"@);
    }
    s
}

fn format_id_list_from(ids: &Vec<u64>, i: usize) -> (s: String)
    ensures
        s@ == spec_id_list_from(ids@, i as int),
    decreases ids@.len() - i,
{
    if i >= ids.len() {
        String::new()
    } else if i == ids.len() - 1 {
        u64_to_dec(ids[i])
    } else {
        let mut s = u64_to_dec(ids[i]);
        s.append(", ");
        let rest = format_id_list_from(ids, i + 1);
        s.append(rest.as_str());
        proof {
            assert(s@ =~= dec_str(ids@[i as int] as nat) + ", "@ + spec_id_list_from(
                ids@,
                i as int + 1,
            ));
        }
        s
    }
}

fn format_id_list(ids: &Vec<u64>) -> (s: String)
    ensures
        s@ == spec_id_list(ids@),
{
    let mut s = "[".to_owned();
    let inner = format_id_list_from(ids, 0);
    s.append(inner.as_str());
    s.append("]");
    proof {
        assert(s@ =~= "["@ + spec_id_list_from(ids@, 0) + "]"@);
    }
    s
}

fn join_type_label(t: &JoinType) -> (s: &'static str)
    ensures
        s@ == spec_join_type_label(*t),
{
    match t {
        JoinType::Inner => "Inner",
        JoinType::Left => "Left",
        JoinType::Right => "Right",
        JoinType::Full => "Full",
    }
}

fn node_label(k: &PlanKind) -> (r: Result<String, FormatError>)
    ensures
        r matches Ok(s) ==> spec_node_label(*k) == Some(s@),
        r is Err ==> spec_node_label(*k) is None && r == Err::<String, FormatError>(
            FormatError::MissingAggregateField,
        ),
{
    match k {
        PlanKind::Scan { path, partition_count } => {
            let mut s = "Scan: ".to_owned();
            s.append(path.as_str());
            s.append("; partitions=");
            let n = u64_to_dec(*partition_count);
            s.append(n.as_str());
            proof {
                assert(s@ =~= "Scan: "@ + path@ + "; partitions="@ + dec_str(
                    *partition_count as nat,
                ));
            }
            Ok(s)
        },
        PlanKind::Filter { predicate } => {
            let mut s = "Filter: ".to_owned();
            let p = format_expr(predicate);
            s.append(p.as_str());
            proof {
                assert(s@ =~= "Filter: "@ + spec_format_expr(*predicate));
            }
            Ok(s)
        },
        PlanKind::Projection => Ok("Projection".to_owned()),
        PlanKind::Join { join_type, on } => {
            let mut s = "Join: joinType=".to_owned();
            s.append(join_type_label(join_type));
            s.append(", on=");
            let ons = format_pair_list(on);
            s.append(ons.as_str());
            proof {
                assert(s@ =~= "Join: joinType="@ + spec_join_type_label(*join_type) + ", on="@
                    + spec_pair_list(on@));
            }
            Ok(s)
        },
        PlanKind::Aggregate { group_exprs, agg_exprs } => {
            match format_agg_list(agg_exprs) {
                Err(e) => Err(e),
                Ok(aggs) => {
                    let mut s = "Aggregate: groupBy=".to_owned();
                    let groups = format_expr_list(group_exprs);
                    s.append(groups.as_str());
                    s.append(", aggrExpr=");
                    s.append(aggs.as_str());
                    proof {
                        assert(s@ =~= "Aggregate: groupBy="@ + spec_expr_list(group_exprs@)
                            + ", aggrExpr="@ + spec_agg_list(agg_exprs@)->Some_0);
                    }
                    Ok(s)
                },
            }
        },
        PlanKind::Sort => Ok("Sort".to_owned()),
        PlanKind::CoalesceBatches { target_batch_size } => {
            let mut s = "CoalesceBatches: batchSize=".to_owned();
            let n = u64_to_dec(*target_batch_size);
            s.append(n.as_str());
            proof {
                assert(s@ =~= "CoalesceBatches: batchSize="@ + dec_str(*target_batch_size as nat));
            }
            Ok(s)
        },
        PlanKind::Merge => Ok("Merge".to_owned()),
        PlanKind::StageBoundary { job_id, stage_id } => {
            let mut s = "StageBoundary: job=".to_owned();
            s.append(job_id.as_str());
            s.append(", stage=");
            let n = u64_to_dec(*stage_id);
            s.append(n.as_str());
            proof {
                assert(s@ =~= "StageBoundary: job="@ + job_id@ + ", stage="@ + dec_str(
                    *stage_id as nat,
                ));
            }
            Ok(s)
        },
        PlanKind::UnresolvedShuffle { upstream_stage_ids } => {
            let mut s = "UnresolvedShuffle: stages=".to_owned();
            let ids = format_id_list(upstream_stage_ids);
            s.append(ids.as_str());
            proof {
                assert(s@ =~= "UnresolvedShuffle: stages="@ + spec_id_list(upstream_stage_ids@));
            }
            Ok(s)
        },
        PlanKind::Other { description } => Ok(truncate_chars(description.as_str(), DESCRIPTION_LIMIT)),
    }
}

/// Two characters of indentation per nesting level.
pub proof fn lemma_indent_len(n: nat)
    ensures
        indent_sp(n).len() == 2 * n,
    decreases n,
{
    if n > 0 {
        lemma_indent_len((n - 1) as nat);
        reveal_strlit("  ");
    }
}

/// Indentation discipline: a subtree rendered at nesting depth `indent`
/// begins with exactly that depth's indentation, so each child of a node,
/// rendered at depth one greater, stands exactly one level deeper than its
/// parent.
pub proof fn lemma_format_plan_indented(p: PlanNode, indent: nat)
    requires
        spec_format_plan(p, indent) is Some,
    ensures
        spec_format_plan(p, indent)->Some_0.len() >= 2 * indent,
        spec_format_plan(p, indent)->Some_0.subrange(0, 2 * indent as int) == indent_sp(indent),
{
    lemma_indent_len(indent);
    let s = spec_format_plan(p, indent)->Some_0;
    if p.children@.len() == 0 {
        let label = spec_node_label(p.kind)->Some_0;
        assert(s == indent_sp(indent) + label);
        assert(s.subrange(0, 2 * indent as int) =~= indent_sp(indent));
    } else {
        let label = spec_node_label(p.kind)->Some_0;
        let cs = spec_format_children(p.children@, 0, indent + 1)->Some_0;
        assert(s == indent_sp(indent) + label + "\n"@ + cs);
        assert(s.subrange(0, 2 * indent as int) =~= indent_sp(indent));
    }
}

proof fn lemma_children_height_bound(cs: Seq<PlanNode>, i: int, j: int)
    requires
        0 <= i <= j < cs.len(),
    ensures
        spec_children_height(cs, i) >= spec_height(cs[j]),
    decreases j - i,
{
    if i < j {
        lemma_children_height_bound(cs, i + 1, j);
    }
}

/// Renders the subtree rooted at `p` at nesting depth `indent`, exactly as
/// `spec_format_plan` describes: deterministic, with each child indented one
/// level deeper than its parent, and failing only when an aggregate's output
/// field name is missing somewhere in the subtree.
pub fn format_plan(p: &PlanNode, indent: usize) -> (r: Result<String, FormatError>)
    requires
        indent + spec_height(*p) <= usize::MAX,
    ensures
        r matches Ok(s) ==> spec_format_plan(*p, indent as nat) == Some(s@),
        r is Err ==> spec_format_plan(*p, indent as nat) is None && r == Err::<String, FormatError>(
            FormatError::MissingAggregateField,
        ),
    decreases *p, 0nat,
{
    let label = match node_label(&p.kind) {
        Err(e) => {
            return Err(e);
        },
        Ok(l) => l,
    };
    let mut s = make_indent(indent);
    s.append(label.as_str());
    if p.children.len() == 0 {
        proof {
            assert(s@ =~= indent_sp(indent as nat) + spec_node_label(p.kind)->Some_0);
        }
        Ok(s)
    } else {
        match format_children(&p.children, 0, indent + 1) {
            Err(e) => Err(e),
            Ok(cs) => {
                s.append("\n");
                s.append(cs.as_str());
                proof {
                    assert(s@ =~= indent_sp(indent as nat) + spec_node_label(p.kind)->Some_0
                        + "\n"@ + spec_format_children(p.children@, 0, indent as nat + 1)->Some_0);
                }
                Ok(s)
            },
        }
    }
}

fn format_children(cs: &Vec<PlanNode>, i: usize, indent: usize) -> (r: Result<String, FormatError>)
    requires
        indent + spec_children_height(cs@, i as int) <= usize::MAX,
    ensures
        r matches Ok(s) ==> spec_format_children(cs@, i as int, indent as nat) == Some(s@),
        r is Err ==> spec_format_children(cs@, i as int, indent as nat) is None && r == Err::<
            String,
            FormatError,
        >(FormatError::MissingAggregateField),
    decreases cs@, cs@.len() - i + 1,
{
    if i >= cs.len() {
        Ok(String::new())
    } else if i == cs.len() - 1 {
        format_plan(&cs[i], indent)
    } else {
        proof {
            lemma_children_height_bound(cs@, i as int, i as int);
            lemma_children_height_bound(cs@, i as int, i as int + 1);
        }
        match format_plan(&cs[i], indent) {
            Err(e) => Err(e),
            Ok(mut s) => match format_children(cs, i + 1, indent) {
                Err(e) => Err(e),
                Ok(rest) => {
                    s.append("\n");
                    s.append(rest.as_str());
                    proof {
                        assert(s@ =~= spec_format_plan(cs@[i as int], indent as nat)->Some_0
                            + "\n"@ + spec_format_children(
                            cs@,
                            i as int + 1,
                            indent as nat,
                        )->Some_0);
                    }
                    Ok(s)
                },
            },
        }
    }
}

} // verus!
