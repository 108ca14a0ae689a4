//! Splits an exchange-annotated plan into the coordinator's own plan and the
//! fragments that every cluster node runs.
//!
//! Every exchange boundary (a [`StagePlan`]) is resolved innermost first: its
//! kind fixes the nodes that run the part below it (the sources) and the nodes
//! that receive its output (the destinations). The boundary is then replaced by
//! a [`RemotePlan`] that fetches from the sources, and each source node gets a
//! task that runs the part below it and routes the rows to the destinations.
use vstd::prelude::*;

use crate::cluster::{Node, QueryContext};
use crate::error::{ErrorCode, PLAN_SCHEDULE_ERROR};
use crate::expression::{copy_names, names_view, ExprView, Expression};
use crate::fetch::{fetch_name, fetch_name_of};
use crate::plan::{FilterPlan, PlanNode, PlanView, ReadSourcePlan, RemotePlan, SelectPlan, StageKind, StagePlan};

verus! {

// ---------------------------------------------------------------------------
// Participation of nodes in a stage.

/// Nodes that receive the output of a stage of kind `k`.
pub open spec fn kind_dest(k: StageKind, names: Seq<Seq<char>>, local: Seq<char>) -> Seq<Seq<char>> {
    match k {
        StageKind::Convergent => seq![local],
        _ => names,
    }
}

/// Nodes that run the part below a stage of kind `k`, where `inner` are the
/// destinations of the stage nested inside it.
pub open spec fn kind_sources(
    k: StageKind,
    inner: Seq<Seq<char>>,
    names: Seq<Seq<char>>,
    local: Seq<char>,
) -> Seq<Seq<char>> {
    match k {
        StageKind::Normal => names,
        StageKind::Expansive => seq![local],
        StageKind::Convergent => inner,
    }
}

// ---------------------------------------------------------------------------
// The stages of a plan.

/// A resolved exchange boundary: its kind, routing expression and input.
pub struct StageRecord {
    pub kind: StageKind,
    pub expr: ExprView,
    pub child: PlanView,
}

/// Number of exchange boundaries in a plan.
pub open spec fn stage_count(p: PlanView) -> nat
    decreases p,
{
    match p {
        PlanView::Select(c) => stage_count(*c),
        PlanView::Filter(_, c) => stage_count(*c),
        PlanView::Stage(_, _, c) => stage_count(*c) + 1,
        _ => 0,
    }
}

/// The exchange boundaries of a plan, innermost first.
pub open spec fn stages(p: PlanView) -> Seq<StageRecord>
    decreases p,
{
    match p {
        PlanView::Select(c) => stages(*c),
        PlanView::Filter(_, c) => stages(*c),
        PlanView::Stage(k, e, c) => stages(*c).push(StageRecord { kind: k, expr: e, child: *c }),
        _ => seq![],
    }
}

/// Destinations of stage `i` of `st`. Below the innermost stage the rows
/// are read where the data lies: on every node.
pub open spec fn dest_at(st: Seq<StageRecord>, i: int, names: Seq<Seq<char>>, local: Seq<char>) -> Seq<Seq<char>> {
    if 0 <= i < st.len() {
        kind_dest(st[i].kind, names, local)
    } else {
        names
    }
}

/// Sources of stage `i` of `st`.
pub open spec fn sources_at(st: Seq<StageRecord>, i: int, names: Seq<Seq<char>>, local: Seq<char>) -> Seq<Seq<char>> {
    if 0 <= i < st.len() {
        kind_sources(st[i].kind, dest_at(st, i - 1, names, local), names, local)
    } else {
        seq![]
    }
}

// ---------------------------------------------------------------------------
// Rewriting.

/// `p` as run by `consumer`: its outermost boundary becomes a fetch from
/// `top`, addressed to `consumer`; everything above it is kept.
pub open spec fn rewrite(p: PlanView, consumer: Seq<char>, query_id: Seq<char>, top: Seq<Seq<char>>) -> PlanView
    decreases p,
{
    match p {
        PlanView::Select(c) => PlanView::Select(Box::new(rewrite(*c, consumer, query_id, top))),
        PlanView::Filter(e, c) => PlanView::Filter(e, Box::new(rewrite(*c, consumer, query_id, top))),
        PlanView::Stage(_, _, c) => PlanView::Remote(fetch_name_of(query_id, stage_count(*c), consumer), top),
        _ => p,
    }
}

/// The exec form of [`rewrite`]: `top_index` is the number of the outermost
/// boundary of `p`.
fn rewrite_plan(p: &PlanNode, consumer: &String, query_id: &String, top: &Vec<String>, top_index: usize) -> (r: PlanNode)
    requires
        stage_count(p@) > 0 ==> top_index == stage_count(p@) - 1,
    ensures
        r@ == rewrite(p@, consumer@, query_id@, names_view(top@)),
    decreases p,
{
    match p {
        PlanNode::Empty => PlanNode::Empty,
        PlanNode::ReadSource(s) => PlanNode::ReadSource(ReadSourcePlan { table: s.table.clone() }),
        PlanNode::Select(s) => {
            let input = rewrite_plan(&s.input, consumer, query_id, top, top_index);
            PlanNode::Select(SelectPlan { input: Box::new(input) })
        },
        PlanNode::Filter(f) => {
            let input = rewrite_plan(&f.input, consumer, query_id, top, top_index);
            PlanNode::Filter(FilterPlan { predicate: f.predicate.duplicate(), input: Box::new(input) })
        },
        PlanNode::Stage(_) => PlanNode::Remote(
            RemotePlan { fetch_name: fetch_name(query_id, top_index, consumer), fetch_nodes: copy_names(top) },
        ),
        PlanNode::Remote(r) => PlanNode::Remote(
            RemotePlan { fetch_name: r.fetch_name.clone(), fetch_nodes: copy_names(&r.fetch_nodes) },
        ),
    }
}

/// The model of a boundary of the plan.
pub open spec fn record_of(s: &StagePlan) -> StageRecord {
    StageRecord { kind: s.kind, expr: s.scatters_expr@, child: s.input@ }
}

/// Appends the boundaries of `p` to `out`, innermost first.
fn collect_stages<'a>(p: &'a PlanNode, out: &mut Vec<&'a StagePlan>)
    ensures
        final(out).len() == old(out).len() + stages(p@).len(),
        forall|k: int| 0 <= k < old(out).len() ==> final(out)[k] == old(out)[k],
        forall|k: int|
            0 <= k < stages(p@).len() ==> record_of(final(out)[old(out).len() + k]) == #[trigger] stages(p@)[k],
    decreases p,
{
    match p {
        PlanNode::Select(s) => collect_stages(&s.input, out),
        PlanNode::Filter(f) => collect_stages(&f.input, out),
        PlanNode::Stage(s) => {
            collect_stages(&s.input, out);
            out.push(s);
        },
        _ => {},
    }
}

/// Every boundary's input holds exactly the boundaries resolved before it.
pub proof fn lemma_stage_numbers(p: PlanView)
    ensures
        stage_count(p) == stages(p).len(),
        forall|i: int| 0 <= i < stages(p).len() ==> stage_count(#[trigger] stages(p)[i].child) == i,
    decreases p,
{
    match p {
        PlanView::Select(c) => lemma_stage_numbers(*c),
        PlanView::Filter(_, c) => lemma_stage_numbers(*c),
        PlanView::Stage(k, e, c) => {
            lemma_stage_numbers(*c);
            assert forall|i: int| 0 <= i < stages(p).len() implies stage_count(#[trigger] stages(p)[i].child) == i by {
                if i < stages(*c).len() {
                    assert(stages(p)[i] == stages(*c)[i]);
                }
            }
        },
        _ => {},
    }
}

// ---------------------------------------------------------------------------
// Tasks.

/// One node's obligation: run `plan`, then route its rows to `scatters`
/// with `scatters_action`.
#[derive(Debug, PartialEq, Eq)]
pub struct RemoteTask {
    pub plan: PlanNode,
    pub scatters: Vec<String>,
    pub scatters_action: Expression,
}

/// Model of a task together with the node it is assigned to.
pub struct TaskView {
    pub node: Seq<char>,
    pub plan: PlanView,
    pub scatters: Seq<Seq<char>>,
    pub expr: ExprView,
}

pub open spec fn task_view(t: (Node, RemoteTask)) -> TaskView {
    TaskView { node: t.0.name@, plan: t.1.plan@, scatters: names_view(t.1.scatters@), expr: t.1.scatters_action@ }
}

pub open spec fn task_views(t: Seq<(Node, RemoteTask)>) -> Seq<TaskView> {
    t.map_values(|x: (Node, RemoteTask)| task_view(x))
}

/// The task of stage `i` of `st` for node `n`.
pub open spec fn stage_task(
    st: Seq<StageRecord>,
    i: int,
    n: Seq<char>,
    query_id: Seq<char>,
    names: Seq<Seq<char>>,
    local: Seq<char>,
) -> TaskView {
    TaskView {
        node: n,
        plan: rewrite(st[i].child, n, query_id, sources_at(st, i - 1, names, local)),
        scatters: dest_at(st, i, names, local),
        expr: st[i].expr,
    }
}

/// The tasks of node `n` among the first `k` stages, in stage order.
pub open spec fn node_tasks(
    st: Seq<StageRecord>,
    k: nat,
    n: Seq<char>,
    query_id: Seq<char>,
    names: Seq<Seq<char>>,
    local: Seq<char>,
) -> Seq<TaskView>
    decreases k,
{
    if k == 0 {
        seq![]
    } else {
        let prev = node_tasks(st, (k - 1) as nat, n, query_id, names, local);
        if sources_at(st, k - 1, names, local).contains(n) {
            prev.push(stage_task(st, k - 1, n, query_id, names, local))
        } else {
            prev
        }
    }
}

/// The tasks of the first `m` nodes, node by node.
pub open spec fn cluster_tasks(
    st: Seq<StageRecord>,
    m: nat,
    query_id: Seq<char>,
    names: Seq<Seq<char>>,
    local: Seq<char>,
) -> Seq<TaskView>
    decreases m,
{
    if m == 0 {
        seq![]
    } else {
        cluster_tasks(st, (m - 1) as nat, query_id, names, local)
            + node_tasks(st, st.len(), names[m - 1], query_id, names, local)
    }
}

// ---------------------------------------------------------------------------
// Scheduling.

/// The message of a plan whose result would stay spread over the cluster.
pub open spec fn non_convergent_message() -> Seq<char> {
    "The final stage plan must be convergent"@
}

/// A plan is refused when its outermost boundary does not gather back to
/// the local node.
pub open spec fn rejected(p: PlanView) -> bool {
    stages(p).len() > 0 && stages(p).last().kind != StageKind::Convergent
}

/// The plan that the local node runs.
pub open spec fn local_plan_of(p: PlanView, query_id: Seq<char>, names: Seq<Seq<char>>, local: Seq<char>) -> PlanView {
    rewrite(p, local, query_id, sources_at(stages(p), stages(p).len() - 1, names, local))
}

/// The tasks of all nodes, node-major and stage-minor.
pub open spec fn scheduled_tasks(p: PlanView, query_id: Seq<char>, names: Seq<Seq<char>>, local: Seq<char>) -> Seq<TaskView> {
    cluster_tasks(stages(p), names.len(), query_id, names, local)
}

fn single(s: &String) -> (r: Vec<String>)
    ensures
        names_view(r@) == seq![s@],
{
    let mut v: Vec<String> = Vec::new();
    v.push(s.clone());
    assert(names_view(v@) =~= seq![s@]);
    v
}

fn contains_name(v: &Vec<String>, n: &String) -> (r: bool)
    ensures
        r == names_view(v@).contains(n@),
{
    let mut i: usize = 0;
    while i < v.len()
        invariant
            i <= v.len(),
            forall|j: int| 0 <= j < i ==> v[j]@ != n@,
        decreases v.len() - i,
    {
        if v[i] == *n {
            assert(names_view(v@)[i as int] == n@);
            return true;
        }
        i = i + 1;
    }
    proof {
        if names_view(v@).contains(n@) {
            let j = choose|j: int| 0 <= j < names_view(v@).len() && names_view(v@)[j] == n@;
            assert(v[j]@ == n@);
        }
    }
    false
}

/// Splits `plan` into the plan that the local node runs and the tasks of
/// every node, node by node in registration order and, for each node, stage
/// by stage from the innermost out.
pub fn reschedule(ctx: &QueryContext, plan: &PlanNode) -> (r: Result<(PlanNode, Vec<(Node, RemoteTask)>), ErrorCode>)
    requires
        ctx.cluster.wf(),
    ensures
        match r {
            Ok((local_plan, tasks)) => {
                &&& !rejected(plan@)
                &&& local_plan@ == local_plan_of(plan@, ctx.query_id@, ctx.cluster.names(), ctx.cluster.local_name())
                &&& task_views(tasks@) == scheduled_tasks(plan@, ctx.query_id@, ctx.cluster.names(), ctx.cluster.local_name())
            },
            Err(e) => {
                &&& rejected(plan@)
                &&& e.code == PLAN_SCHEDULE_ERROR
                &&& e.message@ == non_convergent_message()
            },
        },
{
    let ghost sv = stages(plan@);
    let ghost nv = ctx.cluster.names();
    let ghost lv = ctx.cluster.local_name();
    let ghost q = ctx.query_id@;
    proof {
        lemma_stage_numbers(plan@);
    }
    let mut st: Vec<&StagePlan> = Vec::new();
    collect_stages(plan, &mut st);
    assert(forall|k: int| 0 <= k < sv.len() ==> record_of(st[k]) == #[trigger] sv[k]) by {
        assert forall|k: int| 0 <= k < sv.len() implies record_of(st[k]) == #[trigger] sv[k] by {
            assert(record_of(st[0 + k]) == sv[k]);
        }
    }
    let n_st = st.len();
    if n_st > 0 && st[n_st - 1].kind != StageKind::Convergent {
        return Err(ErrorCode::plan_schedule_error("The final stage plan must be convergent"));
    }
    let nodes = &ctx.cluster.nodes;
    let mut names: Vec<String> = Vec::new();
    let mut j: usize = 0;
    while j < nodes.len()
        invariant
            j <= nodes.len(),
            names.len() == j,
            forall|k: int| 0 <= k < j ==> #[trigger] names[k]@ == nodes[k].name@,
        decreases nodes.len() - j,
    {
        names.push(nodes[j].name.clone());
        j = j + 1;
    }
    assert(names_view(names@) =~= nv);
    assert(forall|k: int| 0 <= k < nodes.len() ==> nv[k] == #[trigger] nodes@[k].name@);
    let li = ctx.cluster.local_position();
    let local = nodes[li].name.clone();
    let mut srcs: Vec<Vec<String>> = Vec::new();
    let mut dsts: Vec<Vec<String>> = Vec::new();
    let mut i: usize = 0;
    while i < n_st
        invariant
            i <= n_st,
            n_st == sv.len(),
            st.len() == n_st,
            forall|k: int| 0 <= k < sv.len() ==> record_of(st[k]) == #[trigger] sv[k],
            names_view(names@) == nv,
            local@ == lv,
            srcs.len() == i,
            dsts.len() == i,
            forall|k: int| 0 <= k < i ==> names_view(#[trigger] srcs[k]@) == sources_at(sv, k, nv, lv),
            forall|k: int| 0 <= k < i ==> names_view(#[trigger] dsts[k]@) == dest_at(sv, k, nv, lv),
        decreases n_st - i,
    {
        assert(record_of(st[i as int]) == sv[i as int]);
        let s = match st[i].kind {
            StageKind::Normal => copy_names(&names),
            StageKind::Expansive => single(&local),
            StageKind::Convergent => if i == 0 {
                copy_names(&names)
            } else {
                copy_names(&dsts[i - 1])
            },
        };
        let d = match st[i].kind {
            StageKind::Convergent => single(&local),
            _ => copy_names(&names),
        };
        srcs.push(s);
        dsts.push(d);
        i = i + 1;
    }
    let empty: Vec<String> = Vec::new();
    assert(names_view(empty@) =~= seq![]);
    let local_plan = if n_st > 0 {
        rewrite_plan(plan, &local, &ctx.query_id, &srcs[n_st - 1], n_st - 1)
    } else {
        rewrite_plan(plan, &local, &ctx.query_id, &empty, 0)
    };
    let mut tasks: Vec<(Node, RemoteTask)> = Vec::new();
    let mut j: usize = 0;
    while j < nodes.len()
        invariant
            j <= nodes.len(),
            nv.len() == nodes.len(),
            n_st == sv.len(),
            st.len() == n_st,
            forall|k: int| 0 <= k < sv.len() ==> record_of(st[k]) == #[trigger] sv[k],
            forall|k: int| 0 <= k < sv.len() ==> stage_count(#[trigger] sv[k].child) == k,
            names_view(names@) == nv,
            names_view(empty@) == Seq::<Seq<char>>::empty(),
            nv == ctx.cluster.names(),
            q == ctx.query_id@,
            forall|k: int| 0 <= k < nodes.len() ==> nv[k] == #[trigger] nodes@[k].name@,
            srcs.len() == n_st,
            dsts.len() == n_st,
            forall|k: int| 0 <= k < n_st ==> names_view(#[trigger] srcs[k]@) == sources_at(sv, k, nv, lv),
            forall|k: int| 0 <= k < n_st ==> names_view(#[trigger] dsts[k]@) == dest_at(sv, k, nv, lv),
            task_views(tasks@) == cluster_tasks(sv, j as nat, q, nv, lv),
        decreases nodes.len() - j,
    {
        let mut i: usize = 0;
        while i < n_st
            invariant
                i <= n_st,
                j < nodes.len(),
                nv.len() == nodes.len(),
                n_st == sv.len(),
                st.len() == n_st,
                forall|k: int| 0 <= k < sv.len() ==> record_of(st[k]) == #[trigger] sv[k],
                forall|k: int| 0 <= k < sv.len() ==> stage_count(#[trigger] sv[k].child) == k,
                names_view(names@) == nv,
                names_view(empty@) == Seq::<Seq<char>>::empty(),
                nv == ctx.cluster.names(),
                q == ctx.query_id@,
                forall|k: int| 0 <= k < nodes.len() ==> nv[k] == #[trigger] nodes@[k].name@,
                srcs.len() == n_st,
                dsts.len() == n_st,
                forall|k: int| 0 <= k < n_st ==> names_view(#[trigger] srcs[k]@) == sources_at(sv, k, nv, lv),
                forall|k: int| 0 <= k < n_st ==> names_view(#[trigger] dsts[k]@) == dest_at(sv, k, nv, lv),
                task_views(tasks@) == cluster_tasks(sv, j as nat, q, nv, lv) + node_tasks(sv, i as nat, nv[j as int], q, nv, lv),
            decreases n_st - i,
        {
            assert(names[j as int]@ == nv[j as int]);
            if contains_name(&srcs[i], &names[j]) {
                let stage = st[i];
                assert(record_of(stage) == sv[i as int]);
                let top: &Vec<String> = if i > 0 {
                    &srcs[i - 1]
                } else {
                    &empty
                };
                let top_index: usize = if i > 0 {
                    i - 1
                } else {
                    0
                };
                assert(names_view(top@) == sources_at(sv, i - 1, nv, lv));
                let frag = rewrite_plan(&stage.input, &names[j], &ctx.query_id, top, top_index);
                assert(frag@ == rewrite(sv[i as int].child, nv[j as int], q, sources_at(sv, i - 1, nv, lv)));
                let task = RemoteTask {
                    plan: frag,
                    scatters: copy_names(&dsts[i]),
                    scatters_action: stage.scatters_expr.duplicate(),
                };
                let node = nodes[j].duplicate();
                assert(nv[j as int] == nodes@[j as int].name@);
                let ghost before = tasks@;
                tasks.push((node, task));
                proof {
                    assert(task_views(tasks@) =~= task_views(before).push(task_view(tasks@.last())));
                    assert(task_view(tasks@.last()) == stage_task(sv, i as int, nv[j as int], q, nv, lv));
                }
            }
            i = i + 1;
        }
        proof {
            assert(cluster_tasks(sv, (j + 1) as nat, q, nv, lv) == cluster_tasks(sv, j as nat, q, nv, lv) + node_tasks(sv, sv.len(), nv[j as int], q, nv, lv));
        }
        j = j + 1;
    }
    Ok((local_plan, tasks))
}

// ---------------------------------------------------------------------------
// Laws of scheduling.

/// A plan without boundaries is kept as it is by [`rewrite`].
pub proof fn lemma_rewrite_without_stages(p: PlanView, consumer: Seq<char>, query_id: Seq<char>, top: Seq<Seq<char>>)
    requires
        stage_count(p) == 0,
    ensures
        rewrite(p, consumer, query_id, top) == p,
    decreases p,
{
    match p {
        PlanView::Select(c) => {
            lemma_rewrite_without_stages(*c, consumer, query_id, top);
        },
        PlanView::Filter(_, c) => {
            lemma_rewrite_without_stages(*c, consumer, query_id, top);
        },
        _ => {},
    }
}

proof fn lemma_no_stage_tasks(st: Seq<StageRecord>, m: nat, query_id: Seq<char>, names: Seq<Seq<char>>, local: Seq<char>)
    requires
        st.len() == 0,
    ensures
        cluster_tasks(st, m, query_id, names, local) == Seq::<TaskView>::empty(),
    decreases m,
{
    if m > 0 {
        lemma_no_stage_tasks(st, (m - 1) as nat, query_id, names, local);
        assert(cluster_tasks(st, m, query_id, names, local) =~= Seq::<TaskView>::empty());
    }
}

/// A plan without exchange boundaries is accepted, run unchanged by the
/// local node, and gives no task.
pub proof fn lemma_no_boundary_identity(p: PlanView, query_id: Seq<char>, names: Seq<Seq<char>>, local: Seq<char>)
    requires
        stage_count(p) == 0,
    ensures
        !rejected(p),
        local_plan_of(p, query_id, names, local) == p,
        scheduled_tasks(p, query_id, names, local) == Seq::<TaskView>::empty(),
{
    lemma_stage_numbers(p);
    lemma_rewrite_without_stages(p, local, query_id, sources_at(stages(p), stages(p).len() - 1, names, local));
    lemma_no_stage_tasks(stages(p), names.len(), query_id, names, local);
}

/// A plan whose outermost node is a Normal or Expansive boundary is refused,
/// whatever the cluster.
pub proof fn lemma_top_level_non_convergent_rejected(k: StageKind, e: ExprView, c: PlanView)
    requires
        k != StageKind::Convergent,
    ensures
        rejected(PlanView::Stage(k, e, Box::new(c))),
{
}

proof fn lemma_single_convergent_prefix(
    st: Seq<StageRecord>,
    m: nat,
    query_id: Seq<char>,
    names: Seq<Seq<char>>,
    local: Seq<char>,
)
    requires
        st.len() == 1,
        st[0].kind == StageKind::Convergent,
        stage_count(st[0].child) == 0,
        m <= names.len(),
    ensures
        cluster_tasks(st, m, query_id, names, local).len() == m,
        forall|k: int|
            0 <= k < m ==> #[trigger] cluster_tasks(st, m, query_id, names, local)[k] == (TaskView {
                node: names[k],
                plan: st[0].child,
                scatters: seq![local],
                expr: st[0].expr,
            }),
    decreases m,
{
    if m > 0 {
        lemma_single_convergent_prefix(st, (m - 1) as nat, query_id, names, local);
        let n = names[m - 1];
        assert(sources_at(st, 0, names, local) == names);
        assert(names[m - 1] == n);
        assert(sources_at(st, 0, names, local).contains(n));
        lemma_rewrite_without_stages(st[0].child, n, query_id, sources_at(st, -1, names, local));
        assert(node_tasks(st, 0, n, query_id, names, local) == Seq::<TaskView>::empty());
        assert(node_tasks(st, 1, n, query_id, names, local) =~= seq![stage_task(st, 0, n, query_id, names, local)]);
    }
}

/// A gathering boundary over a plan without boundaries, on a cluster of N
/// nodes: each node, in registration order, gets one task that runs the
/// input and sends its rows to the local node, and the local node fetches
/// from all N nodes.
pub proof fn lemma_single_convergent(e: ExprView, c: PlanView, query_id: Seq<char>, names: Seq<Seq<char>>, local: Seq<char>)
    requires
        stage_count(c) == 0,
    ensures
        ({
            let p = PlanView::Stage(StageKind::Convergent, e, Box::new(c));
            &&& !rejected(p)
            &&& scheduled_tasks(p, query_id, names, local).len() == names.len()
            &&& forall|k: int|
                0 <= k < names.len() ==> #[trigger] scheduled_tasks(p, query_id, names, local)[k] == (TaskView {
                    node: names[k],
                    plan: c,
                    scatters: seq![local],
                    expr: e,
                })
            &&& local_plan_of(p, query_id, names, local) == PlanView::Remote(fetch_name_of(query_id, 0, local), names)
        }),
{
    let p = PlanView::Stage(StageKind::Convergent, e, Box::new(c));
    lemma_stage_numbers(c);
    lemma_stage_numbers(p);
    assert(stages(c) =~= Seq::<StageRecord>::empty());
    let st = stages(p);
    assert(st =~= seq![StageRecord { kind: StageKind::Convergent, expr: e, child: c }]);
    lemma_single_convergent_prefix(st, names.len(), query_id, names, local);
}

proof fn lemma_node_tasks_from_stages(
    st: Seq<StageRecord>,
    k: nat,
    n: Seq<char>,
    query_id: Seq<char>,
    names: Seq<Seq<char>>,
    local: Seq<char>,
)
    requires
        k <= st.len(),
    ensures
        forall|t: int|
            0 <= t < node_tasks(st, k, n, query_id, names, local).len() ==> exists|i: int|
                0 <= i < k && #[trigger] node_tasks(st, k, n, query_id, names, local)[t] == stage_task(
                    st,
                    i,
                    n,
                    query_id,
                    names,
                    local,
                ),
    decreases k,
{
    if k > 0 {
        lemma_node_tasks_from_stages(st, (k - 1) as nat, n, query_id, names, local);
        let prev = node_tasks(st, (k - 1) as nat, n, query_id, names, local);
        let all = node_tasks(st, k, n, query_id, names, local);
        assert forall|t: int| 0 <= t < all.len() implies exists|i: int|
            0 <= i < k && #[trigger] all[t] == stage_task(st, i, n, query_id, names, local) by {
            if t < prev.len() {
                assert(all[t] == prev[t]);
                let i = choose|i: int| 0 <= i < k - 1 && prev[t] == #[trigger] stage_task(st, i, n, query_id, names, local);
                assert(0 <= i < k);
            } else {
                assert(all[t] == stage_task(st, k - 1, n, query_id, names, local));
            }
        }
    }
}

proof fn lemma_cluster_tasks_from_stages(
    st: Seq<StageRecord>,
    m: nat,
    query_id: Seq<char>,
    names: Seq<Seq<char>>,
    local: Seq<char>,
)
    requires
        m <= names.len(),
    ensures
        forall|t: int|
            0 <= t < cluster_tasks(st, m, query_id, names, local).len() ==> exists|i: int, l: int|
                0 <= i < st.len() && 0 <= l < m && #[trigger] cluster_tasks(st, m, query_id, names, local)[t]
                    == stage_task(st, i, names[l], query_id, names, local),
    decreases m,
{
    if m > 0 {
        lemma_cluster_tasks_from_stages(st, (m - 1) as nat, query_id, names, local);
        let prev = cluster_tasks(st, (m - 1) as nat, query_id, names, local);
        let own = node_tasks(st, st.len(), names[m - 1], query_id, names, local);
        lemma_node_tasks_from_stages(st, st.len(), names[m - 1], query_id, names, local);
        assert forall|t: int| 0 <= t < cluster_tasks(st, m, query_id, names, local).len() implies exists|i: int, l: int|
            0 <= i < st.len() && 0 <= l < m && #[trigger] cluster_tasks(st, m, query_id, names, local)[t]
                == stage_task(st, i, names[l], query_id, names, local) by {
            if t < prev.len() {
                assert(cluster_tasks(st, m, query_id, names, local)[t] == prev[t]);
            } else {
                assert(cluster_tasks(st, m, query_id, names, local)[t] == own[t - prev.len()]);
                let i = choose|i: int| 0 <= i < st.len() && own[t - prev.len()] == #[trigger] stage_task(st, i, names[m - 1], query_id, names, local);
                assert(0 <= m - 1 < m);
            }
        }
    }
}

/// Each task carries, unchanged, the routing expression and the
/// destinations of the boundary it comes from.
pub proof fn lemma_routing_expression_kept(p: PlanView, query_id: Seq<char>, names: Seq<Seq<char>>, local: Seq<char>)
    ensures
        forall|t: int|
            0 <= t < scheduled_tasks(p, query_id, names, local).len() ==> exists|i: int|
                0 <= i < stages(p).len() && (#[trigger] scheduled_tasks(p, query_id, names, local)[t]).expr
                    == stages(p)[i].expr && scheduled_tasks(p, query_id, names, local)[t].scatters == dest_at(
                    stages(p),
                    i,
                    names,
                    local,
                ),
{
    let st = stages(p);
    lemma_cluster_tasks_from_stages(st, names.len(), query_id, names, local);
    assert forall|t: int| 0 <= t < scheduled_tasks(p, query_id, names, local).len() implies exists|i: int|
        0 <= i < stages(p).len() && (#[trigger] scheduled_tasks(p, query_id, names, local)[t]).expr == stages(p)[i].expr
            && scheduled_tasks(p, query_id, names, local)[t].scatters == dest_at(stages(p), i, names, local) by {
        let (i, l) = choose|i: int, l: int|
            0 <= i < st.len() && 0 <= l < names.len() && #[trigger] cluster_tasks(st, names.len(), query_id, names, local)[t]
                == stage_task(st, i, names[l], query_id, names, local);
        assert(0 <= i < stages(p).len());
    }
}

/// Scheduling depends on the plan and the cluster alone: the same plan on
/// the same cluster gives the same outcome, the same local plan and the same
/// tasks in the same order.
pub proof fn lemma_deterministic(
    first: PlanView,
    second: PlanView,
    query_id: Seq<char>,
    names: Seq<Seq<char>>,
    local: Seq<char>,
)
    requires
        first == second,
    ensures
        rejected(first) == rejected(second),
        local_plan_of(first, query_id, names, local) == local_plan_of(second, query_id, names, local),
        scheduled_tasks(first, query_id, names, local) == scheduled_tasks(second, query_id, names, local),
{
}

/// The stages of a gathering boundary over another boundary over a plan
/// without boundaries.
proof fn lemma_two_stages(ko: StageKind, eo: ExprView, ki: StageKind, ei: ExprView, c: PlanView)
    requires
        stage_count(c) == 0,
    ensures
        ({
            let inner = PlanView::Stage(ki, ei, Box::new(c));
            stages(PlanView::Stage(ko, eo, Box::new(inner))) == seq![
                StageRecord { kind: ki, expr: ei, child: c },
                StageRecord { kind: ko, expr: eo, child: inner },
            ]
        }),
{
    lemma_stage_numbers(c);
    assert(stages(c) =~= Seq::<StageRecord>::empty());
    let inner = PlanView::Stage(ki, ei, Box::new(c));
    assert(stages(inner) =~= seq![StageRecord { kind: ki, expr: ei, child: c }]);
    assert(stages(PlanView::Stage(ko, eo, Box::new(inner))) =~= seq![
        StageRecord { kind: ki, expr: ei, child: c },
        StageRecord { kind: ko, expr: eo, child: inner },
    ]);
}

/// A broadcast boundary inside a gathering one, on a cluster of a local
/// node and one other node: the local node broadcasts the input to both
/// nodes, then each node, the local one first, sends what it received back
/// to the local node.
pub proof fn lemma_expansive_then_convergent(
    eo: ExprView,
    ei: ExprView,
    c: PlanView,
    query_id: Seq<char>,
    local: Seq<char>,
    other: Seq<char>,
)
    requires
        stage_count(c) == 0,
        local != other,
    ensures
        ({
            let names = seq![local, other];
            let inner = PlanView::Stage(StageKind::Expansive, ei, Box::new(c));
            let p = PlanView::Stage(StageKind::Convergent, eo, Box::new(inner));
            let tasks = scheduled_tasks(p, query_id, names, local);
            &&& !rejected(p)
            &&& tasks == seq![
                TaskView { node: local, plan: c, scatters: names, expr: ei },
                TaskView {
                    node: local,
                    plan: PlanView::Remote(fetch_name_of(query_id, 0, local), seq![local]),
                    scatters: seq![local],
                    expr: eo,
                },
                TaskView {
                    node: other,
                    plan: PlanView::Remote(fetch_name_of(query_id, 0, other), seq![local]),
                    scatters: seq![local],
                    expr: eo,
                },
            ]
            &&& local_plan_of(p, query_id, names, local) == PlanView::Remote(fetch_name_of(query_id, 1, local), names)
        }),
{
    let names = seq![local, other];
    let inner = PlanView::Stage(StageKind::Expansive, ei, Box::new(c));
    let p = PlanView::Stage(StageKind::Convergent, eo, Box::new(inner));
    lemma_two_stages(StageKind::Convergent, eo, StageKind::Expansive, ei, c);
    lemma_stage_numbers(c);
    let st = stages(p);
    lemma_rewrite_without_stages(c, local, query_id, sources_at(st, -1, names, local));
    assert(sources_at(st, 0, names, local) == seq![local]);
    assert(sources_at(st, 1, names, local) == names);
    assert(names[0] == local && names[1] == other);
    assert(!seq![local].contains(other)) by {
        if seq![local].contains(other) {
            let i = choose|i: int| 0 <= i < 1 && seq![local][i] == other;
            assert(seq![local][i] == local);
        }
    }
    assert(seq![local][0] == local);
    assert(node_tasks(st, 0, local, query_id, names, local) == Seq::<TaskView>::empty());
    assert(node_tasks(st, 0, other, query_id, names, local) == Seq::<TaskView>::empty());
    assert(seq![local].contains(local));
    assert(names.contains(local));
    assert(names.contains(other));
    assert(node_tasks(st, 1, local, query_id, names, local) =~= seq![stage_task(st, 0, local, query_id, names, local)]);
    assert(node_tasks(st, 2, local, query_id, names, local) =~= seq![
        stage_task(st, 0, local, query_id, names, local),
        stage_task(st, 1, local, query_id, names, local),
    ]);
    assert(node_tasks(st, 1, other, query_id, names, local) =~= Seq::<TaskView>::empty());
    assert(node_tasks(st, 2, other, query_id, names, local) =~= seq![stage_task(st, 1, other, query_id, names, local)]);
    assert(cluster_tasks(st, 0, query_id, names, local) == Seq::<TaskView>::empty());
    assert(cluster_tasks(st, 1, query_id, names, local) =~= node_tasks(st, 2, local, query_id, names, local));
    assert(scheduled_tasks(p, query_id, names, local) =~= seq![
        stage_task(st, 0, local, query_id, names, local),
        stage_task(st, 1, local, query_id, names, local),
        stage_task(st, 1, other, query_id, names, local),
    ]);
}

/// A reshuffling boundary inside a gathering one, on a cluster of a local
/// node and one other node: each node in turn, the local one first, gets a
/// task that sends the input to both nodes and then one that sends what it
/// received to the local node.
pub proof fn lemma_normal_then_convergent(
    eo: ExprView,
    ei: ExprView,
    c: PlanView,
    query_id: Seq<char>,
    local: Seq<char>,
    other: Seq<char>,
)
    requires
        stage_count(c) == 0,
        local != other,
    ensures
        ({
            let names = seq![local, other];
            let inner = PlanView::Stage(StageKind::Normal, ei, Box::new(c));
            let p = PlanView::Stage(StageKind::Convergent, eo, Box::new(inner));
            let tasks = scheduled_tasks(p, query_id, names, local);
            &&& !rejected(p)
            &&& tasks == seq![
                TaskView { node: local, plan: c, scatters: names, expr: ei },
                TaskView {
                    node: local,
                    plan: PlanView::Remote(fetch_name_of(query_id, 0, local), names),
                    scatters: seq![local],
                    expr: eo,
                },
                TaskView { node: other, plan: c, scatters: names, expr: ei },
                TaskView {
                    node: other,
                    plan: PlanView::Remote(fetch_name_of(query_id, 0, other), names),
                    scatters: seq![local],
                    expr: eo,
                },
            ]
            &&& local_plan_of(p, query_id, names, local) == PlanView::Remote(fetch_name_of(query_id, 1, local), names)
        }),
{
    let names = seq![local, other];
    let inner = PlanView::Stage(StageKind::Normal, ei, Box::new(c));
    let p = PlanView::Stage(StageKind::Convergent, eo, Box::new(inner));
    lemma_two_stages(StageKind::Convergent, eo, StageKind::Normal, ei, c);
    lemma_stage_numbers(c);
    let st = stages(p);
    lemma_rewrite_without_stages(c, local, query_id, sources_at(st, -1, names, local));
    lemma_rewrite_without_stages(c, other, query_id, sources_at(st, -1, names, local));
    assert(sources_at(st, 0, names, local) == names);
    assert(sources_at(st, 1, names, local) == names);
    assert(names[0] == local && names[1] == other);
    assert(node_tasks(st, 0, local, query_id, names, local) == Seq::<TaskView>::empty());
    assert(node_tasks(st, 0, other, query_id, names, local) == Seq::<TaskView>::empty());
    assert(names.contains(local));
    assert(names.contains(other));
    assert(node_tasks(st, 1, local, query_id, names, local) =~= seq![stage_task(st, 0, local, query_id, names, local)]);
    assert(node_tasks(st, 1, other, query_id, names, local) =~= seq![stage_task(st, 0, other, query_id, names, local)]);
    assert(node_tasks(st, 2, local, query_id, names, local) =~= seq![
        stage_task(st, 0, local, query_id, names, local),
        stage_task(st, 1, local, query_id, names, local),
    ]);
    assert(node_tasks(st, 2, other, query_id, names, local) =~= seq![
        stage_task(st, 0, other, query_id, names, local),
        stage_task(st, 1, other, query_id, names, local),
    ]);
    assert(cluster_tasks(st, 0, query_id, names, local) == Seq::<TaskView>::empty());
    assert(cluster_tasks(st, 1, query_id, names, local) =~= node_tasks(st, 2, local, query_id, names, local));
    assert(scheduled_tasks(p, query_id, names, local) =~= seq![
        stage_task(st, 0, local, query_id, names, local),
        stage_task(st, 1, local, query_id, names, local),
        stage_task(st, 0, other, query_id, names, local),
        stage_task(st, 1, other, query_id, names, local),
    ]);
}

} // verus!
