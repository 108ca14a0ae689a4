use fusequery::cluster::{Cluster, Node, QueryContext};
use fusequery::expression::Expression;
use fusequery::fetch::{decimal_string, fetch_name};
use fusequery::plan::{FilterPlan, PlanNode, ReadSourcePlan, RemotePlan, SelectPlan, StageKind, StagePlan};
use fusequery::scheduler::reschedule;

fn create_env() -> QueryContext {
    let mut cluster = Cluster::create();
    assert!(cluster.add_node(Node::create(
        String::from("dummy_local"),
        String::from("localhost:9090"),
        true,
    )));
    assert!(cluster.add_node(Node::create(
        String::from("dummy"),
        String::from("github.com:9090"),
        false,
    )));
    QueryContext::create(String::from("query"), cluster)
}

fn stage(kind: StageKind, scatters_expr: Expression, input: PlanNode) -> PlanNode {
    PlanNode::Stage(StagePlan {
        kind,
        scatters_expr,
        input: Box::new(input),
    })
}

fn select(input: PlanNode) -> PlanNode {
    PlanNode::Select(SelectPlan {
        input: Box::new(input),
    })
}

#[test]
fn test_scheduler_plan_without_stage() {
    let context = create_env();
    let (local_plan, remote_plans) = reschedule(&context, &PlanNode::Empty).unwrap();

    assert!(remote_plans.is_empty());
    assert_eq!(local_plan, PlanNode::Empty);
}

#[test]
fn test_scheduler_plan_with_one_normal_stage() {
    let context = create_env();
    let reschedule_res = reschedule(
        &context,
        &stage(StageKind::Normal, Expression::Literal(1), PlanNode::Empty),
    );

    match reschedule_res {
        Ok(_) => assert!(
            false,
            "test_scheduler_plan_with_one_normal_stage must be failure!"
        ),
        Err(error_code) => {
            assert_eq!(error_code.code(), 31);
            assert_eq!(
                error_code.message(),
                "The final stage plan must be convergent"
            );
        }
    }
}

#[test]
fn test_scheduler_plan_with_one_expansive_stage() {
    let context = create_env();
    let reschedule_res = reschedule(
        &context,
        &stage(StageKind::Expansive, Expression::Literal(1), PlanNode::Empty),
    );

    match reschedule_res {
        Ok(_) => assert!(
            false,
            "test_scheduler_plan_with_one_expansive_stage must be failure!"
        ),
        Err(error_code) => {
            assert_eq!(error_code.code(), 31);
            assert_eq!(
                error_code.message(),
                "The final stage plan must be convergent"
            );
        }
    }
}

#[test]
fn test_scheduler_plan_with_one_convergent_stage() {
    let context = create_env();
    let (local_plan, remote_actions) = reschedule(
        &context,
        &stage(StageKind::Convergent, Expression::Literal(0), PlanNode::Empty),
    )
    .unwrap();

    assert_eq!(remote_actions.len(), 2);
    assert_eq!(remote_actions[0].0.name, String::from("dummy_local"));
    assert_eq!(remote_actions[0].1.scatters, vec![String::from("dummy_local")]);
    assert_eq!(remote_actions[0].1.scatters_action, Expression::Literal(0));
    assert_eq!(remote_actions[0].1.plan, PlanNode::Empty);

    assert_eq!(remote_actions[1].0.name, String::from("dummy"));
    assert_eq!(remote_actions[1].1.scatters, vec![String::from("dummy_local")]);
    assert_eq!(remote_actions[1].1.scatters_action, Expression::Literal(0));
    assert_eq!(remote_actions[1].1.plan, PlanNode::Empty);

    match local_plan {
        PlanNode::Remote(plan) => {
            assert!(plan.fetch_name.ends_with("/dummy_local"));
            assert_eq!(plan.fetch_nodes, ["dummy_local", "dummy"]);
        }
        _ => assert!(
            false,
            "test_scheduler_plan_with_one_convergent_stage must be have Remote plan!"
        ),
    }
}

#[test]
fn test_scheduler_plan_with_convergent_and_expansive_stage() {
    let context = create_env();
    let block_number = || Expression::Function {
        op: String::from("blockNumber"),
        args: vec![],
    };
    let (local_plan, remote_actions) = reschedule(
        &context,
        &select(stage(
            StageKind::Convergent,
            Expression::Literal(0),
            select(stage(StageKind::Expansive, block_number(), PlanNode::Empty)),
        )),
    )
    .unwrap();

    assert_eq!(remote_actions.len(), 3);
    assert_eq!(remote_actions[0].0.name, String::from("dummy_local"));
    assert_eq!(remote_actions[0].1.scatters, vec![
        String::from("dummy_local"),
        String::from("dummy")
    ]);
    assert_eq!(remote_actions[0].1.scatters_action, block_number());
    assert_eq!(remote_actions[0].1.plan, PlanNode::Empty);

    assert_eq!(remote_actions[1].0.name, String::from("dummy_local"));
    assert_eq!(remote_actions[1].1.scatters, vec![String::from("dummy_local")]);
    assert_eq!(remote_actions[1].1.scatters_action, Expression::Literal(0));

    assert_eq!(remote_actions[2].0.name, String::from("dummy"));
    assert_eq!(remote_actions[2].1.scatters, vec![String::from("dummy_local")]);
    assert_eq!(remote_actions[2].1.scatters_action, Expression::Literal(0));

    // Perform the same plan in different nodes
    match (&remote_actions[1].1.plan, &remote_actions[2].1.plan, &local_plan) {
        (PlanNode::Select(left), PlanNode::Select(right), PlanNode::Select(finalize)) => {
            match (&*left.input, &*right.input, &*finalize.input) {
                (PlanNode::Remote(left), PlanNode::Remote(right), PlanNode::Remote(finalize)) => {
                    assert!(left.fetch_name.ends_with("/dummy_local"));
                    assert!(right.fetch_name.ends_with("/dummy"));
                    assert_eq!(left.fetch_nodes, ["dummy_local"]);
                    assert_eq!(right.fetch_nodes, ["dummy_local"]);

                    assert!(finalize.fetch_name.ends_with("/dummy_local"));
                    assert_eq!(finalize.fetch_nodes, ["dummy_local", "dummy"]);
                }
                _ => assert!(
                    false,
                    "test_scheduler_plan_with_convergent_and_expansive_stage must be have Remote plan!"
                ),
            }
        }
        _ => assert!(
            false,
            "test_scheduler_plan_with_convergent_and_expansive_stage must be have Select plan!"
        ),
    };
}

#[test]
fn test_scheduler_plan_with_convergent_and_normal_stage() {
    let context = create_env();
    let (local_plan, remote_actions) = reschedule(
        &context,
        &select(stage(
            StageKind::Convergent,
            Expression::Literal(1),
            select(stage(StageKind::Normal, Expression::Literal(0), PlanNode::Empty)),
        )),
    )
    .unwrap();

    assert_eq!(remote_actions.len(), 4);
    assert_eq!(remote_actions[0].0.name, String::from("dummy_local"));
    assert_eq!(remote_actions[0].1.scatters, vec![
        String::from("dummy_local"),
        String::from("dummy")
    ]);
    assert_eq!(remote_actions[0].1.scatters_action, Expression::Literal(0));
    assert_eq!(remote_actions[0].1.plan, PlanNode::Empty);

    assert_eq!(remote_actions[2].0.name, String::from("dummy"));
    assert_eq!(remote_actions[2].1.scatters, vec![
        String::from("dummy_local"),
        String::from("dummy")
    ]);
    assert_eq!(remote_actions[2].1.scatters_action, Expression::Literal(0));
    assert_eq!(remote_actions[2].1.plan, PlanNode::Empty);

    assert_eq!(remote_actions[1].0.name, String::from("dummy_local"));
    assert_eq!(remote_actions[1].1.scatters, vec![String::from("dummy_local")]);
    assert_eq!(remote_actions[1].1.scatters_action, Expression::Literal(1));

    assert_eq!(remote_actions[3].0.name, String::from("dummy"));
    assert_eq!(remote_actions[3].1.scatters, vec![String::from("dummy_local")]);
    assert_eq!(remote_actions[3].1.scatters_action, Expression::Literal(1));

    // Perform the same plan in different nodes
    match (&remote_actions[1].1.plan, &remote_actions[3].1.plan, &local_plan) {
        (PlanNode::Select(left), PlanNode::Select(right), PlanNode::Select(finalize)) => {
            match (&*left.input, &*right.input, &*finalize.input) {
                (PlanNode::Remote(left), PlanNode::Remote(right), PlanNode::Remote(finalize)) => {
                    assert!(left.fetch_name.ends_with("/dummy_local"));
                    assert!(right.fetch_name.ends_with("/dummy"));
                    assert_eq!(left.fetch_nodes, ["dummy_local", "dummy"]);
                    assert_eq!(right.fetch_nodes, ["dummy_local", "dummy"]);

                    assert!(finalize.fetch_name.ends_with("/dummy_local"));
                    assert_eq!(finalize.fetch_nodes, ["dummy_local", "dummy"]);
                }
                _ => assert!(
                    false,
                    "test_scheduler_plan_with_convergent_and_normal_stage must be have Remote plan!"
                ),
            }
        }
        _ => assert!(
            false,
            "test_scheduler_plan_with_convergent_and_normal_stage must be have Select plan!"
        ),
    };
}

#[test]
fn plan_without_stage_keeps_every_operator() {
    let context = create_env();
    let plan = select(PlanNode::Filter(FilterPlan {
        predicate: Expression::Column(String::from("a")),
        input: Box::new(PlanNode::ReadSource(ReadSourcePlan {
            table: String::from("t"),
        })),
    }));
    let (local_plan, tasks) = reschedule(&context, &plan).unwrap();
    assert!(tasks.is_empty());
    assert_eq!(local_plan, plan);
}

#[test]
fn normal_stage_refused_on_single_node_cluster() {
    let mut cluster = Cluster::create();
    assert!(cluster.add_node(Node::create(
        String::from("solo"),
        String::from("localhost:9090"),
        true,
    )));
    let context = QueryContext::create(String::from("q"), cluster);
    let res = reschedule(
        &context,
        &stage(StageKind::Normal, Expression::Literal(7), PlanNode::Empty),
    );
    let err = res.unwrap_err();
    assert_eq!(err.code(), 31);
    assert_eq!(err.message(), "The final stage plan must be convergent");
}

#[test]
fn convergent_over_normal_over_convergent_is_accepted_and_nested_fetches_are_numbered() {
    let context = create_env();
    let plan = stage(
        StageKind::Convergent,
        Expression::Literal(2),
        stage(
            StageKind::Normal,
            Expression::Literal(1),
            stage(StageKind::Convergent, Expression::Literal(0), PlanNode::Empty),
        ),
    );
    let (local_plan, tasks) = reschedule(&context, &plan).unwrap();
    // innermost gather: both nodes send to the local node; the normal stage
    // then runs on both nodes; the final gather from both nodes.
    let summary: Vec<(String, u64, usize)> = tasks
        .iter()
        .map(|(n, t)| {
            let lit = match t.scatters_action {
                Expression::Literal(v) => v,
                _ => u64::MAX,
            };
            (n.name.clone(), lit, t.scatters.len())
        })
        .collect();
    assert_eq!(summary, vec![
        (String::from("dummy_local"), 0, 1),
        (String::from("dummy_local"), 1, 2),
        (String::from("dummy_local"), 2, 1),
        (String::from("dummy"), 0, 1),
        (String::from("dummy"), 1, 2),
        (String::from("dummy"), 2, 1),
    ]);
    // the normal stage on "dummy" fetches from the sources of the innermost
    // gather, addressed to itself.
    match &tasks[4].1.plan {
        PlanNode::Remote(r) => {
            assert_eq!(r.fetch_name, "query/0/dummy");
            assert_eq!(r.fetch_nodes, ["dummy_local", "dummy"]);
        }
        _ => panic!("expected a remote fetch"),
    }
    assert_eq!(
        local_plan,
        PlanNode::Remote(RemotePlan {
            fetch_name: String::from("query/2/dummy_local"),
            fetch_nodes: vec![String::from("dummy_local"), String::from("dummy")],
        })
    );
}

#[test]
fn repeated_scheduling_gives_identical_results() {
    let context = create_env();
    let plan = select(stage(
        StageKind::Convergent,
        Expression::Literal(1),
        select(stage(StageKind::Normal, Expression::Literal(0), PlanNode::Empty)),
    ));
    let first = reschedule(&context, &plan).unwrap();
    let second = reschedule(&context, &plan).unwrap();
    assert_eq!(first, second);
}

#[test]
fn routing_expression_is_carried_unchanged() {
    let context = create_env();
    let expr = || Expression::Function {
        op: String::from("sipHash"),
        args: vec![String::from("a"), String::from("b")],
    };
    let (_, tasks) = reschedule(
        &context,
        &stage(StageKind::Convergent, expr(), PlanNode::Empty),
    )
    .unwrap();
    assert_eq!(tasks.len(), 2);
    for (_, t) in &tasks {
        assert_eq!(t.scatters_action, expr());
    }
}

#[test]
fn fetch_names_hold_query_stage_and_consumer() {
    assert_eq!(decimal_string(0), "0");
    assert_eq!(decimal_string(7), "7");
    assert_eq!(decimal_string(1024), "1024");
    assert_eq!(
        fetch_name(&String::from("q1"), 12, &String::from("node-a")),
        "q1/12/node-a"
    );
}

#[test]
fn cluster_refuses_duplicate_names_and_second_local_node() {
    let mut cluster = Cluster::create();
    assert!(cluster.add_node(Node::create(String::from("a"), String::from("h1"), false)));
    assert!(!cluster.add_node(Node::create(String::from("a"), String::from("h2"), true)));
    assert!(cluster.add_node(Node::create(String::from("b"), String::from("h2"), true)));
    assert!(!cluster.add_node(Node::create(String::from("c"), String::from("h3"), true)));
    assert!(cluster.add_node(Node::create(String::from("c"), String::from("h3"), false)));
    let names: Vec<&str> = cluster.nodes.iter().map(|n| n.name.as_str()).collect();
    assert_eq!(names, ["a", "b", "c"]);
    assert_eq!(cluster.local_position(), 1);
}

#[test]
fn local_node_need_not_come_first() {
    let mut cluster = Cluster::create();
    assert!(cluster.add_node(Node::create(String::from("n1"), String::from("h1"), false)));
    assert!(cluster.add_node(Node::create(String::from("n2"), String::from("h2"), true)));
    assert!(cluster.add_node(Node::create(String::from("n3"), String::from("h3"), false)));
    let context = QueryContext::create(String::from("q7"), cluster);
    let (local_plan, tasks) = reschedule(
        &context,
        &stage(
            StageKind::Convergent,
            Expression::Literal(0),
            stage(StageKind::Expansive, Expression::Literal(9), PlanNode::Empty),
        ),
    )
    .unwrap();
    let owners: Vec<&str> = tasks.iter().map(|(n, _)| n.name.as_str()).collect();
    assert_eq!(owners, ["n1", "n2", "n2", "n3"]);
    assert_eq!(tasks[1].1.scatters, ["n1", "n2", "n3"]);
    assert_eq!(tasks[0].1.scatters, ["n2"]);
    assert_eq!(
        local_plan,
        PlanNode::Remote(RemotePlan {
            fetch_name: String::from("q7/1/n2"),
            fetch_nodes: vec![String::from("n1"), String::from("n2"), String::from("n3")],
        })
    );
}
