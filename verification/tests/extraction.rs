use sql_tables::collect_tables_from_query;
use sql_tables::extract_tables;
use sql_tables::Cte;
use sql_tables::Expr;
use sql_tables::Query;
use sql_tables::Select;
use sql_tables::SelectItem;
use sql_tables::SetExpr;
use sql_tables::Statement;
use sql_tables::TableFactor;
use sql_tables::TableSet;
use sql_tables::TableWithJoins;

fn table(name: &[&str]) -> TableFactor {
    TableFactor::Table { name: name.iter().map(|s| s.to_string()).collect() }
}

fn select_from(from: Vec<TableWithJoins>) -> Select {
    Select { from, projection: Vec::new(), selection: None, having: None }
}

fn query_of_select(sel: Select) -> Query {
    Query { ctes: Vec::new(), body: Box::new(SetExpr::Select(Box::new(sel))) }
}

fn query_from_table(name: &[&str]) -> Query {
    query_of_select(select_from(vec![TableWithJoins { relation: table(name), joins: Vec::new() }]))
}

fn extract_names(statements: Vec<Statement>) -> TableSet {
    extract_tables(&statements)
}

fn has(set: &TableSet, name: &str) -> bool {
    set.contains(&name.to_string())
}

#[test]
fn no_from_no_subquery_is_empty() {
    // SELECT 1 (a projection of plain expressions, no FROM)
    let sel = Select {
        from: Vec::new(),
        projection: vec![SelectItem::Expr(Expr::Other), SelectItem::Other],
        selection: Some(Box::new(Expr::BinaryOp {
            left: Box::new(Expr::Other),
            right: Box::new(Expr::Other),
        })),
        having: None,
    };
    let set = extract_names(vec![Statement::Query(Box::new(query_of_select(sel)))]);
    assert_eq!(set.len(), 0);
}

#[test]
fn unsupported_statements_are_skipped() {
    let set = extract_names(vec![
        Statement::Other,
        Statement::CreateTable { query: None },
    ]);
    assert_eq!(set.len(), 0);
}

#[test]
fn join_yields_both_tables() {
    // SELECT * FROM a JOIN b ON a.id = b.id
    let twj = TableWithJoins { relation: table(&["a"]), joins: vec![table(&["b"])] };
    let set = extract_names(vec![Statement::Query(Box::new(query_of_select(select_from(
        vec![twj],
    ))))]);
    assert_eq!(set.len(), 2);
    assert!(has(&set, "a"));
    assert!(has(&set, "b"));
}

#[test]
fn self_join_yields_table_once() {
    // SELECT * FROM t AS x JOIN t AS y ON ...
    let twj = TableWithJoins { relation: table(&["t"]), joins: vec![table(&["t"])] };
    let set = extract_names(vec![Statement::Query(Box::new(query_of_select(select_from(
        vec![twj],
    ))))]);
    assert_eq!(set.len(), 1);
    assert!(has(&set, "t"));
}

#[test]
fn cte_surfaces_base_and_literal_reference() {
    // WITH c AS (SELECT * FROM base) SELECT * FROM c
    // The algorithm does not distinguish CTE names from base tables: `c`
    // appears because it is referenced as a FROM target.
    let cte = Cte { name: "c".to_string(), query: query_from_table(&["base"]) };
    let main_sel = select_from(vec![TableWithJoins { relation: table(&["c"]), joins: Vec::new() }]);
    let q = Query { ctes: vec![cte], body: Box::new(SetExpr::Select(Box::new(main_sel))) };
    let set = extract_names(vec![Statement::Query(Box::new(q))]);
    assert_eq!(set.len(), 2);
    assert!(has(&set, "base"));
    assert!(has(&set, "c"));
}

#[test]
fn union_yields_both_tables() {
    // SELECT * FROM a UNION SELECT * FROM b
    let left = SetExpr::Select(Box::new(select_from(vec![TableWithJoins {
        relation: table(&["a"]),
        joins: Vec::new(),
    }])));
    let right = SetExpr::Select(Box::new(select_from(vec![TableWithJoins {
        relation: table(&["b"]),
        joins: Vec::new(),
    }])));
    let q = Query {
        ctes: Vec::new(),
        body: Box::new(SetExpr::SetOperation { left: Box::new(left), right: Box::new(right) }),
    };
    let set = extract_names(vec![Statement::Query(Box::new(q))]);
    assert_eq!(set.len(), 2);
    assert!(has(&set, "a"));
    assert!(has(&set, "b"));
}

#[test]
fn in_subquery_surfaces_inner_table() {
    // SELECT * FROM outer_t WHERE x IN (SELECT x FROM inner_t)
    let sel = Select {
        from: vec![TableWithJoins { relation: table(&["outer_t"]), joins: Vec::new() }],
        projection: Vec::new(),
        selection: Some(Box::new(Expr::InSubquery {
            operand: Box::new(Expr::Other),
            subquery: Box::new(query_from_table(&["inner_t"])),
        })),
        having: None,
    };
    let set = extract_names(vec![Statement::Query(Box::new(query_of_select(sel)))]);
    assert_eq!(set.len(), 2);
    assert!(has(&set, "outer_t"));
    assert!(has(&set, "inner_t"));
}

#[test]
fn derived_table_yields_base_not_alias() {
    // SELECT * FROM (SELECT * FROM base) AS d
    let twj = TableWithJoins {
        relation: TableFactor::Derived { query: Box::new(query_from_table(&["base"])) },
        joins: Vec::new(),
    };
    let set = extract_names(vec![Statement::Query(Box::new(query_of_select(select_from(
        vec![twj],
    ))))]);
    assert_eq!(set.len(), 1);
    assert!(has(&set, "base"));
    assert!(!has(&set, "d"));
}

#[test]
fn schema_qualified_name_is_dot_joined() {
    // SELECT * FROM schema.table
    let set = extract_names(vec![Statement::Query(Box::new(query_from_table(&[
        "schema", "table",
    ])))]);
    assert_eq!(set.len(), 1);
    assert!(has(&set, "schema.table"));
    assert!(!has(&set, "table"));
    assert!(!has(&set, "schema"));
}

#[test]
fn single_nested_join_is_unwrapped() {
    // SELECT * FROM (t1 JOIN t2 ON ...) JOIN t3 ON ...
    let inner = TableWithJoins { relation: table(&["t1"]), joins: vec![table(&["t2"])] };
    let twj = TableWithJoins {
        relation: TableFactor::NestedJoin(Box::new(inner)),
        joins: vec![table(&["t3"])],
    };
    let set = extract_names(vec![Statement::Query(Box::new(query_of_select(select_from(
        vec![twj],
    ))))]);
    assert_eq!(set.len(), 3);
    assert!(has(&set, "t1"));
    assert!(has(&set, "t2"));
    assert!(has(&set, "t3"));
}

#[test]
fn doubly_nested_join_is_dropped() {
    // A table referenced only inside two levels of parenthesized grouping
    // is not discovered: the documented one-level limitation.
    let innermost = TableWithJoins { relation: table(&["t1"]), joins: vec![table(&["t2"])] };
    let middle = TableWithJoins {
        relation: TableFactor::NestedJoin(Box::new(innermost)),
        joins: vec![table(&["t3"])],
    };
    let outer = TableWithJoins {
        relation: TableFactor::NestedJoin(Box::new(middle)),
        joins: Vec::new(),
    };
    let set = extract_names(vec![Statement::Query(Box::new(query_of_select(select_from(
        vec![outer],
    ))))]);
    assert_eq!(set.len(), 1);
    assert!(!has(&set, "t1"));
    assert!(!has(&set, "t2"));
    assert!(has(&set, "t3"));
}

#[test]
fn derived_table_in_join_position_is_entered() {
    let twj = TableWithJoins {
        relation: table(&["a"]),
        joins: vec![TableFactor::Derived { query: Box::new(query_from_table(&["base"])) }],
    };
    let set = extract_names(vec![Statement::Query(Box::new(query_of_select(select_from(
        vec![twj],
    ))))]);
    assert_eq!(set.len(), 2);
    assert!(has(&set, "a"));
    assert!(has(&set, "base"));
}

#[test]
fn create_view_is_entered() {
    let set = extract_names(vec![Statement::CreateView {
        query: Box::new(query_from_table(&["v_base"])),
    }]);
    assert_eq!(set.len(), 1);
    assert!(has(&set, "v_base"));
}

#[test]
fn create_table_as_select_is_entered() {
    let set = extract_names(vec![Statement::CreateTable {
        query: Some(Box::new(query_from_table(&["src_tbl"]))),
    }]);
    assert_eq!(set.len(), 1);
    assert!(has(&set, "src_tbl"));
}

#[test]
fn nested_query_body_is_entered() {
    let q = Query {
        ctes: Vec::new(),
        body: Box::new(SetExpr::Query(Box::new(query_from_table(&["deep"])))),
    };
    let set = extract_names(vec![Statement::Query(Box::new(q))]);
    assert_eq!(set.len(), 1);
    assert!(has(&set, "deep"));
}

#[test]
fn values_body_is_empty() {
    let q = Query { ctes: Vec::new(), body: Box::new(SetExpr::Values) };
    let set = extract_names(vec![Statement::Query(Box::new(q))]);
    assert_eq!(set.len(), 0);
}

#[test]
fn cte_inside_cte_is_entered() {
    let inner_cte = Cte { name: "i".to_string(), query: query_from_table(&["deep_base"]) };
    let outer_query = Query {
        ctes: vec![inner_cte],
        body: Box::new(SetExpr::Select(Box::new(select_from(Vec::new())))),
    };
    let outer_cte = Cte { name: "o".to_string(), query: outer_query };
    let q = Query {
        ctes: vec![outer_cte],
        body: Box::new(SetExpr::Select(Box::new(select_from(Vec::new())))),
    };
    let set = extract_names(vec![Statement::Query(Box::new(q))]);
    assert_eq!(set.len(), 1);
    assert!(has(&set, "deep_base"));
}

#[test]
fn projection_subquery_is_scanned() {
    let sel = Select {
        from: Vec::new(),
        projection: vec![SelectItem::Expr(Expr::Subquery(Box::new(query_from_table(&[
            "proj_tbl",
        ]))))],
        selection: None,
        having: None,
    };
    let set = extract_names(vec![Statement::Query(Box::new(query_of_select(sel)))]);
    assert_eq!(set.len(), 1);
    assert!(has(&set, "proj_tbl"));
}

#[test]
fn having_exists_is_scanned() {
    let sel = Select {
        from: Vec::new(),
        projection: Vec::new(),
        selection: None,
        having: Some(Box::new(Expr::Exists(Box::new(query_from_table(&["hv_tbl"]))))),
    };
    let set = extract_names(vec![Statement::Query(Box::new(query_of_select(sel)))]);
    assert_eq!(set.len(), 1);
    assert!(has(&set, "hv_tbl"));
}

#[test]
fn case_branches_are_scanned() {
    let case = Expr::Case {
        operand: Some(Box::new(Expr::Subquery(Box::new(query_from_table(&["op_tbl"]))))),
        conditions: vec![Expr::Subquery(Box::new(query_from_table(&["cond_tbl"])))],
        results: vec![Expr::Subquery(Box::new(query_from_table(&["res_tbl"])))],
        else_result: Some(Box::new(Expr::Subquery(Box::new(query_from_table(&["else_tbl"]))))),
    };
    let sel = Select {
        from: Vec::new(),
        projection: vec![SelectItem::Expr(case)],
        selection: None,
        having: None,
    };
    let set = extract_names(vec![Statement::Query(Box::new(query_of_select(sel)))]);
    assert_eq!(set.len(), 4);
    assert!(has(&set, "op_tbl"));
    assert!(has(&set, "cond_tbl"));
    assert!(has(&set, "res_tbl"));
    assert!(has(&set, "else_tbl"));
}

#[test]
fn between_bounds_are_scanned() {
    let between = Expr::Between {
        expr: Box::new(Expr::Subquery(Box::new(query_from_table(&["subj_tbl"])))),
        low: Box::new(Expr::Subquery(Box::new(query_from_table(&["low_tbl"])))),
        high: Box::new(Expr::Subquery(Box::new(query_from_table(&["high_tbl"])))),
    };
    let sel = Select {
        from: Vec::new(),
        projection: Vec::new(),
        selection: Some(Box::new(between)),
        having: None,
    };
    let set = extract_names(vec![Statement::Query(Box::new(query_of_select(sel)))]);
    assert_eq!(set.len(), 3);
    assert!(has(&set, "subj_tbl"));
    assert!(has(&set, "low_tbl"));
    assert!(has(&set, "high_tbl"));
}

#[test]
fn wrapped_expressions_are_scanned() {
    let wrapped = Expr::UnaryOp(Box::new(Expr::Cast(Box::new(Expr::Extract(Box::new(
        Expr::Nested(Box::new(Expr::Tuple(vec![Expr::Subquery(Box::new(query_from_table(&[
            "wrapped_tbl",
        ])))]))),
    ))))));
    let sel = Select {
        from: Vec::new(),
        projection: Vec::new(),
        selection: Some(Box::new(wrapped)),
        having: None,
    };
    let set = extract_names(vec![Statement::Query(Box::new(query_of_select(sel)))]);
    assert_eq!(set.len(), 1);
    assert!(has(&set, "wrapped_tbl"));
}

#[test]
fn function_arguments_are_not_scanned() {
    // A subquery hidden inside function-call arguments is deliberately not
    // discovered: a documented scope limit.
    let call = Expr::Function(vec![Expr::Subquery(Box::new(query_from_table(&["fn_tbl"])))]);
    let sel = Select {
        from: Vec::new(),
        projection: vec![SelectItem::Expr(call)],
        selection: None,
        having: None,
    };
    let set = extract_names(vec![Statement::Query(Box::new(query_of_select(sel)))]);
    assert_eq!(set.len(), 0);
}

#[test]
fn in_subquery_operand_is_not_scanned() {
    // Only the right-hand query of IN is entered; the left operand is not.
    let sel = Select {
        from: Vec::new(),
        projection: Vec::new(),
        selection: Some(Box::new(Expr::InSubquery {
            operand: Box::new(Expr::Subquery(Box::new(query_from_table(&["left_tbl"])))),
            subquery: Box::new(query_from_table(&["right_tbl"])),
        })),
        having: None,
    };
    let set = extract_names(vec![Statement::Query(Box::new(query_of_select(sel)))]);
    assert_eq!(set.len(), 1);
    assert!(has(&set, "right_tbl"));
    assert!(!has(&set, "left_tbl"));
}

#[test]
fn multiple_statements_accumulate() {
    let set = extract_names(vec![
        Statement::Query(Box::new(query_from_table(&["a"]))),
        Statement::Other,
        Statement::Query(Box::new(query_from_table(&["b"]))),
        Statement::Query(Box::new(query_from_table(&["a"]))),
    ]);
    assert_eq!(set.len(), 2);
    assert!(has(&set, "a"));
    assert!(has(&set, "b"));
}

#[test]
fn table_function_contributes_nothing() {
    let twj = TableWithJoins { relation: TableFactor::TableFunction, joins: Vec::new() };
    let set = extract_names(vec![Statement::Query(Box::new(query_of_select(select_from(
        vec![twj],
    ))))]);
    assert_eq!(set.len(), 0);
}

#[test]
fn nested_group_in_join_position_is_dropped() {
    // Only named and derived tables count in a join position; a further
    // parenthesized group joined to a relation contributes nothing.
    let grouped = TableWithJoins { relation: table(&["g1"]), joins: vec![table(&["g2"])] };
    let twj = TableWithJoins {
        relation: table(&["a"]),
        joins: vec![TableFactor::NestedJoin(Box::new(grouped))],
    };
    let set = extract_names(vec![Statement::Query(Box::new(query_of_select(select_from(
        vec![twj],
    ))))]);
    assert_eq!(set.len(), 1);
    assert!(has(&set, "a"));
    assert!(!has(&set, "g1"));
    assert!(!has(&set, "g2"));
}

#[test]
fn collection_is_additive_and_idempotent() {
    let mut set = TableSet::new();
    set.insert("pre".to_string());
    let q = query_from_table(&["t"]);
    collect_tables_from_query(&q, &mut set);
    assert_eq!(set.len(), 2);
    assert!(has(&set, "pre"));
    assert!(has(&set, "t"));
    // a second run over the same query adds nothing new
    collect_tables_from_query(&q, &mut set);
    assert_eq!(set.len(), 2);
}
