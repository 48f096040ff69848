use vstd::prelude::*;
use vstd::string::StringExecFns;

use crate::ast::Expr;
use crate::ast::Query;
use crate::ast::Select;
use crate::ast::SelectItem;
use crate::ast::SetExpr;
use crate::ast::Statement;
use crate::ast::TableFactor;
use crate::ast::TableWithJoins;
use crate::table_set::TableSet;
use crate::tables::base_factor_list_tables;
use crate::tables::base_factor_tables;
use crate::tables::cte_list_tables;
use crate::tables::dot_joined;
use crate::tables::expr_list_tables;
use crate::tables::expr_tables;
use crate::tables::factor_tables;
use crate::tables::item_list_tables;
use crate::tables::item_tables;
use crate::tables::query_tables;
use crate::tables::select_tables;
use crate::tables::set_expr_tables;
use crate::tables::statement_list_tables;
use crate::tables::statement_tables;
use crate::tables::twj_list_tables;
use crate::tables::twj_tables;

verus! {

// The reference collector: a recursive-descent walk of the statement tree
// that adds every referenced table name to the accumulator. Each function
// is additive: it extends the accumulator by exactly the set its spec
// counterpart in `tables` assigns to the node, and touches nothing else.
// Running one twice therefore adds nothing the first run did not add.

/// Render an identifier path as one dot-joined name, in original segment
/// order, with no quoting or case normalization.
pub fn object_name_to_string(name: &Vec<String>) -> (r: String)
    ensures
        r@ == dot_joined(name.deep_view()),
{
    let mut r = String::new();
    let n = name.len();
    let mut i: usize = 0;
    while i < n
        invariant
            n == name.len(),
            i <= n,
            r@ == dot_joined(name.deep_view().subrange(0, i as int)),
        decreases n - i,
    {
        if i > 0 {
            r.append(".");
        }
        r.append(name[i].as_str());
        proof {
            reveal_strlit(".");
            let dv = name.deep_view();
            let p = dv.subrange(0, i + 1);
            assert(p.subrange(0, i as int) =~= dv.subrange(0, i as int));
            assert(p[i as int] == dv[i as int]);
            if i == 0 {
                assert(r@ =~= dot_joined(p));
            } else {
                assert("."@ =~= seq!['.']);
                assert(r@ =~= dot_joined(p));
            }
        }
        i += 1;
    }
    proof {
        assert(name.deep_view().subrange(0, n as int) =~= name.deep_view());
    }
    r
}

/// Collect every table reachable from a query: all CTE bodies first, then
/// the set-expression body.
pub fn collect_tables_from_query(query: &Query, out: &mut TableSet)
    requires
        old(out).wf(),
    ensures
        final(out).wf(),
        final(out)@ == old(out)@ + query_tables(*query),
    decreases *query, 0int,
{
    let n = query.ctes.len();
    let mut i: usize = 0;
    proof {
        assert(out@ =~= out@ + cte_list_tables(query.ctes@.subrange(0, 0)));
    }
    while i < n
        invariant
            old(out).wf(),
            n == query.ctes.len(),
            i <= n,
            out.wf(),
            out@ == old(out)@ + cte_list_tables(query.ctes@.subrange(0, i as int)),
        decreases n - i,
    {
        collect_tables_from_query(&query.ctes[i].query, out);
        proof {
            let cs = query.ctes@;
            assert(cs.subrange(0, i + 1).subrange(0, i as int) =~= cs.subrange(0, i as int));
            assert(cs.subrange(0, i + 1)[i as int] == cs[i as int]);
            assert(out@ =~= old(out)@ + cte_list_tables(cs.subrange(0, i + 1)));
        }
        i += 1;
    }
    proof {
        assert(query.ctes@.subrange(0, n as int) =~= query.ctes@);
    }
    collect_tables_from_set_expr(&query.body, out);
    proof {
        assert(out@ =~= old(out)@ + query_tables(*query));
    }
}

/// Collect from one set expression: enter a select block or a nested query,
/// take both branches of a set operation, and skip a literal row set.
pub fn collect_tables_from_set_expr(e: &SetExpr, out: &mut TableSet)
    requires
        old(out).wf(),
    ensures
        final(out).wf(),
        final(out)@ == old(out)@ + set_expr_tables(*e),
    decreases *e, 0int,
{
    match e {
        SetExpr::Select(s) => {
            collect_tables_from_select(&**s, out);
        },
        SetExpr::Query(q) => {
            collect_tables_from_query(&**q, out);
        },
        SetExpr::SetOperation { left, right } => {
            collect_tables_from_set_expr(&**left, out);
            collect_tables_from_set_expr(&**right, out);
            proof {
                assert(out@ =~= old(out)@ + set_expr_tables(*e));
            }
        },
        SetExpr::Values => {
            proof {
                assert(out@ =~= old(out)@ + set_expr_tables(*e));
            }
        },
        SetExpr::Other => {
            proof {
                assert(out@ =~= old(out)@ + set_expr_tables(*e));
            }
        },
    }
}

/// Collect from a select block: the whole `FROM` list, then any subqueries
/// in the projection, the filter predicate, and the post-aggregation
/// filter. `GROUP BY` is deliberately not scanned.
pub fn collect_tables_from_select(select: &Select, out: &mut TableSet)
    requires
        old(out).wf(),
    ensures
        final(out).wf(),
        final(out)@ == old(out)@ + select_tables(*select),
    decreases *select, 1int,
{
    from_table_with_joins(select, out);
    let ghost after_from = out@;
    let n = select.projection.len();
    let mut i: usize = 0;
    proof {
        assert(out@ =~= after_from + item_list_tables(select.projection@.subrange(0, 0)));
    }
    while i < n
        invariant
            old(out).wf(),
            n == select.projection.len(),
            i <= n,
            out.wf(),
            out@ == after_from + item_list_tables(select.projection@.subrange(0, i as int)),
        decreases n - i,
    {
        let ghost pre = out@;
        match &select.projection[i] {
            SelectItem::Expr(ex) => {
                collect_tables_from_expr(ex, out);
            },
            SelectItem::Other => {},
        }
        proof {
            let ps = select.projection@;
            assert(ps.subrange(0, i + 1).subrange(0, i as int) =~= ps.subrange(0, i as int));
            assert(ps.subrange(0, i + 1)[i as int] == ps[i as int]);
            assert(out@ =~= pre + item_tables(ps[i as int]));
            assert(out@ =~= after_from + item_list_tables(ps.subrange(0, i + 1)));
        }
        i += 1;
    }
    proof {
        assert(select.projection@.subrange(0, n as int) =~= select.projection@);
    }
    match &select.selection {
        Some(ex) => {
            collect_tables_from_expr(&**ex, out);
        },
        None => {},
    }
    match &select.having {
        Some(ex) => {
            collect_tables_from_expr(&**ex, out);
        },
        None => {},
    }
    proof {
        assert(out@ =~= old(out)@ + select_tables(*select));
    }
}

/// Resolve every entry of a `FROM` list.
pub fn from_table_with_joins(select: &Select, out: &mut TableSet)
    requires
        old(out).wf(),
    ensures
        final(out).wf(),
        final(out)@ == old(out)@ + twj_list_tables(select.from@),
    decreases *select, 0int,
{
    let n = select.from.len();
    let mut i: usize = 0;
    proof {
        assert(out@ =~= out@ + twj_list_tables(select.from@.subrange(0, 0)));
    }
    while i < n
        invariant
            old(out).wf(),
            n == select.from.len(),
            i <= n,
            out.wf(),
            out@ == old(out)@ + twj_list_tables(select.from@.subrange(0, i as int)),
        decreases n - i,
    {
        from_table_with_joins_single(&select.from[i], out);
        proof {
            let fs = select.from@;
            assert(fs.subrange(0, i + 1).subrange(0, i as int) =~= fs.subrange(0, i as int));
            assert(fs.subrange(0, i + 1)[i as int] == fs[i as int]);
            assert(out@ =~= old(out)@ + twj_list_tables(fs.subrange(0, i + 1)));
        }
        i += 1;
    }
    proof {
        assert(select.from@.subrange(0, n as int) =~= select.from@);
    }
}

/// Resolve one `FROM` entry: the primary relation in full (including one
/// level of parenthesized join grouping), then each joined relation as a
/// base factor. A table hidden behind two or more levels of grouping is
/// not discovered: a documented limitation, carried over deliberately.
#[verifier::loop_isolation(false)]
pub fn from_table_with_joins_single(twj: &TableWithJoins, out: &mut TableSet)
    requires
        old(out).wf(),
    ensures
        final(out).wf(),
        final(out)@ == old(out)@ + twj_tables(*twj),
    decreases *twj, 0int,
{
    match &twj.relation {
        TableFactor::Table { name } => {
            out.insert(object_name_to_string(name));
            proof {
                assert(out@ =~= old(out)@ + factor_tables(twj.relation));
            }
        },
        TableFactor::Derived { query } => {
            collect_tables_from_query(&**query, out);
        },
        TableFactor::NestedJoin(nested) => {
            collect_base_factor(&nested.relation, out);
            let ghost after_rel = out@;
            let n = nested.joins.len();
            let mut i: usize = 0;
            proof {
                assert(out@ =~= after_rel + base_factor_list_tables(nested.joins@.subrange(0, 0)));
            }
            while i < n
                invariant
                    old(out).wf(),
                    n == nested.joins.len(),
                    i <= n,
                    out.wf(),
                    out@ == after_rel + base_factor_list_tables(
                        nested.joins@.subrange(0, i as int),
                    ),
                decreases n - i,
            {
                proof {
                    assert(twj.relation->NestedJoin_0 == *nested);
                    assert(decreases_to!(*twj => (twj.relation->NestedJoin_0).joins@[i as int]));
                }
                collect_base_factor(&nested.joins[i], out);
                proof {
                    let js = nested.joins@;
                    assert(js.subrange(0, i + 1).subrange(0, i as int) =~= js.subrange(
                        0,
                        i as int,
                    ));
                    assert(js.subrange(0, i + 1)[i as int] == js[i as int]);
                    assert(out@ =~= after_rel + base_factor_list_tables(js.subrange(0, i + 1)));
                }
                i += 1;
            }
            proof {
                assert(nested.joins@.subrange(0, n as int) =~= nested.joins@);
                assert(out@ =~= old(out)@ + factor_tables(twj.relation));
            }
        },
        TableFactor::TableFunction => {
            proof {
                assert(out@ =~= old(out)@ + factor_tables(twj.relation));
            }
        },
        TableFactor::Other => {
            proof {
                assert(out@ =~= old(out)@ + factor_tables(twj.relation));
            }
        },
    }
    let ghost after_relation = out@;
    let n = twj.joins.len();
    let mut i: usize = 0;
    proof {
        assert(out@ =~= after_relation + base_factor_list_tables(twj.joins@.subrange(0, 0)));
    }
    while i < n
        invariant
            old(out).wf(),
            n == twj.joins.len(),
            i <= n,
            out.wf(),
            out@ == after_relation + base_factor_list_tables(twj.joins@.subrange(0, i as int)),
        decreases n - i,
    {
        collect_base_factor(&twj.joins[i], out);
        proof {
            let js = twj.joins@;
            assert(js.subrange(0, i + 1).subrange(0, i as int) =~= js.subrange(0, i as int));
            assert(js.subrange(0, i + 1)[i as int] == js[i as int]);
            assert(out@ =~= after_relation + base_factor_list_tables(js.subrange(0, i + 1)));
        }
        i += 1;
    }
    proof {
        assert(twj.joins@.subrange(0, n as int) =~= twj.joins@);
        assert(out@ =~= old(out)@ + twj_tables(*twj));
    }
}

/// Resolve a table factor in a joined or nested position: a named table is
/// inserted, a derived table's query is entered, and anything else
/// (including a further parenthesized group) contributes nothing.
pub fn collect_base_factor(f: &TableFactor, out: &mut TableSet)
    requires
        old(out).wf(),
    ensures
        final(out).wf(),
        final(out)@ == old(out)@ + base_factor_tables(*f),
    decreases *f, 0int,
{
    match f {
        TableFactor::Table { name } => {
            out.insert(object_name_to_string(name));
            proof {
                assert(out@ =~= old(out)@ + base_factor_tables(*f));
            }
        },
        TableFactor::Derived { query } => {
            collect_tables_from_query(&**query, out);
        },
        TableFactor::NestedJoin(_) => {
            proof {
                assert(out@ =~= old(out)@ + base_factor_tables(*f));
            }
        },
        TableFactor::TableFunction => {
            proof {
                assert(out@ =~= old(out)@ + base_factor_tables(*f));
            }
        },
        TableFactor::Other => {
            proof {
                assert(out@ =~= old(out)@ + base_factor_tables(*f));
            }
        },
    }
}

/// Search an expression for embedded queries. Function-call arguments are
/// deliberately not searched; leaves contribute nothing.
#[verifier::loop_isolation(false)]
pub fn collect_tables_from_expr(expr: &Expr, out: &mut TableSet)
    requires
        old(out).wf(),
    ensures
        final(out).wf(),
        final(out)@ == old(out)@ + expr_tables(*expr),
    decreases *expr, 0int,
{
    match expr {
        Expr::Subquery(q) => {
            collect_tables_from_query(&**q, out);
        },
        Expr::Exists(q) => {
            collect_tables_from_query(&**q, out);
        },
        Expr::InSubquery { operand: _, subquery } => {
            collect_tables_from_query(&**subquery, out);
        },
        Expr::BinaryOp { left, right } => {
            collect_tables_from_expr(&**left, out);
            collect_tables_from_expr(&**right, out);
            proof {
                assert(out@ =~= old(out)@ + expr_tables(*expr));
            }
        },
        Expr::UnaryOp(inner) => {
            collect_tables_from_expr(&**inner, out);
        },
        Expr::Cast(inner) => {
            collect_tables_from_expr(&**inner, out);
        },
        Expr::Extract(inner) => {
            collect_tables_from_expr(&**inner, out);
        },
        Expr::Nested(inner) => {
            collect_tables_from_expr(&**inner, out);
        },
        Expr::Case { operand, conditions, results, else_result } => {
            match operand {
                Some(op) => {
                    collect_tables_from_expr(&**op, out);
                },
                None => {},
            }
            let ghost after_operand = out@;
            let n = conditions.len();
            let mut i: usize = 0;
            proof {
                assert(out@ =~= after_operand + expr_list_tables(conditions@.subrange(0, 0)));
            }
            while i < n
                invariant
                    old(out).wf(),
                    n == conditions.len(),
                    i <= n,
                    out.wf(),
                    out@ == after_operand + expr_list_tables(
                        conditions@.subrange(0, i as int),
                    ),
                decreases n - i,
            {
                proof {
                    assert((*expr)->Case_conditions == *conditions);
                    assert(decreases_to!(*expr => ((*expr)->Case_conditions)@[i as int]));
                }
                collect_tables_from_expr(&conditions[i], out);
                proof {
                    let es = conditions@;
                    assert(es.subrange(0, i + 1).subrange(0, i as int) =~= es.subrange(
                        0,
                        i as int,
                    ));
                    assert(es.subrange(0, i + 1)[i as int] == es[i as int]);
                    assert(out@ =~= after_operand + expr_list_tables(
                        es.subrange(0, i + 1),
                    ));
                }
                i += 1;
            }
            proof {
                assert(conditions@.subrange(0, n as int) =~= conditions@);
            }
            let ghost after_conditions = out@;
            let m = results.len();
            let mut j: usize = 0;
            proof {
                assert(out@ =~= after_conditions + expr_list_tables(results@.subrange(0, 0)));
            }
            while j < m
                invariant
                    old(out).wf(),
                    m == results.len(),
                    j <= m,
                    out.wf(),
                    out@ == after_conditions + expr_list_tables(
                        results@.subrange(0, j as int),
                    ),
                decreases m - j,
            {
                proof {
                    assert((*expr)->Case_results == *results);
                    assert(decreases_to!(*expr => ((*expr)->Case_results)@[j as int]));
                }
                collect_tables_from_expr(&results[j], out);
                proof {
                    let es = results@;
                    assert(es.subrange(0, j + 1).subrange(0, j as int) =~= es.subrange(
                        0,
                        j as int,
                    ));
                    assert(es.subrange(0, j + 1)[j as int] == es[j as int]);
                    assert(out@ =~= after_conditions + expr_list_tables(
                        es.subrange(0, j + 1),
                    ));
                }
                j += 1;
            }
            proof {
                assert(results@.subrange(0, m as int) =~= results@);
            }
            match else_result {
                Some(er) => {
                    collect_tables_from_expr(&**er, out);
                },
                None => {},
            }
            proof {
                assert(out@ =~= old(out)@ + expr_tables(*expr));
            }
        },
        Expr::Between { expr: subject, low, high } => {
            collect_tables_from_expr(&**subject, out);
            collect_tables_from_expr(&**low, out);
            collect_tables_from_expr(&**high, out);
            proof {
                assert(out@ =~= old(out)@ + expr_tables(*expr));
            }
        },
        Expr::Tuple(es) => {
            let n = es.len();
            let mut i: usize = 0;
            proof {
                assert(out@ =~= old(out)@ + expr_list_tables(es@.subrange(0, 0)));
            }
            while i < n
                invariant
                    old(out).wf(),
                    n == es.len(),
                    i <= n,
                    out.wf(),
                    out@ == old(out)@ + expr_list_tables(
                        es@.subrange(0, i as int),
                    ),
                decreases n - i,
            {
                proof {
                    assert((*expr)->Tuple_0 == *es);
                    assert(decreases_to!(*expr => ((*expr)->Tuple_0)@[i as int]));
                }
                collect_tables_from_expr(&es[i], out);
                proof {
                    let sq = es@;
                    assert(sq.subrange(0, i + 1).subrange(0, i as int) =~= sq.subrange(
                        0,
                        i as int,
                    ));
                    assert(sq.subrange(0, i + 1)[i as int] == sq[i as int]);
                    assert(out@ =~= old(out)@ + expr_list_tables(
                        sq.subrange(0, i + 1),
                    ));
                }
                i += 1;
            }
            proof {
                assert(es@.subrange(0, n as int) =~= es@);
            }
        },
        Expr::Function(_) => {
            proof {
                assert(out@ =~= old(out)@ + expr_tables(*expr));
            }
        },
        Expr::Other => {
            proof {
                assert(out@ =~= old(out)@ + expr_tables(*expr));
            }
        },
    }
}

/// The top-level entry point: the distinct tables referenced anywhere in a
/// sequence of statements. It always succeeds; statement kinds the
/// collector does not interpret contribute nothing.
pub fn extract_tables(statements: &[Statement]) -> (r: TableSet)
    ensures
        r.wf(),
        r@ == statement_list_tables(statements@),
{
    let mut tables = TableSet::new();
    let n = statements.len();
    let mut i: usize = 0;
    proof {
        assert(tables@ =~= statement_list_tables(statements@.subrange(0, 0)));
    }
    while i < n
        invariant
            n == statements.len(),
            i <= n,
            tables.wf(),
            tables@ == statement_list_tables(statements@.subrange(0, i as int)),
        decreases n - i,
    {
        let ghost pre = tables@;
        match &statements[i] {
            Statement::Query(q) => {
                collect_tables_from_query(&**q, &mut tables);
            },
            Statement::CreateView { query } => {
                collect_tables_from_query(&**query, &mut tables);
            },
            Statement::CreateTable { query } => {
                match query {
                    Some(q) => {
                        collect_tables_from_query(&**q, &mut tables);
                    },
                    None => {},
                }
            },
            Statement::Other => {},
        }
        proof {
            let ss = statements@;
            assert(ss.subrange(0, i + 1).subrange(0, i as int) =~= ss.subrange(0, i as int));
            assert(ss.subrange(0, i + 1)[i as int] == ss[i as int]);
            assert(tables@ =~= pre + statement_tables(ss[i as int]));
            assert(tables@ =~= statement_list_tables(ss.subrange(0, i + 1)));
        }
        i += 1;
    }
    proof {
        assert(statements@.subrange(0, n as int) =~= statements@);
    }
    tables
}

} // verus!
