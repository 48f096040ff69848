use vstd::prelude::*;

use crate::ast::Cte;
use crate::ast::Expr;
use crate::ast::Query;
use crate::ast::Select;
use crate::ast::SelectItem;
use crate::ast::SetExpr;
use crate::ast::Statement;
use crate::tables::cte_list_tables;
use crate::tables::expr_list_tables;
use crate::tables::expr_tables;
use crate::tables::item_list_tables;
use crate::tables::item_tables;
use crate::tables::query_tables;
use crate::tables::select_tables;
use crate::tables::set_expr_tables;
use crate::tables::statement_tables;
use crate::tables::twj_list_tables;

verus! {

// A statement that has no `FROM` entry anywhere and embeds no subquery in
// any of its expressions references no table at all. The predicates below
// say exactly that of the input's shape; the proof functions establish
// that the extracted set is then empty.

/// No select block reachable from this statement has a `FROM` entry, and
/// no reachable expression embeds a subquery.
pub open spec fn statement_from_free(st: Statement) -> bool {
    match st {
        Statement::Query(q) => query_from_free(*q),
        Statement::CreateView { query } => query_from_free(*query),
        Statement::CreateTable { query } => match query {
            Some(q) => query_from_free(*q),
            None => true,
        },
        Statement::Other => true,
    }
}

/// No select block reachable from this query has a `FROM` entry, and no
/// reachable expression embeds a subquery.
pub open spec fn query_from_free(q: Query) -> bool
    decreases q,
{
    cte_list_from_free(q.ctes@) && set_expr_from_free(*q.body)
}

/// Every CTE body in the list is itself free of `FROM` entries.
pub open spec fn cte_list_from_free(cs: Seq<Cte>) -> bool
    decreases cs,
{
    if cs.len() == 0 {
        true
    } else {
        cte_list_from_free(cs.subrange(0, cs.len() - 1)) && query_from_free(
            cs[cs.len() - 1].query,
        )
    }
}

/// No select block reachable from this set expression has a `FROM` entry.
pub open spec fn set_expr_from_free(e: SetExpr) -> bool
    decreases e,
{
    match e {
        SetExpr::Select(s) => select_from_free(*s),
        SetExpr::Query(q) => query_from_free(*q),
        SetExpr::SetOperation { left, right } => set_expr_from_free(*left) && set_expr_from_free(
            *right,
        ),
        SetExpr::Values => true,
        SetExpr::Other => true,
    }
}

/// The select block has an empty `FROM` list and none of its expressions
/// embeds a subquery.
pub open spec fn select_from_free(s: Select) -> bool
    decreases s,
{
    s.from@.len() == 0 && item_list_subquery_free(s.projection@) && (match s.selection {
        Some(e) => expr_subquery_free(*e),
        None => true,
    }) && (match s.having {
        Some(e) => expr_subquery_free(*e),
        None => true,
    })
}

/// No projection entry embeds a subquery.
pub open spec fn item_list_subquery_free(is: Seq<SelectItem>) -> bool
    decreases is,
{
    if is.len() == 0 {
        true
    } else {
        item_list_subquery_free(is.subrange(0, is.len() - 1)) && item_subquery_free(
            is[is.len() - 1],
        )
    }
}

/// One projection entry embeds no subquery.
pub open spec fn item_subquery_free(i: SelectItem) -> bool
    decreases i,
{
    match i {
        SelectItem::Expr(e) => expr_subquery_free(e),
        SelectItem::Other => true,
    }
}

/// The expression embeds no subquery in any scanned position. Function
/// arguments are not constrained: the collector never scans them, so
/// whatever they hold cannot surface a table.
pub open spec fn expr_subquery_free(e: Expr) -> bool
    decreases e,
{
    match e {
        Expr::Subquery(_) => false,
        Expr::Exists(_) => false,
        Expr::InSubquery { operand: _, subquery: _ } => false,
        Expr::BinaryOp { left, right } => expr_subquery_free(*left) && expr_subquery_free(*right),
        Expr::UnaryOp(inner) => expr_subquery_free(*inner),
        Expr::Cast(inner) => expr_subquery_free(*inner),
        Expr::Extract(inner) => expr_subquery_free(*inner),
        Expr::Nested(inner) => expr_subquery_free(*inner),
        Expr::Case { operand, conditions, results, else_result } => (match operand {
            Some(op) => expr_subquery_free(*op),
            None => true,
        }) && expr_list_subquery_free(conditions@) && expr_list_subquery_free(results@) && (
        match else_result {
            Some(er) => expr_subquery_free(*er),
            None => true,
        }),
        Expr::Between { expr, low, high } => expr_subquery_free(*expr) && expr_subquery_free(*low)
            && expr_subquery_free(*high),
        Expr::Tuple(es) => expr_list_subquery_free(es@),
        Expr::Function(_) => true,
        Expr::Other => true,
    }
}

/// No expression in the list embeds a subquery.
pub open spec fn expr_list_subquery_free(es: Seq<Expr>) -> bool
    decreases es,
{
    if es.len() == 0 {
        true
    } else {
        expr_list_subquery_free(es.subrange(0, es.len() - 1)) && expr_subquery_free(
            es[es.len() - 1],
        )
    }
}

/// A statement with no `FROM` entry anywhere and no embedded subquery
/// references no table: its extracted set is empty.
pub proof fn lemma_from_free_statement_empty(st: Statement)
    requires
        statement_from_free(st),
    ensures
        statement_tables(st) == Set::<Seq<char>>::empty(),
{
    match st {
        Statement::Query(q) => lemma_from_free_query_empty(*q),
        Statement::CreateView { query } => lemma_from_free_query_empty(*query),
        Statement::CreateTable { query } => match query {
            Some(q) => lemma_from_free_query_empty(*q),
            None => assert(statement_tables(st) =~= Set::<Seq<char>>::empty()),
        },
        Statement::Other => assert(statement_tables(st) =~= Set::<Seq<char>>::empty()),
    }
}

/// A query with no `FROM` entry anywhere and no embedded subquery
/// references no table.
pub proof fn lemma_from_free_query_empty(q: Query)
    requires
        query_from_free(q),
    ensures
        query_tables(q) == Set::<Seq<char>>::empty(),
    decreases q,
{
    lemma_from_free_cte_list_empty(q.ctes@);
    lemma_from_free_set_expr_empty(*q.body);
    assert(query_tables(q) =~= Set::<Seq<char>>::empty());
}

proof fn lemma_from_free_cte_list_empty(cs: Seq<Cte>)
    requires
        cte_list_from_free(cs),
    ensures
        cte_list_tables(cs) == Set::<Seq<char>>::empty(),
    decreases cs,
{
    if cs.len() > 0 {
        lemma_from_free_cte_list_empty(cs.subrange(0, cs.len() - 1));
        lemma_from_free_query_empty(cs[cs.len() - 1].query);
    }
    assert(cte_list_tables(cs) =~= Set::<Seq<char>>::empty());
}

proof fn lemma_from_free_set_expr_empty(e: SetExpr)
    requires
        set_expr_from_free(e),
    ensures
        set_expr_tables(e) == Set::<Seq<char>>::empty(),
    decreases e,
{
    match e {
        SetExpr::Select(s) => lemma_from_free_select_empty(*s),
        SetExpr::Query(q) => lemma_from_free_query_empty(*q),
        SetExpr::SetOperation { left, right } => {
            lemma_from_free_set_expr_empty(*left);
            lemma_from_free_set_expr_empty(*right);
            assert(set_expr_tables(e) =~= Set::<Seq<char>>::empty());
        },
        SetExpr::Values => assert(set_expr_tables(e) =~= Set::<Seq<char>>::empty()),
        SetExpr::Other => assert(set_expr_tables(e) =~= Set::<Seq<char>>::empty()),
    }
}

proof fn lemma_from_free_select_empty(s: Select)
    requires
        select_from_free(s),
    ensures
        select_tables(s) == Set::<Seq<char>>::empty(),
    decreases s,
{
    assert(s.from@ =~= Seq::<crate::ast::TableWithJoins>::empty());
    assert(twj_list_tables(s.from@) =~= Set::<Seq<char>>::empty());
    lemma_subquery_free_item_list_empty(s.projection@);
    match s.selection {
        Some(e) => lemma_subquery_free_expr_empty(*e),
        None => {},
    }
    match s.having {
        Some(e) => lemma_subquery_free_expr_empty(*e),
        None => {},
    }
    assert(select_tables(s) =~= Set::<Seq<char>>::empty());
}

proof fn lemma_subquery_free_item_list_empty(is: Seq<SelectItem>)
    requires
        item_list_subquery_free(is),
    ensures
        item_list_tables(is) == Set::<Seq<char>>::empty(),
    decreases is,
{
    if is.len() > 0 {
        lemma_subquery_free_item_list_empty(is.subrange(0, is.len() - 1));
        lemma_subquery_free_item_empty(is[is.len() - 1]);
    }
    assert(item_list_tables(is) =~= Set::<Seq<char>>::empty());
}

proof fn lemma_subquery_free_item_empty(i: SelectItem)
    requires
        item_subquery_free(i),
    ensures
        item_tables(i) == Set::<Seq<char>>::empty(),
    decreases i,
{
    match i {
        SelectItem::Expr(e) => lemma_subquery_free_expr_empty(e),
        SelectItem::Other => assert(item_tables(i) =~= Set::<Seq<char>>::empty()),
    }
}

/// An expression that embeds no subquery in any scanned position
/// contributes no table.
pub proof fn lemma_subquery_free_expr_empty(e: Expr)
    requires
        expr_subquery_free(e),
    ensures
        expr_tables(e) == Set::<Seq<char>>::empty(),
    decreases e,
{
    match e {
        Expr::BinaryOp { left, right } => {
            lemma_subquery_free_expr_empty(*left);
            lemma_subquery_free_expr_empty(*right);
        },
        Expr::UnaryOp(inner) => lemma_subquery_free_expr_empty(*inner),
        Expr::Cast(inner) => lemma_subquery_free_expr_empty(*inner),
        Expr::Extract(inner) => lemma_subquery_free_expr_empty(*inner),
        Expr::Nested(inner) => lemma_subquery_free_expr_empty(*inner),
        Expr::Case { operand, conditions, results, else_result } => {
            match operand {
                Some(op) => lemma_subquery_free_expr_empty(*op),
                None => {},
            }
            lemma_subquery_free_expr_list_empty(conditions@);
            lemma_subquery_free_expr_list_empty(results@);
            match else_result {
                Some(er) => lemma_subquery_free_expr_empty(*er),
                None => {},
            }
        },
        Expr::Between { expr, low, high } => {
            lemma_subquery_free_expr_empty(*expr);
            lemma_subquery_free_expr_empty(*low);
            lemma_subquery_free_expr_empty(*high);
        },
        Expr::Tuple(es) => lemma_subquery_free_expr_list_empty(es@),
        _ => {},
    }
    assert(expr_tables(e) =~= Set::<Seq<char>>::empty());
}

proof fn lemma_subquery_free_expr_list_empty(es: Seq<Expr>)
    requires
        expr_list_subquery_free(es),
    ensures
        expr_list_tables(es) == Set::<Seq<char>>::empty(),
    decreases es,
{
    if es.len() > 0 {
        lemma_subquery_free_expr_list_empty(es.subrange(0, es.len() - 1));
        lemma_subquery_free_expr_empty(es[es.len() - 1]);
    }
    assert(expr_list_tables(es) =~= Set::<Seq<char>>::empty());
}

} // verus!
