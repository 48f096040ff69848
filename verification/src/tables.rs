use vstd::prelude::*;

use crate::ast::Cte;
use crate::ast::Expr;
use crate::ast::Query;
use crate::ast::Select;
use crate::ast::SelectItem;
use crate::ast::SetExpr;
use crate::ast::Statement;
use crate::ast::TableFactor;
use crate::ast::TableWithJoins;

verus! {

// The mathematical model of table extraction: for each shape of the tree,
// the set of fully qualified table names (as character sequences) that the
// collector is required to produce. The executable collector is verified
// against these functions. Sequence-valued fields are folded from the left,
// peeling the last element, so that the loops of the collector extend a
// prefix one element at a time.

/// An identifier path rendered as one name: the segments joined by `.`
/// in their original order, with no quoting or case normalization.
pub open spec fn dot_joined(parts: Seq<Seq<char>>) -> Seq<char>
    decreases parts.len(),
{
    if parts.len() == 0 {
        Seq::empty()
    } else if parts.len() == 1 {
        parts[0]
    } else {
        dot_joined(parts.subrange(0, parts.len() - 1)) + seq!['.'] + parts[parts.len() - 1]
    }
}

/// The tables referenced by a whole sequence of statements.
pub open spec fn statement_list_tables(ss: Seq<Statement>) -> Set<Seq<char>>
    decreases ss.len(),
{
    if ss.len() == 0 {
        Set::empty()
    } else {
        statement_list_tables(ss.subrange(0, ss.len() - 1)) + statement_tables(
            ss[ss.len() - 1],
        )
    }
}

/// The tables referenced by one statement: only a standalone query, a view
/// definition, and a `CREATE TABLE ... AS` form carry a query; every other
/// statement kind contributes nothing, by design.
pub open spec fn statement_tables(st: Statement) -> Set<Seq<char>> {
    match st {
        Statement::Query(q) => query_tables(*q),
        Statement::CreateView { query } => query_tables(*query),
        Statement::CreateTable { query } => match query {
            Some(q) => query_tables(*q),
            None => Set::empty(),
        },
        Statement::Other => Set::empty(),
    }
}

/// The tables referenced by a query: those of every CTE body plus those of
/// the set-expression body. CTE names themselves never enter the set.
pub open spec fn query_tables(q: Query) -> Set<Seq<char>>
    decreases q,
{
    cte_list_tables(q.ctes@) + set_expr_tables(*q.body)
}

/// The tables referenced by a list of CTE definitions.
pub open spec fn cte_list_tables(cs: Seq<Cte>) -> Set<Seq<char>>
    decreases cs,
{
    if cs.len() == 0 {
        Set::empty()
    } else {
        cte_list_tables(cs.subrange(0, cs.len() - 1)) + query_tables(cs[cs.len() - 1].query)
    }
}

/// The tables referenced by a set expression: a select block is scanned,
/// a nested query is entered, a set operation contributes both branches,
/// and a literal row set contributes nothing.
pub open spec fn set_expr_tables(e: SetExpr) -> Set<Seq<char>>
    decreases e,
{
    match e {
        SetExpr::Select(s) => select_tables(*s),
        SetExpr::Query(q) => query_tables(*q),
        SetExpr::SetOperation { left, right } => set_expr_tables(*left) + set_expr_tables(*right),
        SetExpr::Values => Set::empty(),
        SetExpr::Other => Set::empty(),
    }
}

/// The tables referenced by a select block: its whole `FROM` list, plus any
/// subqueries embedded in the projection, the filter predicate, and the
/// post-aggregation filter.
pub open spec fn select_tables(s: Select) -> Set<Seq<char>>
    decreases s,
{
    twj_list_tables(s.from@) + item_list_tables(s.projection@) + (match s.selection {
        Some(e) => expr_tables(*e),
        None => Set::empty(),
    }) + (match s.having {
        Some(e) => expr_tables(*e),
        None => Set::empty(),
    })
}

/// The tables referenced by a `FROM` list.
pub open spec fn twj_list_tables(ts: Seq<TableWithJoins>) -> Set<Seq<char>>
    decreases ts,
{
    if ts.len() == 0 {
        Set::empty()
    } else {
        twj_list_tables(ts.subrange(0, ts.len() - 1)) + twj_tables(ts[ts.len() - 1])
    }
}

/// The tables referenced by one `FROM` entry: the primary relation resolved
/// in full, and each joined relation resolved as a base factor (a named
/// table or a derived table; a parenthesized group in a join position
/// contributes nothing).
pub open spec fn twj_tables(t: TableWithJoins) -> Set<Seq<char>>
    decreases t,
{
    factor_tables(t.relation) + base_factor_list_tables(t.joins@)
}

/// The tables referenced by a table factor in primary position. One level
/// of parenthesized join grouping is unwrapped: its inner primary relation
/// and inner joins are resolved as base factors, so a table hidden behind
/// two or more levels of grouping is not discovered. That is a documented
/// limitation carried over deliberately, not to be patched silently.
pub open spec fn factor_tables(f: TableFactor) -> Set<Seq<char>>
    decreases f,
{
    match f {
        TableFactor::Table { name } => set![dot_joined(name.deep_view())],
        TableFactor::Derived { query } => query_tables(*query),
        TableFactor::NestedJoin(nested) => base_factor_tables(nested.relation)
            + base_factor_list_tables(nested.joins@),
        TableFactor::TableFunction => Set::empty(),
        TableFactor::Other => Set::empty(),
    }
}

/// The tables referenced by a table factor in a joined or nested position:
/// only a named table or a derived table counts there.
pub open spec fn base_factor_tables(f: TableFactor) -> Set<Seq<char>>
    decreases f,
{
    match f {
        TableFactor::Table { name } => set![dot_joined(name.deep_view())],
        TableFactor::Derived { query } => query_tables(*query),
        TableFactor::NestedJoin(_) => Set::empty(),
        TableFactor::TableFunction => Set::empty(),
        TableFactor::Other => Set::empty(),
    }
}

/// The tables referenced by a list of joined table factors.
pub open spec fn base_factor_list_tables(fs: Seq<TableFactor>) -> Set<Seq<char>>
    decreases fs,
{
    if fs.len() == 0 {
        Set::empty()
    } else {
        base_factor_list_tables(fs.subrange(0, fs.len() - 1)) + base_factor_tables(
            fs[fs.len() - 1],
        )
    }
}

/// The tables referenced by a projection list.
pub open spec fn item_list_tables(is: Seq<SelectItem>) -> Set<Seq<char>>
    decreases is,
{
    if is.len() == 0 {
        Set::empty()
    } else {
        item_list_tables(is.subrange(0, is.len() - 1)) + item_tables(is[is.len() - 1])
    }
}

/// The tables referenced by one projection entry.
pub open spec fn item_tables(i: SelectItem) -> Set<Seq<char>>
    decreases i,
{
    match i {
        SelectItem::Expr(e) => expr_tables(e),
        SelectItem::Other => Set::empty(),
    }
}

/// The tables referenced by subqueries embedded in an expression. A
/// subquery, an `EXISTS`, and the right-hand side of an `IN` are entered;
/// operators, casts, conditionals, ranges and tuples are searched
/// structurally; function-call arguments are deliberately not searched.
pub open spec fn expr_tables(e: Expr) -> Set<Seq<char>>
    decreases e,
{
    match e {
        Expr::Subquery(q) => query_tables(*q),
        Expr::Exists(q) => query_tables(*q),
        Expr::InSubquery { operand: _, subquery } => query_tables(*subquery),
        Expr::BinaryOp { left, right } => expr_tables(*left) + expr_tables(*right),
        Expr::UnaryOp(inner) => expr_tables(*inner),
        Expr::Cast(inner) => expr_tables(*inner),
        Expr::Extract(inner) => expr_tables(*inner),
        Expr::Nested(inner) => expr_tables(*inner),
        Expr::Case { operand, conditions, results, else_result } => (match operand {
            Some(op) => expr_tables(*op),
            None => Set::empty(),
        }) + expr_list_tables(conditions@) + expr_list_tables(results@) + (match else_result {
            Some(er) => expr_tables(*er),
            None => Set::empty(),
        }),
        Expr::Between { expr, low, high } => expr_tables(*expr) + expr_tables(*low) + expr_tables(
            *high,
        ),
        Expr::Tuple(es) => expr_list_tables(es@),
        Expr::Function(_) => Set::empty(),
        Expr::Other => Set::empty(),
    }
}

/// The tables referenced by a list of expressions.
pub open spec fn expr_list_tables(es: Seq<Expr>) -> Set<Seq<char>>
    decreases es,
{
    if es.len() == 0 {
        Set::empty()
    } else {
        expr_list_tables(es.subrange(0, es.len() - 1)) + expr_tables(es[es.len() - 1])
    }
}

} // verus!
