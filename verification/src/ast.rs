use vstd::prelude::*;

verus! {

// The subset of a parsed SQL statement tree that table extraction reads.
// The shapes mirror what a SQL parser produces: a statement wraps a query,
// a query has CTEs and a set-expression body, a select block has a `FROM`
// list of joined table factors, and expressions may embed further queries.
// Variants that can never introduce a table are collapsed into catch-all
// arms (`Other`), which the collector treats as no-ops by design.

/// A statement: only a standalone query, a view definition, and a
/// `CREATE TABLE ... AS` form carry a query to scan; every other statement
/// kind contributes nothing.
pub enum Statement {
    Query(Box<Query>),
    CreateView { query: Box<Query> },
    CreateTable { query: Option<Box<Query>> },
    Other,
}

/// A common table expression: a named auxiliary query introduced by `WITH`.
/// The name is kept for fidelity but never enters the result set; only the
/// body is scanned.
pub struct Cte {
    pub name: String,
    pub query: Query,
}

/// A query: an optional list of CTEs plus a set-expression body.
pub struct Query {
    pub ctes: Vec<Cte>,
    pub body: Box<SetExpr>,
}

/// The part of a query that defines its rows: a single select block, a
/// nested query, a binary set operation (`UNION`/`INTERSECT`/`EXCEPT`),
/// a literal row set (`VALUES`), or another form that holds no tables.
pub enum SetExpr {
    Select(Box<Select>),
    Query(Box<Query>),
    SetOperation { left: Box<SetExpr>, right: Box<SetExpr> },
    Values,
    Other,
}

/// A single select block: its `FROM` list, projection list, filter
/// predicate (`WHERE`), and post-aggregation filter (`HAVING`).
/// `GROUP BY` expressions are intentionally absent: they cannot introduce
/// new table references in the dialects this library targets.
pub struct Select {
    pub from: Vec<TableWithJoins>,
    pub projection: Vec<SelectItem>,
    pub selection: Option<Box<Expr>>,
    pub having: Option<Box<Expr>>,
}

/// One projection entry: an expression (aliased or not), or a form such as
/// a wildcard that cannot embed a subquery.
pub enum SelectItem {
    Expr(Expr),
    Other,
}

/// One `FROM` entry: a primary table factor plus the factors joined to it.
pub struct TableWithJoins {
    pub relation: TableFactor,
    pub joins: Vec<TableFactor>,
}

/// A single syntactic source of rows: a named table (its identifier path,
/// in original segment order), a derived table wrapping a query, a
/// parenthesized join group, a table-valued function, or another form.
/// Only named tables and derived tables ever contribute to the result.
pub enum TableFactor {
    Table { name: Vec<String> },
    Derived { query: Box<Query> },
    NestedJoin(Box<TableWithJoins>),
    TableFunction,
    Other,
}

/// An expression, restricted to the shapes that can transitively contain a
/// query. Function calls keep their arguments, but the collector does not
/// scan them: that is a documented scope limit, not an oversight.
pub enum Expr {
    Subquery(Box<Query>),
    Exists(Box<Query>),
    InSubquery { operand: Box<Expr>, subquery: Box<Query> },
    BinaryOp { left: Box<Expr>, right: Box<Expr> },
    UnaryOp(Box<Expr>),
    Cast(Box<Expr>),
    Extract(Box<Expr>),
    Nested(Box<Expr>),
    Case {
        operand: Option<Box<Expr>>,
        conditions: Vec<Expr>,
        results: Vec<Expr>,
        else_result: Option<Box<Expr>>,
    },
    Between { expr: Box<Expr>, low: Box<Expr>, high: Box<Expr> },
    Tuple(Vec<Expr>),
    Function(Vec<Expr>),
    Other,
}

} // verus!
