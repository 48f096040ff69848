mod ast;
mod collect;
mod laws;
mod table_set;
mod tables;

pub use ast::Cte;
pub use ast::Expr;
pub use ast::Query;
pub use ast::Select;
pub use ast::SelectItem;
pub use ast::SetExpr;
pub use ast::Statement;
pub use ast::TableFactor;
pub use ast::TableWithJoins;
pub use collect::collect_base_factor;
pub use collect::collect_tables_from_expr;
pub use collect::collect_tables_from_query;
pub use collect::collect_tables_from_select;
pub use collect::collect_tables_from_set_expr;
pub use collect::extract_tables;
pub use collect::from_table_with_joins;
pub use collect::from_table_with_joins_single;
pub use collect::object_name_to_string;
pub use laws::cte_list_from_free;
pub use laws::expr_list_subquery_free;
pub use laws::expr_subquery_free;
pub use laws::item_list_subquery_free;
pub use laws::item_subquery_free;
pub use laws::lemma_from_free_query_empty;
pub use laws::lemma_from_free_statement_empty;
pub use laws::lemma_subquery_free_expr_empty;
pub use laws::query_from_free;
pub use laws::select_from_free;
pub use laws::set_expr_from_free;
pub use laws::statement_from_free;
pub use table_set::TableSet;
pub use tables::base_factor_list_tables;
pub use tables::base_factor_tables;
pub use tables::cte_list_tables;
pub use tables::dot_joined;
pub use tables::expr_list_tables;
pub use tables::expr_tables;
pub use tables::factor_tables;
pub use tables::item_list_tables;
pub use tables::item_tables;
pub use tables::query_tables;
pub use tables::select_tables;
pub use tables::set_expr_tables;
pub use tables::statement_list_tables;
pub use tables::statement_tables;
pub use tables::twj_list_tables;
pub use tables::twj_tables;
