//! The rules behind the application's pages: which badge or class a status gets, the
//! choices of the selection fields, how forms are checked, and the summaries shown above lists.

pub mod select;
pub mod accounting_periods;
pub mod ar_aging;
pub mod bom;
pub mod customer_detail;
pub mod direct_purchase;
pub mod employees;
pub mod custom_report_builder;
pub mod customer_list;
pub mod customer_create;
pub mod dashboard;
pub mod stock_adjustment_form;
pub mod activity_log;
pub mod customer_statements;
pub mod accounting_dashboard;
pub mod simple_forms;
