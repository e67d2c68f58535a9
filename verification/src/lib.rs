//! MiniERP shared library: exact monetary arithmetic, role-based permissions, the
//! sidebar's navigation rules, the interface texts in English and Urdu, keyboard
//! shortcuts, the rules behind the pages, and the plain records exchanged with the server.

pub mod decimal;
pub mod money;
pub mod money_ops;
pub mod money_order;
pub mod text;
pub mod money_laws;
pub mod models;
pub mod rbac;
pub mod navigation;
pub mod i18n;
pub mod pages;
pub mod shortcuts;
