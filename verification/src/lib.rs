//! The data-access core of a small CRUD service over two entities, users and
//! books, with machine-checked contracts.
//!
//! Both entities have the same shape: a key that the table generates on
//! insert and two text columns. A table supports six operations: listing in
//! ascending key order, insert, full replacement by key, partial update by
//! key, delete by key, and delete of everything.
//!
//! * [`models`] holds the record types and payloads.
//! * [`relation`] is the mathematical model of a table and of what each
//!   operation does to it; [`effects`] and [`history`] prove what follows
//!   from it for one operation and for any sequence of operations.
//! * [`table`] and [`db`] implement the model: a store held in memory and
//!   the data-access functions, which take the store as an explicit handle.
//! * [`text`], [`responses`] and [`handlers`] write records out and build
//!   the body that answers each request.
//! * [`statements`] builds what is sent for each operation when the rows are
//!   kept by a database server: the SQL text and the values bound to it.

pub mod db;
pub mod effects;
pub mod error;
pub mod handlers;
pub mod history;
pub mod models;
pub mod relation;
pub mod responses;
pub mod statements;
pub mod table;
pub mod text;
