//! The session engine of a terminal tool that browses a file of SQL
//! statements, runs single statements against a database, and shows what
//! comes back.
//!
//! The engine is a state machine. [`application::App`] owns the whole state of
//! a session; a key press, a message of a background query, a tick of the
//! clock or a report of the host each lead it to its next state, and to the
//! work that the host is to do next, if any: the engine itself reads no file,
//! asks no database and touches no clipboard. What every event makes of a
//! state is written down in [`application::model`], over the mathematical
//! content of the state, and each function of the engine is proved to do
//! just that.
//!
//! Beside the state machine stand its parts: [`query_parser`] splits a text
//! into statement blocks and rates how destructive a statement is,
//! [`table_viewer`] walks, searches and charts the result of a query,
//! [`matrix`] runs the decorative loading sequence, and [`config`],
//! [`database`] and [`ui`] hold the settings, what is known of the database,
//! and the notifications.

pub mod application;
pub mod args;
pub mod clock;
pub mod config;
pub mod database;
pub mod keys;
pub mod matrix;
pub mod query_parser;
pub mod table_viewer;
pub mod text;
pub mod ui;
