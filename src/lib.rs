//! Cursor pagination over a point-in-time snapshot of asset balances.
//!
//! A request made of `after` / `before` cursors and `first` / `last` counts is
//! resolved into a `(limit, offset)` window over a totally ordered row set, and
//! the rows fetched for that window are assembled into a page of edges with
//! navigation flags.

pub mod arguments;
pub mod connection;
pub mod cursor;
pub mod db;
pub mod import;
pub mod window;

pub use arguments::{decode_arguments, PageArgs, PageError};
pub use connection::{assemble, Edge, Page, Window};
pub use cursor::{decode_cursor, encode_cursor};
pub use window::{calculate_limit_offset, LIMIT};
