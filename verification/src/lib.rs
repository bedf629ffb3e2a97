//! Verified decision logic of a small OPC UA client built on the open62541 C library.
//!
//! The C library itself is reached only from the program in `app/`; this crate holds, as plain
//! values, what the client decides: how status codes turn into results, how endpoint URLs become
//! C strings, what node ids, data types and variants hold, and the steps of client set-up and of a
//! monitoring session.

pub mod status;
pub mod node_id;
pub mod data_type;
pub mod types;
pub mod variant;
pub mod c_string;
pub mod setup;
pub mod session;
