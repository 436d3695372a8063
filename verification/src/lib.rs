//! Server-side state and HTML rendering for a small hypermedia-driven site:
//! an "About" page with a counter and a filterable list of todos.
//!
//! The crate holds no I/O. A host application owns the stores behind its own
//! locks, calls a store operation for each write, and hands a snapshot to one
//! of the response functions in [`handlers`], which returns the exact text to
//! send back.
//!
//! - [`store`] and [`counter`] hold the state; [`todo`] holds an entry, the
//!   filter and the error.
//! - [`model`] says what a store is as a mathematical value and what each
//!   operation does to it; [`laws`] proves what follows for sequences of
//!   operations.
//! - [`views`] writes the pages and fragments from [`markup`], [`decimal`]
//!   and [`styles`]; [`handlers`] picks what to send and wraps it in a
//!   [`reply::Reply`].
//! - [`hx`] and [`header`] read the request headers that tell a request for
//!   a fragment from a plain navigation.

pub mod counter;
pub mod decimal;
pub mod handlers;
pub mod header;
pub mod hx;
pub mod laws;
pub mod markup;
pub mod model;
pub mod reply;
pub mod store;
pub mod styles;
pub mod todo;
pub mod views;
