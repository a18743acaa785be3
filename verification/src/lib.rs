//! A trampoline layer between a native, C-style scripting runtime and host
//! logic written in Rust.
//!
//! The native runtime hands a callable its raw call data: an argument buffer,
//! a
//! declared count, and an optional keyword map, any of which may be absent.
//! The call adapters in [`adapters`] rebuild safe typed views over that data,
//! run a supplied closure on the views, and route its outcome through the
//! exception bridge in [`bridge`], which turns a host-side error into exactly
//! one raised native exception at the point where control returns to native
//! code. [`ingest`] drains a native iterable into a fixed-capacity vector or
//! an exact-size array, failing (never truncating) when the lengths do not
//! fit, and [`tuple`] wraps the runtime's tuple allocation so that an
//! allocation failure comes back as an ordinary error value.

pub mod adapters;
pub mod bridge;
pub mod error;
pub mod ingest;
pub mod kwmap;
pub mod obj;
pub mod tuple;
