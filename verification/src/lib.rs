//! A minimal request-handling core: method/path dispatch to a fixed set of
//! handlers, and a per-request database session flow (connect, detach the
//! session driver, prepare one statement, execute it, answer with a fixed
//! body). The surrounding server loop, the wire-level HTTP codec and the
//! database client itself live outside this crate; this crate holds every
//! decision the handler makes and proves what each one returns.

pub mod http;
pub mod router;
pub mod session;
