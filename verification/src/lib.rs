//! An extension framework for a data-flow agent: processors declare their
//! capabilities through a definition (relationships, configurable properties),
//! are scheduled and triggered by a host, and act on flow files through a
//! session. The session protocol, the descriptor model, the processor
//! lifecycle and a mock harness for host-free testing all live here; the
//! host's scheduler, content store and dynamic-library registration stay
//! outside.

pub mod api;
pub mod definition;
pub mod level;
pub mod mock;
pub mod processors;
pub mod protocol;
pub mod text;
