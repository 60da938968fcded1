//! Lifecycle supervision of one backend process owned by a host application:
//! where its executable is looked for, how it is started, and how it is torn
//! down exactly once when the host exits.

pub mod decimal;
pub mod launch;
pub mod paths;
pub mod platform;
pub mod slot;
pub mod teardown;
