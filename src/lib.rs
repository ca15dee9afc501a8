//! A slot for one hot-swappable native module, and the dispatcher that turns
//! each incoming command into the next step for the host: reply, open the
//! artifact, invoke an entry point, or nothing.

pub mod container;
pub mod dispatch;
