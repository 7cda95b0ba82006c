//! Work logging against an issue tracker: the ticket cache, the timestamps the
//! tracker accepts, the choice of a ticket and the interactive session, as
//! verified decisions that a thin shell around them carries out.

pub mod cache;
pub mod resolver;
pub mod session;
pub mod text;
pub mod timestamp;
pub mod wire;
pub mod worklog;
