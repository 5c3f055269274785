//! Frame pipeline orchestration for a minimal browser harness: the poll
//! cycle of the compositor stage, the production stage that feeds it, the
//! startup barrier between the two, and the window-side state machine.

pub mod app;
pub mod channel;
pub mod dummy;
pub mod layout;
pub mod options;
pub mod parse;
pub mod pipeline;
pub mod style;
pub mod transaction;
pub mod util;
