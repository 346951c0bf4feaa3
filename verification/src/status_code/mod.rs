//! Report status code routing: handlers register callbacks at a task
//! priority level; reported status codes are buffered for callbacks at or
//! below TPL_HIGH_LEVEL (whose events are signalled) and handed directly to
//! the others.

pub mod callback;
pub mod component;
pub mod error;
pub mod protocol;
pub mod service;
pub mod status_code;
