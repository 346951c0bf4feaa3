//! Variable storage: its errors, components and the retry policy of
//! variable reads.

pub mod component;
pub mod error;
pub mod variable;
