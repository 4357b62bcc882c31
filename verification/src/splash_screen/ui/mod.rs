//! What surrounds the running screen: the handling of failures.

pub mod failure;
