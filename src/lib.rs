//! The decisions a desktop application shell makes around its framework's
//! run loop: whether a start succeeded, and what it reports when it did not.

pub mod launch;
