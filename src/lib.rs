//! Newsletter subscription intake: validation of submitted fields, decoding
//! of form bodies, the outcome of a submission as an HTTP status, and the
//! statement that provisions an isolated database.

pub mod validation;
pub mod intake;
pub mod provision;
