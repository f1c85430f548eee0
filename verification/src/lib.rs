//! Building blocks for monitoring check plugins: the four severity states
//! with their exit codes, performance metrics with their exact text form,
//! complete check results, and a threshold evaluator, each with a proved
//! contract for the text grammar and the classification rules.

pub mod check;
pub mod utils;
