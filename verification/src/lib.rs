//! Verified core of a differential-equation solver stack: classified
//! operator errors, the control flow of the Newton line searches, sparsity
//! patterns and their column colourings, the bookkeeping of fallible closure
//! operators, and the index logic of the consistent-initial-condition operator.
pub mod error;
pub mod line_search;
pub mod sparsity;
pub mod closure;
pub mod init;
pub mod sparse_lu;
