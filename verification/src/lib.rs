//! Decision logic of a small tool that replaces plain text files whose whole
//! content is a valid path with symlinks pointing at that path.
//!
//! Every rule of the tool is a verified function here: which files are
//! eligible (size within the threshold, readable content, content resolving
//! to an existing path), what a conversion produces (a symlink whose target
//! is the file content, byte for byte), which entries of a directory walk are
//! recursed into, skipped or refused, and which outcomes are reported under
//! the silent and verbose flags. The binary around the library performs the
//! filesystem calls and feeds their results to these functions.

pub mod config;
pub mod model;
pub mod outcome;
pub mod paths;
pub mod rules;
pub mod steps;
