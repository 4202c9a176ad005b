//! A filesystem scanner: classification, counting, name search, directory
//! sizes and the scan and search traversals over a directory tree that has
//! been read into memory, and the command line that drives them.

pub mod cli;
pub mod config;
pub mod counter;
pub mod matching;
pub mod render;
pub mod report;
pub mod scan;
pub mod search;
pub mod size;
pub mod text;
pub mod time;
pub mod tree;
