//! Snippet search engine: fuzzy ranking of stored code snippets, the
//! interactive search state machine, and the small pure helpers used by the
//! command-line front end.

pub mod text;
pub mod snippet;
pub mod score;
pub mod rank;
pub mod search;
pub mod render;
pub mod input;
pub mod os;
pub mod shell;
pub mod cmdline;
pub mod install;
pub mod paths;
