//! Process orchestration for a desktop front end of the `bylexa` command-line
//! program: what to launch for each operation, and how the captured results
//! become the text handed back to the user interface.
pub mod laws;
pub mod operations;
pub mod process;
pub mod text;
