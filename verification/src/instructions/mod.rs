//! The instructions of the program, as functions of the values that the
//! accounts hold.

pub mod init_cube;
pub mod peek_cube;
pub mod try_solution;
