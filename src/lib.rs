pub mod access;
pub mod bits;
pub mod command;
pub mod memap;
pub mod registers;
pub mod swd;
