//! The LSP capabilities that the server offers.
pub mod code_lens;
