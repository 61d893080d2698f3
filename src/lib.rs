//! An interactive question-answering shell: line assembly with continuation,
//! shell-style tokenizing, command parsing, conversation bookkeeping and the
//! lifecycle of the progress indicator shown while a request is outstanding.
pub mod args;
pub mod assemble;
pub mod command;
pub mod history;
pub mod indicator;
pub mod request;
pub mod session;
pub mod words;
