use vstd::prelude::*;

pub mod commands;
pub mod completion;
pub mod conversation;
pub mod debounce;
pub mod error;
pub mod gpt2;
pub mod gpt3;
pub mod session;
pub mod text;

