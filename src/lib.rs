//! Developer workstation chores: adding secrets to an encrypted vault file and
//! scaffolding service repositories. The decisions and data handling live here and
//! are verified; prompts, files, processes and network calls are left to the caller.

pub mod text;
pub mod name;
pub mod document;
pub mod error;
pub mod codec;
pub mod secret;
pub mod workflow;
pub mod service;
pub mod oauth;
