//! What installing each component runs.

pub mod extensions;
pub mod python;
pub mod uv;
pub mod vscode;
