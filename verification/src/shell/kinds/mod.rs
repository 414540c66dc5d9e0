//! One module for each shell.

pub mod bash;
pub mod fish;
pub mod zsh;

pub use bash::Bash;
pub use fish::Fish;
pub use zsh::Zsh;
