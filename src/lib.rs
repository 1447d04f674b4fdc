//! Building commit messages in the Conventional Commits form
//! `class(scope): summary`, with an optional body after a blank line.

pub mod commit_type;
pub mod message;

pub use commit_type::ConventionalCommitType;
pub use message::compose_commit_message;
