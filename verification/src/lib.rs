//! Simple interfaces for running CLI commands.
//!
//! A command may be given as one shell-style string (tokenized by POSIX
//! quoting rules) or as a pre-split list of tokens (used verbatim, never
//! re-tokenized). Both shapes normalize to one canonical form: a program
//! name plus an ordered argument list. The outcome of running the spawned
//! process is mapped to a single uniform error channel.
//!
//! Spawning itself is an operating-system capability that this library does
//! not perform: it prepares an exact spawn request and interprets the
//! outcome the spawner reports back.

mod command;
mod outcome;
mod render;

pub use command::CommandInput;
pub use command::NormalizedCommand;
pub use command::SpawnRequest;
pub use command::CommandError;
pub use command::normalized_tokens;
pub use command::shell_split;
pub use command::tokens_view;
pub use command::normalize;
pub use command::prepare;
pub use command::lemma_token_list_verbatim;
pub use command::lemma_raw_string_equivalent_to_tokens;
pub use outcome::SpawnOutcome;
pub use outcome::conclude;
pub use render::digit_char;
pub use render::dec_digits;
pub use render::status_digits;
pub use render::render_status;
pub use render::joined_tokens;
pub use render::command_text;
pub use render::error_message;
