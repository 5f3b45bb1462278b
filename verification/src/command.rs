//! Command normalization: every supported input shape funnels into one
//! canonical form, a program name plus an ordered argument list.
//!
//! The two input shapes are kept strictly apart: a raw string is tokenized
//! by POSIX shell-quoting rules, while a pre-split token list is used
//! verbatim and never re-tokenized. A token list with an embedded space in
//! one element stays one token; the same text as a raw string splits.

use vstd::prelude::*;

verus! {

/// One command, in either of the supported shapes.
#[derive(Debug, Clone, PartialEq, Eq)]
pub enum CommandInput {
    /// A single shell-style string; it must be tokenized before use.
    RawString(String),
    /// An already-split ordered token list; used verbatim.
    TokenList(Vec<String>),
}

impl CommandInput {
    /// Wraps one shell-style string; it will be tokenized on use.
    pub fn from_raw(s: &str) -> (r: CommandInput)
        ensures
            r matches CommandInput::RawString(raw) && raw@ == s@,
    {
        CommandInput::RawString(s.to_owned())
    }

    /// Wraps one owned shell-style string; it will be tokenized on use.
    pub fn from_raw_string(s: String) -> (r: CommandInput)
        ensures
            r == CommandInput::RawString(s),
    {
        CommandInput::RawString(s)
    }

    /// Wraps a pre-split token list; it is used verbatim.
    pub fn from_tokens(v: Vec<String>) -> (r: CommandInput)
        ensures
            r == CommandInput::TokenList(v),
    {
        CommandInput::TokenList(v)
    }

    /// Wraps a pre-split token list given as borrowed string slices
    /// (a slice, an array, or a vector of `&str` all funnel through here);
    /// the tokens are used verbatim, never re-tokenized.
    pub fn from_token_strs(v: &[&str]) -> (r: CommandInput)
        ensures
            r matches CommandInput::TokenList(t) && tokens_view(t@) =~= v@.map_values(
                |s: &str| s@,
            ),
    {
        let mut tokens: Vec<String> = Vec::new();
        let mut i: usize = 0;
        while i < v.len()
            invariant
                0 <= i <= v@.len(),
                tokens@.len() == i,
                forall|j: int| 0 <= j < i ==> #[trigger] tokens@[j]@ == v@[j]@,
            decreases v@.len() - i,
        {
            tokens.push(v[i].to_owned());
            i += 1;
        }
        proof {
            assert(tokens_view(tokens@) =~= v@.map_values(|s: &str| s@));
        }
        CommandInput::TokenList(tokens)
    }

    /// Wraps a pre-split token list given as a slice of owned strings
    /// (a slice, an array, or a vector of `String` all funnel through
    /// here); the tokens are used verbatim, never re-tokenized.
    pub fn from_token_strings(v: &[String]) -> (r: CommandInput)
        ensures
            r matches CommandInput::TokenList(t) && tokens_view(t@) =~= tokens_view(v@),
    {
        let mut tokens: Vec<String> = Vec::new();
        let mut i: usize = 0;
        while i < v.len()
            invariant
                0 <= i <= v@.len(),
                tokens@.len() == i,
                forall|j: int| 0 <= j < i ==> #[trigger] tokens@[j]@ == v@[j]@,
            decreases v@.len() - i,
        {
            tokens.push(v[i].clone());
            i += 1;
        }
        proof {
            assert(tokens_view(tokens@) =~= tokens_view(v@));
        }
        CommandInput::TokenList(tokens)
    }
}

/// The character sequences of a token list, in order.
pub open spec fn tokens_view(v: Seq<String>) -> Seq<Seq<char>> {
    v.map_values(|t: String| t@)
}

/// What `shell_words::split` returns for a given character sequence:
/// `None` where the string is malformed under POSIX shell-quoting rules
/// (an unmatched quote), otherwise the ordered sequence of tokens the
/// string splits into.
pub uninterp spec fn shell_split(s: Seq<char>) -> Option<Seq<Seq<char>>>;

/// Declares `shell_words::ParseError`, the error `shell_words::split`
/// returns on a malformed string, so it can appear in signatures here.
#[verifier::external_type_specification]
#[verifier::external_body]
pub struct ExParseError(shell_words::ParseError);

/// Relies on `shell_words::split`: POSIX-style shell tokenization of one
/// string. The result depends on the characters alone; the call errs
/// exactly where the string is malformed (unbalanced quoting).
#[verifier::external_body]
fn split_raw(s: &str) -> (r: Result<Vec<String>, shell_words::ParseError>)
    ensures
        r is Ok <==> shell_split(s@) is Some,
        r matches Ok(v) ==> tokens_view(v@) == shell_split(s@)->Some_0,
{
    shell_words::split(s)
}

/// The token sequence an input normalizes to: tokenization for a raw
/// string (`None` where it is malformed), the list itself for a token list.
pub open spec fn normalized_tokens(input: CommandInput) -> Option<Seq<Seq<char>>> {
    match input {
        CommandInput::RawString(s) => shell_split(s@),
        CommandInput::TokenList(v) => Some(tokens_view(v@)),
    }
}

/// Why a command could not be run. Every failure is one of these four
/// kinds; a uniform human-readable message is available for each, so the
/// structured variants and the single message channel coexist.
#[derive(Debug, Clone, PartialEq, Eq)]
pub enum CommandError {
    /// The raw string could not be tokenized: unbalanced quoting.
    ParseError,
    /// The token list was empty: there is no program name.
    InvalidInput,
    /// The operating system refused to create the process.
    SpawnError { program: String, args: Vec<String>, os_error: String },
    /// The process ran to completion but exited with this non-zero status.
    NonZeroExit { program: String, args: Vec<String>, code: i32 },
    /// The process ended without an exit code (platform-specific abnormal
    /// termination, such as death by signal).
    AbnormalExit { program: String, args: Vec<String> },
}

/// The canonical executable form: a program name and its arguments,
/// order-significant, duplicates allowed.
#[derive(Debug, Clone, PartialEq, Eq)]
pub struct NormalizedCommand {
    /// The program to spawn: the first token of the normalized sequence.
    pub program: String,
    /// The remaining tokens, passed to the program in order.
    pub args: Vec<String>,
}

impl NormalizedCommand {
    /// The full token sequence: the program first, then the arguments.
    pub open spec fn tokens(self) -> Seq<Seq<char>> {
        seq![self.program@] + tokens_view(self.args@)
    }
}

/// Converts any input shape into the canonical command form.
///
/// A raw string is tokenized by shell-quoting rules and fails with
/// `ParseError` where malformed; a token list is taken verbatim. Either
/// way an empty token sequence fails with `InvalidInput`; otherwise the
/// first token becomes the program and the rest the arguments, unchanged.
pub fn normalize(input: CommandInput) -> (r: Result<NormalizedCommand, CommandError>)
    ensures
        normalized_tokens(input) is None
            ==> r == Err::<NormalizedCommand, CommandError>(CommandError::ParseError),
        (normalized_tokens(input) matches Some(toks) && toks.len() == 0)
            ==> r == Err::<NormalizedCommand, CommandError>(CommandError::InvalidInput),
        (normalized_tokens(input) matches Some(toks) && toks.len() > 0)
            ==> (r matches Ok(c) && c.tokens() == normalized_tokens(input)->Some_0),
{
    let mut tokens: Vec<String> = match input {
        CommandInput::RawString(s) => {
            match split_raw(s.as_str()) {
                Ok(v) => v,
                Err(_) => {
                    return Err(CommandError::ParseError);
                },
            }
        },
        CommandInput::TokenList(v) => v,
    };
    if tokens.len() == 0 {
        return Err(CommandError::InvalidInput);
    }
    let ghost all = tokens@;
    let program = tokens.remove(0);
    let command = NormalizedCommand { program, args: tokens };
    proof {
        assert(command.tokens() =~= tokens_view(all));
    }
    Ok(command)
}

/// A normalized command together with the working directory it should be
/// spawned in: everything the spawn capability needs for one attempt.
#[derive(Debug, Clone, PartialEq, Eq)]
pub struct SpawnRequest {
    /// The program and its arguments.
    pub command: NormalizedCommand,
    /// The directory the child process starts in; `None` means the child
    /// inherits the caller's current working directory.
    pub cwd: Option<String>,
}

/// Normalizes the input and attaches the working-directory override.
///
/// The directory is passed through unchanged: when one is supplied it is
/// the directory the spawn request carries, and when none is, the request
/// carries none and the child inherits the caller's current directory.
/// Normalization failures surface here, before anything is spawned.
pub fn prepare(input: CommandInput, dir: Option<String>) -> (r: Result<SpawnRequest, CommandError>)
    ensures
        normalized_tokens(input) is None
            ==> r == Err::<SpawnRequest, CommandError>(CommandError::ParseError),
        (normalized_tokens(input) matches Some(toks) && toks.len() == 0)
            ==> r == Err::<SpawnRequest, CommandError>(CommandError::InvalidInput),
        (normalized_tokens(input) matches Some(toks) && toks.len() > 0)
            ==> (r matches Ok(req) && req.command.tokens() == normalized_tokens(input)->Some_0
                && req.cwd == dir),
{
    match normalize(input) {
        Ok(command) => Ok(SpawnRequest { command, cwd: dir }),
        Err(e) => Err(e),
    }
}

/// Law: a pre-split token list is normalized verbatim. Whatever its
/// tokens hold — whitespace, quote characters — the first token is the
/// program and the remaining tokens are the arguments, unchanged; nothing
/// is re-tokenized.
pub proof fn lemma_token_list_verbatim(v: Vec<String>, c: NormalizedCommand)
    requires
        v@.len() > 0,
        Some(c.tokens()) == normalized_tokens(CommandInput::TokenList(v)),
    ensures
        c.program@ == v@[0]@,
        c.args@.len() == v@.len() - 1,
        forall|i: int| 0 <= i < c.args@.len() ==> #[trigger] c.args@[i]@ == v@[i + 1]@,
{
    assert(c.tokens() == tokens_view(v@));
    assert(c.tokens().len() == 1 + c.args@.len());
    assert(tokens_view(v@).len() == v@.len());
    assert(tokens_view(v@)[0] == v@[0]@);
    assert forall|i: int| 0 <= i < c.args@.len() implies #[trigger] c.args@[i]@ == v@[i + 1]@ by {
        assert(tokens_view(c.args@)[i] == c.args@[i]@);
        assert(c.tokens()[i + 1] == tokens_view(c.args@)[i]);
        assert(tokens_view(v@)[i + 1] == v@[i + 1]@);
    }
}

/// Law: a raw string that tokenizes to the token sequence of the list `v`
/// is interchangeable with `v`: both normalize to the same tokens, so the
/// two inputs are run identically.
pub proof fn lemma_raw_string_equivalent_to_tokens(s: String, v: Vec<String>)
    requires
        shell_split(s@) == Some(tokens_view(v@)),
    ensures
        normalized_tokens(CommandInput::RawString(s)) == normalized_tokens(
            CommandInput::TokenList(v),
        ),
{
}

} // verus!
