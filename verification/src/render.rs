//! The single human-readable failure channel.
//!
//! Every error kind renders to one descriptive message. A message for a
//! failed process names the exact command (its tokens joined by single
//! spaces) and the exact exit status, rendered in decimal; a message for a
//! process that could not start names the command and the OS error text.

use vstd::prelude::*;
use vstd::string::StringExecFns;
use crate::command::CommandError;
use crate::command::tokens_view;

verus! {

/// The character for one decimal digit.
pub open spec fn digit_char(d: nat) -> char {
    if d == 0 {
        '0'
    } else if d == 1 {
        '1'
    } else if d == 2 {
        '2'
    } else if d == 3 {
        '3'
    } else if d == 4 {
        '4'
    } else if d == 5 {
        '5'
    } else if d == 6 {
        '6'
    } else if d == 7 {
        '7'
    } else if d == 8 {
        '8'
    } else {
        '9'
    }
}

/// The decimal digits of `n`, most significant first, no leading zeros
/// (a single `'0'` for zero itself).
pub open spec fn dec_digits(n: nat) -> Seq<char>
    decreases n,
{
    if n < 10 {
        seq![digit_char(n)]
    } else {
        dec_digits(n / 10).push(digit_char(n % 10))
    }
}

/// The decimal rendering of an exit status: the digits of its magnitude,
/// with a leading minus sign where the status is negative.
pub open spec fn status_digits(code: int) -> Seq<char> {
    if code < 0 {
        seq!['-'] + dec_digits((-code) as nat)
    } else {
        dec_digits(code as nat)
    }
}

fn digit_str(d: u32) -> (r: &'static str)
    requires
        d < 10,
    ensures
        r@ == seq![digit_char(d as nat)],
{
    proof {
        reveal_strlit("0");
        reveal_strlit("1");
        reveal_strlit("2");
        reveal_strlit("3");
        reveal_strlit("4");
        reveal_strlit("5");
        reveal_strlit("6");
        reveal_strlit("7");
        reveal_strlit("8");
        reveal_strlit("9");
    }
    let r: &'static str = if d == 0 {
        "0"
    } else if d == 1 {
        "1"
    } else if d == 2 {
        "2"
    } else if d == 3 {
        "3"
    } else if d == 4 {
        "4"
    } else if d == 5 {
        "5"
    } else if d == 6 {
        "6"
    } else if d == 7 {
        "7"
    } else if d == 8 {
        "8"
    } else {
        "9"
    };
    proof {
        assert(r@ =~= seq![digit_char(d as nat)]);
    }
    r
}

fn push_dec_digits(n: u32, out: &mut String)
    ensures
        final(out)@ == old(out)@ + dec_digits(n as nat),
    decreases n,
{
    if n < 10 {
        out.append(digit_str(n));
        proof {
            assert(out@ =~= old(out)@ + dec_digits(n as nat));
        }
    } else {
        push_dec_digits(n / 10, out);
        out.append(digit_str(n % 10));
        proof {
            assert((n / 10) as nat == (n as nat) / 10);
            assert((n % 10) as nat == (n as nat) % 10);
            assert(out@ =~= old(out)@ + dec_digits(n as nat));
        }
    }
}

/// Renders an exit status in decimal, sign included.
pub fn render_status(code: i32) -> (r: String)
    ensures
        r@ == status_digits(code as int),
{
    let mut s = String::new();
    if code < 0 {
        proof {
            reveal_strlit("-");
        }
        s.append("-");
        let wide: i64 = code as i64;
        let magnitude: u32 = (-wide) as u32;
        push_dec_digits(magnitude, &mut s);
        proof {
            assert(magnitude as nat == (-(code as int)) as nat);
            assert(s@ =~= status_digits(code as int));
        }
    } else {
        push_dec_digits(code as u32, &mut s);
        proof {
            assert(s@ =~= status_digits(code as int));
        }
    }
    s
}

/// The displayed text of a token sequence: the tokens joined by single
/// spaces, in order.
pub open spec fn joined_tokens(tokens: Seq<Seq<char>>) -> Seq<char>
    decreases tokens.len(),
{
    if tokens.len() == 0 {
        Seq::empty()
    } else if tokens.len() == 1 {
        tokens[0]
    } else {
        joined_tokens(tokens.drop_last()) + seq![' '] + tokens.last()
    }
}

/// The displayed text of a command: the program and its arguments joined
/// by single spaces.
pub fn command_text(program: &String, args: &Vec<String>) -> (r: String)
    ensures
        r@ == joined_tokens(seq![program@] + tokens_view(args@)),
{
    let mut text = program.clone();
    proof {
        assert(tokens_view(args@.subrange(0, 0)) =~= Seq::<Seq<char>>::empty());
        assert(seq![program@] + tokens_view(args@.subrange(0, 0)) =~= seq![program@]);
    }
    let mut i: usize = 0;
    while i < args.len()
        invariant
            0 <= i <= args@.len(),
            text@ == joined_tokens(seq![program@] + tokens_view(args@.subrange(0, i as int))),
        decreases args@.len() - i,
    {
        proof {
            reveal_strlit(" ");
        }
        text.append(" ");
        text.append(args[i].as_str());
        proof {
            let prev = seq![program@] + tokens_view(args@.subrange(0, i as int));
            let cur = seq![program@] + tokens_view(args@.subrange(0, i as int + 1));
            assert(cur =~= prev.push(args@[i as int]@));
            assert(cur.drop_last() =~= prev);
            assert(cur.last() == args@[i as int]@);
            assert(text@ =~= joined_tokens(cur));
        }
        i += 1;
    }
    proof {
        assert(args@.subrange(0, args@.len() as int) =~= args@);
    }
    text
}

/// The uniform failure message of each error kind. A process failure names
/// the exact command; a non-zero exit names the exact status, a spawn
/// failure the OS error text.
pub open spec fn error_message(e: CommandError) -> Seq<char> {
    match e {
        CommandError::ParseError => "cannot parse command string: missing closing quote"@,
        CommandError::InvalidInput => "cannot run an empty command: no program name was given"@,
        CommandError::SpawnError { program, args, os_error } => "failed to run command `"@
            + joined_tokens(seq![program@] + tokens_view(args@)) + "`: "@ + os_error@,
        CommandError::NonZeroExit { program, args, code } => "command `"@ + joined_tokens(
            seq![program@] + tokens_view(args@),
        ) + "` failed with status: "@ + status_digits(code as int),
        CommandError::AbnormalExit { program, args } => "command `"@ + joined_tokens(
            seq![program@] + tokens_view(args@),
        ) + "` was terminated abnormally"@,
    }
}

impl CommandError {
    /// The descriptive failure message: the single uniform channel all
    /// four error kinds collapse into.
    pub fn message(&self) -> (r: String)
        ensures
            r@ == error_message(*self),
    {
        match self {
            CommandError::ParseError => "cannot parse command string: missing closing quote".to_owned(),
            CommandError::InvalidInput => "cannot run an empty command: no program name was given".to_owned(),
            CommandError::SpawnError { program, args, os_error } => {
                let mut m = "failed to run command `".to_owned();
                let text = command_text(program, args);
                m.append(text.as_str());
                m.append("`: ");
                m.append(os_error.as_str());
                proof {
                    assert(m@ =~= error_message(*self));
                }
                m
            },
            CommandError::NonZeroExit { program, args, code } => {
                let mut m = "command `".to_owned();
                let text = command_text(program, args);
                m.append(text.as_str());
                m.append("` failed with status: ");
                let status = render_status(*code);
                m.append(status.as_str());
                proof {
                    assert(m@ =~= error_message(*self));
                }
                m
            },
            CommandError::AbnormalExit { program, args } => {
                let mut m = "command `".to_owned();
                let text = command_text(program, args);
                m.append(text.as_str());
                m.append("` was terminated abnormally");
                proof {
                    assert(m@ =~= error_message(*self));
                }
                m
            },
        }
    }
}

} // verus!
