//! Command-line argument parsing, as a pure function over the argument
//! strings. The driver collects the process arguments and acts on the
//! result: run with the parsed settings (warning about unknown flags),
//! print usage, or fail over an unparsable idle-minutes value.

use vstd::prelude::*;

use crate::text::str_eq;

verus! {

/// The settings the daemon runs with.
#[derive(Clone, Copy, Debug, PartialEq, Eq, Structural)]
pub struct CliArgs {
    pub verbose: bool,
    pub shutdown: bool,
    pub idle_minutes: u8,
}

/// The settings before any flag is read: quiet, suspend rather than
/// power off, and three idle minutes.
pub open spec fn default_args() -> CliArgs {
    CliArgs { verbose: false, shutdown: false, idle_minutes: 3 }
}

/// What a parse run decides.
#[derive(Debug, PartialEq, Eq)]
pub enum CliResult {
    /// Run with these settings; `unknown` lists the arguments that
    /// matched no flag, in order, for the driver to warn about.
    Run { settings: CliArgs, unknown: Vec<String> },
    /// A help flag was seen: print usage and exit cleanly.
    Help,
    /// The value following an idle-minutes flag was not an unsigned
    /// byte: report it and exit with a failure status.
    InvalidIdleMinutes { value: String },
}

/// Mathematical image of a [`CliResult`].
pub enum CliResultModel {
    Run { settings: CliArgs, unknown: Seq<Seq<char>> },
    Help,
    InvalidIdleMinutes { value: Seq<char> },
}

impl View for CliResult {
    type V = CliResultModel;

    open spec fn view(&self) -> CliResultModel {
        match self {
            CliResult::Run { settings, unknown } => CliResultModel::Run {
                settings: *settings,
                unknown: unknown.deep_view(),
            },
            CliResult::Help => CliResultModel::Help,
            CliResult::InvalidIdleMinutes { value } => CliResultModel::InvalidIdleMinutes {
                value: value@,
            },
        }
    }
}

/// Whether `c` is a decimal digit.
pub open spec fn is_digit_char(c: char) -> bool {
    48 <= c as int <= 57
}

/// The numeric value of a digit character.
pub open spec fn digit_value(c: char) -> int {
    c as int - 48
}

/// Every character of `s` is a decimal digit.
pub open spec fn all_digits(s: Seq<char>) -> bool {
    forall|k: int| 0 <= k < s.len() ==> is_digit_char(s[k])
}

/// The numeric value of a digit string, most significant digit first.
pub open spec fn dec_value(s: Seq<char>) -> int
    decreases s.len(),
{
    if s.len() == 0 {
        0
    } else {
        dec_value(s.drop_last()) * 10 + digit_value(s.last())
    }
}

/// A digit string's value is non-negative.
proof fn lemma_dec_value_nonneg(s: Seq<char>)
    requires
        all_digits(s),
    ensures
        dec_value(s) >= 0,
    decreases s.len(),
{
    if s.len() > 0 {
        assert(all_digits(s.drop_last()));
        lemma_dec_value_nonneg(s.drop_last());
    }
}

/// Extending a digit string never shrinks its value.
proof fn lemma_dec_value_prefix(s: Seq<char>, k: int)
    requires
        0 <= k <= s.len(),
        all_digits(s),
    ensures
        dec_value(s.take(k)) <= dec_value(s),
    decreases s.len() - k,
{
    if k < s.len() {
        assert(s.take(k + 1).drop_last() =~= s.take(k));
        assert(s.take(k + 1).last() == s[k]);
        assert(all_digits(s.take(k)));
        lemma_dec_value_nonneg(s.take(k));
        lemma_dec_value_prefix(s, k + 1);
    } else {
        assert(s.take(k) =~= s);
    }
}

/// How an unsigned byte is read from a string: an optional leading
/// plus sign, then at least one decimal digit, with a value of at most
/// 255; anything else is rejected.
pub open spec fn parse_u8_spec(s: Seq<char>) -> Option<u8> {
    let body = if s.len() > 0 && s[0] == '+' {
        s.drop_first()
    } else {
        s
    };
    if body.len() == 0 || !all_digits(body) || dec_value(body) > 255 {
        None
    } else {
        Some(dec_value(body) as u8)
    }
}

/// Reads an unsigned byte, as `parse_u8_spec` says.
pub fn parse_u8(s: &str) -> (r: Option<u8>)
    ensures
        r == parse_u8_spec(s@),
{
    let ghost whole = s@;
    let len = s.unicode_len();
    let mut start: usize = 0;
    if len > 0 && s.get_char(0) == '+' {
        start = 1;
    }
    let ghost body = if whole.len() > 0 && whole[0] == '+' {
        whole.drop_first()
    } else {
        whole
    };
    proof {
        assert(body =~= whole.subrange(start as int, len as int));
    }
    if start == len {
        return None;
    }
    let mut value: u32 = 0;
    let mut i: usize = start;
    while i < len
        invariant
            len == whole.len(),
            whole == s@,
            start <= i <= len,
            start < len,
            start == (if whole.len() > 0 && whole[0] == '+' {
                1int
            } else {
                0int
            }),
            body == whole.subrange(start as int, len as int),
            body == (if whole.len() > 0 && whole[0] == '+' {
                whole.drop_first()
            } else {
                whole
            }),
            forall|k: int| start <= k < i ==> is_digit_char(whole[k]),
            value == dec_value(whole.subrange(start as int, i as int)),
            value <= 255,
        decreases len - i,
    {
        let c = s.get_char(i);
        let code = c as u32;
        if code < 48 || code > 57 {
            proof {
                assert(body[i - start] == whole[i as int]);
                assert(!all_digits(body));
            }
            return None;
        }
        let digit = code - 48;
        let next = value * 10 + digit;
        proof {
            assert(whole.subrange(start as int, i + 1).drop_last() =~= whole.subrange(
                start as int,
                i as int,
            ));
            assert(whole.subrange(start as int, i + 1).last() == whole[i as int]);
        }
        if next > 255 {
            proof {
                if all_digits(body) {
                    assert(body.take(i + 1 - start) =~= whole.subrange(start as int, i + 1));
                    lemma_dec_value_prefix(body, i + 1 - start);
                }
            }
            return None;
        }
        value = next;
        i += 1;
    }
    proof {
        assert(whole.subrange(start as int, i as int) =~= body);
    }
    Some(value as u8)
}

/// What the flags from position `i` on decide, given the settings and
/// unknown-argument list accumulated so far. Verbose and shutdown flags
/// set their switch; a help flag ends the scan at once; an idle-minutes
/// flag followed by a value reads it and rejects the whole command line
/// when it does not parse, while one at the very end is ignored; any
/// other argument is noted as unknown and skipped.
pub open spec fn spec_parse_from(
    args: Seq<Seq<char>>,
    i: int,
    settings: CliArgs,
    unknown: Seq<Seq<char>>,
) -> CliResultModel
    decreases args.len() - i,
{
    if i < 0 || i >= args.len() {
        CliResultModel::Run { settings, unknown }
    } else if args[i] == "-v"@ || args[i] == "--verbose"@ {
        spec_parse_from(args, i + 1, CliArgs { verbose: true, ..settings }, unknown)
    } else if args[i] == "-s"@ || args[i] == "--shutdown"@ {
        spec_parse_from(args, i + 1, CliArgs { shutdown: true, ..settings }, unknown)
    } else if args[i] == "-h"@ || args[i] == "--help"@ {
        CliResultModel::Help
    } else if args[i] == "-i"@ || args[i] == "--idle-minutes"@ {
        if i + 1 < args.len() {
            match parse_u8_spec(args[i + 1]) {
                Some(minutes) => spec_parse_from(
                    args,
                    i + 2,
                    CliArgs { idle_minutes: minutes, ..settings },
                    unknown,
                ),
                None => CliResultModel::InvalidIdleMinutes { value: args[i + 1] },
            }
        } else {
            spec_parse_from(args, i + 1, settings, unknown)
        }
    } else {
        spec_parse_from(args, i + 1, settings, unknown.push(args[i]))
    }
}

/// What a whole command line decides: the scan starts after the leading
/// program name, from the default settings.
pub open spec fn spec_parse_cli(args: Seq<Seq<char>>) -> CliResultModel {
    spec_parse_from(args, 1, default_args(), Seq::empty())
}

/// Parses the command line, `args[0]` being the program name, as
/// `spec_parse_cli` says.
pub fn parse_cli_args(args: &Vec<String>) -> (r: CliResult)
    ensures
        r@ == spec_parse_cli(args.deep_view()),
{
    let ghost model = args.deep_view();
    let mut settings = CliArgs { verbose: false, shutdown: false, idle_minutes: 3 };
    let mut unknown: Vec<String> = Vec::new();
    let mut i: usize = 1;
    proof {
        assert(unknown.deep_view() =~= Seq::<Seq<char>>::empty());
    }
    while i < args.len()
        invariant
            model == args.deep_view(),
            spec_parse_from(model, i as int, settings, unknown.deep_view()) == spec_parse_cli(
                model,
            ),
        decreases args@.len() - i,
    {
        proof {
            assert(model[i as int] == args@[i as int]@);
        }
        let arg = &args[i];
        if str_eq(arg.as_str(), "-v") || str_eq(arg.as_str(), "--verbose") {
            settings.verbose = true;
            i += 1;
        } else if str_eq(arg.as_str(), "-s") || str_eq(arg.as_str(), "--shutdown") {
            settings.shutdown = true;
            i += 1;
        } else if str_eq(arg.as_str(), "-h") || str_eq(arg.as_str(), "--help") {
            return CliResult::Help;
        } else if str_eq(arg.as_str(), "-i") || str_eq(arg.as_str(), "--idle-minutes") {
            if i + 1 < args.len() {
                proof {
                    assert(model[i + 1] == args@[i + 1]@);
                }
                match parse_u8(args[i + 1].as_str()) {
                    Some(minutes) => {
                        settings.idle_minutes = minutes;
                        i += 2;
                    },
                    None => {
                        return CliResult::InvalidIdleMinutes { value: args[i + 1].clone() };
                    },
                }
            } else {
                i += 1;
            }
        } else {
            let ghost unknown_before = unknown.deep_view();
            unknown.push(arg.clone());
            proof {
                assert(unknown.deep_view() =~= unknown_before.push(arg@));
            }
            i += 1;
        }
    }
    CliResult::Run { settings, unknown }
}

} // verus!
