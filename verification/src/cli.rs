//! Command-line surface: flags, their grammar, and mode resolution.
//!
//! The surface accepts, after the program name:
//!   - `-c` / `--classic`: shorthand for the classic mode;
//!   - `-m` / `--modern`: shorthand for the modern mode;
//!   - `-t VALUE` / `--type VALUE` with `VALUE` one of `classic`, `modern`.
//!
//! The three selections form one mutually exclusive group: a second
//! selection of any kind is a usage error. When no typed selection is given,
//! an environment-supplied value decides the excuse type, and failing that
//! the type defaults to classic. The shorthand flags take precedence over
//! the typed selection when the parsed options are resolved to a mode.

use vstd::prelude::*;

verus! {

use crate::excuses::views_of;
use vstd::string::StrSliceExecFns;

/// The two flavors of excuse.
#[derive(Debug, Clone, Copy, PartialEq, Eq, Structural)]
pub enum ExcuseType {
    Classic,
    Modern,
}

/// The parsed command-line options.
#[derive(Debug, Clone, Copy, PartialEq, Eq, Structural)]
pub struct Cli {
    /// The typed selection, from the flag, the environment, or the default.
    pub excuse_type: ExcuseType,
    /// Whether the classic shorthand flag was given.
    pub classic: bool,
    /// Whether the modern shorthand flag was given.
    pub modern: bool,
}

/// A usage error: the reason a command line is rejected.
#[derive(Debug, Clone, Copy, PartialEq, Eq, Structural)]
pub enum ParseError {
    /// Two selections of the mutually exclusive group were given.
    ConflictingSelection,
    /// A type flag came last, with no value after it.
    MissingTypeValue,
    /// A type value, given by flag or by environment, names no known flavor.
    InvalidTypeValue,
    /// A token that is none of the known flags.
    UnknownArgument,
}

pub open spec fn is_classic_flag(t: Seq<char>) -> bool {
    t == "-c"@ || t == "--classic"@
}

pub open spec fn is_modern_flag(t: Seq<char>) -> bool {
    t == "-m"@ || t == "--modern"@
}

pub open spec fn is_type_flag(t: Seq<char>) -> bool {
    t == "-t"@ || t == "--type"@
}

/// The flavor a type value names, if any.
pub open spec fn excuse_type_of_value(t: Seq<char>) -> Option<ExcuseType> {
    if t == "classic"@ {
        Some(ExcuseType::Classic)
    } else if t == "modern"@ {
        Some(ExcuseType::Modern)
    } else {
        None
    }
}

/// The options built once every token is consumed: an explicitly chosen
/// type wins, else a valid environment value, else the classic default.
pub open spec fn finish_parse(
    classic: bool,
    modern: bool,
    chosen: Option<ExcuseType>,
    env: Option<Seq<char>>,
) -> Result<Cli, ParseError> {
    match chosen {
        Some(v) => Ok(Cli { excuse_type: v, classic, modern }),
        None => match env {
            Some(e) => match excuse_type_of_value(e) {
                Some(v) => Ok(Cli { excuse_type: v, classic, modern }),
                None => Err(ParseError::InvalidTypeValue),
            },
            None => Ok(Cli { excuse_type: ExcuseType::Classic, classic, modern }),
        },
    }
}

/// What parsing the remaining tokens yields, given the selections already
/// consumed. Any group selection after a first one is a conflict.
pub open spec fn parse_tokens(
    tokens: Seq<Seq<char>>,
    classic: bool,
    modern: bool,
    chosen: Option<ExcuseType>,
    env: Option<Seq<char>>,
) -> Result<Cli, ParseError>
    decreases tokens.len(),
{
    if tokens.len() == 0 {
        finish_parse(classic, modern, chosen, env)
    } else if is_classic_flag(tokens[0]) {
        if classic || modern || chosen is Some {
            Err(ParseError::ConflictingSelection)
        } else {
            parse_tokens(tokens.skip(1), true, modern, chosen, env)
        }
    } else if is_modern_flag(tokens[0]) {
        if classic || modern || chosen is Some {
            Err(ParseError::ConflictingSelection)
        } else {
            parse_tokens(tokens.skip(1), classic, true, chosen, env)
        }
    } else if is_type_flag(tokens[0]) {
        if classic || modern || chosen is Some {
            Err(ParseError::ConflictingSelection)
        } else if tokens.len() == 1 {
            Err(ParseError::MissingTypeValue)
        } else {
            match excuse_type_of_value(tokens[1]) {
                Some(v) => parse_tokens(tokens.skip(2), classic, modern, Some(v), env),
                None => Err(ParseError::InvalidTypeValue),
            }
        }
    } else {
        Err(ParseError::UnknownArgument)
    }
}

/// What parsing a full argument vector yields: the leading program name is
/// skipped, and the tokens after it are consumed left to right.
pub open spec fn parse_spec(args: Seq<Seq<char>>, env: Option<Seq<char>>) -> Result<
    Cli,
    ParseError,
> {
    if args.len() == 0 {
        parse_tokens(args, false, false, None, env)
    } else {
        parse_tokens(args.skip(1), false, false, None, env)
    }
}

/// The character sequence of an optional string slice.
pub open spec fn opt_view(e: Option<&str>) -> Option<Seq<char>> {
    match e {
        Some(s) => Some(s@),
        None => None,
    }
}

/// Whether two string slices hold the same characters.
fn str_eq(a: &str, b: &str) -> (r: bool)
    ensures
        r <==> a@ == b@,
{
    let n = a.unicode_len();
    if n != b.unicode_len() {
        return false;
    }
    let mut i: usize = 0;
    while i < n
        invariant
            n == a@.len(),
            n == b@.len(),
            i <= n,
            forall|j: int| 0 <= j < i ==> a@[j] == b@[j],
        decreases n - i,
    {
        if a.get_char(i) != b.get_char(i) {
            return false;
        }
        i += 1;
    }
    proof {
        assert(a@ =~= b@);
    }
    true
}

/// Consumes the tokens from position `i` on, carrying the selections made
/// so far, exactly as `parse_tokens` describes.
fn parse_rest(
    args: &Vec<&str>,
    i: usize,
    classic: bool,
    modern: bool,
    chosen: Option<ExcuseType>,
    env: Option<&str>,
) -> (r: Result<Cli, ParseError>)
    requires
        i <= args@.len(),
    ensures
        r == parse_tokens(views_of(args@).skip(i as int), classic, modern, chosen, opt_view(env)),
    decreases args@.len() - i,
{
    let ghost toks = views_of(args@).skip(i as int);
    if i == args.len() {
        match chosen {
            Some(v) => Ok(Cli { excuse_type: v, classic, modern }),
            None => match env {
                Some(e) => {
                    if str_eq(e, "classic") {
                        Ok(Cli { excuse_type: ExcuseType::Classic, classic, modern })
                    } else if str_eq(e, "modern") {
                        Ok(Cli { excuse_type: ExcuseType::Modern, classic, modern })
                    } else {
                        Err(ParseError::InvalidTypeValue)
                    }
                },
                None => Ok(Cli { excuse_type: ExcuseType::Classic, classic, modern }),
            },
        }
    } else {
        let t = args[i];
        proof {
            assert(toks[0] == args@[i as int]@);
            assert(toks.skip(1) =~= views_of(args@).skip(i + 1 as int));
        }
        if str_eq(t, "-c") || str_eq(t, "--classic") {
            if classic || modern || chosen.is_some() {
                Err(ParseError::ConflictingSelection)
            } else {
                parse_rest(args, i + 1, true, modern, chosen, env)
            }
        } else if str_eq(t, "-m") || str_eq(t, "--modern") {
            if classic || modern || chosen.is_some() {
                Err(ParseError::ConflictingSelection)
            } else {
                parse_rest(args, i + 1, classic, true, chosen, env)
            }
        } else if str_eq(t, "-t") || str_eq(t, "--type") {
            if classic || modern || chosen.is_some() {
                Err(ParseError::ConflictingSelection)
            } else if i + 1 == args.len() {
                Err(ParseError::MissingTypeValue)
            } else {
                let v = args[i + 1];
                proof {
                    assert(toks[1] == args@[i + 1]@);
                    assert(toks.skip(2) =~= views_of(args@).skip(i + 2 as int));
                }
                if str_eq(v, "classic") {
                    parse_rest(args, i + 2, classic, modern, Some(ExcuseType::Classic), env)
                } else if str_eq(v, "modern") {
                    parse_rest(args, i + 2, classic, modern, Some(ExcuseType::Modern), env)
                } else {
                    Err(ParseError::InvalidTypeValue)
                }
            }
        } else {
            Err(ParseError::UnknownArgument)
        }
    }
}

/// Parses an argument vector against an optional environment-supplied type
/// value, exactly as `parse_spec` describes.
pub fn parse_args(args: Vec<&str>, env_excuse_type: Option<&str>) -> (r: Result<Cli, ParseError>)
    ensures
        r == parse_spec(views_of(args@), opt_view(env_excuse_type)),
{
    let start: usize = if args.len() == 0 {
        0
    } else {
        1
    };
    let r = parse_rest(&args, start, false, false, None, env_excuse_type);
    proof {
        if args@.len() == 0 {
            assert(views_of(args@).skip(0) =~= views_of(args@));
        }
    }
    r
}

impl Cli {
    /// Parses an argument vector, the program name first, with no
    /// environment-supplied value.
    pub fn try_parse_from(args: Vec<&str>) -> (r: Result<Cli, ParseError>)
        ensures
            r == parse_spec(views_of(args@), None),
    {
        parse_args(args, None)
    }

    /// The mode the parsed options resolve to: the classic shorthand first,
    /// then the modern shorthand, then the typed selection.
    pub open spec fn resolved_mode(self) -> ExcuseType {
        if self.classic {
            ExcuseType::Classic
        } else if self.modern {
            ExcuseType::Modern
        } else {
            self.excuse_type
        }
    }

    /// Resolves the parsed options to the mode to sample from.
    pub fn resolve(&self) -> (m: ExcuseType)
        ensures
            m == self.resolved_mode(),
    {
        if self.classic {
            ExcuseType::Classic
        } else if self.modern {
            ExcuseType::Modern
        } else {
            self.excuse_type
        }
    }
}

/// Law: a command line that parses successfully never has both shorthand
/// flags set; the mutually exclusive group rejects the second one.
pub proof fn lemma_parse_exclusive(args: Seq<Seq<char>>, env: Option<Seq<char>>)
    ensures
        parse_spec(args, env) matches Ok(c) ==> !(c.classic && c.modern),
{
    if args.len() == 0 {
        lemma_parse_tokens_exclusive(args, false, false, None, env);
    } else {
        lemma_parse_tokens_exclusive(args.skip(1), false, false, None, env);
    }
}

proof fn lemma_parse_tokens_exclusive(
    tokens: Seq<Seq<char>>,
    classic: bool,
    modern: bool,
    chosen: Option<ExcuseType>,
    env: Option<Seq<char>>,
)
    requires
        !(classic && modern),
    ensures
        parse_tokens(tokens, classic, modern, chosen, env) matches Ok(c) ==> !(c.classic
            && c.modern),
    decreases tokens.len(),
{
    if tokens.len() == 0 {
    } else if is_classic_flag(tokens[0]) {
        if !(classic || modern || chosen is Some) {
            lemma_parse_tokens_exclusive(tokens.skip(1), true, modern, chosen, env);
        }
    } else if is_modern_flag(tokens[0]) {
        if !(classic || modern || chosen is Some) {
            lemma_parse_tokens_exclusive(tokens.skip(1), classic, true, chosen, env);
        }
    } else if is_type_flag(tokens[0]) {
        if !(classic || modern || chosen is Some) && tokens.len() > 1 {
            if let Some(v) = excuse_type_of_value(tokens[1]) {
                lemma_parse_tokens_exclusive(tokens.skip(2), classic, modern, Some(v), env);
            }
        }
    }
}

/// Law: the shorthand flags take precedence when resolving the mode, the
/// classic one first, and the typed selection decides only without them.
pub proof fn lemma_resolve_precedence(c: Cli)
    ensures
        c.classic ==> c.resolved_mode() == ExcuseType::Classic,
        !c.classic && c.modern ==> c.resolved_mode() == ExcuseType::Modern,
        !c.classic && !c.modern ==> c.resolved_mode() == c.excuse_type,
{
}

/// Law: with a bare program name, a valid environment value decides the
/// type, and without one the type defaults to classic; no flag is set, so
/// the resolved mode is the type itself.
pub proof fn lemma_env_and_default(args: Seq<Seq<char>>, env: Option<Seq<char>>)
    requires
        args.len() == 1,
    ensures
        env is None ==> parse_spec(args, env) == Ok::<Cli, ParseError>(
            Cli { excuse_type: ExcuseType::Classic, classic: false, modern: false },
        ),
        env == Some("classic"@) ==> parse_spec(args, env) == Ok::<Cli, ParseError>(
            Cli { excuse_type: ExcuseType::Classic, classic: false, modern: false },
        ),
        env == Some("modern"@) ==> parse_spec(args, env) == Ok::<Cli, ParseError>(
            Cli { excuse_type: ExcuseType::Modern, classic: false, modern: false },
        ),
{
    reveal_strlit("classic");
    reveal_strlit("modern");
    assert("classic"@ != "modern"@) by {
        assert("classic"@.len() == 7);
        assert("modern"@.len() == 6);
    }
    assert(args.skip(1).len() == 0);
}

} // verus!
