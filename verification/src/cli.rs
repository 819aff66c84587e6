//! The decisions behind the command-line front end.
//!
//! Everything the command decides — which output format was requested, which
//! of the four parses accepts the input, and what text to print or report —
//! is computed here from plain values. Reading the arguments and writing the
//! output stay outside the library.

use vstd::prelude::*;

use crate::model::{
    mode_num_seq, mode_sym_seq, perm_num_char, perm_sym_full_seq, spec_mode_from_num,
    spec_mode_from_sym, spec_perm_from_num, spec_perm_from_sym_full,
};
use crate::traits::{AsNum, AsSym};
use crate::{Mode, Perm};

verus! {

/// The command's options: the input text and the two output-format flags.
pub struct Opts {
    /// The permission or mode text to convert.
    pub input: String,
    /// Whether the octal output form was requested.
    pub num: bool,
    /// Whether the symbolic output form was requested.
    pub sym: bool,
}

/// A successfully parsed input: either a full mode or a single permission
/// triple.
#[derive(Debug, PartialEq, Eq, Structural)]
pub enum Parsed {
    Mode(Mode),
    Perm(Perm),
}

/// What [`try_parse`] returns: the first of the four parses that accepts the
/// input — mode octal, mode symbolic, triple octal, triple full symbolic —
/// or nothing.
pub open spec fn spec_try_parse(s: Seq<char>) -> Option<Parsed> {
    match spec_mode_from_num(s) {
        Ok(m) => Some(Parsed::Mode(m)),
        Err(_) => match spec_mode_from_sym(s) {
            Ok(m) => Some(Parsed::Mode(m)),
            Err(_) => match spec_perm_from_num(s) {
                Ok(p) => Some(Parsed::Perm(p)),
                Err(_) => match spec_perm_from_sym_full(s) {
                    Ok(p) => Some(Parsed::Perm(p)),
                    Err(_) => None,
                },
            },
        },
    }
}

/// Parse an input of unknown shape, attempting the mode parses before the
/// triple parses.
pub fn try_parse(input: &str) -> (r: Option<Parsed>)
    ensures
        r == spec_try_parse(input@),
{
    if let Ok(mode) = Mode::from_num(input) {
        return Some(Parsed::Mode(mode));
    }
    if let Ok(mode) = Mode::from_sym(input) {
        return Some(Parsed::Mode(mode));
    }
    if let Ok(perm) = Perm::from_num(input) {
        return Some(Parsed::Perm(perm));
    }
    if let Ok(perm) = Perm::from_sym_full(input) {
        return Some(Parsed::Perm(perm));
    }
    None
}

/// Decide from the two output-format flags whether to render numerically.
/// Exactly one of the flags must be set; both or neither is reported as a
/// usage error.
pub fn output_as_num(num: bool, sym: bool) -> (r: Result<bool, String>)
    ensures
        num && sym ==> (r matches Err(m) && m@ == "--num and --sym are exclusive"@),
        !num && !sym ==> (r matches Err(m) && m@ == "--num or --sym must be supplied"@),
        num != sym ==> r == Ok::<bool, String>(num),
{
    if num && sym {
        Err(String::from_str("--num and --sym are exclusive"))
    } else if !(num || sym) {
        Err(String::from_str("--num or --sym must be supplied"))
    } else {
        Ok(num)
    }
}

/// Render a parsed value in the requested form, numeric or symbolic,
/// without knowing which entity it is.
pub fn convert<T: AsNum + AsSym>(v: &T, as_num: bool) -> (r: String)
    ensures
        as_num ==> r@ == v.num_seq(),
        !as_num ==> r@ == v.sym_seq(),
{
    if as_num {
        v.as_num()
    } else {
        v.as_sym()
    }
}

/// Compute the command's output for the given options: the input parsed as
/// a mode or a triple and rendered in the requested form, or the message
/// the command reports instead.
pub fn cli(opts: &Opts) -> (r: Result<String, String>)
    ensures
        opts.num && opts.sym ==> (r matches Err(m) && m@ == "--num and --sym are exclusive"@),
        !opts.num && !opts.sym ==> (r matches Err(m) && m@
            == "--num or --sym must be supplied"@),
        opts.num != opts.sym ==> (match spec_try_parse(opts.input@) {
            Some(Parsed::Mode(m)) => r matches Ok(t) && t@ == (if opts.num {
                mode_num_seq(m)
            } else {
                mode_sym_seq(m)
            }),
            Some(Parsed::Perm(p)) => r matches Ok(t) && t@ == (if opts.num {
                seq![perm_num_char(p)]
            } else {
                perm_sym_full_seq(p)
            }),
            None => r matches Err(m) && m@ == opts.input@ + ": malformed permission or mode"@,
        }),
{
    let as_num = match output_as_num(opts.num, opts.sym) {
        Ok(b) => b,
        Err(m) => return Err(m),
    };
    match try_parse(opts.input.as_str()) {
        Some(Parsed::Mode(mode)) => Ok(convert(&mode, as_num)),
        Some(Parsed::Perm(perm)) => Ok(convert(&perm, as_num)),
        None => Err(opts.input.clone().concat(": malformed permission or mode")),
    }
}

} // verus!
