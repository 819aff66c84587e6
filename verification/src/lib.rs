//! Parsing, formatting and diffing of Unix-style file permissions.
//!
//! The crate converts between three textual representations of filesystem
//! permissions — the octal form ("755"), the full symbolic form with '-'
//! placeholders ("rwxr-xr-x"), and the symbolic form with ungranted letters
//! omitted ("rwx") — and computes a per-flag difference between two
//! permission sets. Every operation carries a contract stated over the
//! mathematical model in [`model`].

use vstd::prelude::*;

pub mod cli;
pub mod laws;
pub mod model;
pub mod traits;

use crate::model::{
    is_octal_digit, is_sym_char, mode_num_seq, mode_sym_seq, octal_digits, offset_err,
    perm_num_char, perm_sym_full_seq, perm_sym_seq, res_view, spec_bool_diff, spec_mode_diff,
    spec_mode_from_num, spec_mode_from_sym, spec_num_field, spec_perm_diff, spec_perm_from_num,
    spec_perm_from_sym_full, spec_sym_flag,
};

verus! {

/// The diff between two [`Mode`]s, field by field.
#[derive(Debug, PartialEq, Eq, Structural)]
pub struct ModeDiff {
    pub user: PermDiff,
    pub group: PermDiff,
    pub other: PermDiff,
}

/// The diff between two [`Perm`]s, flag by flag.
#[derive(Debug, PartialEq, Eq, Structural)]
pub struct PermDiff {
    pub read: DiffOp,
    pub write: DiffOp,
    pub execute: DiffOp,
}

/// The direction of change of one boolean flag between two values: gained,
/// unchanged, or lost.
#[derive(Debug, PartialEq, Eq, Structural, PartialOrd, Ord)]
pub enum DiffOp {
    Plus,
    Same,
    Minus,
}

/// Classify the transition of one flag from `a` to `b`: `Same` when equal,
/// `Minus` when the flag was lost, `Plus` when it was gained.
pub fn bool_diff(a: bool, b: bool) -> (r: DiffOp)
    ensures
        r == spec_bool_diff(a, b),
{
    if a ^ b {
        if a {
            DiffOp::Minus
        } else {
            DiffOp::Plus
        }
    } else {
        DiffOp::Same
    }
}

/// Error encountered when parsing a string into a [`Mode`] or [`Perm`].
#[derive(Debug)]
pub enum ParseError {
    /// An unexpected character was encountered while parsing (e.g. an 'r'
    /// when an 'x' or '-' was expected, or any character where end-of-input
    /// was expected).
    UnexpectedChar {
        /// The position (zero-indexed) of the unexpected character.
        pos: usize,
        /// The character encountered.
        c: char,
        /// A list of expected characters at this position. If `None`,
        /// end-of-input was expected.
        expected: Option<Vec<char>>,
    },
    /// End-of-input was encountered when more input was expected.
    UnexpectedEoi {
        /// The position (zero-indexed) where another character was expected.
        pos: usize,
    },
}

/// The abstract value of a [`ParseError`]: positions as mathematical
/// naturals and the expected set as a character sequence.
pub enum ParseErrorView {
    UnexpectedChar { pos: nat, c: char, expected: Option<Seq<char>> },
    UnexpectedEoi { pos: nat },
}

/// The abstract value of an expected-character set.
pub open spec fn expected_view(e: Option<Vec<char>>) -> Option<Seq<char>> {
    match e {
        Some(v) => Some(v@),
        None => None,
    }
}

impl View for ParseError {
    type V = ParseErrorView;

    open spec fn view(&self) -> ParseErrorView {
        match self {
            ParseError::UnexpectedChar { pos, c, expected } => ParseErrorView::UnexpectedChar {
                pos: *pos as nat,
                c: *c,
                expected: expected_view(*expected),
            },
            ParseError::UnexpectedEoi { pos } => ParseErrorView::UnexpectedEoi { pos: *pos as nat },
        }
    }
}

impl vstd::std_specs::cmp::PartialEqSpecImpl for ParseError {
    open spec fn obeys_eq_spec() -> bool {
        true
    }

    open spec fn eq_spec(&self, other: &ParseError) -> bool {
        self@ == other@
    }
}

impl PartialEq for ParseError {
    /// Two parse errors are equal when they report the same kind of fault at
    /// the same position, with the same offending character and the same
    /// expected set.
    fn eq(&self, other: &Self) -> (r: bool) {
        match (self, other) {
            (
                ParseError::UnexpectedChar { pos: p1, c: c1, expected: e1 },
                ParseError::UnexpectedChar { pos: p2, c: c2, expected: e2 },
            ) => *p1 == *p2 && *c1 == *c2 && opt_chars_eq(e1, e2),
            (
                ParseError::UnexpectedEoi { pos: p1 },
                ParseError::UnexpectedEoi { pos: p2 },
            ) => *p1 == *p2,
            _ => false,
        }
    }
}

/// Whether two character vectors hold the same characters in the same order.
fn char_vecs_eq(a: &Vec<char>, b: &Vec<char>) -> (r: bool)
    ensures
        r == (a@ == b@),
{
    if a.len() != b.len() {
        return false;
    }
    let mut i: usize = 0;
    while i < a.len()
        invariant
            i <= a.len(),
            a@.len() == b@.len(),
            forall|j: int| 0 <= j < i ==> a@[j] == b@[j],
        decreases a@.len() - i,
    {
        if a[i] != b[i] {
            return false;
        }
        i += 1;
    }
    proof {
        assert(a@ =~= b@);
    }
    true
}

/// Whether two expected-character sets hold the same characters.
fn opt_chars_eq(a: &Option<Vec<char>>, b: &Option<Vec<char>>) -> (r: bool)
    ensures
        r == (expected_view(*a) == expected_view(*b)),
{
    match (a, b) {
        (Some(va), Some(vb)) => char_vecs_eq(va, vb),
        (None, None) => true,
        _ => false,
    }
}

/// The eight octal digit characters, as the expected set of a numeric parse
/// fault.
fn octal_expected() -> (v: Vec<char>)
    ensures
        v@ == octal_digits(),
{
    let mut v: Vec<char> = Vec::new();
    v.push('0');
    v.push('1');
    v.push('2');
    v.push('3');
    v.push('4');
    v.push('5');
    v.push('6');
    v.push('7');
    proof {
        assert(v@ =~= octal_digits());
    }
    v
}

/// The two characters acceptable at one position of a full symbolic form:
/// the flag's letter and '-'.
fn sym_expected(letter: char) -> (v: Vec<char>)
    ensures
        v@ == seq![letter, '-'],
{
    let mut v: Vec<char> = Vec::new();
    v.push(letter);
    v.push('-');
    proof {
        assert(v@ =~= seq![letter, '-']);
    }
    v
}

/// Read one flag of a full symbolic form: the letter of the flag at
/// position `i` means granted, '-' means denied.
fn sym_flag(s: &str, i: usize, letter: char) -> (r: Result<bool, ParseError>)
    ensures
        res_view(r) == spec_sym_flag(s@, i as int, letter),
{
    let len = s.unicode_len();
    if len <= i {
        Err(ParseError::UnexpectedEoi { pos: i })
    } else {
        let c = s.get_char(i);
        if c == letter {
            Ok(true)
        } else if c == '-' {
            Ok(false)
        } else {
            Err(ParseError::UnexpectedChar { pos: i, c, expected: Some(sym_expected(letter)) })
        }
    }
}

/// Read the octal digit of one field of a mode, at position `i`.
fn num_field(s: &str, i: usize) -> (r: Result<Perm, ParseError>)
    ensures
        res_view(r) == spec_num_field(s@, i as int),
{
    let len = s.unicode_len();
    if len <= i {
        Err(ParseError::UnexpectedEoi { pos: i })
    } else {
        let c = s.get_char(i);
        match c {
            '7' => Ok(Perm { read: true, write: true, execute: true }),
            '6' => Ok(Perm { read: true, write: true, execute: false }),
            '5' => Ok(Perm { read: true, write: false, execute: true }),
            '4' => Ok(Perm { read: true, write: false, execute: false }),
            '3' => Ok(Perm { read: false, write: true, execute: true }),
            '2' => Ok(Perm { read: false, write: true, execute: false }),
            '1' => Ok(Perm { read: false, write: false, execute: true }),
            '0' => Ok(Perm { read: false, write: false, execute: false }),
            _ => Err(ParseError::UnexpectedChar { pos: i, c, expected: Some(octal_expected()) }),
        }
    }
}

/// Shift the position reported by a parse error by `diff`, turning a
/// sub-parser's relative position into an absolute one.
fn shift_err(e: ParseError, diff: usize) -> (r: ParseError)
    requires
        e@ matches ParseErrorView::UnexpectedChar { pos, .. } ==> pos + diff <= usize::MAX,
        e@ matches ParseErrorView::UnexpectedEoi { pos } ==> pos + diff <= usize::MAX,
    ensures
        r@ == offset_err(e@, diff as nat),
{
    match e {
        ParseError::UnexpectedChar { pos, c, expected } => ParseError::UnexpectedChar {
            pos: pos + diff,
            c,
            expected,
        },
        ParseError::UnexpectedEoi { pos } => ParseError::UnexpectedEoi { pos: pos + diff },
    }
}

/// File system object mode: one permission triple per subject class.
#[derive(Debug, PartialEq, Eq, Structural)]
pub struct Mode {
    /// Permission set for the owning user.
    pub user: Perm,
    /// Permission set for the group.
    pub group: Perm,
    /// Permission set for all other users.
    pub other: Perm,
}

/// File system object permissions for a single subject class.
#[derive(Debug, PartialEq, Eq, Structural)]
pub struct Perm {
    /// Flag indicating whether *read* permission is granted.
    pub read: bool,
    /// Flag indicating whether *write* permission is granted.
    pub write: bool,
    /// Flag indicating whether *execute* permission is granted.
    pub execute: bool,
}

impl Perm {
    /// Create a new [`Perm`].
    pub fn new(read: bool, write: bool, execute: bool) -> (r: Self)
        ensures
            r == (Perm { read, write, execute }),
    {
        Self { read, write, execute }
    }

    /// Get the octal representation of the [`Perm`]: a single digit in
    /// '0'..'7', worth 4 for read plus 2 for write plus 1 for execute.
    pub fn as_num(&self) -> (r: String)
        ensures
            r@ == seq![perm_num_char(*self)],
            r@.len() == 1,
            is_octal_digit(r@[0]),
    {
        let s: &str = if self.read {
            if self.write {
                if self.execute {
                    "7"
                } else {
                    "6"
                }
            } else {
                if self.execute {
                    "5"
                } else {
                    "4"
                }
            }
        } else {
            if self.write {
                if self.execute {
                    "3"
                } else {
                    "2"
                }
            } else {
                if self.execute {
                    "1"
                } else {
                    "0"
                }
            }
        };
        proof {
            reveal_strlit("7");
            reveal_strlit("6");
            reveal_strlit("5");
            reveal_strlit("4");
            reveal_strlit("3");
            reveal_strlit("2");
            reveal_strlit("1");
            reveal_strlit("0");
            assert(s@ =~= seq![perm_num_char(*self)]);
        }
        String::from_str(s)
    }

    /// Get the symbolic representation of the [`Perm`] with ungranted
    /// permissions omitted: the subsequence of "rwx" whose flags are set.
    pub fn as_sym(&self) -> (r: String)
        ensures
            r@ == perm_sym_seq(*self),
            r@.len() <= 3,
    {
        let s: &str = if self.read {
            if self.write {
                if self.execute {
                    "rwx"
                } else {
                    "rw"
                }
            } else {
                if self.execute {
                    "rx"
                } else {
                    "r"
                }
            }
        } else {
            if self.write {
                if self.execute {
                    "wx"
                } else {
                    "w"
                }
            } else {
                if self.execute {
                    "x"
                } else {
                    ""
                }
            }
        };
        proof {
            reveal_strlit("rwx");
            reveal_strlit("rw");
            reveal_strlit("rx");
            reveal_strlit("r");
            reveal_strlit("wx");
            reveal_strlit("w");
            reveal_strlit("x");
            reveal_strlit("");
            assert(s@ =~= perm_sym_seq(*self));
        }
        String::from_str(s)
    }

    /// Get the symbolic representation of the [`Perm`] with ungranted
    /// permissions as '-': exactly three characters over {r, w, x, -}.
    pub fn as_sym_full(&self) -> (r: String)
        ensures
            r@ == perm_sym_full_seq(*self),
            r@.len() == 3,
            forall|i: int| 0 <= i < 3 ==> is_sym_char(#[trigger] r@[i]),
    {
        let s: &str = if self.read {
            if self.write {
                if self.execute {
                    "rwx"
                } else {
                    "rw-"
                }
            } else {
                if self.execute {
                    "r-x"
                } else {
                    "r--"
                }
            }
        } else {
            if self.write {
                if self.execute {
                    "-wx"
                } else {
                    "-w-"
                }
            } else {
                if self.execute {
                    "--x"
                } else {
                    "---"
                }
            }
        };
        proof {
            reveal_strlit("rwx");
            reveal_strlit("rw-");
            reveal_strlit("r-x");
            reveal_strlit("r--");
            reveal_strlit("-wx");
            reveal_strlit("-w-");
            reveal_strlit("--x");
            reveal_strlit("---");
            assert(s@ =~= perm_sym_full_seq(*self));
        }
        String::from_str(s)
    }

    /// Create a [`Perm`] from its octal form: exactly one digit in '0'..'7'.
    /// An empty input fails with an end-of-input fault at position 0; any
    /// other input fails on its first character against the digit set.
    pub fn from_num(num: &str) -> (r: Result<Self, ParseError>)
        ensures
            res_view(r) == spec_perm_from_num(num@),
    {
        let len = num.unicode_len();
        if len == 0 {
            Err(ParseError::UnexpectedEoi { pos: 0 })
        } else {
            let c = num.get_char(0);
            if len > 1 {
                Err(ParseError::UnexpectedChar { pos: 0, c, expected: Some(octal_expected()) })
            } else {
                match c {
                    '7' => Ok(Perm { read: true, write: true, execute: true }),
                    '6' => Ok(Perm { read: true, write: true, execute: false }),
                    '5' => Ok(Perm { read: true, write: false, execute: true }),
                    '4' => Ok(Perm { read: true, write: false, execute: false }),
                    '3' => Ok(Perm { read: false, write: true, execute: true }),
                    '2' => Ok(Perm { read: false, write: true, execute: false }),
                    '1' => Ok(Perm { read: false, write: false, execute: true }),
                    '0' => Ok(Perm { read: false, write: false, execute: false }),
                    _ => Err(
                        ParseError::UnexpectedChar { pos: 0, c, expected: Some(octal_expected()) },
                    ),
                }
            }
        }
    }

    /// Create a [`Perm`] from its full symbolic form: exactly three
    /// characters matched positionally against 'r', 'w', 'x', with '-' for a
    /// denied flag. The first offending position is reported; a fourth
    /// character faults at position 3 where only end-of-input was expected.
    pub fn from_sym_full(sym: &str) -> (r: Result<Self, ParseError>)
        ensures
            res_view(r) == spec_perm_from_sym_full(sym@),
    {
        let read = match sym_flag(sym, 0, 'r') {
            Ok(b) => b,
            Err(e) => return Err(e),
        };
        let write = match sym_flag(sym, 1, 'w') {
            Ok(b) => b,
            Err(e) => return Err(e),
        };
        let execute = match sym_flag(sym, 2, 'x') {
            Ok(b) => b,
            Err(e) => return Err(e),
        };
        if sym.unicode_len() > 3 {
            let c = sym.get_char(3);
            Err(ParseError::UnexpectedChar { pos: 3, c, expected: None })
        } else {
            Ok(Perm { read, write, execute })
        }
    }

    /// Compute the diff ([`PermDiff`]) between two [`Perm`]s, classifying
    /// each flag's transition from `self` to `other` independently.
    pub fn diff(&self, other: &Self) -> (r: PermDiff)
        ensures
            r == spec_perm_diff(*self, *other),
    {
        PermDiff {
            read: bool_diff(self.read, other.read),
            write: bool_diff(self.write, other.write),
            execute: bool_diff(self.execute, other.execute),
        }
    }
}

impl From<(bool, bool, bool)> for Perm {
    /// Create a [`Perm`] from a tuple of booleans with form
    /// `(read, write, execute)`.
    fn from(tup: (bool, bool, bool)) -> (r: Self) {
        Self { read: tup.0, write: tup.1, execute: tup.2 }
    }
}

impl vstd::std_specs::convert::FromSpecImpl<(bool, bool, bool)> for Perm {
    open spec fn obeys_from_spec() -> bool {
        true
    }

    open spec fn from_spec(tup: (bool, bool, bool)) -> Perm {
        Perm { read: tup.0, write: tup.1, execute: tup.2 }
    }
}

impl Mode {
    /// Create a new [`Mode`].
    pub fn new(user: Perm, group: Perm, other: Perm) -> (r: Self)
        ensures
            r == (Mode { user, group, other }),
    {
        Self { user, group, other }
    }

    /// Get the octal representation of the [`Mode`]: three digits in
    /// '0'..'7', in user/group/other order.
    pub fn as_num(&self) -> (r: String)
        ensures
            r@ == mode_num_seq(*self),
            r@.len() == 3,
            forall|i: int| 0 <= i < 3 ==> is_octal_digit(#[trigger] r@[i]),
    {
        let u = self.user.as_num();
        let g = self.group.as_num();
        let o = self.other.as_num();
        let r = u.concat(g.as_str()).concat(o.as_str());
        proof {
            assert(r@ =~= mode_num_seq(*self));
        }
        r
    }

    /// Get the symbolic representation of the [`Mode`]: the full symbolic
    /// forms of the three triples concatenated, nine characters over
    /// {r, w, x, -}.
    pub fn as_sym(&self) -> (r: String)
        ensures
            r@ == mode_sym_seq(*self),
            r@.len() == 9,
            forall|i: int| 0 <= i < 9 ==> is_sym_char(#[trigger] r@[i]),
    {
        let u = self.user.as_sym_full();
        let g = self.group.as_sym_full();
        let o = self.other.as_sym_full();
        let r = u.concat(g.as_str()).concat(o.as_str());
        proof {
            assert(r@ =~= mode_sym_seq(*self));
        }
        r
    }

    /// Create a [`Mode`] from its octal form: exactly three digits in
    /// '0'..'7', one per field in user/group/other order. A fault in a field
    /// is reported at its absolute position in the input; a fourth character
    /// faults at position 3 where only end-of-input was expected.
    pub fn from_num(num: &str) -> (r: Result<Self, ParseError>)
        ensures
            res_view(r) == spec_mode_from_num(num@),
    {
        let user = match num_field(num, 0) {
            Ok(p) => p,
            Err(e) => return Err(e),
        };
        let group = match num_field(num, 1) {
            Ok(p) => p,
            Err(e) => return Err(e),
        };
        let other = match num_field(num, 2) {
            Ok(p) => p,
            Err(e) => return Err(e),
        };
        if num.unicode_len() > 3 {
            let c = num.get_char(3);
            Err(ParseError::UnexpectedChar { pos: 3, c, expected: None })
        } else {
            Ok(Mode { user, group, other })
        }
    }

    /// Create a [`Mode`] from its symbolic form: nine characters, three
    /// consecutive full symbolic triples. A fault inside a triple is
    /// reported at its absolute position in the whole input; a tenth
    /// character faults at position 9 where only end-of-input was expected.
    pub fn from_sym(sym: &str) -> (r: Result<Self, ParseError>)
        ensures
            res_view(r) == spec_mode_from_sym(sym@),
    {
        let len = sym.unicode_len();
        let hi1 = if len < 3 {
            len
        } else {
            3
        };
        let user = match Perm::from_sym_full(sym.substring_char(0, hi1)) {
            Ok(p) => p,
            Err(e) => return Err(e),
        };
        let hi2 = if len < 6 {
            len
        } else {
            6
        };
        let group = match Perm::from_sym_full(sym.substring_char(3, hi2)) {
            Ok(p) => p,
            Err(e) => return Err(shift_err(e, 3)),
        };
        let hi3 = if len < 9 {
            len
        } else {
            9
        };
        let other = match Perm::from_sym_full(sym.substring_char(6, hi3)) {
            Ok(p) => p,
            Err(e) => return Err(shift_err(e, 6)),
        };
        if len > 9 {
            let c = sym.get_char(9);
            Err(ParseError::UnexpectedChar { pos: 9, c, expected: None })
        } else {
            Ok(Mode { user, group, other })
        }
    }

    /// Compute the diff ([`ModeDiff`]) between two [`Mode`]s, field by
    /// field, with no interaction across fields.
    pub fn diff(&self, other: &Self) -> (r: ModeDiff)
        ensures
            r == spec_mode_diff(*self, *other),
    {
        ModeDiff {
            user: self.user.diff(&other.user),
            group: self.group.diff(&other.group),
            other: self.other.diff(&other.other),
        }
    }
}

} // verus!
