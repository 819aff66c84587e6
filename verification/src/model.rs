//! Mathematical model of the permission encodings.
//!
//! Every executable operation of the crate is specified against the spec
//! functions in this module: the textual forms are modelled as `Seq<char>`,
//! and the parsers as total functions from a character sequence to either a
//! value or a [`ParseErrorView`](crate::ParseErrorView).

use vstd::prelude::*;

use crate::{DiffOp, Mode, ModeDiff, ParseError, ParseErrorView, Perm, PermDiff};

verus! {

/// The eight octal digit characters, in numeric order.
pub open spec fn octal_digits() -> Seq<char> {
    seq!['0', '1', '2', '3', '4', '5', '6', '7']
}

/// Whether `c` is one of the octal digits '0'..'7'.
pub open spec fn is_octal_digit(c: char) -> bool {
    ||| c == '0'
    ||| c == '1'
    ||| c == '2'
    ||| c == '3'
    ||| c == '4'
    ||| c == '5'
    ||| c == '6'
    ||| c == '7'
}

/// Whether `c` may appear in a symbolic form.
pub open spec fn is_sym_char(c: char) -> bool {
    ||| c == 'r'
    ||| c == 'w'
    ||| c == 'x'
    ||| c == '-'
}

/// The octal value of a permission triple: 4 for read, 2 for write, 1 for
/// execute.
pub open spec fn perm_num_val(p: Perm) -> int {
    (if p.read {
        4int
    } else {
        0int
    }) + (if p.write {
        2int
    } else {
        0int
    }) + (if p.execute {
        1int
    } else {
        0int
    })
}

/// The octal digit character of a permission triple.
pub open spec fn perm_num_char(p: Perm) -> char {
    octal_digits()[perm_num_val(p)]
}

/// The symbolic form of a permission triple with '-' placeholders: exactly
/// three characters, one per flag in the fixed order r, w, x.
pub open spec fn perm_sym_full_seq(p: Perm) -> Seq<char> {
    seq![
        if p.read { 'r' } else { '-' },
        if p.write { 'w' } else { '-' },
        if p.execute { 'x' } else { '-' },
    ]
}

/// The symbolic form of a permission triple with ungranted flags omitted:
/// the subsequence of "rwx" whose flags are set.
pub open spec fn perm_sym_seq(p: Perm) -> Seq<char> {
    (if p.read {
        seq!['r']
    } else {
        Seq::<char>::empty()
    }) + (if p.write {
        seq!['w']
    } else {
        Seq::<char>::empty()
    }) + (if p.execute {
        seq!['x']
    } else {
        Seq::<char>::empty()
    })
}

/// The octal form of a mode: one digit per triple, in user/group/other order.
pub open spec fn mode_num_seq(m: Mode) -> Seq<char> {
    seq![perm_num_char(m.user), perm_num_char(m.group), perm_num_char(m.other)]
}

/// The symbolic form of a mode: the full symbolic forms of the three triples
/// concatenated, nine characters in all.
pub open spec fn mode_sym_seq(m: Mode) -> Seq<char> {
    perm_sym_full_seq(m.user) + perm_sym_full_seq(m.group) + perm_sym_full_seq(m.other)
}

/// Whether `c` is acceptable at a position of a full symbolic form whose
/// flag letter is `letter`: the letter itself or '-'.
pub open spec fn sym_char_ok(c: char, letter: char) -> bool {
    c == letter || c == '-'
}

/// Whether `s` is a valid full symbolic form of a permission triple.
pub open spec fn valid_sym_full_triple(s: Seq<char>) -> bool {
    &&& s.len() == 3
    &&& sym_char_ok(s[0], 'r')
    &&& sym_char_ok(s[1], 'w')
    &&& sym_char_ok(s[2], 'x')
}

/// Whether `s` is a valid symbolic form of a mode: three valid full
/// symbolic triples in a row.
pub open spec fn valid_sym_mode(s: Seq<char>) -> bool {
    &&& s.len() == 9
    &&& valid_sym_full_triple(s.subrange(0, 3))
    &&& valid_sym_full_triple(s.subrange(3, 6))
    &&& valid_sym_full_triple(s.subrange(6, 9))
}

/// Whether `s` is a valid octal form of a mode: exactly three octal digits.
pub open spec fn valid_num_mode(s: Seq<char>) -> bool {
    &&& s.len() == 3
    &&& is_octal_digit(s[0])
    &&& is_octal_digit(s[1])
    &&& is_octal_digit(s[2])
}

/// The classification of one flag's transition from `a` to `b`: unchanged,
/// lost (set before, unset after), or gained (unset before, set after).
pub open spec fn spec_bool_diff(a: bool, b: bool) -> DiffOp {
    if a == b {
        DiffOp::Same
    } else if a {
        DiffOp::Minus
    } else {
        DiffOp::Plus
    }
}

/// The per-flag diff of two permission triples.
pub open spec fn spec_perm_diff(a: Perm, b: Perm) -> PermDiff {
    PermDiff {
        read: spec_bool_diff(a.read, b.read),
        write: spec_bool_diff(a.write, b.write),
        execute: spec_bool_diff(a.execute, b.execute),
    }
}

/// The field-wise diff of two modes.
pub open spec fn spec_mode_diff(a: Mode, b: Mode) -> ModeDiff {
    ModeDiff {
        user: spec_perm_diff(a.user, b.user),
        group: spec_perm_diff(a.group, b.group),
        other: spec_perm_diff(a.other, b.other),
    }
}

/// The inverse of a diff tag: gained and lost swap, unchanged stays.
pub open spec fn flip_op(op: DiffOp) -> DiffOp {
    match op {
        DiffOp::Plus => DiffOp::Minus,
        DiffOp::Same => DiffOp::Same,
        DiffOp::Minus => DiffOp::Plus,
    }
}

/// The per-flag inverse of a permission diff.
pub open spec fn flip_perm_diff(d: PermDiff) -> PermDiff {
    PermDiff { read: flip_op(d.read), write: flip_op(d.write), execute: flip_op(d.execute) }
}

/// The field-wise inverse of a mode diff.
pub open spec fn flip_mode_diff(d: ModeDiff) -> ModeDiff {
    ModeDiff {
        user: flip_perm_diff(d.user),
        group: flip_perm_diff(d.group),
        other: flip_perm_diff(d.other),
    }
}

/// A parse result with the error abstracted to its view, so that contracts
/// can state the whole outcome of a parser in one equation.
pub open spec fn res_view<T>(r: Result<T, ParseError>) -> Result<T, ParseErrorView> {
    match r {
        Ok(v) => Ok(v),
        Err(e) => Err(e@),
    }
}

/// Shift the position of a parse error by `d`: how a composite parser turns
/// the relative position reported by a sub-parser into an absolute one.
pub open spec fn offset_err(e: ParseErrorView, d: nat) -> ParseErrorView {
    match e {
        ParseErrorView::UnexpectedChar { pos, c, expected } => ParseErrorView::UnexpectedChar {
            pos: pos + d,
            c,
            expected,
        },
        ParseErrorView::UnexpectedEoi { pos } => ParseErrorView::UnexpectedEoi { pos: pos + d },
    }
}

/// The permission triple encoded by the octal digit `c`.
pub open spec fn perm_of_num_char(c: char) -> Perm
    recommends
        is_octal_digit(c),
{
    if c == '7' {
        Perm { read: true, write: true, execute: true }
    } else if c == '6' {
        Perm { read: true, write: true, execute: false }
    } else if c == '5' {
        Perm { read: true, write: false, execute: true }
    } else if c == '4' {
        Perm { read: true, write: false, execute: false }
    } else if c == '3' {
        Perm { read: false, write: true, execute: true }
    } else if c == '2' {
        Perm { read: false, write: true, execute: false }
    } else if c == '1' {
        Perm { read: false, write: false, execute: true }
    } else {
        Perm { read: false, write: false, execute: false }
    }
}

/// What parsing a permission triple from its octal form returns: exactly one
/// octal digit succeeds; an empty input wants a character at position 0; any
/// other input faults its first character against the digit set.
pub open spec fn spec_perm_from_num(s: Seq<char>) -> Result<Perm, ParseErrorView> {
    if s.len() == 0 {
        Err(ParseErrorView::UnexpectedEoi { pos: 0 })
    } else if s.len() == 1 && is_octal_digit(s[0]) {
        Ok(perm_of_num_char(s[0]))
    } else {
        Err(ParseErrorView::UnexpectedChar { pos: 0, c: s[0], expected: Some(octal_digits()) })
    }
}

/// What reading one flag of a full symbolic form returns: at position `i`
/// the letter of the flag means granted, '-' means denied, any other
/// character is a fault naming the two acceptable ones, and a missing
/// character is an end-of-input fault at `i`.
pub open spec fn spec_sym_flag(s: Seq<char>, i: int, letter: char) -> Result<bool, ParseErrorView>
    recommends
        0 <= i,
{
    if s.len() <= i {
        Err(ParseErrorView::UnexpectedEoi { pos: i as nat })
    } else if s[i] == letter {
        Ok(true)
    } else if s[i] == '-' {
        Ok(false)
    } else {
        Err(
            ParseErrorView::UnexpectedChar {
                pos: i as nat,
                c: s[i],
                expected: Some(seq![letter, '-']),
            },
        )
    }
}

/// What parsing a permission triple from its full symbolic form returns:
/// positions 0, 1, 2 matched against 'r', 'w', 'x' in turn, the first fault
/// winning; a fourth character is a fault at position 3 where only
/// end-of-input was acceptable.
pub open spec fn spec_perm_from_sym_full(s: Seq<char>) -> Result<Perm, ParseErrorView> {
    match spec_sym_flag(s, 0, 'r') {
        Err(e) => Err(e),
        Ok(read) => match spec_sym_flag(s, 1, 'w') {
            Err(e) => Err(e),
            Ok(write) => match spec_sym_flag(s, 2, 'x') {
                Err(e) => Err(e),
                Ok(execute) => if s.len() > 3 {
                    Err(ParseErrorView::UnexpectedChar { pos: 3, c: s[3], expected: None })
                } else {
                    Ok(Perm { read, write, execute })
                },
            },
        },
    }
}

/// What reading the octal digit of one field of a mode returns: the digit at
/// position `i`, parsed as a permission triple, with any fault shifted to
/// the absolute position `i`.
pub open spec fn spec_num_field(s: Seq<char>, i: int) -> Result<Perm, ParseErrorView>
    recommends
        0 <= i,
{
    if s.len() <= i {
        Err(ParseErrorView::UnexpectedEoi { pos: i as nat })
    } else {
        match spec_perm_from_num(s.subrange(i, i + 1)) {
            Ok(p) => Ok(p),
            Err(e) => Err(offset_err(e, i as nat)),
        }
    }
}

/// What parsing a mode from its octal form returns: one digit per field at
/// positions 0, 1, 2, the first fault winning; a fourth character is a fault
/// at position 3 where only end-of-input was acceptable.
pub open spec fn spec_mode_from_num(s: Seq<char>) -> Result<Mode, ParseErrorView> {
    match spec_num_field(s, 0) {
        Err(e) => Err(e),
        Ok(user) => match spec_num_field(s, 1) {
            Err(e) => Err(e),
            Ok(group) => match spec_num_field(s, 2) {
                Err(e) => Err(e),
                Ok(other) => if s.len() > 3 {
                    Err(ParseErrorView::UnexpectedChar { pos: 3, c: s[3], expected: None })
                } else {
                    Ok(Mode { user, group, other })
                },
            },
        },
    }
}

/// What parsing one field of a symbolic mode returns: the window of up to
/// three characters starting at `off`, parsed as a full symbolic triple,
/// with any fault shifted to its absolute position in the whole input.
pub open spec fn spec_sym_window(s: Seq<char>, off: int) -> Result<Perm, ParseErrorView>
    recommends
        0 <= off <= s.len(),
{
    let hi: int = if s.len() < off + 3 {
        s.len() as int
    } else {
        off + 3
    };
    match spec_perm_from_sym_full(s.subrange(off, hi)) {
        Ok(p) => Ok(p),
        Err(e) => Err(offset_err(e, off as nat)),
    }
}

/// What parsing a mode from its symbolic form returns: three consecutive
/// three-character windows at offsets 0, 3, 6, the first fault winning; a
/// tenth character is a fault at position 9 where only end-of-input was
/// acceptable.
pub open spec fn spec_mode_from_sym(s: Seq<char>) -> Result<Mode, ParseErrorView> {
    match spec_sym_window(s, 0) {
        Err(e) => Err(e),
        Ok(user) => match spec_sym_window(s, 3) {
            Err(e) => Err(e),
            Ok(group) => match spec_sym_window(s, 6) {
                Err(e) => Err(e),
                Ok(other) => if s.len() > 9 {
                    Err(ParseErrorView::UnexpectedChar { pos: 9, c: s[9], expected: None })
                } else {
                    Ok(Mode { user, group, other })
                },
            },
        },
    }
}

} // verus!
