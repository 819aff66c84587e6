//! The laws the codecs and the diff engine obey, proved once for all
//! values.

use vstd::prelude::*;

use crate::model::{
    flip_mode_diff, flip_perm_diff, is_octal_digit, mode_num_seq, mode_sym_seq, perm_num_char,
    perm_of_num_char, perm_sym_full_seq, spec_mode_diff, spec_mode_from_num, spec_mode_from_sym,
    spec_perm_diff, spec_perm_from_num, spec_perm_from_sym_full, valid_num_mode,
    valid_sym_full_triple, valid_sym_mode,
};
use crate::{DiffOp, Mode, ModeDiff, ParseErrorView, Perm, PermDiff};

verus! {

/// An octal digit survives the round trip through the permission it
/// encodes: formatting the triple parsed from it gives the digit back.
pub proof fn lemma_num_char_round_trip(c: char)
    requires
        is_octal_digit(c),
    ensures
        perm_num_char(perm_of_num_char(c)) == c,
{
}

/// The digit of any permission triple is an octal digit.
pub proof fn lemma_perm_num_char_octal(p: Perm)
    ensures
        is_octal_digit(perm_num_char(p)),
{
}

/// Round trip of the octal form of a triple: every valid one-digit string
/// parses, and formatting the parsed triple gives the string back.
pub proof fn lemma_perm_num_round_trip(s: Seq<char>)
    requires
        s.len() == 1,
        is_octal_digit(s[0]),
    ensures
        spec_perm_from_num(s) matches Ok(p) && seq![perm_num_char(p)] == s,
{
    lemma_num_char_round_trip(s[0]);
    assert(seq![perm_num_char(spec_perm_from_num(s)->Ok_0)] =~= s);
}

/// The other direction: the octal form of any triple parses back to the
/// same triple.
pub proof fn lemma_perm_from_num_of_as_num(p: Perm)
    ensures
        spec_perm_from_num(seq![perm_num_char(p)]) == Ok::<Perm, ParseErrorView>(p),
{
    lemma_perm_num_char_octal(p);
}

/// Round trip of the octal form of a mode: every valid three-digit string
/// parses, and formatting the parsed mode gives the string back.
pub proof fn lemma_mode_num_round_trip(s: Seq<char>)
    requires
        valid_num_mode(s),
    ensures
        spec_mode_from_num(s) matches Ok(m) && mode_num_seq(m) == s,
{
    assert(s.subrange(0, 1) =~= seq![s[0]]);
    assert(s.subrange(1, 2) =~= seq![s[1]]);
    assert(s.subrange(2, 3) =~= seq![s[2]]);
    lemma_num_char_round_trip(s[0]);
    lemma_num_char_round_trip(s[1]);
    lemma_num_char_round_trip(s[2]);
    assert(mode_num_seq(spec_mode_from_num(s)->Ok_0) =~= s);
}

/// The other direction: the octal form of any mode parses back to the same
/// mode.
pub proof fn lemma_mode_from_num_of_as_num(m: Mode)
    ensures
        spec_mode_from_num(mode_num_seq(m)) == Ok::<Mode, ParseErrorView>(m),
{
    let s = mode_num_seq(m);
    assert(s.subrange(0, 1) =~= seq![s[0]]);
    assert(s.subrange(1, 2) =~= seq![s[1]]);
    assert(s.subrange(2, 3) =~= seq![s[2]]);
    lemma_perm_num_char_octal(m.user);
    lemma_perm_num_char_octal(m.group);
    lemma_perm_num_char_octal(m.other);
    lemma_num_char_round_trip(perm_num_char(m.user));
    lemma_num_char_round_trip(perm_num_char(m.group));
    lemma_num_char_round_trip(perm_num_char(m.other));
}

/// Round trip of the full symbolic form of a triple: every valid
/// three-character string parses, and formatting the parsed triple gives
/// the string back.
pub proof fn lemma_perm_sym_round_trip(s: Seq<char>)
    requires
        valid_sym_full_triple(s),
    ensures
        spec_perm_from_sym_full(s) matches Ok(p) && perm_sym_full_seq(p) == s,
{
    assert(perm_sym_full_seq(spec_perm_from_sym_full(s)->Ok_0) =~= s);
}

/// The other direction: the full symbolic form of any triple parses back to
/// the same triple.
pub proof fn lemma_perm_from_sym_of_as_sym(p: Perm)
    ensures
        spec_perm_from_sym_full(perm_sym_full_seq(p)) == Ok::<Perm, ParseErrorView>(p),
{
}

/// Round trip of the symbolic form of a mode: every valid nine-character
/// string parses, and formatting the parsed mode gives the string back.
pub proof fn lemma_mode_sym_round_trip(s: Seq<char>)
    requires
        valid_sym_mode(s),
    ensures
        spec_mode_from_sym(s) matches Ok(m) && mode_sym_seq(m) == s,
{
    lemma_perm_sym_round_trip(s.subrange(0, 3));
    lemma_perm_sym_round_trip(s.subrange(3, 6));
    lemma_perm_sym_round_trip(s.subrange(6, 9));
    assert(mode_sym_seq(spec_mode_from_sym(s)->Ok_0) =~= s);
}

/// The other direction: the symbolic form of any mode parses back to the
/// same mode.
pub proof fn lemma_mode_from_sym_of_as_sym(m: Mode)
    ensures
        spec_mode_from_sym(mode_sym_seq(m)) == Ok::<Mode, ParseErrorView>(m),
{
    let s = mode_sym_seq(m);
    assert(s.subrange(0, 3) =~= perm_sym_full_seq(m.user));
    assert(s.subrange(3, 6) =~= perm_sym_full_seq(m.group));
    assert(s.subrange(6, 9) =~= perm_sym_full_seq(m.other));
    lemma_perm_from_sym_of_as_sym(m.user);
    lemma_perm_from_sym_of_as_sym(m.group);
    lemma_perm_from_sym_of_as_sym(m.other);
}

/// Diff antisymmetry for triples: diffing in the other order inverts every
/// flag's tag, gained for lost and lost for gained.
pub proof fn lemma_perm_diff_antisymmetry(a: Perm, b: Perm)
    ensures
        spec_perm_diff(a, b) == flip_perm_diff(spec_perm_diff(b, a)),
{
}

/// Diff antisymmetry for modes: diffing in the other order inverts every
/// field's tags.
pub proof fn lemma_mode_diff_antisymmetry(a: Mode, b: Mode)
    ensures
        spec_mode_diff(a, b) == flip_mode_diff(spec_mode_diff(b, a)),
{
}

/// Diff identity for triples: a triple diffed against itself is unchanged
/// in every flag.
pub proof fn lemma_perm_diff_identity(a: Perm)
    ensures
        spec_perm_diff(a, a) == (PermDiff {
            read: DiffOp::Same,
            write: DiffOp::Same,
            execute: DiffOp::Same,
        }),
{
}

/// Diff identity for modes: a mode diffed against itself is unchanged in
/// every flag of every field.
pub proof fn lemma_mode_diff_identity(a: Mode)
    ensures
        spec_mode_diff(a, a) == (ModeDiff {
            user: PermDiff { read: DiffOp::Same, write: DiffOp::Same, execute: DiffOp::Same },
            group: PermDiff { read: DiffOp::Same, write: DiffOp::Same, execute: DiffOp::Same },
            other: PermDiff { read: DiffOp::Same, write: DiffOp::Same, execute: DiffOp::Same },
        }),
{
}

/// Position accuracy of the octal mode parse: a character fault points at
/// the offending character of the original input, and an end-of-input fault
/// points just past its end.
pub proof fn lemma_mode_num_err_position(s: Seq<char>)
    ensures
        spec_mode_from_num(s) matches Err(ParseErrorView::UnexpectedChar { pos, c, .. })
            ==> pos < s.len() && s[pos as int] == c,
        spec_mode_from_num(s) matches Err(ParseErrorView::UnexpectedEoi { pos })
            ==> pos == s.len(),
{
    if s.len() > 0 {
        assert(s.subrange(0, 1) =~= seq![s[0]]);
    }
    if s.len() > 1 {
        assert(s.subrange(1, 2) =~= seq![s[1]]);
    }
    if s.len() > 2 {
        assert(s.subrange(2, 3) =~= seq![s[2]]);
    }
}

/// Position accuracy of the symbolic mode parse: a character fault points
/// at the offending character of the original, unsplit input, and an
/// end-of-input fault points just past its end.
pub proof fn lemma_mode_sym_err_position(s: Seq<char>)
    ensures
        spec_mode_from_sym(s) matches Err(ParseErrorView::UnexpectedChar { pos, c, .. })
            ==> pos < s.len() && s[pos as int] == c,
        spec_mode_from_sym(s) matches Err(ParseErrorView::UnexpectedEoi { pos })
            ==> pos == s.len(),
{
}

} // verus!
