//! Uniform rendering of either entity.
//!
//! A caller holding a parsed [`Perm`] or a parsed [`Mode`], without knowing
//! which, can request either rendering through these traits. For a [`Perm`]
//! the symbolic rendering is the full form with '-' placeholders.

use vstd::prelude::*;

use crate::model::{mode_num_seq, mode_sym_seq, perm_num_char, perm_sym_full_seq};
use crate::{Mode, Perm};

verus! {

/// Trait for conversion of a value into numerical form.
pub trait AsNum {
    /// The numeric text of the value, in the model.
    spec fn num_seq(&self) -> Seq<char>;

    /// Render the value as numeric text.
    fn as_num(&self) -> (r: String)
        ensures
            r@ == self.num_seq(),
    ;
}

/// Trait for conversion of a value into symbolic form.
pub trait AsSym {
    /// The symbolic text of the value, in the model.
    spec fn sym_seq(&self) -> Seq<char>;

    /// Render the value as symbolic text.
    fn as_sym(&self) -> (r: String)
        ensures
            r@ == self.sym_seq(),
    ;
}

impl AsNum for Mode {
    open spec fn num_seq(&self) -> Seq<char> {
        mode_num_seq(*self)
    }

    fn as_num(&self) -> (r: String) {
        self.as_num()
    }
}

impl AsSym for Mode {
    open spec fn sym_seq(&self) -> Seq<char> {
        mode_sym_seq(*self)
    }

    fn as_sym(&self) -> (r: String) {
        self.as_sym()
    }
}

impl AsNum for Perm {
    open spec fn num_seq(&self) -> Seq<char> {
        seq![perm_num_char(*self)]
    }

    fn as_num(&self) -> (r: String) {
        self.as_num()
    }
}

impl AsSym for Perm {
    open spec fn sym_seq(&self) -> Seq<char> {
        perm_sym_full_seq(*self)
    }

    fn as_sym(&self) -> (r: String) {
        self.as_sym_full()
    }
}

} // verus!
