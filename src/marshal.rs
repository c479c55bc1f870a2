//! Conversion between argument and return values and the machine words that cross
//! the syscall boundary. Integers convert by truncation or sign extension; handles,
//! pointers and word-sized wrapper types reach this layer as the word they hold.

use vstd::prelude::*;

verus! {

/// A value that is passed to a syscall as one machine word.
pub trait IntoCallParam: Sized {
    /// The word that stands for this value.
    spec fn param_word(self) -> usize;

    /// Converts this value to its word.
    fn into_call_param(self) -> (r: usize)
        ensures
            r == self.param_word(),
    ;
}

/// A value that a syscall returns as one machine word.
pub trait FromCallReturn: Sized {
    /// The value that a returned word stands for.
    spec fn returned_value(value: usize) -> Self;

    /// Converts a returned word to its value.
    fn from_call_return(value: usize) -> (r: Self)
        ensures
            r == Self::returned_value(value),
    ;
}

/// A type whose values travel as one word in both directions.
pub trait CallWord: IntoCallParam + FromCallReturn {
    /// A value converted to a word and back is the value itself.
    proof fn lemma_call_word_round_trip(x: Self)
        ensures
            Self::returned_value(x.param_word()) == x,
    ;
}

impl IntoCallParam for i16 {
    open spec fn param_word(self) -> usize {
        self as usize
    }

    fn into_call_param(self) -> (r: usize) {
        self as usize
    }
}

impl FromCallReturn for i16 {
    open spec fn returned_value(value: usize) -> i16 {
        value as i16
    }

    fn from_call_return(value: usize) -> (r: i16) {
        value as i16
    }
}

impl CallWord for i16 {
    proof fn lemma_call_word_round_trip(x: i16) {
        assert((x as usize) as i16 == x) by (bit_vector);
    }
}

impl IntoCallParam for i32 {
    open spec fn param_word(self) -> usize {
        self as usize
    }

    fn into_call_param(self) -> (r: usize) {
        self as usize
    }
}

impl FromCallReturn for i32 {
    open spec fn returned_value(value: usize) -> i32 {
        value as i32
    }

    fn from_call_return(value: usize) -> (r: i32) {
        value as i32
    }
}

impl CallWord for i32 {
    proof fn lemma_call_word_round_trip(x: i32) {
        assert((x as usize) as i32 == x) by (bit_vector);
    }
}

impl IntoCallParam for u32 {
    open spec fn param_word(self) -> usize {
        self as usize
    }

    fn into_call_param(self) -> (r: usize) {
        self as usize
    }
}

impl FromCallReturn for u32 {
    open spec fn returned_value(value: usize) -> u32 {
        value as u32
    }

    fn from_call_return(value: usize) -> (r: u32) {
        value as u32
    }
}

impl CallWord for u32 {
    proof fn lemma_call_word_round_trip(x: u32) {
        assert((x as usize) as u32 == x) by (bit_vector);
    }
}

impl IntoCallParam for usize {
    open spec fn param_word(self) -> usize {
        self
    }

    fn into_call_param(self) -> (r: usize) {
        self
    }
}

impl FromCallReturn for usize {
    open spec fn returned_value(value: usize) -> usize {
        value
    }

    fn from_call_return(value: usize) -> (r: usize) {
        value
    }
}

impl CallWord for usize {
    proof fn lemma_call_word_round_trip(x: usize) {
    }
}

impl IntoCallParam for isize {
    open spec fn param_word(self) -> usize {
        self as usize
    }

    fn into_call_param(self) -> (r: usize) {
        self as usize
    }
}

impl FromCallReturn for isize {
    open spec fn returned_value(value: usize) -> isize {
        value as isize
    }

    fn from_call_return(value: usize) -> (r: isize) {
        value as isize
    }
}

impl CallWord for isize {
    proof fn lemma_call_word_round_trip(x: isize) {
        assert((x as usize) as isize == x) by (bit_vector);
    }
}

impl FromCallReturn for () {
    open spec fn returned_value(value: usize) -> () {
        ()
    }

    fn from_call_return(value: usize) -> (r: ()) {
    }
}

/// Marshaling round trip: every value of every word type converted to its word and
/// back is the value itself.
pub proof fn lemma_marshal_round_trip<T: CallWord>(x: T)
    ensures
        T::returned_value(x.param_word()) == x,
{
    T::lemma_call_word_round_trip(x);
}

} // verus!
