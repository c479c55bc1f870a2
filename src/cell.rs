//! Write-once resolution cells.
//!
//! A cell is one machine word, shared by every thread of the process. It starts at
//! zero, meaning "not resolved yet", and is written at most once, by an atomic
//! compare-and-set from zero. Racing resolvers all compute an outcome; the first to
//! install it wins and every other one adopts the winner's word. Success and failure
//! share the word: an address is at least `SENTINEL_LIMIT`, and a nonzero word below
//! that limit is the code of a cached error.
//!
//! Another thread may install a word at any moment, so the contracts of the methods
//! that touch a shared word say what holds whatever that word is. The protocol itself
//! is stated over `installed`, the effect of one compare-and-set, and `installed_all`,
//! a sequence of them in the order the hardware serialised them.

use std::sync::atomic::{AtomicUsize, Ordering};

use vstd::prelude::*;

use crate::error::{error_code, error_from_code, UserCallError};

verus! {

/// Words below this limit are never addresses of code.
pub const SENTINEL_LIMIT: usize = 0xFFFF;

/// The word that a slot cell holds once no slot exists for its entry point.
pub const SLOT_MISSING_WORD: usize = 0x1_0001;

/// The state of a resolution cell.
#[derive(Clone, Copy, Debug, PartialEq, Eq, Structural)]
pub enum Resolution {
    /// Nothing has been installed yet.
    Unresolved,
    /// The entry point is reached by calling this address.
    Address(usize),
    /// The entry point is reached through its dispatch syscall with this slot.
    Slot(u16),
    /// Resolution failed, for good.
    Failed(UserCallError),
}

/// The outcome of a compare-and-set of `candidate` into a cell that held `word`:
/// the word the cell holds afterwards, which every caller then acts on.
pub open spec fn installed(word: usize, candidate: usize) -> usize {
    if word == 0 {
        candidate
    } else {
        word
    }
}

/// The word of a cell after the installs of `candidates` in order, from `word`.
pub open spec fn installed_all(word: usize, candidates: Seq<usize>) -> usize
    decreases candidates.len(),
{
    if candidates.len() == 0 {
        word
    } else {
        installed_all(installed(word, candidates[0]), candidates.drop_first())
    }
}

/// What an address cell's word means.
pub open spec fn target_state(word: usize) -> Resolution {
    if word == 0 {
        Resolution::Unresolved
    } else if word < SENTINEL_LIMIT {
        match error_from_code(word) {
            Ok(e) => Resolution::Failed(e),
            Err(_) => Resolution::Unresolved,
        }
    } else {
        Resolution::Address(word)
    }
}

/// The outcomes that an address cell can hold: an address at or above the limit, or
/// a failure.
pub open spec fn is_target_outcome(r: Resolution) -> bool {
    match r {
        Resolution::Address(a) => a >= SENTINEL_LIMIT,
        Resolution::Failed(_) => true,
        _ => false,
    }
}

/// The word that stores an address-cell outcome.
pub open spec fn target_word(r: Resolution) -> usize {
    match r {
        Resolution::Address(a) => a,
        Resolution::Failed(e) => error_code(e),
        _ => 0,
    }
}

/// What a slot cell's word means.
pub open spec fn slot_state(word: usize) -> Resolution {
    if word == 0 {
        Resolution::Unresolved
    } else if word <= 0x1_0000 {
        Resolution::Slot((word - 1) as u16)
    } else if word == SLOT_MISSING_WORD {
        Resolution::Failed(UserCallError::CallNotFound)
    } else {
        Resolution::Unresolved
    }
}

/// The outcomes that a slot cell can hold.
pub open spec fn is_slot_outcome(r: Resolution) -> bool {
    r is Slot || r == Resolution::Failed(UserCallError::CallNotFound)
}

/// The word that stores a slot-cell outcome.
pub open spec fn slot_word(r: Resolution) -> usize {
    match r {
        Resolution::Slot(s) => (s + 1) as usize,
        Resolution::Failed(_) => SLOT_MISSING_WORD,
        _ => 0,
    }
}

/// Reads an address cell's word.
pub fn decode_target(word: usize) -> (r: Resolution)
    ensures
        r == target_state(word),
{
    if word == 0 {
        Resolution::Unresolved
    } else if word < SENTINEL_LIMIT {
        match UserCallError::try_from(word) {
            Ok(e) => Resolution::Failed(e),
            Err(_) => Resolution::Unresolved,
        }
    } else {
        Resolution::Address(word)
    }
}

/// Stores an address-cell outcome as a word.
pub fn encode_target(r: Resolution) -> (word: usize)
    requires
        is_target_outcome(r),
    ensures
        word == target_word(r),
        word != 0,
{
    match r {
        Resolution::Address(a) => a,
        Resolution::Failed(e) => e.code(),
        _ => 0,
    }
}

/// Reads a slot cell's word.
pub fn decode_slot(word: usize) -> (r: Resolution)
    ensures
        r == slot_state(word),
{
    if word == 0 {
        Resolution::Unresolved
    } else if word <= 0x1_0000 {
        Resolution::Slot((word - 1) as u16)
    } else if word == SLOT_MISSING_WORD {
        Resolution::Failed(UserCallError::CallNotFound)
    } else {
        Resolution::Unresolved
    }
}

/// Stores a slot-cell outcome as a word.
pub fn encode_slot(r: Resolution) -> (word: usize)
    requires
        is_slot_outcome(r),
    ensures
        word == slot_word(r),
        word != 0,
{
    match r {
        Resolution::Slot(s) => s as usize + 1,
        _ => SLOT_MISSING_WORD,
    }
}

/// The outcome that a caller of an address cell acts on once its compare-and-set is
/// over: what the installed word records, or the caller's own outcome when the word
/// records none.
pub open spec fn adopted_target(word: usize, outcome: Resolution) -> Resolution {
    if target_state(word) is Unresolved {
        outcome
    } else {
        target_state(word)
    }
}

/// The outcome that a caller of a slot cell acts on once its compare-and-set is over.
pub open spec fn adopted_slot(word: usize, outcome: Resolution) -> Resolution {
    if slot_state(word) is Unresolved {
        outcome
    } else {
        slot_state(word)
    }
}

/// Reads the word an address cell holds after a compare-and-set of `outcome`.
pub fn adopt_target(word: usize, outcome: Resolution) -> (r: Resolution)
    requires
        is_target_outcome(outcome),
    ensures
        r == adopted_target(word, outcome),
        is_target_outcome(r),
{
    match decode_target(word) {
        Resolution::Unresolved => outcome,
        state => state,
    }
}

/// Reads the word a slot cell holds after a compare-and-set of `outcome`.
pub fn adopt_slot(word: usize, outcome: Resolution) -> (r: Resolution)
    requires
        is_slot_outcome(outcome),
    ensures
        r == adopted_slot(word, outcome),
        is_slot_outcome(r),
{
    match decode_slot(word) {
        Resolution::Unresolved => outcome,
        state => state,
    }
}

/// Every outcome an address cell can hold reads back as itself, so a cached error is
/// never taken for an address, nor an address for an error; and no outcome is
/// stored as the empty word.
pub proof fn lemma_target_round_trip(r: Resolution)
    requires
        is_target_outcome(r),
    ensures
        target_state(target_word(r)) == r,
        target_word(r) != 0,
        r is Failed <==> target_word(r) < SENTINEL_LIMIT,
{
    if let Resolution::Failed(e) = r {
        crate::error::lemma_error_code_round_trip(e, 0);
    }
}

/// Sentinel discrimination: a cached error reads back as the same error kind, a word
/// reads as an address exactly when it is at or above the limit, and a word that
/// reads as an error is that error's code.
pub proof fn lemma_sentinel_discrimination(e: UserCallError, word: usize)
    ensures
        target_state(error_code(e)) == Resolution::Failed(e),
        target_state(word) is Address <==> word >= SENTINEL_LIMIT,
        target_state(word) is Failed ==> word == error_code(target_state(word)->Failed_0),
{
    crate::error::lemma_error_code_round_trip(e, word);
}

/// Every outcome a slot cell can hold reads back as itself.
pub proof fn lemma_slot_round_trip(r: Resolution)
    requires
        is_slot_outcome(r),
    ensures
        slot_state(slot_word(r)) == r,
        slot_word(r) != 0,
{
}

/// Write-once: once a cell holds a nonzero word, no install changes it, and the first
/// nonzero candidate installed into an empty cell is the word that every later
/// install hands back.
pub proof fn lemma_install_converges(word: usize, candidates: Seq<usize>)
    requires
        forall|i: int| 0 <= i < candidates.len() ==> candidates[i] != 0,
    ensures
        word != 0 ==> installed_all(word, candidates) == word,
        word == 0 && candidates.len() > 0 ==> installed_all(word, candidates) == candidates[0],
        forall|i: int|
            0 <= i < candidates.len() && (word != 0 || i > 0) ==> #[trigger] installed(
                installed_all(word, candidates.take(i)),
                candidates[i],
            ) == (if word != 0 {
                word
            } else {
                candidates[0]
            }),
    decreases candidates.len(),
{
    if candidates.len() > 0 {
        let next: usize = installed(word, candidates[0]);
        let rest = candidates.drop_first();
        assert forall|i: int| 0 <= i < rest.len() implies rest[i] != 0 by {
            assert(rest[i] == candidates[i + 1]);
        }
        lemma_install_converges(next, rest);
        assert forall|i: int|
            0 <= i < candidates.len() && (word != 0 || i > 0) implies #[trigger] installed(
                installed_all(word, candidates.take(i)),
                candidates[i],
            ) == (if word != 0 {
                word
            } else {
                candidates[0]
            }) by {
            if i > 0 {
                let j: int = i - 1;
                assert(candidates.take(i).drop_first() =~= rest.take(j));
                assert(candidates.take(i)[0] == candidates[0]);
                assert(installed_all(word, candidates.take(i)) == installed_all(
                    next,
                    rest.take(j),
                ));
                assert(rest[j] == candidates[i]);
            } else {
                assert(candidates.take(0).len() == 0);
            }
        }
    }
}

/// Relies on `AtomicUsize::compare_exchange` (strong form): it returns `Ok` with the
/// previous value when that value equalled `current`, and `Err` with the previous
/// value, which differs from `current`, when it did not write.
#[verifier::external_body]
fn compare_exchange_word(atomic: &AtomicUsize, current: usize, new: usize) -> (r: Result<
    usize,
    usize,
>)
    ensures
        match r {
            Ok(previous) => previous == current,
            Err(previous) => previous != current,
        },
{
    atomic.compare_exchange(current, new, Ordering::AcqRel, Ordering::Acquire)
}

/// The word that a compare-and-set of `candidate` from zero leaves for its caller to
/// act on: its own candidate when it wrote, otherwise the word already there.
pub fn winning_word(exchange: Result<usize, usize>, candidate: usize) -> (r: usize)
    requires
        match exchange {
            Ok(previous) => previous == 0,
            Err(previous) => previous != 0,
        },
    ensures
        r == installed(
            match exchange {
                Ok(previous) => previous,
                Err(previous) => previous,
            },
            candidate,
        ),
        exchange is Ok ==> r == candidate,
{
    match exchange {
        Ok(_) => candidate,
        Err(previous) => previous,
    }
}

/// One shared, write-once machine word.
pub struct OnceWord {
    word: AtomicUsize,
}

impl OnceWord {
    /// An empty cell.
    pub fn new() -> (r: Self) {
        OnceWord { word: AtomicUsize::new(0) }
    }

    /// The word the cell holds now; zero while nothing is installed.
    pub fn load(&self) -> usize {
        self.word.load(Ordering::Acquire)
    }

    /// Installs `candidate` if the cell is empty. Returns `Ok` when this call wrote it,
    /// and otherwise `Err` with the nonzero word that was already there.
    pub fn try_install(&self, candidate: usize) -> (r: Result<(), usize>)
        requires
            candidate != 0,
        ensures
            r is Err ==> r->Err_0 != 0,
    {
        match compare_exchange_word(&self.word, 0, candidate) {
            Ok(_) => Ok(()),
            Err(previous) => Err(previous),
        }
    }

    /// Installs `candidate` unless a word is already there, and returns the word that
    /// the cell holds afterwards, as `winning_word` picks it: `candidate` itself, or
    /// the nonzero word that an earlier install put there. Which of the two it is
    /// depends on other threads, so the contract states only that it is not zero.
    pub fn install(&self, candidate: usize) -> (r: usize)
        requires
            candidate != 0,
        ensures
            r != 0,
    {
        let exchange = compare_exchange_word(&self.word, 0, candidate);
        winning_word(exchange, candidate)
    }
}

} // verus!
