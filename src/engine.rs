//! The resolution engine: for each logical entry point and each dispatch family, the
//! rules that turn what the platform reports into a cached outcome, and the call
//! that the cached outcome leads to.

use vstd::prelude::*;

use crate::cell::{
    adopt_slot, adopt_target, adopted_slot, adopted_target, decode_slot, decode_target, encode_slot, encode_target, installed,
    installed_all, is_slot_outcome,
    is_target_outcome, slot_state, slot_word, target_state, target_word, OnceWord, Resolution,
    SENTINEL_LIMIT,
};
use crate::dispatch::{shape_param_count, CallShape};
use crate::error::UserCallError;

verus! {

/// What a search for an exported symbol found.
#[derive(Clone, Copy, Debug, PartialEq, Eq, Structural)]
pub enum ModuleLookup {
    /// The hosting module is not loaded.
    NoModule,
    /// The module is loaded but does not export the symbol.
    NoSymbol,
    /// The symbol's address.
    Symbol(usize),
}

/// A lookup whose address, if any, is a code address rather than a sentinel.
pub open spec fn valid_lookup(lookup: ModuleLookup) -> bool {
    match lookup {
        ModuleLookup::Symbol(a) => a >= SENTINEL_LIMIT,
        _ => true,
    }
}

/// The outcome of resolving a logical entry point as a dedicated export.
pub open spec fn export_outcome_spec(lookup: ModuleLookup) -> Resolution {
    match lookup {
        ModuleLookup::NoModule => Resolution::Failed(UserCallError::LibraryNotFound),
        ModuleLookup::NoSymbol => Resolution::Failed(UserCallError::CallNotFound),
        ModuleLookup::Symbol(a) => Resolution::Address(a),
    }
}

/// The outcome of resolving a logical entry point through the slot table.
pub open spec fn slot_outcome_spec(slot: Option<u16>) -> Resolution {
    match slot {
        Some(s) => Resolution::Slot(s),
        None => Resolution::Failed(UserCallError::CallNotFound),
    }
}

/// What to do to call a logical entry point.
#[derive(Clone, Copy, Debug, PartialEq, Eq, Structural)]
pub enum CallPlan {
    /// Fail with this error, without calling anything.
    Fail(UserCallError),
    /// Call the dedicated export at this address with the marshaled arguments.
    Direct(usize),
    /// Call the entry point's dispatch family with the arguments and this slot.
    Dispatch(u16),
    /// The cell is cold: look the dedicated export up, then `settle_export`.
    ProbeExport,
    /// The cell is cold: ask the slot table, then `settle_slot`.
    ProbeSlot,
}

/// The plan that a cell state leads to.
pub open spec fn call_plan_of(dedicated: bool, state: Resolution) -> CallPlan {
    match state {
        Resolution::Address(a) => CallPlan::Direct(a),
        Resolution::Slot(s) => CallPlan::Dispatch(s),
        Resolution::Failed(e) => CallPlan::Fail(e),
        Resolution::Unresolved => if dedicated {
            CallPlan::ProbeExport
        } else {
            CallPlan::ProbeSlot
        },
    }
}

/// The plan for an entry point whose export cell holds `export_word` and whose slot
/// cell holds `slot_word`: with dedicated syscalls only the export cell counts,
/// otherwise only the slot cell.
pub open spec fn function_plan(dedicated: bool, export_word: usize, slot_word: usize) -> CallPlan {
    if dedicated {
        call_plan_of(true, target_state(export_word))
    } else {
        call_plan_of(false, slot_state(slot_word))
    }
}

/// Whether a plan still needs a probe.
pub open spec fn is_probe(plan: CallPlan) -> bool {
    plan is ProbeExport || plan is ProbeSlot
}

/// Resolves a logical entry point as a dedicated export.
pub fn export_outcome(lookup: ModuleLookup) -> (r: Resolution)
    requires
        valid_lookup(lookup),
    ensures
        r == export_outcome_spec(lookup),
        is_target_outcome(r),
{
    match lookup {
        ModuleLookup::NoModule => Resolution::Failed(UserCallError::LibraryNotFound),
        ModuleLookup::NoSymbol => Resolution::Failed(UserCallError::CallNotFound),
        ModuleLookup::Symbol(a) => Resolution::Address(a),
    }
}

/// Resolves a logical entry point through the slot table.
pub fn slot_outcome(slot: Option<u16>) -> (r: Resolution)
    ensures
        r == slot_outcome_spec(slot),
        is_slot_outcome(r),
{
    match slot {
        Some(s) => Resolution::Slot(s),
        None => Resolution::Failed(UserCallError::CallNotFound),
    }
}

/// The plan that a cell state leads to.
pub fn plan_for(dedicated: bool, state: Resolution) -> (r: CallPlan)
    ensures
        r == call_plan_of(dedicated, state),
{
    match state {
        Resolution::Address(a) => CallPlan::Direct(a),
        Resolution::Slot(s) => CallPlan::Dispatch(s),
        Resolution::Failed(e) => CallPlan::Fail(e),
        Resolution::Unresolved => if dedicated {
            CallPlan::ProbeExport
        } else {
            CallPlan::ProbeSlot
        },
    }
}

/// The arguments of a dispatch syscall: the entry point's marshaled arguments,
/// followed by its slot.
pub fn dispatch_arguments(shape: CallShape, params: &Vec<usize>, slot: u16) -> (r: Vec<usize>)
    requires
        params@.len() == shape_param_count(shape),
    ensures
        r@ == params@.push(slot as usize),
{
    let mut r: Vec<usize> = Vec::new();
    let mut i: usize = 0;
    while i < params.len()
        invariant
            i <= params@.len(),
            r@ == params@.take(i as int),
        decreases params@.len() - i,
    {
        r.push(params[i]);
        i = i + 1;
        assert(r@ =~= params@.take(i as int));
    }
    assert(r@ =~= params@);
    r.push(slot as usize);
    r
}

/// The two write-once cells of a logical entry point: one for its dedicated export,
/// used when the operating system has dedicated syscalls, and one for its slot in the
/// dispatch table, used otherwise.
pub struct FunctionCell {
    export: OnceWord,
    slot: OnceWord,
}

impl FunctionCell {
    /// A cold cell.
    pub fn new() -> (r: Self) {
        FunctionCell { export: OnceWord::new(), slot: OnceWord::new() }
    }

    /// The plan that the cell's current contents lead to, as `plan_for` computes it
    /// from the decoded word. With dedicated syscalls the slot cell is never read, and
    /// without them the export cell is never read. The words depend on other threads,
    /// so beyond that the contract states only the plan's shape.
    pub fn plan(&self, dedicated: bool) -> (r: CallPlan)
        ensures
            dedicated ==> !(r is ProbeSlot) && !(r is Dispatch),
            !dedicated ==> !(r is ProbeExport) && !(r is Direct),
    {
        if dedicated {
            plan_for(true, decode_target(self.export.load()))
        } else {
            plan_for(false, decode_slot(self.slot.load()))
        }
    }

    /// Caches the outcome of looking the dedicated export up, unless an outcome is
    /// already cached, and returns the plan of the outcome that `adopt_target` reads
    /// from the installed word. That word may come from another thread, so the
    /// contract states only that no further probe is asked for; what is installed is
    /// `export_outcome(lookup)`.
    pub fn settle_export(&self, lookup: ModuleLookup) -> (r: CallPlan)
        requires
            valid_lookup(lookup),
        ensures
            !is_probe(r),
            !(r is Dispatch),
    {
        let outcome = export_outcome(lookup);
        let word: usize = self.export.install(encode_target(outcome));
        plan_for(true, adopt_target(word, outcome))
    }

    /// Caches the outcome of asking the slot table, unless an outcome is already
    /// cached, and returns the plan of the outcome that `adopt_slot` reads from the
    /// installed word. That word may come from another thread, so the contract states
    /// only that no further probe is asked for; what is installed is
    /// `slot_outcome(slot)`.
    pub fn settle_slot(&self, slot: Option<u16>) -> (r: CallPlan)
        ensures
            !is_probe(r),
            !(r is Direct),
    {
        let outcome = slot_outcome(slot);
        let word: usize = self.slot.install(encode_slot(outcome));
        plan_for(false, adopt_slot(word, outcome))
    }
}

/// What to do to call a dispatch family.
#[derive(Clone, Copy, Debug, PartialEq, Eq, Structural)]
pub enum FamilyPlan {
    /// Fail with this error.
    Fail(UserCallError),
    /// Call the family's syscall (its export, or a raw-syscall routine) at this address.
    Call(usize),
    /// The cell is cold: search the modules for the family's export.
    Probe,
}

/// The plan that a family cell's state leads to.
pub open spec fn family_plan_of(state: Resolution) -> FamilyPlan {
    match state {
        Resolution::Address(a) => FamilyPlan::Call(a),
        Resolution::Failed(e) => FamilyPlan::Fail(e),
        _ => FamilyPlan::Probe,
    }
}

/// The plan that a family cell's state leads to.
pub fn family_plan_for(state: Resolution) -> (r: FamilyPlan)
    ensures
        r == family_plan_of(state),
{
    match state {
        Resolution::Address(a) => FamilyPlan::Call(a),
        Resolution::Failed(e) => FamilyPlan::Fail(e),
        _ => FamilyPlan::Probe,
    }
}

/// The next step of resolving a cold family cell once the modules were searched.
#[derive(Clone, Copy, Debug, PartialEq, Eq, Structural)]
pub enum FamilyStep {
    /// Cache this outcome.
    Settle(Resolution),
    /// The export is missing: classify the release and take the raw syscall number
    /// that `CallShape::syscall_fallback` gives.
    SyscallFallback,
}

/// The step that a module search leads to for a dispatch family: no module is a
/// cached `LibraryNotFound`, an export is a cached address, and a missing export
/// falls back to the raw syscall.
pub open spec fn family_step_spec(lookup: ModuleLookup) -> FamilyStep {
    match lookup {
        ModuleLookup::NoModule => FamilyStep::Settle(
            Resolution::Failed(UserCallError::LibraryNotFound),
        ),
        ModuleLookup::Symbol(a) => FamilyStep::Settle(Resolution::Address(a)),
        ModuleLookup::NoSymbol => FamilyStep::SyscallFallback,
    }
}

/// The step that a module search leads to for a dispatch family.
pub fn family_step(lookup: ModuleLookup) -> (r: FamilyStep)
    ensures
        r == family_step_spec(lookup),
{
    match lookup {
        ModuleLookup::NoModule => FamilyStep::Settle(
            Resolution::Failed(UserCallError::LibraryNotFound),
        ),
        ModuleLookup::Symbol(a) => FamilyStep::Settle(Resolution::Address(a)),
        ModuleLookup::NoSymbol => FamilyStep::SyscallFallback,
    }
}

/// The write-once cell of a dispatch family.
pub struct FamilyCell {
    target: OnceWord,
}

impl FamilyCell {
    /// A cold cell.
    pub fn new() -> (r: Self) {
        FamilyCell { target: OnceWord::new() }
    }

    /// The plan that the cell's current contents lead to, as `family_plan_for`
    /// computes it from the decoded word; the word depends on other threads, so the
    /// contract states nothing of the result.
    pub fn plan(&self) -> (r: FamilyPlan) {
        family_plan_for(decode_target(self.target.load()))
    }

    /// Caches `outcome` unless an outcome is already cached, and returns the plan of
    /// the outcome that `adopt_target` reads from the installed word. That word may
    /// come from another thread, so the contract states only that no further probe is
    /// asked for.
    pub fn settle(&self, outcome: Resolution) -> (r: FamilyPlan)
        requires
            is_target_outcome(outcome),
        ensures
            !(r is Probe),
    {
        let word: usize = self.target.install(encode_target(outcome));
        family_plan_for(adopt_target(word, outcome))
    }
}

/// Fallback-chain selection: with dedicated syscalls an entry point's plan depends on
/// its export cell alone and never turns to the slot table; without them it depends on
/// its slot cell alone and never looks for an export. A slot found in the table leads
/// to a dispatch with that slot, and a missing slot to `CallNotFound`.
pub proof fn lemma_fallback_chain(export_word: usize, slot_word: usize, other_word: usize, s: u16)
    ensures
        function_plan(true, export_word, slot_word) == function_plan(true, export_word, other_word),
        !(function_plan(true, export_word, slot_word) is ProbeSlot),
        !(function_plan(true, export_word, slot_word) is Dispatch),
        function_plan(false, export_word, slot_word) == function_plan(false, other_word, slot_word),
        !(function_plan(false, export_word, slot_word) is ProbeExport),
        !(function_plan(false, export_word, slot_word) is Direct),
        call_plan_of(false, slot_outcome_spec(Some(s))) == CallPlan::Dispatch(s),
        call_plan_of(false, slot_outcome_spec(None)) == CallPlan::Fail(UserCallError::CallNotFound),
{
}

/// Idempotent resolution: once an entry point's cold cells have been settled, the
/// plan stays the plan of the settled outcome, which asks for no further probe,
/// whatever other outcomes are installed later.
pub proof fn lemma_resolution_idempotent(
    dedicated: bool,
    lookup: ModuleLookup,
    slot: Option<u16>,
    later: Seq<usize>,
)
    requires
        valid_lookup(lookup),
        forall|i: int| 0 <= i < later.len() ==> later[i] != 0,
    ensures
        ({
            let export_word = installed_all(
                installed(0, target_word(export_outcome_spec(lookup))),
                later,
            );
            let slot_word = installed_all(installed(0, slot_word(slot_outcome_spec(slot))), later);
            let plan = function_plan(dedicated, export_word, slot_word);
            &&& plan == (if dedicated {
                call_plan_of(true, export_outcome_spec(lookup))
            } else {
                call_plan_of(false, slot_outcome_spec(slot))
            })
            &&& !is_probe(plan)
        }),
{
    let e = export_outcome_spec(lookup);
    let o = slot_outcome_spec(slot);
    crate::cell::lemma_target_round_trip(e);
    crate::cell::lemma_slot_round_trip(o);
    crate::cell::lemma_install_converges(target_word(e), later);
    crate::cell::lemma_install_converges(slot_word(o), later);
}

/// A dispatch family is probed at most once: after its cold cell is settled with an
/// outcome, its plan stays the plan of that outcome, a call or a failure, whatever
/// other outcomes are installed later.
pub proof fn lemma_family_resolution_idempotent(outcome: Resolution, later: Seq<usize>)
    requires
        is_target_outcome(outcome),
        forall|i: int| 0 <= i < later.len() ==> later[i] != 0,
    ensures
        family_plan_of(target_state(installed_all(installed(0, target_word(outcome)), later)))
            == family_plan_of(outcome),
        !(family_plan_of(outcome) is Probe),
{
    crate::cell::lemma_target_round_trip(outcome);
    crate::cell::lemma_install_converges(target_word(outcome), later);
}

/// The plan that a settle call of an entry point returns, given the word that its
/// compare-and-set left in the cell: `settle_export` with dedicated syscalls,
/// `settle_slot` without them.
pub open spec fn settled_plan(
    dedicated: bool,
    word: usize,
    lookup: ModuleLookup,
    slot: Option<u16>,
) -> CallPlan {
    if dedicated {
        call_plan_of(true, adopted_target(word, export_outcome_spec(lookup)))
    } else {
        call_plan_of(false, adopted_slot(word, slot_outcome_spec(slot)))
    }
}

/// The word that an entry point's outcome is installed as.
pub open spec fn outcome_word(dedicated: bool, lookup: ModuleLookup, slot: Option<u16>) -> usize {
    if dedicated {
        target_word(export_outcome_spec(lookup))
    } else {
        slot_word(slot_outcome_spec(slot))
    }
}

/// Concurrency convergence: when racing resolvers of one cold entry point install
/// their outcomes one compare-and-set after another, each settle call returns the
/// plan of the first outcome installed, so all succeed with one target or all fail
/// with one error.
pub proof fn lemma_racing_resolvers_agree(
    dedicated: bool,
    lookups: Seq<ModuleLookup>,
    slots: Seq<Option<u16>>,
)
    requires
        forall|i: int| 0 <= i < lookups.len() ==> valid_lookup(#[trigger] lookups[i]),
        lookups.len() > 0,
        slots.len() == lookups.len(),
    ensures
        ({
            let words = Seq::new(
                lookups.len(),
                |i: int| outcome_word(dedicated, lookups[i], slots[i]),
            );
            forall|i: int|
                0 <= i < lookups.len() ==> #[trigger] settled_plan(
                    dedicated,
                    installed(installed_all(0, words.take(i)), words[i]),
                    lookups[i],
                    slots[i],
                ) == settled_plan(dedicated, words[0], lookups[0], slots[0])
                    && settled_plan(dedicated, words[0], lookups[0], slots[0]) == (if dedicated {
                    call_plan_of(true, export_outcome_spec(lookups[0]))
                } else {
                    call_plan_of(false, slot_outcome_spec(slots[0]))
                })
        }),
{
    let words = Seq::new(lookups.len(), |i: int| outcome_word(dedicated, lookups[i], slots[i]));
    assert forall|i: int| 0 <= i < words.len() implies words[i] != 0 by {
        crate::cell::lemma_target_round_trip(export_outcome_spec(lookups[i]));
        crate::cell::lemma_slot_round_trip(slot_outcome_spec(slots[i]));
    }
    crate::cell::lemma_install_converges(0, words);
    crate::cell::lemma_target_round_trip(export_outcome_spec(lookups[0]));
    crate::cell::lemma_slot_round_trip(slot_outcome_spec(slots[0]));
    assert forall|i: int| 0 <= i < lookups.len() implies #[trigger] settled_plan(
        dedicated,
        installed(installed_all(0, words.take(i)), words[i]),
        lookups[i],
        slots[i],
    ) == settled_plan(dedicated, words[0], lookups[0], slots[0]) by {
        if i == 0 {
            assert(words.take(0).len() == 0);
            assert(installed_all(0, words.take(0)) == 0);
        } else {
            assert(installed(installed_all(0, words.take(i)), words[i]) == words[0]);
        }
    }
}

} // verus!
