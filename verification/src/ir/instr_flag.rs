//! Injection buckets: what a pass asks to be inserted around one instruction
//! or at the boundaries of one function.
//!
//! A flag has a selected mode, which names the bucket that `add_instr` and
//! `get_instr` act on. No bucket is selected at first. Selecting another mode
//! leaves every bucket as it is, so several passes can add to one flag.

use vstd::prelude::*;
use vstd::string::StringExecFns;
use wasmparser::Operator;
use crate::error::Error;
use crate::ir::operator::{classify, ops_eq, ops_equal, shape_of, OpShape};
use crate::text::{decimal, push_decimal};

verus! {

/// The two places of a function where operations can be injected.
#[derive(Debug, Clone, Copy, PartialEq, Eq, Structural)]
pub enum FuncInstrMode {
    Entry,
    Exit,
}

/// The seven buckets of an instruction's flag.
///
/// `Alternate` and `BlockAlt` are replacement slots with three states:
/// unset (the instruction stands), set to the empty sequence (the
/// instruction is removed) and set to a sequence (which takes the place of
/// the instruction). The last four are the special modes: where their
/// operations end up depends on the control structure around the
/// instruction, and each applies only to operations of some shapes.
#[derive(Clone, Copy, Debug, Eq, Hash, PartialEq, Structural)]
pub enum InstrumentationMode {
    Before,
    After,
    Alternate,
    SemanticAfter,
    BlockEntry,
    BlockExit,
    BlockAlt,
}

impl InstrumentationMode {
    /// Whether the mode is one of the four special modes.
    pub open spec fn spec_is_special(self) -> bool {
        match self {
            InstrumentationMode::Before
            | InstrumentationMode::After
            | InstrumentationMode::Alternate => false,
            InstrumentationMode::SemanticAfter
            | InstrumentationMode::BlockEntry
            | InstrumentationMode::BlockExit
            | InstrumentationMode::BlockAlt => true,
        }
    }

    /// Whether the mode is one of the four special modes.
    #[verifier::when_used_as_spec(spec_is_special)]
    pub fn is_special(self) -> (r: bool)
        ensures
            r == self.spec_is_special(),
    {
        match self {
            InstrumentationMode::Before
            | InstrumentationMode::After
            | InstrumentationMode::Alternate => false,
            InstrumentationMode::SemanticAfter
            | InstrumentationMode::BlockEntry
            | InstrumentationMode::BlockExit
            | InstrumentationMode::BlockAlt => true,
        }
    }

    /// Whether the mode applies to an operation of the given shape.
    ///
    /// The three ordinary modes apply to every operation. `SemanticAfter`
    /// applies to block-style and branching operations, the three block
    /// modes to block-style operations only.
    pub open spec fn spec_accepts(self, shape: OpShape) -> bool {
        match self {
            InstrumentationMode::Before
            | InstrumentationMode::After
            | InstrumentationMode::Alternate => true,
            InstrumentationMode::SemanticAfter => shape == OpShape::BlockStyle || shape
                == OpShape::Branching,
            InstrumentationMode::BlockEntry
            | InstrumentationMode::BlockExit
            | InstrumentationMode::BlockAlt => shape == OpShape::BlockStyle,
        }
    }

    /// Whether the mode applies to an operation of the given shape.
    #[verifier::when_used_as_spec(spec_accepts)]
    pub fn accepts(self, shape: OpShape) -> (r: bool)
        ensures
            r == self.spec_accepts(shape),
    {
        match self {
            InstrumentationMode::Before
            | InstrumentationMode::After
            | InstrumentationMode::Alternate => true,
            InstrumentationMode::SemanticAfter => shape == OpShape::BlockStyle || shape
                == OpShape::Branching,
            InstrumentationMode::BlockEntry
            | InstrumentationMode::BlockExit
            | InstrumentationMode::BlockAlt => shape == OpShape::BlockStyle,
        }
    }
}

/// A replacement slot as a mathematical value: `None` while unset.
pub open spec fn slot_view<'a>(slot: Option<Vec<Operator<'a>>>) -> Option<Seq<Operator<'a>>> {
    match slot {
        None => None,
        Some(v) => Some(v@),
    }
}

/// A replacement slot after one more operation: an unset slot becomes the
/// sequence of that one operation.
pub open spec fn slot_added<'a>(slot: Option<Seq<Operator<'a>>>, val: Operator<'a>) -> Option<
    Seq<Operator<'a>>,
> {
    match slot {
        None => Some(seq![val]),
        Some(s) => Some(s.push(val)),
    }
}

/// Whether two replacement slots are equal: both unset, or both set to
/// sequences that are equal.
pub open spec fn slots_equal<'a>(
    a: Option<Seq<Operator<'a>>>,
    b: Option<Seq<Operator<'a>>>,
) -> bool {
    match (a, b) {
        (None, None) => true,
        (Some(x), Some(y)) => ops_equal(x, y),
        _ => false,
    }
}

/// The state of an instruction's flag as mathematical values.
pub struct FlagView<'a> {
    pub current_mode: Option<InstrumentationMode>,
    pub before: Seq<Operator<'a>>,
    pub after: Seq<Operator<'a>>,
    pub alternate: Option<Seq<Operator<'a>>>,
    pub semantic_after: Seq<Operator<'a>>,
    pub block_entry: Seq<Operator<'a>>,
    pub block_exit: Seq<Operator<'a>>,
    pub block_alt: Option<Seq<Operator<'a>>>,
}

impl<'a> FlagView<'a> {
    /// No mode selected, every bucket empty, both slots unset.
    pub open spec fn empty() -> Self {
        FlagView {
            current_mode: None,
            before: Seq::empty(),
            after: Seq::empty(),
            alternate: None,
            semantic_after: Seq::empty(),
            block_entry: Seq::empty(),
            block_exit: Seq::empty(),
            block_alt: None,
        }
    }

    /// The content of the bucket that `mode` names; `None` for a
    /// replacement slot that is unset.
    pub open spec fn bucket(self, mode: InstrumentationMode) -> Option<Seq<Operator<'a>>> {
        match mode {
            InstrumentationMode::Before => Some(self.before),
            InstrumentationMode::After => Some(self.after),
            InstrumentationMode::Alternate => self.alternate,
            InstrumentationMode::SemanticAfter => Some(self.semantic_after),
            InstrumentationMode::BlockEntry => Some(self.block_entry),
            InstrumentationMode::BlockExit => Some(self.block_exit),
            InstrumentationMode::BlockAlt => self.block_alt,
        }
    }

    /// The flag with `mode` selected and every bucket as before.
    pub open spec fn entered(self, mode: InstrumentationMode) -> Self {
        FlagView { current_mode: Some(mode), ..self }
    }

    /// The flag with `val` appended to the bucket that `mode` names, and
    /// everything else as before.
    pub open spec fn added(self, mode: InstrumentationMode, val: Operator<'a>) -> Self {
        match mode {
            InstrumentationMode::Before => FlagView { before: self.before.push(val), ..self },
            InstrumentationMode::After => FlagView { after: self.after.push(val), ..self },
            InstrumentationMode::Alternate => FlagView {
                alternate: slot_added(self.alternate, val),
                ..self
            },
            InstrumentationMode::SemanticAfter => FlagView {
                semantic_after: self.semantic_after.push(val),
                ..self
            },
            InstrumentationMode::BlockEntry => FlagView {
                block_entry: self.block_entry.push(val),
                ..self
            },
            InstrumentationMode::BlockExit => FlagView {
                block_exit: self.block_exit.push(val),
                ..self
            },
            InstrumentationMode::BlockAlt => FlagView {
                block_alt: slot_added(self.block_alt, val),
                ..self
            },
        }
    }

    /// The flag with the bucket that `mode` names emptied, or unset where it
    /// is a replacement slot, and everything else as before.
    pub open spec fn cleared(self, mode: InstrumentationMode) -> Self {
        match mode {
            InstrumentationMode::Before => FlagView { before: Seq::empty(), ..self },
            InstrumentationMode::After => FlagView { after: Seq::empty(), ..self },
            InstrumentationMode::Alternate => FlagView { alternate: None, ..self },
            InstrumentationMode::SemanticAfter => FlagView { semantic_after: Seq::empty(), ..self },
            InstrumentationMode::BlockEntry => FlagView { block_entry: Seq::empty(), ..self },
            InstrumentationMode::BlockExit => FlagView { block_exit: Seq::empty(), ..self },
            InstrumentationMode::BlockAlt => FlagView { block_alt: None, ..self },
        }
    }

    /// Some bucket is not empty, or a replacement slot is set. A slot set to
    /// the empty sequence counts: it asks for the instruction to be removed.
    pub open spec fn has_injection(self) -> bool {
        ||| self.before.len() > 0
        ||| self.after.len() > 0
        ||| self.alternate is Some
        ||| self.semantic_after.len() > 0
        ||| self.block_entry.len() > 0
        ||| self.block_exit.len() > 0
        ||| self.block_alt is Some
    }

    /// Whether two flags are equal: the same mode, and every bucket equal.
    pub open spec fn same(self, other: Self) -> bool {
        &&& ops_equal(self.before, other.before)
        &&& ops_equal(self.after, other.after)
        &&& slots_equal(self.alternate, other.alternate)
        &&& ops_equal(self.semantic_after, other.semantic_after)
        &&& ops_equal(self.block_entry, other.block_entry)
        &&& ops_equal(self.block_exit, other.block_exit)
        &&& slots_equal(self.block_alt, other.block_alt)
        &&& self.current_mode == other.current_mode
    }
}

/// The description of a flag whose two replacement slots are set.
pub open spec fn flag_text(flag: FlagView) -> Seq<char> {
    "Before: "@ + decimal(flag.before.len()) + " instructions\n After: "@ + decimal(
        flag.after.len(),
    ) + " instructions\n Alternate: "@ + decimal(flag.alternate.unwrap().len())
        + " instructions\n Semantic After: "@ + decimal(flag.semantic_after.len())
        + " instructions\n Block Entry: "@ + decimal(flag.block_entry.len())
        + " instructions\n Block Exit: "@ + decimal(flag.block_exit.len())
        + " instructions\n Block Alt: "@ + decimal(flag.block_alt.unwrap().len())
        + " instructions"@
}

/// What `add_instr` returns on a flag in state `flag` for an operation of
/// shape `shape`: an error while no mode is selected or the selected mode
/// does not apply to the shape, else whether the mode is a special one.
pub open spec fn add_result(flag: FlagView, shape: OpShape) -> Result<bool, Error> {
    match flag.current_mode {
        None => Err(Error::ModeNotSet),
        Some(mode) => if mode.spec_accepts(shape) {
            Ok(mode.spec_is_special())
        } else {
            Err(Error::ModeNotApplicable { mode, shape })
        },
    }
}

/// The state of a flag after `add_instr` of `val` for an operation of shape
/// `shape`: `val` appended to the selected bucket where the call succeeds,
/// unchanged where it fails.
pub open spec fn add_state<'a>(flag: FlagView<'a>, shape: OpShape, val: Operator<'a>) -> FlagView<
    'a,
> {
    match flag.current_mode {
        Some(mode) if mode.spec_accepts(shape) => flag.added(mode, val),
        _ => flag,
    }
}

/// The mode gate: an addition succeeds exactly where a mode is selected and
/// applies to the shape of the operation. The three ordinary modes apply to
/// every shape; `SemanticAfter` applies to block-style and branching
/// operations and to no other; `BlockEntry`, `BlockExit` and `BlockAlt`
/// apply to block-style operations and to no other. A special mode never
/// falls back to an ordinary bucket: a rejected addition changes nothing.
pub proof fn lemma_mode_gate(flag: FlagView, shape: OpShape, val: Operator)
    ensures
        add_result(flag, shape) is Ok <==> (flag.current_mode matches Some(mode)
            && mode.spec_accepts(shape)),
        add_result(flag, shape) is Err ==> add_state(flag, shape, val) == flag,
        forall|mode: InstrumentationMode| !mode.spec_is_special() ==> mode.spec_accepts(shape),
        InstrumentationMode::SemanticAfter.spec_accepts(shape) <==> shape != OpShape::Ordinary,
        InstrumentationMode::BlockEntry.spec_accepts(shape) <==> shape == OpShape::BlockStyle,
        InstrumentationMode::BlockExit.spec_accepts(shape) <==> shape == OpShape::BlockStyle,
        InstrumentationMode::BlockAlt.spec_accepts(shape) <==> shape == OpShape::BlockStyle,
        forall|mode: InstrumentationMode|
            flag.current_mode == Some(mode) && mode.spec_accepts(shape) ==> add_result(flag, shape)
                == Ok::<bool, Error>(mode.spec_is_special()),
{
}

/// The three states of a replacement slot: clearing unsets it, whatever it
/// held; the first addition to an unset slot sets it to the sequence of
/// that one operation; and a slot that is set, be it to the empty sequence,
/// counts as an injection, while a flag without anything added has none.
pub proof fn lemma_replacement_slot(flag: FlagView, val: Operator)
    ensures
        flag.cleared(InstrumentationMode::Alternate).alternate is None,
        flag.cleared(InstrumentationMode::BlockAlt).block_alt is None,
        flag.cleared(InstrumentationMode::Alternate).added(
            InstrumentationMode::Alternate,
            val,
        ).alternate == Some(seq![val]),
        flag.cleared(InstrumentationMode::BlockAlt).added(
            InstrumentationMode::BlockAlt,
            val,
        ).block_alt == Some(seq![val]),
        flag.alternate is Some || flag.block_alt is Some ==> flag.has_injection(),
        !FlagView::empty().has_injection(),
        FlagView::empty().alternate is None,
        FlagView::empty().block_alt is None,
{
}

/// What `get_instr` returns on a flag in state `flag` at index `idx`.
pub open spec fn get_result<'a>(flag: FlagView<'a>, idx: usize) -> Result<Operator<'a>, Error> {
    match flag.current_mode {
        None => Err(Error::ModeNotSet),
        Some(mode) => match flag.bucket(mode) {
            None => Err(Error::NoReplacement),
            Some(s) => if idx < s.len() {
                Ok(s[idx as int])
            } else {
                Err(Error::IndexOutOfRange)
            },
        },
    }
}

/// The operation at `idx` of a bucket.
fn bucket_get<'b, 'a>(bucket: &'b Vec<Operator<'a>>, idx: usize) -> (r: Result<
    &'b Operator<'a>,
    Error,
>)
    ensures
        idx < bucket@.len() ==> r == Ok::<&Operator, Error>(&bucket@[idx as int]),
        idx >= bucket@.len() ==> r == Err::<&Operator, Error>(Error::IndexOutOfRange),
{
    if idx < bucket.len() {
        Ok(&bucket[idx])
    } else {
        Err(Error::IndexOutOfRange)
    }
}

/// The operation at `idx` of a replacement slot.
fn slot_get<'b, 'a>(slot: &'b Option<Vec<Operator<'a>>>, idx: usize) -> (r: Result<
    &'b Operator<'a>,
    Error,
>)
    ensures
        match slot_view(*slot) {
            None => r == Err::<&Operator, Error>(Error::NoReplacement),
            Some(s) => if idx < s.len() {
                r == Ok::<&Operator, Error>(&s[idx as int])
            } else {
                r == Err::<&Operator, Error>(Error::IndexOutOfRange)
            },
        },
{
    match slot {
        None => Err(Error::NoReplacement),
        Some(v) => bucket_get(v, idx),
    }
}

/// Appends `val` to a replacement slot, setting it first where it is unset.
fn slot_push<'a>(slot: &mut Option<Vec<Operator<'a>>>, val: Operator<'a>)
    ensures
        slot_view(*final(slot)) == slot_added(slot_view(*old(slot)), val),
{
    match slot.take() {
        None => {
            let mut v: Vec<Operator<'a>> = Vec::new();
            v.push(val);
            *slot = Some(v);
        },
        Some(mut v) => {
            v.push(val);
            *slot = Some(v);
        },
    }
}

/// The number of operations in a replacement slot that is set.
fn slot_len(slot: &Option<Vec<Operator>>) -> (n: usize)
    requires
        *slot is Some,
    ensures
        n == slot_view(*slot).unwrap().len(),
{
    match slot {
        Some(v) => v.len(),
        None => 0,
    }
}

/// A copy of a bucket.
fn bucket_clone<'a>(bucket: &Vec<Operator<'a>>) -> (copy: Vec<Operator<'a>>)
    ensures
        copy@ == bucket@,
{
    bucket.clone()
}

/// A copy of a replacement slot.
fn slot_clone<'a>(slot: &Option<Vec<Operator<'a>>>) -> (copy: Option<Vec<Operator<'a>>>)
    ensures
        slot_view(copy) == slot_view(*slot),
{
    match slot {
        None => None,
        Some(v) => Some(bucket_clone(v)),
    }
}

/// Whether two replacement slots are equal.
fn slot_eq(a: &Option<Vec<Operator>>, b: &Option<Vec<Operator>>) -> (r: bool)
    ensures
        r == slots_equal(slot_view(*a), slot_view(*b)),
{
    match (a, b) {
        (None, None) => true,
        (Some(x), Some(y)) => ops_eq(x, y),
        _ => false,
    }
}

/// Instrumentation that is stored with every instruction.
#[derive(Debug)]
pub struct InstrumentationFlag<'a> {
    /// The bucket that `add_instr` and `get_instr` act on.
    pub current_mode: Option<InstrumentationMode>,
    pub before: Vec<Operator<'a>>,
    pub after: Vec<Operator<'a>>,
    /// `None`: the instruction stands. `Some` of an empty sequence: the
    /// instruction is removed. `Some` of a sequence: that sequence takes the
    /// instruction's place.
    pub alternate: Option<Vec<Operator<'a>>>,
    pub semantic_after: Vec<Operator<'a>>,
    pub block_entry: Vec<Operator<'a>>,
    pub block_exit: Vec<Operator<'a>>,
    /// As `alternate`, for the body of the block that the instruction opens.
    pub block_alt: Option<Vec<Operator<'a>>>,
}

impl<'a> View for InstrumentationFlag<'a> {
    type V = FlagView<'a>;

    open spec fn view(&self) -> FlagView<'a> {
        FlagView {
            current_mode: self.current_mode,
            before: self.before@,
            after: self.after@,
            alternate: slot_view(self.alternate),
            semantic_after: self.semantic_after@,
            block_entry: self.block_entry@,
            block_exit: self.block_exit@,
            block_alt: slot_view(self.block_alt),
        }
    }
}

impl<'a> Default for InstrumentationFlag<'a> {
    /// A flag without a selected mode and without any injection.
    fn default() -> (flag: Self)
        ensures
            flag@ == FlagView::empty(),
            !flag@.has_injection(),
    {
        InstrumentationFlag {
            current_mode: None,
            before: Vec::new(),
            after: Vec::new(),
            alternate: None,
            semantic_after: Vec::new(),
            block_entry: Vec::new(),
            block_exit: Vec::new(),
            block_alt: None,
        }
    }
}

impl<'a> Clone for InstrumentationFlag<'a> {
    /// A flag in the same state.
    fn clone(&self) -> (flag: Self)
        ensures
            flag@ == self@,
    {
        InstrumentationFlag {
            current_mode: self.current_mode,
            before: bucket_clone(&self.before),
            after: bucket_clone(&self.after),
            alternate: slot_clone(&self.alternate),
            semantic_after: bucket_clone(&self.semantic_after),
            block_entry: bucket_clone(&self.block_entry),
            block_exit: bucket_clone(&self.block_exit),
            block_alt: slot_clone(&self.block_alt),
        }
    }
}

impl<'a> PartialEq for InstrumentationFlag<'a> {
    /// Two flags are equal where they have the same mode selected and every
    /// bucket of one equals that bucket of the other.
    fn eq(&self, other: &Self) -> (r: bool) {
        let mut result = ops_eq(&self.before, &other.before);
        result = result && ops_eq(&self.after, &other.after);
        result = result && slot_eq(&self.alternate, &other.alternate);
        result = result && ops_eq(&self.semantic_after, &other.semantic_after);
        result = result && ops_eq(&self.block_entry, &other.block_entry);
        result = result && ops_eq(&self.block_exit, &other.block_exit);
        result = result && slot_eq(&self.block_alt, &other.block_alt);
        result = result && self.current_mode == other.current_mode;
        result
    }
}

impl<'a> vstd::std_specs::cmp::PartialEqSpecImpl for InstrumentationFlag<'a> {
    open spec fn obeys_eq_spec() -> bool {
        true
    }

    open spec fn eq_spec(&self, other: &Self) -> bool {
        self@.same(other@)
    }
}

impl<'a> Eq for InstrumentationFlag<'a> {

}

impl<'a> InstrumentationFlag<'a> {
    /// Selects the bucket that `add_instr` and `get_instr` act on. The
    /// buckets keep what they hold.
    pub fn enter_mode(&mut self, mode: InstrumentationMode)
        ensures
            final(self)@ == old(self)@.entered(mode),
    {
        self.current_mode = Some(mode);
    }

    /// Whether anything is injected at the instruction: some bucket holds an
    /// operation, or a replacement slot is set, be it to the empty sequence.
    pub fn has_instr(&self) -> (r: bool)
        ensures
            r == self@.has_injection(),
    {
        !self.before.is_empty() || !self.after.is_empty() || !self.alternate.is_none()
            || !self.semantic_after.is_empty() || !self.block_entry.is_empty()
            || !self.block_exit.is_empty() || !self.block_alt.is_none()
    }

    /// Appends `val` to the selected bucket, for an instruction whose
    /// operation has the shape `shape`.
    ///
    /// Fails with `Error::ModeNotSet` while no mode is selected, and with
    /// `Error::ModeNotApplicable` where the selected mode does not apply to
    /// the shape; the flag is then unchanged. Otherwise returns whether the
    /// selected mode is a special one.
    pub fn add_instr_for(&mut self, shape: OpShape, val: Operator<'a>) -> (r: Result<bool, Error>)
        ensures
            r == add_result(old(self)@, shape),
            final(self)@ == add_state(old(self)@, shape, val),
            r is Ok <==> (old(self)@.current_mode matches Some(mode) && mode.spec_accepts(shape)),
            r is Err ==> *final(self) == *old(self),
    {
        let mode = match self.current_mode {
            None => {
                return Err(Error::ModeNotSet);
            },
            Some(mode) => mode,
        };
        if !mode.accepts(shape) {
            return Err(Error::ModeNotApplicable { mode, shape });
        }
        match mode {
            InstrumentationMode::Before => self.before.push(val),
            InstrumentationMode::After => self.after.push(val),
            InstrumentationMode::Alternate => slot_push(&mut self.alternate, val),
            InstrumentationMode::SemanticAfter => self.semantic_after.push(val),
            InstrumentationMode::BlockEntry => self.block_entry.push(val),
            InstrumentationMode::BlockExit => self.block_exit.push(val),
            InstrumentationMode::BlockAlt => slot_push(&mut self.block_alt, val),
        }
        Ok(mode.is_special())
    }

    /// Appends `val` to the selected bucket of the flag of an instruction
    /// whose operation is `op`.
    ///
    /// The shape of `op` decides whether the selected mode applies, as in
    /// [`InstrumentationFlag::add_instr_for`].
    pub fn add_instr(&mut self, op: &Operator, val: Operator<'a>) -> (r: Result<bool, Error>)
        ensures
            r == add_result(old(self)@, shape_of(*op)),
            final(self)@ == add_state(old(self)@, shape_of(*op), val),
            r is Ok <==> (old(self)@.current_mode matches Some(mode) && mode.spec_accepts(
                shape_of(*op),
            )),
            r is Err ==> *final(self) == *old(self),
    {
        let shape = classify(op);
        self.add_instr_for(shape, val)
    }

    /// Empties the bucket that `mode` names. A replacement slot becomes
    /// unset, not set to the empty sequence.
    pub fn clear_instr(&mut self, mode: InstrumentationMode)
        ensures
            final(self)@ == old(self)@.cleared(mode),
    {
        match mode {
            InstrumentationMode::Before => self.before.clear(),
            InstrumentationMode::After => self.after.clear(),
            InstrumentationMode::Alternate => {
                self.alternate = None;
            },
            InstrumentationMode::SemanticAfter => self.semantic_after.clear(),
            InstrumentationMode::BlockEntry => self.block_entry.clear(),
            InstrumentationMode::BlockExit => self.block_exit.clear(),
            InstrumentationMode::BlockAlt => {
                self.block_alt = None;
            },
        }
    }

    /// The description of the flag: the number of operations in each
    /// bucket, one bucket to a line.
    ///
    /// Both replacement slots must be set: an unset slot has no number of
    /// operations to print.
    pub fn to_string(&self) -> (text: String)
        requires
            self.alternate is Some,
            self.block_alt is Some,
        ensures
            text@ == flag_text(self@),
    {
        let mut text = String::from_str("Before: ");
        push_decimal(&mut text, self.before.len() as u64);
        text.append(" instructions\n After: ");
        push_decimal(&mut text, self.after.len() as u64);
        text.append(" instructions\n Alternate: ");
        push_decimal(&mut text, slot_len(&self.alternate) as u64);
        text.append(" instructions\n Semantic After: ");
        push_decimal(&mut text, self.semantic_after.len() as u64);
        text.append(" instructions\n Block Entry: ");
        push_decimal(&mut text, self.block_entry.len() as u64);
        text.append(" instructions\n Block Exit: ");
        push_decimal(&mut text, self.block_exit.len() as u64);
        text.append(" instructions\n Block Alt: ");
        push_decimal(&mut text, slot_len(&self.block_alt) as u64);
        text.append(" instructions");
        text
    }

    /// The operation at `idx` of the selected bucket.
    ///
    /// Fails with `Error::ModeNotSet` while no mode is selected, with
    /// `Error::NoReplacement` where the selected bucket is a replacement slot
    /// that is unset, and with `Error::IndexOutOfRange` where the bucket has
    /// no entry `idx`.
    pub fn get_instr(&self, idx: usize) -> (r: Result<&Operator<'a>, Error>)
        ensures
            match get_result(self@, idx) {
                Ok(op) => r == Ok::<&Operator, Error>(&op),
                Err(e) => r == Err::<&Operator, Error>(e),
            },
    {
        match self.current_mode {
            None => Err(Error::ModeNotSet),
            Some(InstrumentationMode::Before) => bucket_get(&self.before, idx),
            Some(InstrumentationMode::After) => bucket_get(&self.after, idx),
            Some(InstrumentationMode::Alternate) => slot_get(&self.alternate, idx),
            Some(InstrumentationMode::SemanticAfter) => bucket_get(&self.semantic_after, idx),
            Some(InstrumentationMode::BlockEntry) => bucket_get(&self.block_entry, idx),
            Some(InstrumentationMode::BlockExit) => bucket_get(&self.block_exit, idx),
            Some(InstrumentationMode::BlockAlt) => slot_get(&self.block_alt, idx),
        }
    }
}

/// The state of a function's flag as mathematical values.
pub struct FuncFlagView<'a> {
    pub has_special_instr: bool,
    pub current_mode: Option<FuncInstrMode>,
    pub entry: Seq<Operator<'a>>,
    pub exit: Seq<Operator<'a>>,
}

impl<'a> FuncFlagView<'a> {
    /// No mode selected, both buckets empty, no special injection recorded.
    pub open spec fn empty() -> Self {
        FuncFlagView {
            has_special_instr: false,
            current_mode: None,
            entry: Seq::empty(),
            exit: Seq::empty(),
        }
    }

    /// The content of the bucket that `mode` names.
    pub open spec fn bucket(self, mode: FuncInstrMode) -> Seq<Operator<'a>> {
        match mode {
            FuncInstrMode::Entry => self.entry,
            FuncInstrMode::Exit => self.exit,
        }
    }

    /// The flag with `mode` selected and both buckets as before.
    pub open spec fn entered(self, mode: FuncInstrMode) -> Self {
        FuncFlagView { current_mode: Some(mode), ..self }
    }

    /// The flag with `val` appended to the bucket that `mode` names, and
    /// everything else as before: the other bucket, the selected mode, and
    /// the record of special injections at instructions.
    pub open spec fn added(self, mode: FuncInstrMode, val: Operator<'a>) -> Self {
        match mode {
            FuncInstrMode::Entry => FuncFlagView { entry: self.entry.push(val), ..self },
            FuncInstrMode::Exit => FuncFlagView { exit: self.exit.push(val), ..self },
        }
    }

    /// One of the two buckets is not empty.
    pub open spec fn has_injection(self) -> bool {
        self.entry.len() > 0 || self.exit.len() > 0
    }

    /// Whether two flags are equal: the same record of special injections,
    /// both buckets equal, and a mode selected in both or in neither.
    pub open spec fn same(self, other: Self) -> bool {
        &&& self.has_special_instr == other.has_special_instr
        &&& ops_equal(self.entry, other.entry)
        &&& ops_equal(self.exit, other.exit)
        &&& (self.current_mode is Some) == (other.current_mode is Some)
    }
}

/// The description of a function's flag: `Not Instrumented` where both
/// buckets are empty, then the record of special injections and the number
/// of operations in each bucket, one to a line.
pub open spec fn func_flag_text(flag: FuncFlagView) -> Seq<char> {
    (if flag.has_injection() {
        Seq::<char>::empty()
    } else {
        "Not Instrumented"@
    }) + "Has special instrumentation: "@ + (if flag.has_special_instr {
        "true"@
    } else {
        "false"@
    }) + "\n Func Entry: "@ + decimal(flag.entry.len()) + " instructions\n Func Exit: "@
        + decimal(flag.exit.len()) + " instructions"@
}

/// What `get_instr` returns on a function's flag in state `flag` at index
/// `idx`.
pub open spec fn func_get_result<'a>(flag: FuncFlagView<'a>, idx: usize) -> Result<
    Operator<'a>,
    Error,
> {
    match flag.current_mode {
        None => Err(Error::ModeNotSet),
        Some(mode) => if idx < flag.bucket(mode).len() {
            Ok(flag.bucket(mode)[idx as int])
        } else {
            Err(Error::IndexOutOfRange)
        },
    }
}

/// Instrumentation that is stored with every function.
#[derive(Debug)]
pub struct FuncInstrFlag<'a> {
    /// Whether some instruction of the function has an injection in a
    /// special mode. The pass that injects keeps this up to date from what
    /// `Instruction::add_instr` returns; an injection at the entry or the
    /// exit of the function does not touch it.
    pub has_special_instr: bool,
    /// The bucket that `add_instr` and `get_instr` act on.
    pub current_mode: Option<FuncInstrMode>,
    pub entry: Vec<Operator<'a>>,
    pub exit: Vec<Operator<'a>>,
}

impl<'a> View for FuncInstrFlag<'a> {
    type V = FuncFlagView<'a>;

    open spec fn view(&self) -> FuncFlagView<'a> {
        FuncFlagView {
            has_special_instr: self.has_special_instr,
            current_mode: self.current_mode,
            entry: self.entry@,
            exit: self.exit@,
        }
    }
}

impl<'a> Default for FuncInstrFlag<'a> {
    /// A flag without a selected mode and without any injection.
    fn default() -> (flag: Self)
        ensures
            flag@ == FuncFlagView::empty(),
            !flag@.has_injection(),
    {
        FuncInstrFlag {
            has_special_instr: false,
            current_mode: None,
            entry: Vec::new(),
            exit: Vec::new(),
        }
    }
}

impl<'a> Clone for FuncInstrFlag<'a> {
    /// A flag in the same state.
    fn clone(&self) -> (flag: Self)
        ensures
            flag@ == self@,
    {
        FuncInstrFlag {
            has_special_instr: self.has_special_instr,
            current_mode: self.current_mode,
            entry: bucket_clone(&self.entry),
            exit: bucket_clone(&self.exit),
        }
    }
}

impl<'a> PartialEq for FuncInstrFlag<'a> {
    /// Two flags are equal where they carry the same record of special
    /// injections, each bucket of one equals that bucket of the other, and
    /// either both have a mode selected or neither has. Which mode is
    /// selected is not compared.
    fn eq(&self, other: &Self) -> (r: bool) {
        let mut result = self.has_special_instr == other.has_special_instr;
        result = result && ops_eq(&self.entry, &other.entry);
        result = result && ops_eq(&self.exit, &other.exit);
        result = result && self.current_mode.is_some() == other.current_mode.is_some();
        result
    }
}

impl<'a> vstd::std_specs::cmp::PartialEqSpecImpl for FuncInstrFlag<'a> {
    open spec fn obeys_eq_spec() -> bool {
        true
    }

    open spec fn eq_spec(&self, other: &Self) -> bool {
        self@.same(other@)
    }
}

impl<'a> Eq for FuncInstrFlag<'a> {

}

impl<'a> FuncInstrFlag<'a> {
    /// Selects the bucket that `add_instr` and `get_instr` act on. The
    /// buckets keep what they hold.
    pub fn enter_mode(&mut self, mode: FuncInstrMode)
        ensures
            final(self)@ == old(self)@.entered(mode),
    {
        self.current_mode = Some(mode);
    }

    /// Whether anything is injected at the entry or the exit of the
    /// function.
    pub fn has_instr(&self) -> (r: bool)
        ensures
            r == self@.has_injection(),
    {
        !self.entry.is_empty() || !self.exit.is_empty()
    }

    /// Whether some instruction of the function is recorded to have an
    /// injection in a special mode.
    pub fn has_special_instr(&self) -> (r: bool)
        ensures
            r == self@.has_special_instr,
    {
        self.has_special_instr
    }

    /// Appends `val` to the selected bucket. Every operation is accepted,
    /// and nothing but that bucket changes: the record of special injections
    /// at instructions stays as it is.
    ///
    /// Fails with `Error::ModeNotSet` while no mode is selected; the flag is
    /// then unchanged.
    pub fn add_instr(&mut self, val: Operator<'a>) -> (r: Result<(), Error>)
        ensures
            match old(self)@.current_mode {
                Some(mode) => r == Ok::<(), Error>(()) && final(self)@ == old(self)@.added(
                    mode,
                    val,
                ),
                None => r == Err::<(), Error>(Error::ModeNotSet) && *final(self) == *old(self),
            },
            final(self)@.has_special_instr == old(self)@.has_special_instr,
            final(self)@.current_mode == old(self)@.current_mode,
    {
        match self.current_mode {
            None => Err(Error::ModeNotSet),
            Some(FuncInstrMode::Entry) => {
                self.entry.push(val);
                Ok(())
            },
            Some(FuncInstrMode::Exit) => {
                self.exit.push(val);
                Ok(())
            },
        }
    }

    /// The description of the flag.
    pub fn to_string(&self) -> (text: String)
        ensures
            text@ == func_flag_text(self@),
    {
        let mut text = String::new();
        if !self.has_instr() {
            text.append("Not Instrumented");
        }
        text.append("Has special instrumentation: ");
        if self.has_special_instr {
            text.append("true");
        } else {
            text.append("false");
        }
        text.append("\n Func Entry: ");
        push_decimal(&mut text, self.entry.len() as u64);
        text.append(" instructions\n Func Exit: ");
        push_decimal(&mut text, self.exit.len() as u64);
        text.append(" instructions");
        text
    }

    /// The operation at `idx` of the selected bucket.
    ///
    /// Fails with `Error::ModeNotSet` while no mode is selected, and with
    /// `Error::IndexOutOfRange` where the bucket has no entry `idx`.
    pub fn get_instr(&self, idx: usize) -> (r: Result<&Operator<'a>, Error>)
        ensures
            match func_get_result(self@, idx) {
                Ok(op) => r == Ok::<&Operator, Error>(&op),
                Err(e) => r == Err::<&Operator, Error>(e),
            },
    {
        match self.current_mode {
            None => Err(Error::ModeNotSet),
            Some(FuncInstrMode::Entry) => bucket_get(&self.entry, idx),
            Some(FuncInstrMode::Exit) => bucket_get(&self.exit, idx),
        }
    }
}

} // verus!
