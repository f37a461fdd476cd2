//! Unsigned rungs: labels, widening and checked narrowing, type selection.
use crate::ladder::is_ladder_vector;
use vstd::prelude::*;

verus! {

/// Labels for unsigned integer primitives.
#[derive(Debug, PartialEq, Eq, PartialOrd, Ord, Clone, Copy, Structural)]
pub enum SmallUnsignedLabel {
    /// A label for `usize` types.
    USIZE,
    /// A label for `u8` types.
    U8,
    /// A label for `u16` types.
    U16,
    /// A label for `u32` types.
    U32,
    /// A label for `u64` types.
    U64,
    /// A label for `u128` types.
    U128,
}

impl SmallUnsignedLabel {
    /// Whether the label names one of the five fixed widths of the ladder.
    /// `USIZE` names the host's width instead and is never selected for a bound.
    pub open spec fn is_rung(self) -> bool {
        self != SmallUnsignedLabel::USIZE
    }

    /// Number of bits of the labelled type.
    pub open spec fn bits(self) -> nat {
        match self {
            SmallUnsignedLabel::USIZE => usize::BITS as nat,
            SmallUnsignedLabel::U8 => 8,
            SmallUnsignedLabel::U16 => 16,
            SmallUnsignedLabel::U32 => 32,
            SmallUnsignedLabel::U64 => 64,
            SmallUnsignedLabel::U128 => 128,
        }
    }

    /// Largest value of the labelled type.
    pub open spec fn max_value(self) -> nat {
        match self {
            SmallUnsignedLabel::USIZE => usize::MAX as nat,
            SmallUnsignedLabel::U8 => u8::MAX as nat,
            SmallUnsignedLabel::U16 => u16::MAX as nat,
            SmallUnsignedLabel::U32 => u32::MAX as nat,
            SmallUnsignedLabel::U64 => u64::MAX as nat,
            SmallUnsignedLabel::U128 => u128::MAX as nat,
        }
    }

    /// The ladder's predicate: the labelled type represents `bound` without loss.
    pub open spec fn fits(self, bound: nat) -> bool {
        bound <= self.max_value()
    }

    /// `self` is a rung that holds `bound`, and no rung that holds `bound` is narrower.
    pub open spec fn is_narrowest_for(self, bound: nat) -> bool {
        &&& self.is_rung()
        &&& self.fits(bound)
        &&& forall|other: SmallUnsignedLabel|
            other.is_rung() && #[trigger] other.fits(bound) ==> self.bits() <= other.bits()
    }

    /// The first rung, in ascending order of width, whose predicate holds for `bound`.
    /// A bound above `u128::MAX` fits no rung; the widest one stands for it here.
    pub open spec fn narrowest(bound: nat) -> Self {
        if SmallUnsignedLabel::U8.fits(bound) {
            SmallUnsignedLabel::U8
        } else if SmallUnsignedLabel::U16.fits(bound) {
            SmallUnsignedLabel::U16
        } else if SmallUnsignedLabel::U32.fits(bound) {
            SmallUnsignedLabel::U32
        } else if SmallUnsignedLabel::U64.fits(bound) {
            SmallUnsignedLabel::U64
        } else {
            SmallUnsignedLabel::U128
        }
    }

    /// Maps input `usize` to label for smallest integer primitive capable of representing it
    /// (e.g. `new(100)` -> `SmallUnsignedLabel::U8`). The host-width label is never returned.
    pub fn new(num: usize) -> (label: Self)
        ensures
            label == Self::narrowest(num as nat),
            label.is_narrowest_for(num as nat),
    {
        if (num as u128) <= (u8::MAX as u128) {
            SmallUnsignedLabel::U8
        } else if (num as u128) <= (u16::MAX as u128) {
            SmallUnsignedLabel::U16
        } else if (num as u128) <= (u32::MAX as u128) {
            SmallUnsignedLabel::U32
        } else if (num as u128) <= (u64::MAX as u128) {
            SmallUnsignedLabel::U64
        } else {
            SmallUnsignedLabel::U128
        }
    }
}

/// Wider rungs hold everything that narrower rungs hold: the five predicates of one bound
/// are false up to some rung and true from it on.
pub proof fn lemma_unsigned_fits_monotonic(
    narrow: SmallUnsignedLabel,
    wide: SmallUnsignedLabel,
    bound: nat,
)
    requires
        narrow.is_rung(),
        wide.is_rung(),
        narrow.bits() <= wide.bits(),
        narrow.fits(bound),
    ensures
        wide.fits(bound),
{
}

/// For every bound up to `u128::MAX` the selected rung holds the bound, and every rung
/// narrower than it does not.
pub proof fn lemma_unsigned_narrowest_is_least(bound: nat)
    requires
        bound <= u128::MAX,
    ensures
        SmallUnsignedLabel::narrowest(bound).is_narrowest_for(bound),
        forall|other: SmallUnsignedLabel|
            other.is_rung() && #[trigger] other.bits() < SmallUnsignedLabel::narrowest(bound).bits()
                ==> bound > other.max_value(),
{
}

/// At most one label is the narrowest rung for a bound, so the rung that is selected
/// for it is the only one.
pub proof fn lemma_unsigned_narrowest_unique(label: SmallUnsignedLabel, bound: nat)
    requires
        label.is_narrowest_for(bound),
    ensures
        label == SmallUnsignedLabel::narrowest(bound),
{
    let chosen = SmallUnsignedLabel::narrowest(bound);
    assert(SmallUnsignedLabel::U128.fits(bound)) by {
        lemma_unsigned_fits_monotonic(label, SmallUnsignedLabel::U128, bound);
    }
    assert(chosen.fits(bound));
    assert(label.bits() <= chosen.bits());
    assert(chosen.bits() <= label.bits());
}

/// Convenience trait for unsigned normalization (e.g. to/from `usize`).
///
/// Implemented for `usize` and for the fixed widths up to 64 bits. A type wider than the
/// host's register has no lossless way to `usize`: its `usize` method asks for a host
/// that is wide enough.
pub trait SmallUnsigned: Sized {
    /// Label of the implementing type: it gives the type's width and largest value.
    spec fn label() -> SmallUnsignedLabel;

    /// The number that this value stands for.
    spec fn widen(&self) -> nat;

    /// The value of the implementing type that stands for `num`, where `num` fits.
    spec fn narrow(num: nat) -> Self;

    /// Every value lies within the bounds of its type.
    proof fn lemma_widen_fits(small: Self)
        ensures
            Self::label().fits(small.widen()),
    ;

    /// Widening a value and narrowing the result gives the value back.
    proof fn lemma_narrow_widen(small: Self)
        ensures
            Self::narrow(small.widen()) == small,
    ;

    /// Narrowing a number that fits and widening the result gives the number back:
    /// nothing is wrapped or truncated.
    proof fn lemma_widen_narrow(num: nat)
        requires
            Self::label().fits(num),
        ensures
            Self::narrow(num).widen() == num,
    ;

    /// Get value of small unsigned as host register-width unsigned (e.g. `usize`)
    fn usize(&self) -> (num: usize)
        requires
            Self::label().bits() <= usize::BITS,
        ensures
            num == self.widen(),
    ;

    /// Convert input `usize` into a primitive implementing the `SmallUnsigned` trait.
    /// The input must not exceed the max of the returned unsigned primitive; a caller
    /// outside verification that hands in more is stopped, never given a truncated value.
    fn checked_from(num: usize) -> (small: Self)
        requires
            Self::label().fits(num as nat),
        ensures
            small == Self::narrow(num as nat),
            small.widen() == num,
    ;

    /// Convert input `usize` into a primitive implementing the `SmallUnsigned` trait,
    /// or `None` exactly when the input exceeds the max of that primitive.
    fn try_from_usize(num: usize) -> (small: Option<Self>)
        ensures
            small is Some <==> Self::label().fits(num as nat),
            small is Some ==> small.unwrap() == Self::narrow(num as nat),
            small is Some ==> small.unwrap().widen() == num,
    ;
}

impl SmallUnsigned for usize {
    open spec fn label() -> SmallUnsignedLabel {
        SmallUnsignedLabel::USIZE
    }

    open spec fn widen(&self) -> nat {
        *self as nat
    }

    open spec fn narrow(num: nat) -> usize {
        num as usize
    }

    proof fn lemma_widen_fits(small: usize) {
    }

    proof fn lemma_narrow_widen(small: usize) {
    }

    proof fn lemma_widen_narrow(num: nat) {
    }

    fn usize(&self) -> usize {
        *self
    }

    fn checked_from(num: usize) -> usize {
        num
    }

    fn try_from_usize(num: usize) -> Option<usize> {
        Some(num)
    }
}

impl SmallUnsigned for u8 {
    open spec fn label() -> SmallUnsignedLabel {
        SmallUnsignedLabel::U8
    }

    open spec fn widen(&self) -> nat {
        *self as nat
    }

    open spec fn narrow(num: nat) -> u8 {
        num as u8
    }

    proof fn lemma_widen_fits(small: u8) {
    }

    proof fn lemma_narrow_widen(small: u8) {
    }

    proof fn lemma_widen_narrow(num: nat) {
    }

    fn usize(&self) -> usize {
        *self as usize
    }

    fn checked_from(num: usize) -> u8 {
        match Self::try_from_usize(num) {
            Some(small) => small,
            // Ruled out by the precondition; stops a caller that did not check it.
            None => unreached(),
        }
    }

    fn try_from_usize(num: usize) -> Option<u8> {
        if num as u128 <= u8::MAX as u128 {
            Some(num as u8)
        } else {
            None
        }
    }
}

impl SmallUnsigned for u16 {
    open spec fn label() -> SmallUnsignedLabel {
        SmallUnsignedLabel::U16
    }

    open spec fn widen(&self) -> nat {
        *self as nat
    }

    open spec fn narrow(num: nat) -> u16 {
        num as u16
    }

    proof fn lemma_widen_fits(small: u16) {
    }

    proof fn lemma_narrow_widen(small: u16) {
    }

    proof fn lemma_widen_narrow(num: nat) {
    }

    fn usize(&self) -> usize {
        *self as usize
    }

    fn checked_from(num: usize) -> u16 {
        match Self::try_from_usize(num) {
            Some(small) => small,
            // Ruled out by the precondition; stops a caller that did not check it.
            None => unreached(),
        }
    }

    fn try_from_usize(num: usize) -> Option<u16> {
        if num as u128 <= u16::MAX as u128 {
            Some(num as u16)
        } else {
            None
        }
    }
}

impl SmallUnsigned for u32 {
    open spec fn label() -> SmallUnsignedLabel {
        SmallUnsignedLabel::U32
    }

    open spec fn widen(&self) -> nat {
        *self as nat
    }

    open spec fn narrow(num: nat) -> u32 {
        num as u32
    }

    proof fn lemma_widen_fits(small: u32) {
    }

    proof fn lemma_narrow_widen(small: u32) {
    }

    proof fn lemma_widen_narrow(num: nat) {
    }

    fn usize(&self) -> usize {
        *self as usize
    }

    fn checked_from(num: usize) -> u32 {
        match Self::try_from_usize(num) {
            Some(small) => small,
            // Ruled out by the precondition; stops a caller that did not check it.
            None => unreached(),
        }
    }

    fn try_from_usize(num: usize) -> Option<u32> {
        if num as u128 <= u32::MAX as u128 {
            Some(num as u32)
        } else {
            None
        }
    }
}

impl SmallUnsigned for u64 {
    open spec fn label() -> SmallUnsignedLabel {
        SmallUnsignedLabel::U64
    }

    open spec fn widen(&self) -> nat {
        *self as nat
    }

    open spec fn narrow(num: nat) -> u64 {
        num as u64
    }

    proof fn lemma_widen_fits(small: u64) {
    }

    proof fn lemma_narrow_widen(small: u64) {
    }

    proof fn lemma_widen_narrow(num: nat) {
    }

    fn usize(&self) -> usize {
        if usize::BITS >= 64 {
            *self as usize
        } else {
            // Ruled out by the precondition; stops a caller that did not check it.
            unreached()
        }
    }

    fn checked_from(num: usize) -> u64 {
        match Self::try_from_usize(num) {
            Some(small) => small,
            // Ruled out by the precondition; stops a caller that did not check it.
            None => unreached(),
        }
    }

    fn try_from_usize(num: usize) -> Option<u64> {
        if num as u128 <= u64::MAX as u128 {
            Some(num as u64)
        } else {
            None
        }
    }
}

/// The five predicates of the ladder for `bound`, narrowest rung first: whether the
/// 8, 16, 32, 64 and 128 bit type holds it. The last one is true of every `u128`.
pub open spec fn unsigned_fits(bound: nat) -> (bool, bool, bool, bool, bool) {
    (
        SmallUnsignedLabel::U8.fits(bound),
        SmallUnsignedLabel::U16.fits(bound),
        SmallUnsignedLabel::U32.fits(bound),
        SmallUnsignedLabel::U64.fits(bound),
        SmallUnsignedLabel::U128.fits(bound),
    )
}

/// Helper trait for unsigned type mapping. Internal use only.
///
/// The five constants are the ladder's predicates for one bound, narrowest rung first.
/// `()` implements the trait for each vector that a bound can produce; for any other
/// vector there is no impl and the selection does not compile.
pub trait ShrinkUnsigned<
    const FITS_U8: bool,
    const FITS_U16: bool,
    const FITS_U32: bool,
    const FITS_U64: bool,
    const FITS_U128: bool,
> {
    /// Smallest primitive type that can represent a bounded unsigned value
    type UnsignedType;

    /// Label of `UnsignedType`.
    spec fn label() -> SmallUnsignedLabel;

    /// The label is a rung of the width of `UnsignedType`.
    proof fn lemma_label_width()
        ensures
            Self::label().is_rung(),
            Self::label().bits() == 8 * vstd::layout::size_of::<Self::UnsignedType>(),
    ;

    /// Where the five constants are the predicates of `bound`, the selected type is the
    /// narrowest rung that holds `bound`: the one that `SmallUnsignedLabel::new` names.
    proof fn lemma_selects_narrowest(bound: nat)
        requires
            (FITS_U8, FITS_U16, FITS_U32, FITS_U64, FITS_U128) == unsigned_fits(bound),
        ensures
            Self::label() == SmallUnsignedLabel::narrowest(bound),
            Self::label().is_narrowest_for(bound),
    ;
}

impl ShrinkUnsigned<true, true, true, true, true> for () {
    type UnsignedType = u8;

    open spec fn label() -> SmallUnsignedLabel {
        SmallUnsignedLabel::U8
    }

    proof fn lemma_label_width() {
        broadcast use vstd::layout::layout_of_primitives;
    }

    proof fn lemma_selects_narrowest(bound: nat) {
    }
}

impl ShrinkUnsigned<false, true, true, true, true> for () {
    type UnsignedType = u16;

    open spec fn label() -> SmallUnsignedLabel {
        SmallUnsignedLabel::U16
    }

    proof fn lemma_label_width() {
        broadcast use vstd::layout::layout_of_primitives;
    }

    proof fn lemma_selects_narrowest(bound: nat) {
    }
}

impl ShrinkUnsigned<false, false, true, true, true> for () {
    type UnsignedType = u32;

    open spec fn label() -> SmallUnsignedLabel {
        SmallUnsignedLabel::U32
    }

    proof fn lemma_label_width() {
        broadcast use vstd::layout::layout_of_primitives;
    }

    proof fn lemma_selects_narrowest(bound: nat) {
    }
}

impl ShrinkUnsigned<false, false, false, true, true> for () {
    type UnsignedType = u64;

    open spec fn label() -> SmallUnsignedLabel {
        SmallUnsignedLabel::U64
    }

    proof fn lemma_label_width() {
        broadcast use vstd::layout::layout_of_primitives;
    }

    proof fn lemma_selects_narrowest(bound: nat) {
    }
}

impl ShrinkUnsigned<false, false, false, false, true> for () {
    type UnsignedType = u128;

    open spec fn label() -> SmallUnsignedLabel {
        SmallUnsignedLabel::U128
    }

    proof fn lemma_label_width() {
        broadcast use vstd::layout::layout_of_primitives;
    }

    proof fn lemma_selects_narrowest(bound: nat) {
    }
}

/// Every bound up to `u128::MAX` produces a vector of predicates for which a type is
/// selected: the predicates are monotonic over the ladder and the widest rung holds.
pub proof fn lemma_unsigned_fits_is_ladder_vector(bound: nat)
    requires
        bound <= u128::MAX,
    ensures
        is_ladder_vector(unsigned_fits(bound)),
{
}

} // verus!
