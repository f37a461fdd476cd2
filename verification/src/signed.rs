//! Signed rungs: labels, widening and checked narrowing, type selection.
use crate::ladder::is_ladder_vector;
use vstd::prelude::*;

verus! {

/// Labels for signed integer primitives.
#[derive(Debug, PartialEq, Eq, PartialOrd, Ord, Clone, Copy, Structural)]
pub enum SmallSignedLabel {
    /// A label for `isize` types.
    ISIZE,
    /// A label for `i8` types.
    I8,
    /// A label for `i16` types.
    I16,
    /// A label for `i32` types.
    I32,
    /// A label for `i64` types.
    I64,
    /// A label for `i128` types.
    I128,
}

impl SmallSignedLabel {
    /// Whether the label names one of the five fixed widths of the ladder.
    /// `ISIZE` names the host's width instead and is never selected for a bound.
    pub open spec fn is_rung(self) -> bool {
        self != SmallSignedLabel::ISIZE
    }

    /// Number of bits of the labelled type.
    pub open spec fn bits(self) -> nat {
        match self {
            SmallSignedLabel::ISIZE => isize::BITS as nat,
            SmallSignedLabel::I8 => 8,
            SmallSignedLabel::I16 => 16,
            SmallSignedLabel::I32 => 32,
            SmallSignedLabel::I64 => 64,
            SmallSignedLabel::I128 => 128,
        }
    }

    /// Smallest value of the labelled type.
    pub open spec fn min_value(self) -> int {
        match self {
            SmallSignedLabel::ISIZE => isize::MIN as int,
            SmallSignedLabel::I8 => i8::MIN as int,
            SmallSignedLabel::I16 => i16::MIN as int,
            SmallSignedLabel::I32 => i32::MIN as int,
            SmallSignedLabel::I64 => i64::MIN as int,
            SmallSignedLabel::I128 => i128::MIN as int,
        }
    }

    /// Largest value of the labelled type.
    pub open spec fn max_value(self) -> int {
        match self {
            SmallSignedLabel::ISIZE => isize::MAX as int,
            SmallSignedLabel::I8 => i8::MAX as int,
            SmallSignedLabel::I16 => i16::MAX as int,
            SmallSignedLabel::I32 => i32::MAX as int,
            SmallSignedLabel::I64 => i64::MAX as int,
            SmallSignedLabel::I128 => i128::MAX as int,
        }
    }

    /// The ladder's predicate: the labelled type represents `bound` without loss.
    pub open spec fn fits(self, bound: int) -> bool {
        self.min_value() <= bound <= self.max_value()
    }

    /// `self` is a rung that holds `bound`, and no rung that holds `bound` is narrower.
    pub open spec fn is_narrowest_for(self, bound: int) -> bool {
        &&& self.is_rung()
        &&& self.fits(bound)
        &&& forall|other: SmallSignedLabel|
            other.is_rung() && #[trigger] other.fits(bound) ==> self.bits() <= other.bits()
    }

    /// The first rung, in ascending order of width, whose predicate holds for `bound`.
    /// A bound outside `i128` fits no rung; the widest one stands for it here.
    pub open spec fn narrowest(bound: int) -> Self {
        if SmallSignedLabel::I8.fits(bound) {
            SmallSignedLabel::I8
        } else if SmallSignedLabel::I16.fits(bound) {
            SmallSignedLabel::I16
        } else if SmallSignedLabel::I32.fits(bound) {
            SmallSignedLabel::I32
        } else if SmallSignedLabel::I64.fits(bound) {
            SmallSignedLabel::I64
        } else {
            SmallSignedLabel::I128
        }
    }

    /// Maps input `isize` to label for smallest integer primitive capable of representing it
    /// (e.g. `new(-100)` -> `SmallSignedLabel::I8`). The host-width label is never returned.
    pub fn new(num: isize) -> (label: Self)
        ensures
            label == Self::narrowest(num as int),
            label.is_narrowest_for(num as int),
    {
        if (i8::MIN as i128) <= (num as i128) && (num as i128) <= (i8::MAX as i128) {
            SmallSignedLabel::I8
        } else if (i16::MIN as i128) <= (num as i128) && (num as i128) <= (i16::MAX as i128) {
            SmallSignedLabel::I16
        } else if (i32::MIN as i128) <= (num as i128) && (num as i128) <= (i32::MAX as i128) {
            SmallSignedLabel::I32
        } else if (i64::MIN as i128) <= (num as i128) && (num as i128) <= (i64::MAX as i128) {
            SmallSignedLabel::I64
        } else {
            SmallSignedLabel::I128
        }
    }
}

/// Wider rungs hold everything that narrower rungs hold: the five predicates of one bound
/// are false up to some rung and true from it on.
pub proof fn lemma_signed_fits_monotonic(
    narrow: SmallSignedLabel,
    wide: SmallSignedLabel,
    bound: int,
)
    requires
        narrow.is_rung(),
        wide.is_rung(),
        narrow.bits() <= wide.bits(),
        narrow.fits(bound),
    ensures
        wide.fits(bound),
{
}

/// For every bound within `i128`, positive or negative, the selected rung holds the
/// bound, and every rung narrower than it does not.
pub proof fn lemma_signed_narrowest_is_least(bound: int)
    requires
        i128::MIN <= bound <= i128::MAX,
    ensures
        SmallSignedLabel::narrowest(bound).is_narrowest_for(bound),
        forall|other: SmallSignedLabel|
            other.is_rung() && #[trigger] other.bits() < SmallSignedLabel::narrowest(bound).bits()
                ==> !other.fits(bound),
{
}

/// At most one label is the narrowest rung for a bound, so the rung that is selected
/// for it is the only one.
pub proof fn lemma_signed_narrowest_unique(label: SmallSignedLabel, bound: int)
    requires
        label.is_narrowest_for(bound),
    ensures
        label == SmallSignedLabel::narrowest(bound),
{
    let chosen = SmallSignedLabel::narrowest(bound);
    assert(SmallSignedLabel::I128.fits(bound)) by {
        lemma_signed_fits_monotonic(label, SmallSignedLabel::I128, bound);
    }
    assert(chosen.fits(bound));
    assert(label.bits() <= chosen.bits());
    assert(chosen.bits() <= label.bits());
}

/// A maximum and the minimum that mirrors it select the same rung: each rung reaches one
/// further below zero than above it, so `bound` and `-bound - 1` fit the same rungs.
pub proof fn lemma_signed_narrowest_mirror(bound: int)
    ensures
        SmallSignedLabel::narrowest(bound) == SmallSignedLabel::narrowest(-bound - 1),
        forall|label: SmallSignedLabel| #[trigger] label.fits(bound) == label.fits(-bound - 1),
{
}

/// Convenience trait for signed normalization (e.g. to/from `isize`).
///
/// Implemented for `isize` and for the fixed widths up to 64 bits. A type wider than the
/// host's register has no lossless way to `isize`: its `isize` method asks for a host
/// that is wide enough.
pub trait SmallSigned: Sized {
    /// Label of the implementing type: it gives the type's width and bounds.
    spec fn label() -> SmallSignedLabel;

    /// The number that this value stands for.
    spec fn widen(&self) -> int;

    /// The value of the implementing type that stands for `num`, where `num` fits.
    spec fn narrow(num: int) -> Self;

    /// Every value lies within the bounds of its type.
    proof fn lemma_widen_fits(small: Self)
        ensures
            Self::label().fits(small.widen()),
    ;

    /// Widening a value and narrowing the result gives the value back.
    proof fn lemma_narrow_widen(small: Self)
        ensures
            Self::narrow(small.widen()) == small,
    ;

    /// Narrowing a number that fits and widening the result gives the number back:
    /// nothing is wrapped or truncated.
    proof fn lemma_widen_narrow(num: int)
        requires
            Self::label().fits(num),
        ensures
            Self::narrow(num).widen() == num,
    ;

    /// Get value of small signed as host register-width signed (e.g. `isize`)
    fn isize(&self) -> (num: isize)
        requires
            Self::label().bits() <= isize::BITS,
        ensures
            num == self.widen(),
    ;

    /// Convert input `isize` into a primitive implementing the `SmallSigned` trait.
    /// The input must lie within the bounds of the returned signed primitive; a caller
    /// outside verification that hands in another is stopped, never given a truncated value.
    fn checked_from(num: isize) -> (small: Self)
        requires
            Self::label().fits(num as int),
        ensures
            small == Self::narrow(num as int),
            small.widen() == num,
    ;

    /// Convert input `isize` into a primitive implementing the `SmallSigned` trait,
    /// or `None` exactly when the input lies outside the bounds of that primitive.
    fn try_from_isize(num: isize) -> (small: Option<Self>)
        ensures
            small is Some <==> Self::label().fits(num as int),
            small is Some ==> small.unwrap() == Self::narrow(num as int),
            small is Some ==> small.unwrap().widen() == num,
    ;
}

impl SmallSigned for isize {
    open spec fn label() -> SmallSignedLabel {
        SmallSignedLabel::ISIZE
    }

    open spec fn widen(&self) -> int {
        *self as int
    }

    open spec fn narrow(num: int) -> isize {
        num as isize
    }

    proof fn lemma_widen_fits(small: isize) {
    }

    proof fn lemma_narrow_widen(small: isize) {
    }

    proof fn lemma_widen_narrow(num: int) {
    }

    fn isize(&self) -> isize {
        *self
    }

    fn checked_from(num: isize) -> isize {
        num
    }

    fn try_from_isize(num: isize) -> Option<isize> {
        Some(num)
    }
}

impl SmallSigned for i8 {
    open spec fn label() -> SmallSignedLabel {
        SmallSignedLabel::I8
    }

    open spec fn widen(&self) -> int {
        *self as int
    }

    open spec fn narrow(num: int) -> i8 {
        num as i8
    }

    proof fn lemma_widen_fits(small: i8) {
    }

    proof fn lemma_narrow_widen(small: i8) {
    }

    proof fn lemma_widen_narrow(num: int) {
    }

    fn isize(&self) -> isize {
        *self as isize
    }

    fn checked_from(num: isize) -> i8 {
        match Self::try_from_isize(num) {
            Some(small) => small,
            // Ruled out by the precondition; stops a caller that did not check it.
            None => unreached(),
        }
    }

    fn try_from_isize(num: isize) -> Option<i8> {
        if (i8::MIN as i128) <= (num as i128) && (num as i128) <= (i8::MAX as i128) {
            Some(num as i8)
        } else {
            None
        }
    }
}

impl SmallSigned for i16 {
    open spec fn label() -> SmallSignedLabel {
        SmallSignedLabel::I16
    }

    open spec fn widen(&self) -> int {
        *self as int
    }

    open spec fn narrow(num: int) -> i16 {
        num as i16
    }

    proof fn lemma_widen_fits(small: i16) {
    }

    proof fn lemma_narrow_widen(small: i16) {
    }

    proof fn lemma_widen_narrow(num: int) {
    }

    fn isize(&self) -> isize {
        *self as isize
    }

    fn checked_from(num: isize) -> i16 {
        match Self::try_from_isize(num) {
            Some(small) => small,
            // Ruled out by the precondition; stops a caller that did not check it.
            None => unreached(),
        }
    }

    fn try_from_isize(num: isize) -> Option<i16> {
        if (i16::MIN as i128) <= (num as i128) && (num as i128) <= (i16::MAX as i128) {
            Some(num as i16)
        } else {
            None
        }
    }
}

impl SmallSigned for i32 {
    open spec fn label() -> SmallSignedLabel {
        SmallSignedLabel::I32
    }

    open spec fn widen(&self) -> int {
        *self as int
    }

    open spec fn narrow(num: int) -> i32 {
        num as i32
    }

    proof fn lemma_widen_fits(small: i32) {
    }

    proof fn lemma_narrow_widen(small: i32) {
    }

    proof fn lemma_widen_narrow(num: int) {
    }

    fn isize(&self) -> isize {
        *self as isize
    }

    fn checked_from(num: isize) -> i32 {
        match Self::try_from_isize(num) {
            Some(small) => small,
            // Ruled out by the precondition; stops a caller that did not check it.
            None => unreached(),
        }
    }

    fn try_from_isize(num: isize) -> Option<i32> {
        if (i32::MIN as i128) <= (num as i128) && (num as i128) <= (i32::MAX as i128) {
            Some(num as i32)
        } else {
            None
        }
    }
}

impl SmallSigned for i64 {
    open spec fn label() -> SmallSignedLabel {
        SmallSignedLabel::I64
    }

    open spec fn widen(&self) -> int {
        *self as int
    }

    open spec fn narrow(num: int) -> i64 {
        num as i64
    }

    proof fn lemma_widen_fits(small: i64) {
    }

    proof fn lemma_narrow_widen(small: i64) {
    }

    proof fn lemma_widen_narrow(num: int) {
    }

    fn isize(&self) -> isize {
        if isize::BITS >= 64 {
            *self as isize
        } else {
            // Ruled out by the precondition; stops a caller that did not check it.
            unreached()
        }
    }

    fn checked_from(num: isize) -> i64 {
        match Self::try_from_isize(num) {
            Some(small) => small,
            // Ruled out by the precondition; stops a caller that did not check it.
            None => unreached(),
        }
    }

    fn try_from_isize(num: isize) -> Option<i64> {
        if (i64::MIN as i128) <= (num as i128) && (num as i128) <= (i64::MAX as i128) {
            Some(num as i64)
        } else {
            None
        }
    }
}

/// The five predicates of the ladder for `bound`, narrowest rung first: whether the
/// 8, 16, 32, 64 and 128 bit type holds it. The last one is true of every `i128`.
pub open spec fn signed_fits(bound: int) -> (bool, bool, bool, bool, bool) {
    (
        SmallSignedLabel::I8.fits(bound),
        SmallSignedLabel::I16.fits(bound),
        SmallSignedLabel::I32.fits(bound),
        SmallSignedLabel::I64.fits(bound),
        SmallSignedLabel::I128.fits(bound),
    )
}

/// Helper trait for signed type mapping. Internal use only.
///
/// The five constants are the ladder's predicates for one bound, narrowest rung first.
/// `()` implements the trait for each vector that a bound can produce; for any other
/// vector there is no impl and the selection does not compile.
pub trait ShrinkSigned<
    const FITS_I8: bool,
    const FITS_I16: bool,
    const FITS_I32: bool,
    const FITS_I64: bool,
    const FITS_I128: bool,
> {
    /// Smallest primitive type that can represent a bounded signed value
    type SmallSigned;

    /// Label of the selected type.
    spec fn label() -> SmallSignedLabel;

    /// The label is a rung of the width of the selected type.
    proof fn lemma_label_width()
        ensures
            Self::label().is_rung(),
            Self::label().bits() == 8 * vstd::layout::size_of::<Self::SmallSigned>(),
    ;

    /// Where the five constants are the predicates of `bound`, a maximum or a minimum,
    /// the selected type is the narrowest rung that holds `bound`: the one that
    /// `SmallSignedLabel::new` names.
    proof fn lemma_selects_narrowest(bound: int)
        requires
            (FITS_I8, FITS_I16, FITS_I32, FITS_I64, FITS_I128) == signed_fits(bound),
        ensures
            Self::label() == SmallSignedLabel::narrowest(bound),
            Self::label().is_narrowest_for(bound),
    ;
}

impl ShrinkSigned<true, true, true, true, true> for () {
    type SmallSigned = i8;

    open spec fn label() -> SmallSignedLabel {
        SmallSignedLabel::I8
    }

    proof fn lemma_label_width() {
        broadcast use vstd::layout::layout_of_primitives;
    }

    proof fn lemma_selects_narrowest(bound: int) {
    }
}

impl ShrinkSigned<false, true, true, true, true> for () {
    type SmallSigned = i16;

    open spec fn label() -> SmallSignedLabel {
        SmallSignedLabel::I16
    }

    proof fn lemma_label_width() {
        broadcast use vstd::layout::layout_of_primitives;
    }

    proof fn lemma_selects_narrowest(bound: int) {
    }
}

impl ShrinkSigned<false, false, true, true, true> for () {
    type SmallSigned = i32;

    open spec fn label() -> SmallSignedLabel {
        SmallSignedLabel::I32
    }

    proof fn lemma_label_width() {
        broadcast use vstd::layout::layout_of_primitives;
    }

    proof fn lemma_selects_narrowest(bound: int) {
    }
}

impl ShrinkSigned<false, false, false, true, true> for () {
    type SmallSigned = i64;

    open spec fn label() -> SmallSignedLabel {
        SmallSignedLabel::I64
    }

    proof fn lemma_label_width() {
        broadcast use vstd::layout::layout_of_primitives;
    }

    proof fn lemma_selects_narrowest(bound: int) {
    }
}

impl ShrinkSigned<false, false, false, false, true> for () {
    type SmallSigned = i128;

    open spec fn label() -> SmallSignedLabel {
        SmallSignedLabel::I128
    }

    proof fn lemma_label_width() {
        broadcast use vstd::layout::layout_of_primitives;
    }

    proof fn lemma_selects_narrowest(bound: int) {
    }
}

/// Every bound within `i128` produces a vector of predicates for which a type is
/// selected: the predicates are monotonic over the ladder and the widest rung holds.
pub proof fn lemma_signed_fits_is_ladder_vector(bound: int)
    requires
        i128::MIN <= bound <= i128::MAX,
    ensures
        is_ladder_vector(signed_fits(bound)),
{
}

} // verus!
