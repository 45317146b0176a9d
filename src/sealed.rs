use vstd::prelude::*;

verus! {

/// Marker restricting `OptionExt` to `Option`.
pub trait SealedOptionExt {}

/// Marker restricting `ResultExt` to `Result`.
pub trait SealedResultExt {}

/// Marker restricting the numeric extensions to the primitive integers.
pub trait SealedNumExt {}

/// Marker restricting `Bounds` to the range types of `core::ops`.
pub trait SealedBounds {}

impl<T> SealedOptionExt for Option<T> {}

impl<T, E> SealedResultExt for Result<T, E> {}

impl SealedNumExt for i8 {}

impl SealedNumExt for u8 {}

impl SealedNumExt for i16 {}

impl SealedNumExt for u16 {}

impl SealedNumExt for i32 {}

impl SealedNumExt for u32 {}

impl SealedNumExt for i64 {}

impl SealedNumExt for u64 {}

impl SealedNumExt for isize {}

impl SealedNumExt for usize {}

impl<T> SealedBounds for core::ops::Range<T> {}

impl<T> SealedBounds for core::ops::RangeInclusive<T> {}

impl<T> SealedBounds for core::ops::RangeFrom<T> {}

impl<T> SealedBounds for core::ops::RangeTo<T> {}

impl<T> SealedBounds for core::ops::RangeToInclusive<T> {}

impl SealedBounds for core::ops::RangeFull {}

} // verus!
