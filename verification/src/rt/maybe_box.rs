//! Boxing a value only when the type asked for is a box.

use vstd::prelude::*;

verus! {

/// A type that is not a box. A value of such a type is handed on as it is
/// where `MaybeBox` is asked for the type itself. It is implemented for the
/// primitive types, references, tuples, arrays, slices and the common std
/// containers; a type of its user's needs an impl of its own.
pub trait NotBox {

}

impl NotBox for () {

}

impl NotBox for bool {

}

impl NotBox for char {

}

impl NotBox for u8 {

}

impl NotBox for u16 {

}

impl NotBox for u32 {

}

impl NotBox for u64 {

}

impl NotBox for usize {

}

impl NotBox for i8 {

}

impl NotBox for i16 {

}

impl NotBox for i32 {

}

impl NotBox for i64 {

}

impl NotBox for isize {

}

impl NotBox for String {

}

impl<T> NotBox for Vec<T> {

}

impl<T> NotBox for Option<T> {

}

impl<T, E> NotBox for Result<T, E> {

}

impl NotBox for u128 {

}

impl NotBox for i128 {

}

impl NotBox for str {

}

impl<'a, T: ?Sized> NotBox for &'a T {

}

impl<'a, T: ?Sized> NotBox for &'a mut T {

}

impl<A> NotBox for (A,) {

}

impl<A, B> NotBox for (A, B) {

}

impl<A, B, C> NotBox for (A, B, C) {

}

impl<A, B, C, D> NotBox for (A, B, C, D) {

}

impl<T, const N: usize> NotBox for [T; N] {

}

impl<T> NotBox for [T] {

}

impl NotBox for super::Mu {

}

/// Turns a `T` into `Self::Boxed`: a box of it where `Self` is a box, the
/// value itself otherwise.
pub trait MaybeBox<T>: Sized {
    type Boxed;

    /// The value that a `Boxed` holds.
    spec fn unboxed(boxed: Self::Boxed) -> T;

    fn maybe_into_box(value: T) -> (boxed: Self::Boxed)
        ensures
            Self::unboxed(boxed) == value,
    ;
}

impl<T> MaybeBox<T> for Box<T> {
    type Boxed = Box<T>;

    open spec fn unboxed(boxed: Box<T>) -> T {
        *boxed
    }

    fn maybe_into_box(value: T) -> (boxed: Box<T>)
        ensures
            *boxed == value,
    {
        Box::new(value)
    }
}

impl<T: NotBox> MaybeBox<T> for T {
    type Boxed = T;

    open spec fn unboxed(boxed: T) -> T {
        boxed
    }

    fn maybe_into_box(value: T) -> (boxed: T)
        ensures
            boxed == value,
    {
        value
    }
}

} // verus!
