//! Small conversions: choosing between two values, checked narrowing and
//! fallible decoding.

use vstd::prelude::*;

verus! {

/// Picks one of two values by a flag.
pub trait BoolUtil {
    fn as_either<T>(&self, if_true: T, if_false: T) -> (r: T)
        ensures
            r == (if self.flag() { if_true } else { if_false }),
    ;

    spec fn flag(&self) -> bool;
}

impl BoolUtil for bool {
    open spec fn flag(&self) -> bool {
        *self
    }

    fn as_either<T>(&self, if_true: T, if_false: T) -> (r: T) {
        if *self {
            if_true
        } else {
            if_false
        }
    }
}

/// A conversion that is defined on part of its source type only; callers show
/// that the value fits.
pub trait CheckedFrom<T>: Sized {
    spec fn fits(v: T) -> bool;

    spec fn converted(v: T) -> Self;

    fn checked_from(v: T) -> (r: Self)
        requires
            Self::fits(v),
        ensures
            r == Self::converted(v),
    ;
}

impl CheckedFrom<usize> for u32 {
    open spec fn fits(v: usize) -> bool {
        v <= u32::MAX
    }

    open spec fn converted(v: usize) -> u32 {
        v as u32
    }

    fn checked_from(v: usize) -> (r: u32) {
        v as u32
    }
}

impl CheckedFrom<usize> for i32 {
    open spec fn fits(v: usize) -> bool {
        v <= i32::MAX
    }

    open spec fn converted(v: usize) -> i32 {
        v as i32
    }

    fn checked_from(v: usize) -> (r: i32) {
        v as i32
    }
}

/// The other direction of `CheckedFrom`.
pub trait CheckedInto<U>: Sized {
    spec fn fits_into(self) -> bool;

    spec fn converted_into(self) -> U;

    fn checked_into(self) -> (r: U)
        requires
            self.fits_into(),
        ensures
            r == self.converted_into(),
    ;
}

impl<T, U: CheckedFrom<T>> CheckedInto<U> for T {
    open spec fn fits_into(self) -> bool {
        U::fits(self)
    }

    open spec fn converted_into(self) -> U {
        U::converted(self)
    }

    fn checked_into(self) -> (r: U) {
        U::checked_from(self)
    }
}

/// Decoding that may fail: `None` when the value names nothing.
pub trait TryFrom<T>: Sized {
    spec fn decoded(v: T) -> Option<Self>;

    fn try_from(v: T) -> (r: Option<Self>)
        ensures
            r == Self::decoded(v),
    ;
}

/// The other direction of `TryFrom`.
pub trait TryInto<U>: Sized {
    spec fn decoded_into(self) -> Option<U>;

    fn try_into(self) -> (r: Option<U>)
        ensures
            r == self.decoded_into(),
    ;
}

impl<T, U: TryFrom<T>> TryInto<U> for T {
    open spec fn decoded_into(self) -> Option<U> {
        U::decoded(self)
    }

    fn try_into(self) -> (r: Option<U>) {
        U::try_from(self)
    }
}

} // verus!
