//! A `select` method for `bool`, integer primitives, `Option` and `Result`.
use vstd::prelude::*;

verus! {

/// Selects one of two values based on the value of the selector: `true`, a
/// non-zero integer, `Some` and `Ok` select the first.
pub trait Select {
    /// Whether the selector picks the first value.
    spec fn spec_picks_first(&self) -> bool;

    /// Whether the selector picks the first value.
    fn picks_first(&self) -> (r: bool)
        ensures
            r == self.spec_picks_first(),
    ;

    /// The first value if the selector picks it, the second otherwise.
    fn select_val<T>(&self, a: T, b: T) -> (r: T)
        ensures
            r == (if self.spec_picks_first() {
                a
            } else {
                b
            }),
    {
        if self.picks_first() {
            a
        } else {
            b
        }
    }

    /// What the first function gives if the selector picks it, what the
    /// second gives otherwise; only the one picked is called.
    fn select<T>(&self, a: impl FnOnce() -> T, b: impl FnOnce() -> T) -> (r: T)
        requires
            self.spec_picks_first() ==> call_requires(a, ()),
            !self.spec_picks_first() ==> call_requires(b, ()),
        ensures
            self.spec_picks_first() ==> call_ensures(a, (), r),
            !self.spec_picks_first() ==> call_ensures(b, (), r),
    {
        if self.picks_first() {
            a()
        } else {
            b()
        }
    }
}

impl Select for bool {
    open spec fn spec_picks_first(&self) -> bool {
        *self
    }

    fn picks_first(&self) -> (r: bool) {
        *self
    }
}

impl Select for i8 {
    open spec fn spec_picks_first(&self) -> bool {
        *self != 0
    }

    fn picks_first(&self) -> (r: bool) {
        *self != 0
    }
}

impl Select for i16 {
    open spec fn spec_picks_first(&self) -> bool {
        *self != 0
    }

    fn picks_first(&self) -> (r: bool) {
        *self != 0
    }
}

impl Select for i32 {
    open spec fn spec_picks_first(&self) -> bool {
        *self != 0
    }

    fn picks_first(&self) -> (r: bool) {
        *self != 0
    }
}

impl Select for i64 {
    open spec fn spec_picks_first(&self) -> bool {
        *self != 0
    }

    fn picks_first(&self) -> (r: bool) {
        *self != 0
    }
}

impl Select for isize {
    open spec fn spec_picks_first(&self) -> bool {
        *self != 0
    }

    fn picks_first(&self) -> (r: bool) {
        *self != 0
    }
}

impl Select for u8 {
    open spec fn spec_picks_first(&self) -> bool {
        *self != 0
    }

    fn picks_first(&self) -> (r: bool) {
        *self != 0
    }
}

impl Select for u16 {
    open spec fn spec_picks_first(&self) -> bool {
        *self != 0
    }

    fn picks_first(&self) -> (r: bool) {
        *self != 0
    }
}

impl Select for u32 {
    open spec fn spec_picks_first(&self) -> bool {
        *self != 0
    }

    fn picks_first(&self) -> (r: bool) {
        *self != 0
    }
}

impl Select for u64 {
    open spec fn spec_picks_first(&self) -> bool {
        *self != 0
    }

    fn picks_first(&self) -> (r: bool) {
        *self != 0
    }
}

impl Select for usize {
    open spec fn spec_picks_first(&self) -> bool {
        *self != 0
    }

    fn picks_first(&self) -> (r: bool) {
        *self != 0
    }
}

impl<U> Select for Option<U> {
    open spec fn spec_picks_first(&self) -> bool {
        self is Some
    }

    fn picks_first(&self) -> (r: bool) {
        self.is_some()
    }
}

impl<U, E> Select for Result<U, E> {
    open spec fn spec_picks_first(&self) -> bool {
        self is Ok
    }

    fn picks_first(&self) -> (r: bool) {
        self.is_ok()
    }
}

} // verus!
