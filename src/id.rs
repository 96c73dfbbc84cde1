use vstd::prelude::*;

verus! {

/// A fixed-width unsigned integer that can serve as a slab index.
///
/// The largest value of the type is reserved as the `none` sentinel: it marks
/// "no slot" and is never handed out as an id.
pub trait Id: Copy + Sized {
    /// The numeric value of this id.
    spec fn index(self) -> nat;

    /// The numeric value of the `none` sentinel: the type's maximum.
    spec fn none_index() -> nat;

    /// The initial value, zero.
    fn initial() -> (r: Self)
        ensures
            r.index() == 0,
    ;

    /// The id as a `usize`, for a value that fits.
    fn as_usize(self) -> (r: usize)
        requires
            self.index() <= usize::MAX,
        ensures
            r as nat == self.index(),
    ;

    /// Whether the id is below `bound`, for any value of the id.
    fn is_below(self, bound: usize) -> (r: bool)
        ensures
            r == (self.index() < bound as nat),
    ;

    /// The next value. The sentinel has no successor: incrementing it would
    /// mean the id space is used up.
    fn increment(self) -> (r: Self)
        requires
            self.index() < Self::none_index(),
        ensures
            r.index() == self.index() + 1,
    ;

    /// Reads the value and leaves the sentinel in its place.
    fn take(&mut self) -> (r: Self)
        ensures
            r == *old(self),
            final(self).index() == Self::none_index(),
    ;

    /// The value itself, which must not be the sentinel.
    fn expect(self, m: &str) -> (r: Self)
        requires
            self.index() != Self::none_index(),
        ensures
            r == self,
    ;

    /// The `none` sentinel.
    fn none() -> (r: Self)
        ensures
            r.index() == Self::none_index(),
    ;

    /// Whether this is the `none` sentinel.
    fn is_none(self) -> (r: bool)
        ensures
            r == (self.index() == Self::none_index()),
    ;
}

impl Id for u8 {
    open spec fn index(self) -> nat {
        self as nat
    }

    open spec fn none_index() -> nat {
        u8::MAX as nat
    }

    fn initial() -> (r: Self) {
        0
    }

    fn as_usize(self) -> (r: usize) {
        self as usize
    }

    fn is_below(self, bound: usize) -> (r: bool) {
        (self as usize) < bound
    }

    fn increment(self) -> (r: Self) {
        self + 1
    }

    fn take(&mut self) -> (r: Self) {
        let r = *self;
        *self = u8::MAX;
        r
    }

    fn expect(self, m: &str) -> (r: Self) {
        self
    }

    fn none() -> (r: Self) {
        u8::MAX
    }

    fn is_none(self) -> (r: bool) {
        self == u8::MAX
    }
}

impl Id for u16 {
    open spec fn index(self) -> nat {
        self as nat
    }

    open spec fn none_index() -> nat {
        u16::MAX as nat
    }

    fn initial() -> (r: Self) {
        0
    }

    fn as_usize(self) -> (r: usize) {
        self as usize
    }

    fn is_below(self, bound: usize) -> (r: bool) {
        (self as usize) < bound
    }

    fn increment(self) -> (r: Self) {
        self + 1
    }

    fn take(&mut self) -> (r: Self) {
        let r = *self;
        *self = u16::MAX;
        r
    }

    fn expect(self, m: &str) -> (r: Self) {
        self
    }

    fn none() -> (r: Self) {
        u16::MAX
    }

    fn is_none(self) -> (r: bool) {
        self == u16::MAX
    }
}

impl Id for u32 {
    open spec fn index(self) -> nat {
        self as nat
    }

    open spec fn none_index() -> nat {
        u32::MAX as nat
    }

    fn initial() -> (r: Self) {
        0
    }

    fn as_usize(self) -> (r: usize) {
        self as usize
    }

    fn is_below(self, bound: usize) -> (r: bool) {
        (self as usize) < bound
    }

    fn increment(self) -> (r: Self) {
        self + 1
    }

    fn take(&mut self) -> (r: Self) {
        let r = *self;
        *self = u32::MAX;
        r
    }

    fn expect(self, m: &str) -> (r: Self) {
        self
    }

    fn none() -> (r: Self) {
        u32::MAX
    }

    fn is_none(self) -> (r: bool) {
        self == u32::MAX
    }
}

impl Id for u64 {
    open spec fn index(self) -> nat {
        self as nat
    }

    open spec fn none_index() -> nat {
        u64::MAX as nat
    }

    fn initial() -> (r: Self) {
        0
    }

    fn as_usize(self) -> (r: usize) {
        self as usize
    }

    fn is_below(self, bound: usize) -> (r: bool) {
        (self as u128) < (bound as u128)
    }

    fn increment(self) -> (r: Self) {
        self + 1
    }

    fn take(&mut self) -> (r: Self) {
        let r = *self;
        *self = u64::MAX;
        r
    }

    fn expect(self, m: &str) -> (r: Self) {
        self
    }

    fn none() -> (r: Self) {
        u64::MAX
    }

    fn is_none(self) -> (r: bool) {
        self == u64::MAX
    }
}

impl Id for u128 {
    open spec fn index(self) -> nat {
        self as nat
    }

    open spec fn none_index() -> nat {
        u128::MAX as nat
    }

    fn initial() -> (r: Self) {
        0
    }

    fn as_usize(self) -> (r: usize) {
        self as usize
    }

    fn is_below(self, bound: usize) -> (r: bool) {
        self < (bound as u128)
    }

    fn increment(self) -> (r: Self) {
        self + 1
    }

    fn take(&mut self) -> (r: Self) {
        let r = *self;
        *self = u128::MAX;
        r
    }

    fn expect(self, m: &str) -> (r: Self) {
        self
    }

    fn none() -> (r: Self) {
        u128::MAX
    }

    fn is_none(self) -> (r: bool) {
        self == u128::MAX
    }
}

} // verus!
