use vstd::prelude::*;

verus! {

/// Values that a probe can create when the user switches an optional value on.
pub trait ProbeDefault: Sized {
    /// The value that `probe_default` returns.
    spec fn default_value() -> Self;

    /// Creates the default value of the type.
    fn probe_default() -> (r: Self)
        ensures
            r == Self::default_value(),
    ;
}

impl<T: ProbeDefault> ProbeDefault for Option<T> {
    open spec fn default_value() -> Self {
        Some(T::default_value())
    }

    fn probe_default() -> (r: Self) {
        Some(T::probe_default())
    }
}

impl ProbeDefault for i8 {
    open spec fn default_value() -> Self {
        0
    }

    fn probe_default() -> (r: Self) {
        0
    }
}

impl ProbeDefault for i16 {
    open spec fn default_value() -> Self {
        0
    }

    fn probe_default() -> (r: Self) {
        0
    }
}

impl ProbeDefault for i32 {
    open spec fn default_value() -> Self {
        0
    }

    fn probe_default() -> (r: Self) {
        0
    }
}

impl ProbeDefault for i64 {
    open spec fn default_value() -> Self {
        0
    }

    fn probe_default() -> (r: Self) {
        0
    }
}

impl ProbeDefault for isize {
    open spec fn default_value() -> Self {
        0
    }

    fn probe_default() -> (r: Self) {
        0
    }
}

impl ProbeDefault for u8 {
    open spec fn default_value() -> Self {
        0
    }

    fn probe_default() -> (r: Self) {
        0
    }
}

impl ProbeDefault for u16 {
    open spec fn default_value() -> Self {
        0
    }

    fn probe_default() -> (r: Self) {
        0
    }
}

impl ProbeDefault for u32 {
    open spec fn default_value() -> Self {
        0
    }

    fn probe_default() -> (r: Self) {
        0
    }
}

impl ProbeDefault for u64 {
    open spec fn default_value() -> Self {
        0
    }

    fn probe_default() -> (r: Self) {
        0
    }
}

impl ProbeDefault for usize {
    open spec fn default_value() -> Self {
        0
    }

    fn probe_default() -> (r: Self) {
        0
    }
}

impl ProbeDefault for bool {
    open spec fn default_value() -> Self {
        false
    }

    fn probe_default() -> (r: Self) {
        false
    }
}

/// A fresh optional value is present and holds the default of its inner
/// type; numbers start at zero and flags unset.
pub proof fn defaults_are_zero_and_present<T: ProbeDefault>()
    ensures
        <Option<T> as ProbeDefault>::default_value() == Some(T::default_value()),
        <Option<T> as ProbeDefault>::default_value() is Some,
        <i8 as ProbeDefault>::default_value() == 0,
        <i16 as ProbeDefault>::default_value() == 0,
        <i32 as ProbeDefault>::default_value() == 0,
        <i64 as ProbeDefault>::default_value() == 0,
        <isize as ProbeDefault>::default_value() == 0,
        <u8 as ProbeDefault>::default_value() == 0,
        <u16 as ProbeDefault>::default_value() == 0,
        <u32 as ProbeDefault>::default_value() == 0,
        <u64 as ProbeDefault>::default_value() == 0,
        <usize as ProbeDefault>::default_value() == 0,
        !<bool as ProbeDefault>::default_value(),
{
}

} // verus!
