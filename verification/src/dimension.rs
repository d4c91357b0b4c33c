//! Dimensions: families of base units that convert into one another.
//!
//! Every base unit of a dimension has a scale: how many of the dimension's
//! hub unit one of it is. Converting a quantity multiplies its magnitude by
//! the ratio of the two scales, exactly. An edge of the conversion graph is
//! either direct, one multiplication or division by a constant, or it goes
//! through an intermediary unit and chains two edges.

use vstd::prelude::*;
use crate::composite::Unit;
use crate::scalar::Scalar;

verus! {

/// A base unit, measured against the hub unit of its dimension.
pub trait BaseUnit: Unit + Copy {
    /// How many hub units one of this unit is.
    spec fn scale() -> real;

    /// A scale is positive.
    proof fn lemma_scale_positive()
        ensures
            Self::scale() > 0real,
    ;
}

/// The magnitude `c` is the magnitude `m` taken from a unit of scale `from`
/// to a unit of scale `to`: both hold a number, and the same quantity.
pub open spec fn rescales(m: Scalar, from: real, to: real, c: Scalar) -> bool {
    m.is_defined() && c.is_defined() && c@->0 == m@->0 * (from / to)
}

/// A quantity that can be expressed in the unit `T` of the same dimension.
pub trait ConvertInto<T: BaseUnit>: BaseUnit {
    /// The same quantity in the unit `T`; its magnitude is undefined where
    /// the conversion leaves what a scalar can hold.
    spec fn converted(self) -> T;

    /// A conversion that is defined is exact, and it keeps a magnitude
    /// canonical.
    proof fn lemma_converted(self)
        ensures
            self.magnitude().wf() ==> self.converted().magnitude().wf(),
            self.converted().magnitude().is_defined() ==> rescales(
                self.magnitude(),
                Self::scale(),
                T::scale(),
                self.converted().magnitude(),
            ),
    ;

    /// Converts the quantity into the unit `T`.
    fn convert(self) -> (r: T)
        ensures
            r == self.converted(),
    ;
}

} // verus!
