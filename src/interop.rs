//! The component types of the `mint` interoperability crate, declared so
//! that conversions to and from them can be stated and checked.

use vstd::prelude::*;

verus! {

/// `mint::Point2`: a plain struct with public fields `x` and `y`.
#[verifier::external_type_specification]
#[verifier::reject_recursive_types(T)]
pub struct ExMintPoint2<T>(mint::Point2<T>);

/// `mint::Vector2`: a plain struct with public fields `x` and `y`.
#[verifier::external_type_specification]
#[verifier::reject_recursive_types(T)]
pub struct ExMintVector2<T>(mint::Vector2<T>);

} // verus!
