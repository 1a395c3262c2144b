//! Types of other crates that the contexts carry without looking inside.

use vstd::prelude::*;

verus! {

/// A length in app units (a sixtieth of a CSS pixel).
#[verifier::external_type_specification]
#[verifier::external_body]
pub struct ExAu(app_units::Au);

/// The unit tag of untyped euclid geometry.
#[verifier::external_type_specification]
#[verifier::external_body]
pub struct ExUnknownUnit(euclid::UnknownUnit);

/// A two-dimensional size tagged with a unit.
#[verifier::external_type_specification]
#[verifier::external_body]
#[verifier::reject_recursive_types(T)]
#[verifier::reject_recursive_types(U)]
pub struct ExSize2D<T, U>(euclid::Size2D<T, U>);

/// The quirks mode of a document.
#[verifier::external_type_specification]
#[verifier::external_body]
pub struct ExQuirksMode(selectors::context::QuirksMode);

/// The caches that speed up expensive selector matches.
#[verifier::external_type_specification]
#[verifier::external_body]
pub struct ExSelectorCaches(selectors::context::SelectorCaches);

/// Relies on selectors' derived `Default` for `SelectorCaches`: it builds
/// empty caches.
pub assume_specification[ <selectors::context::SelectorCaches as core::default::Default>::default ]() -> selectors::context::SelectorCaches;

} // verus!
