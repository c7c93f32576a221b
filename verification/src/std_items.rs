//! Declarations of standard library items that the validations reach through.

use vstd::prelude::*;

verus! {

/// `std::cell::Ref`, a shared borrow of a `RefCell`'s contents.
#[verifier::external_type_specification]
#[verifier::external_body]
#[verifier::reject_recursive_types(T)]
pub struct ExRef<'b, T: ?Sized>(std::cell::Ref<'b, T>);

/// `std::cell::RefMut`, an exclusive borrow of a `RefCell`'s contents.
#[verifier::external_type_specification]
#[verifier::external_body]
#[verifier::reject_recursive_types(T)]
pub struct ExRefMut<'b, T: ?Sized + 'b>(std::cell::RefMut<'b, T>);

/// `Deref::deref` of `std::cell::Ref`: the borrowed contents. Nothing is stated of them, since
/// a `Ref` is opaque here.
#[verifier::external_body]
pub(crate) fn ref_contents<'a, 'b, T: ?Sized>(r: &'a std::cell::Ref<'b, T>) -> &'a T {
    &**r
}

/// `Deref::deref` of `std::cell::RefMut`: the borrowed contents. Nothing is stated of them,
/// since a `RefMut` is opaque here.
#[verifier::external_body]
pub(crate) fn ref_mut_contents<'a, 'b, T: ?Sized>(r: &'a std::cell::RefMut<'b, T>) -> &'a T {
    &**r
}

} // verus!
