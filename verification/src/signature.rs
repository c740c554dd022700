//! The types of messages, as far as they can be compared when the program runs.
use crate::objc::{id, objc_super, ConstPtr, SEL};
use std::any::TypeId;
use vstd::prelude::*;

verus! {

/// [`std::any::TypeId`], which identifies a type. Nothing is known of what is
/// inside such a value.
#[verifier::external_type_specification]
#[verifier::external_body]
pub struct ExTypeId(std::any::TypeId);

/// The identity of a message's type, and a description of it for people.
pub type TypeInfo = (TypeId, &'static str);

/// [`TypeId::of`]. Nothing is claimed of it here: this lets contracts speak of it.
pub assume_specification<T: ?Sized + 'static>[ TypeId::of::<T> ]() -> (result: TypeId)
;

/// The value is what [`TypeId::of`] returns for the type `T`, now and always.
pub open spec fn is_id_of<T: ?Sized + 'static>(value: TypeId) -> bool {
    &&& call_ensures(TypeId::of::<T>, (), value)
    &&& forall|other: TypeId| #[trigger] call_ensures(TypeId::of::<T>, (), other) ==> other == value
}

/// [`TypeId::of`] on the type `T`, which returns the same value for a type whenever
/// it is called. Which value that is, and that another type has another one, is
/// left unsaid.
#[verifier::external_body]
fn type_id_of<T: ?Sized + 'static>() -> (result: TypeId)
    ensures
        is_id_of::<T>(result),
{
    TypeId::of::<T>()
}

/// `==` on two [`TypeId`]s, which is true exactly if the two are the same value.
#[verifier::external_body]
pub(crate) fn same_type(a: TypeId, b: TypeId) -> (result: bool)
    ensures
        result == (a == b),
{
    a == b
}

/// Trait that assists with type-checking of the arguments of
/// [`msg_send`](crate::messages::msg_send).
///
/// - Statically constrains the types of the arguments so that the first two are
///   always [`id`] and [`SEL`].
/// - Provides the type ID to enable dynamic type checking of subsequent
///   arguments and the return type.
///
/// See also [`MsgSendSuperSignature`].
pub trait MsgSendSignature: 'static {
    /// Get the [`TypeId`] and a human-readable description for this signature.
    /// No names of types are kept for descriptions: they would take up space.
    fn type_info() -> (info: TypeInfo)
        ensures
            is_id_of::<Self>(info.0),
            info.1@ == "[description unavailable in release builds]"@,
    {
        (type_id_of::<Self>(), "[description unavailable in release builds]")
    }
}

/// What [`MsgSendSignature::type_info`] may say of a signature.
pub open spec fn is_info_of<S: MsgSendSignature>(info: TypeInfo) -> bool {
    call_ensures(S::type_info, (), info)
}

/// Asks a signature for its [`MsgSendSignature::type_info`].
pub fn info_of<S: MsgSendSignature>() -> (info: TypeInfo)
    ensures
        is_info_of::<S>(info),
{
    ask(S::type_info)
}

/// Calls a function.
fn ask<F: Fn() -> TypeInfo>(function: F) -> (info: TypeInfo)
    requires
        call_requires(function, ()),
    ensures
        call_ensures(function, (), info),
{
    function()
}

/// All that may be said of a signature has the same identity.
pub proof fn a_signature_has_one_identity<S: MsgSendSignature>(one: TypeInfo, other: TypeInfo)
    requires
        is_info_of::<S>(one),
        is_info_of::<S>(other),
    ensures
        one.0 == other.0,
        one.1@ == other.1@,
{
}

/// Counterpart of [`MsgSendSignature`] for
/// [`msg_send_super2`](crate::messages::msg_send_super2).
pub trait MsgSendSuperSignature: 'static {
    /// Signature with the [`objc_super`] pointer replaced by [`id`].
    type WithoutSuper: MsgSendSignature;
}

impl<R: 'static> MsgSendSignature for (R, (id, SEL)) {

}

impl<R: 'static, P1: 'static> MsgSendSignature for (R, (id, SEL, P1)) {

}

impl<R: 'static, P1: 'static, P2: 'static> MsgSendSignature for (R, (id, SEL, P1, P2)) {

}

impl<R: 'static, P1: 'static, P2: 'static, P3: 'static> MsgSendSignature for
    (R, (id, SEL, P1, P2, P3)) {

}

impl<R: 'static, P1: 'static, P2: 'static, P3: 'static, P4: 'static> MsgSendSignature for
    (R, (id, SEL, P1, P2, P3, P4)) {

}

impl<
    R: 'static,
    P1: 'static,
    P2: 'static,
    P3: 'static,
    P4: 'static,
    P5: 'static,
> MsgSendSignature for (R, (id, SEL, P1, P2, P3, P4, P5)) {

}

impl<
    R: 'static,
    P1: 'static,
    P2: 'static,
    P3: 'static,
    P4: 'static,
    P5: 'static,
    P6: 'static,
> MsgSendSignature for (R, (id, SEL, P1, P2, P3, P4, P5, P6)) {

}

impl<
    R: 'static,
    P1: 'static,
    P2: 'static,
    P3: 'static,
    P4: 'static,
    P5: 'static,
    P6: 'static,
    P7: 'static,
> MsgSendSignature for (R, (id, SEL, P1, P2, P3, P4, P5, P6, P7)) {

}

impl<
    R: 'static,
    P1: 'static,
    P2: 'static,
    P3: 'static,
    P4: 'static,
    P5: 'static,
    P6: 'static,
    P7: 'static,
    P8: 'static,
> MsgSendSignature for (R, (id, SEL, P1, P2, P3, P4, P5, P6, P7, P8)) {

}

impl<
    R: 'static,
    P1: 'static,
    P2: 'static,
    P3: 'static,
    P4: 'static,
    P5: 'static,
    P6: 'static,
    P7: 'static,
    P8: 'static,
    P9: 'static,
> MsgSendSignature for (R, (id, SEL, P1, P2, P3, P4, P5, P6, P7, P8, P9)) {

}

impl<R: 'static> MsgSendSuperSignature for (R, (ConstPtr<objc_super>, SEL)) {
    type WithoutSuper = (R, (id, SEL));
}

impl<R: 'static, P1: 'static> MsgSendSuperSignature for (R, (ConstPtr<objc_super>, SEL, P1)) {
    type WithoutSuper = (R, (id, SEL, P1));
}

impl<R: 'static, P1: 'static, P2: 'static> MsgSendSuperSignature for
    (R, (ConstPtr<objc_super>, SEL, P1, P2)) {
    type WithoutSuper = (R, (id, SEL, P1, P2));
}

impl<R: 'static, P1: 'static, P2: 'static, P3: 'static> MsgSendSuperSignature for
    (R, (ConstPtr<objc_super>, SEL, P1, P2, P3)) {
    type WithoutSuper = (R, (id, SEL, P1, P2, P3));
}

impl<R: 'static, P1: 'static, P2: 'static, P3: 'static, P4: 'static> MsgSendSuperSignature for
    (R, (ConstPtr<objc_super>, SEL, P1, P2, P3, P4)) {
    type WithoutSuper = (R, (id, SEL, P1, P2, P3, P4));
}

impl<
    R: 'static,
    P1: 'static,
    P2: 'static,
    P3: 'static,
    P4: 'static,
    P5: 'static,
> MsgSendSuperSignature for (R, (ConstPtr<objc_super>, SEL, P1, P2, P3, P4, P5)) {
    type WithoutSuper = (R, (id, SEL, P1, P2, P3, P4, P5));
}

impl<
    R: 'static,
    P1: 'static,
    P2: 'static,
    P3: 'static,
    P4: 'static,
    P5: 'static,
    P6: 'static,
> MsgSendSuperSignature for (R, (ConstPtr<objc_super>, SEL, P1, P2, P3, P4, P5, P6)) {
    type WithoutSuper = (R, (id, SEL, P1, P2, P3, P4, P5, P6));
}

impl<
    R: 'static,
    P1: 'static,
    P2: 'static,
    P3: 'static,
    P4: 'static,
    P5: 'static,
    P6: 'static,
    P7: 'static,
> MsgSendSuperSignature for (R, (ConstPtr<objc_super>, SEL, P1, P2, P3, P4, P5, P6, P7)) {
    type WithoutSuper = (R, (id, SEL, P1, P2, P3, P4, P5, P6, P7));
}

impl<
    R: 'static,
    P1: 'static,
    P2: 'static,
    P3: 'static,
    P4: 'static,
    P5: 'static,
    P6: 'static,
    P7: 'static,
    P8: 'static,
> MsgSendSuperSignature for (R, (ConstPtr<objc_super>, SEL, P1, P2, P3, P4, P5, P6, P7, P8)) {
    type WithoutSuper = (R, (id, SEL, P1, P2, P3, P4, P5, P6, P7, P8));
}

impl<
    R: 'static,
    P1: 'static,
    P2: 'static,
    P3: 'static,
    P4: 'static,
    P5: 'static,
    P6: 'static,
    P7: 'static,
    P8: 'static,
    P9: 'static,
> MsgSendSuperSignature for (R, (ConstPtr<objc_super>, SEL, P1, P2, P3, P4, P5, P6, P7, P8, P9)) {
    type WithoutSuper = (R, (id, SEL, P1, P2, P3, P4, P5, P6, P7, P8, P9));
}

} // verus!
