//! Which signatures belong together.
use crate::args::{GuestArg, RestArgs};
use crate::objc::{id, objc_super, ConstPtr, SEL};
use crate::signature::{is_id_of, MsgSendSuperSignature};
use std::any::TypeId;
use vstd::prelude::*;

verus! {

/// The signature of a super-call is that of the message with an object in the place of the
/// pointer: its answer and its arguments are the same.
pub proof fn super_calls_have_the_signature_of_their_message<
    R: 'static,
    P1: 'static,
    P2: 'static,
    P3: 'static,
    P4: 'static,
    P5: 'static,
    P6: 'static,
    P7: 'static,
    P8: 'static,
    P9: 'static,
>(value: TypeId)
    ensures
        is_id_of::<
            <(R, (ConstPtr<objc_super>, SEL)) as MsgSendSuperSignature>::WithoutSuper,
        >(value) == is_id_of::<(R, (id, SEL))>(value),
        is_id_of::<
            <(R, (ConstPtr<objc_super>, SEL, P1)) as MsgSendSuperSignature>::WithoutSuper,
        >(value) == is_id_of::<(R, (id, SEL, P1))>(value),
        is_id_of::<
            <(R, (ConstPtr<objc_super>, SEL, P1, P2)) as MsgSendSuperSignature>::WithoutSuper,
        >(value) == is_id_of::<(R, (id, SEL, P1, P2))>(value),
        is_id_of::<
            <(R, (ConstPtr<objc_super>, SEL, P1, P2, P3)) as MsgSendSuperSignature>::WithoutSuper,
        >(value) == is_id_of::<(R, (id, SEL, P1, P2, P3))>(value),
        is_id_of::<
            <(R, (ConstPtr<objc_super>, SEL, P1, P2, P3, P4)) as MsgSendSuperSignature>::WithoutSuper,
        >(value) == is_id_of::<(R, (id, SEL, P1, P2, P3, P4))>(value),
        is_id_of::<
            <(R, (ConstPtr<objc_super>, SEL, P1, P2, P3, P4, P5)) as MsgSendSuperSignature>::WithoutSuper,
        >(value) == is_id_of::<(R, (id, SEL, P1, P2, P3, P4, P5))>(value),
        is_id_of::<
            <(R, (ConstPtr<objc_super>, SEL, P1, P2, P3, P4, P5, P6)) as MsgSendSuperSignature>::WithoutSuper,
        >(value) == is_id_of::<(R, (id, SEL, P1, P2, P3, P4, P5, P6))>(value),
        is_id_of::<
            <(R, (ConstPtr<objc_super>, SEL, P1, P2, P3, P4, P5, P6, P7)) as MsgSendSuperSignature>::WithoutSuper,
        >(value) == is_id_of::<(R, (id, SEL, P1, P2, P3, P4, P5, P6, P7))>(value),
        is_id_of::<
            <(R, (ConstPtr<objc_super>, SEL, P1, P2, P3, P4, P5, P6, P7, P8)) as MsgSendSuperSignature>::WithoutSuper,
        >(value) == is_id_of::<(R, (id, SEL, P1, P2, P3, P4, P5, P6, P7, P8))>(value),
        is_id_of::<
            <(R, (ConstPtr<objc_super>, SEL, P1, P2, P3, P4, P5, P6, P7, P8, P9)) as MsgSendSuperSignature>::WithoutSuper,
        >(value) == is_id_of::<(R, (id, SEL, P1, P2, P3, P4, P5, P6, P7, P8, P9))>(value),
{
}

/// The arguments after the selector belong to the message that has them behind its
/// receiver and its selector, and to the super-call that has them behind the pointer and
/// its selector.
pub proof fn arguments_belong_to_their_message<
    P1: GuestArg + 'static,
    P2: GuestArg + 'static,
    P3: GuestArg + 'static,
    P4: GuestArg + 'static,
    P5: GuestArg + 'static,
    P6: GuestArg + 'static,
    P7: GuestArg + 'static,
    P8: GuestArg + 'static,
    P9: GuestArg + 'static,
>(value: TypeId)
    ensures
        is_id_of::<<() as RestArgs>::Message>(value) == is_id_of::<(id, SEL)>(value),
        is_id_of::<<() as RestArgs>::SuperCall>(value) == is_id_of::<
            (ConstPtr<objc_super>, SEL),
        >(value),
        is_id_of::<<(P1,) as RestArgs>::Message>(value) == is_id_of::<(id, SEL, P1)>(value),
        is_id_of::<<(P1,) as RestArgs>::SuperCall>(value) == is_id_of::<
            (ConstPtr<objc_super>, SEL, P1),
        >(value),
        is_id_of::<<(P1, P2) as RestArgs>::Message>(value) == is_id_of::<(id, SEL, P1, P2)>(value),
        is_id_of::<<(P1, P2) as RestArgs>::SuperCall>(value) == is_id_of::<
            (ConstPtr<objc_super>, SEL, P1, P2),
        >(value),
        is_id_of::<<(P1, P2, P3) as RestArgs>::Message>(value) == is_id_of::<(id, SEL, P1, P2, P3)>(value),
        is_id_of::<<(P1, P2, P3) as RestArgs>::SuperCall>(value) == is_id_of::<
            (ConstPtr<objc_super>, SEL, P1, P2, P3),
        >(value),
        is_id_of::<<(P1, P2, P3, P4) as RestArgs>::Message>(value) == is_id_of::<(id, SEL, P1, P2, P3, P4)>(value),
        is_id_of::<<(P1, P2, P3, P4) as RestArgs>::SuperCall>(value) == is_id_of::<
            (ConstPtr<objc_super>, SEL, P1, P2, P3, P4),
        >(value),
        is_id_of::<<(P1, P2, P3, P4, P5) as RestArgs>::Message>(value) == is_id_of::<(id, SEL, P1, P2, P3, P4, P5)>(value),
        is_id_of::<<(P1, P2, P3, P4, P5) as RestArgs>::SuperCall>(value) == is_id_of::<
            (ConstPtr<objc_super>, SEL, P1, P2, P3, P4, P5),
        >(value),
        is_id_of::<<(P1, P2, P3, P4, P5, P6) as RestArgs>::Message>(value) == is_id_of::<(id, SEL, P1, P2, P3, P4, P5, P6)>(value),
        is_id_of::<<(P1, P2, P3, P4, P5, P6) as RestArgs>::SuperCall>(value) == is_id_of::<
            (ConstPtr<objc_super>, SEL, P1, P2, P3, P4, P5, P6),
        >(value),
        is_id_of::<<(P1, P2, P3, P4, P5, P6, P7) as RestArgs>::Message>(value) == is_id_of::<(id, SEL, P1, P2, P3, P4, P5, P6, P7)>(value),
        is_id_of::<<(P1, P2, P3, P4, P5, P6, P7) as RestArgs>::SuperCall>(value) == is_id_of::<
            (ConstPtr<objc_super>, SEL, P1, P2, P3, P4, P5, P6, P7),
        >(value),
        is_id_of::<<(P1, P2, P3, P4, P5, P6, P7, P8) as RestArgs>::Message>(value) == is_id_of::<(id, SEL, P1, P2, P3, P4, P5, P6, P7, P8)>(value),
        is_id_of::<<(P1, P2, P3, P4, P5, P6, P7, P8) as RestArgs>::SuperCall>(value) == is_id_of::<
            (ConstPtr<objc_super>, SEL, P1, P2, P3, P4, P5, P6, P7, P8),
        >(value),
        is_id_of::<<(P1, P2, P3, P4, P5, P6, P7, P8, P9) as RestArgs>::Message>(value) == is_id_of::<(id, SEL, P1, P2, P3, P4, P5, P6, P7, P8, P9)>(value),
        is_id_of::<<(P1, P2, P3, P4, P5, P6, P7, P8, P9) as RestArgs>::SuperCall>(value) == is_id_of::<
            (ConstPtr<objc_super>, SEL, P1, P2, P3, P4, P5, P6, P7, P8, P9),
        >(value),
{
}

} // verus!
