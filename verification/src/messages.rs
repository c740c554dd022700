//! Sending messages: `objc_msgSend` and its variants, which the guest calls, and
//! the functions by which the host sends messages.
use crate::abi::{
    enter_host_call, host_call, host_call_ended, leave_host_call, lemma_pushed_below,
    plain_values_are_returned_in_registers, stack_words, write_next_arg, GuestRet, HostFrame,
};
use crate::args::{MessageArgs, MessageParts, RestArgs, MAX_REST_WORDS};
use crate::dispatch::{dispatch_outcome, objc_msgSend_inner, Step};
use crate::env::{Environment, Model, LR, SP};
use crate::initialize::PendingInitialize;
use crate::mem::{
    above, address, below, offsets_add_up, offsets_differ, other_words_stay, with_word, word_at, word_is_read_back,
};
use crate::objc::{class_named, id, nil, objc_super, selector_named, Class, ConstPtr, SEL};
use crate::signature::{info_of, is_info_of, MsgSendSignature, MsgSendSuperSignature, TypeInfo};
use std::marker::PhantomData;
use vstd::prelude::*;

verus! {

/// A message that the host has sent. Once the steps of the dispatch are taken, the
/// answer is in the registers (or in the memory that was provided for a struct), and
/// [`leave_host_call`] ends the call.
pub struct Sent {
    pub frame: HostFrame,
    pub step: Step,
}

/// A message that the host has sent to the superclass. Like [`Sent`], but
/// [`finish_super`] ends it.
pub struct SentToSuper {
    pub old_sp: u32,
    pub sent: Sent,
}

/// What a call from the host preserves of an environment.
pub open spec fn frame_of(model: Model) -> HostFrame {
    HostFrame { sp: model.regs[SP as int], lr: model.regs[LR as int] }
}

/// The words of a message.
pub open spec fn message_words(receiver: u32, selector: SEL, rest: Seq<u32>) -> Seq<u32> {
    seq![receiver, selector.0] + rest
}

/// What sending a message from the host leads to.
pub open spec fn send_outcome(
    before: Model,
    info: Option<TypeInfo>,
    struct_size: Option<u32>,
    receiver: id,
    selector: SEL,
    rest: Seq<u32>,
    tolerate_type_mismatch: bool,
    after: Model,
    sent: Sent,
) -> bool {
    &&& sent.frame == frame_of(before)
    &&& dispatch_outcome(
        host_call(
            Model { message_type_info: info, ..before },
            struct_size,
            message_words(receiver.0, selector, rest),
        ),
        receiver,
        selector,
        None,
        tolerate_type_mismatch,
        after,
        sent.step,
    )
}

/// What sending a message of the signature `S` from the host leads to.
pub open spec fn sent_as<S: MsgSendSignature>(
    before: Model,
    struct_size: Option<u32>,
    receiver: id,
    selector: SEL,
    rest: Seq<u32>,
    after: Model,
    sent: Sent,
) -> bool {
    exists|info: TypeInfo|
        is_info_of::<S>(info) && #[trigger] send_outcome(
            before,
            Some(info),
            struct_size,
            receiver,
            selector,
            rest,
            false,
            after,
            sent,
        )
}

/// The environment when `objc_msgSendSuper2` has rewritten its first argument.
pub open spec fn super_rewritten(before: Model, super_ptr: u32) -> Model {
    Model { regs: before.regs.update(0, word_at(before.mem, super_ptr)), ..before }
}

/// What a super-call from the guest leads to.
pub open spec fn super_outcome(
    before: Model,
    super_ptr: u32,
    selector: SEL,
    after: Model,
    step: Step,
) -> bool {
    dispatch_outcome(
        super_rewritten(before, super_ptr),
        id(word_at(before.mem, super_ptr)),
        selector,
        Some(id(word_at(before.mem, address(super_ptr, 4)))),
        false,
        after,
        step,
    )
}

/// What a super-call from the host leads to.
pub open spec fn send_super_outcome(
    before: Model,
    info: TypeInfo,
    super_ptr: u32,
    selector: SEL,
    rest: Seq<u32>,
    after: Model,
    sent: Sent,
) -> bool {
    &&& sent.frame == frame_of(before)
    &&& super_outcome(
        host_call(
            Model { message_type_info: Some(info), ..before },
            None,
            message_words(super_ptr, selector, rest),
        ),
        super_ptr,
        selector,
        after,
        sent.step,
    )
}

/// Standard variant of `objc_msgSend`. See [`objc_msgSend_inner`].
#[allow(non_snake_case)]
pub fn objc_msgSend(env: &mut Environment, receiver: id, selector: SEL) -> (step: Step)
    requires
        old(env)@.wf(),
    ensures
        dispatch_outcome(old(env)@, receiver, selector, None, false, final(env)@, step),
        final(env)@.wf(),
{
    objc_msgSend_inner(env, receiver, selector, None, false)
}

/// Variant of `objc_msgSend` that tolerates a difference between the type of the
/// message and that of the method.
#[allow(non_snake_case)]
pub fn _touchHLE_objc_msgSend_tolerant(env: &mut Environment, receiver: id, selector: SEL) -> (step:
    Step)
    requires
        old(env)@.wf(),
    ensures
        dispatch_outcome(old(env)@, receiver, selector, None, true, final(env)@, step),
        final(env)@.wf(),
{
    objc_msgSend_inner(env, receiver, selector, None, true)
}

/// Variant of `objc_msgSend` for methods that return a struct via a pointer.
/// See [`objc_msgSend_inner`].
///
/// The first parameter here is the pointer for the struct return. It is passed
/// through to the method, which only works if the method also has the pointer
/// parameter. The caller therefore has to pick the appropriate `objc_msgSend`
/// variant depending on the method it wants to call.
#[allow(non_snake_case)]
pub fn objc_msgSend_stret(env: &mut Environment, _stret: u32, receiver: id, selector: SEL) -> (step:
    Step)
    requires
        old(env)@.wf(),
    ensures
        dispatch_outcome(old(env)@, receiver, selector, None, false, final(env)@, step),
        final(env)@.wf(),
{
    objc_msgSend_inner(env, receiver, selector, None, false)
}

/// Variant of [`objc_msgSend_stret`] that tolerates a difference between the type
/// of the message and that of the method.
#[allow(non_snake_case)]
pub fn _touchHLE_objc_msgSend_stret_tolerant(
    env: &mut Environment,
    _stret: u32,
    receiver: id,
    selector: SEL,
) -> (step: Step)
    requires
        old(env)@.wf(),
    ensures
        dispatch_outcome(old(env)@, receiver, selector, None, true, final(env)@, step),
        final(env)@.wf(),
{
    objc_msgSend_inner(env, receiver, selector, None, true)
}

/// Reads an [`objc_super`] in guest memory.
fn read_super(env: &Environment, super_ptr: &ConstPtr<objc_super>) -> (result: objc_super)
    ensures
        result.receiver == id(word_at(env@.mem, super_ptr.bits)),
        result.class == id(word_at(env@.mem, address(super_ptr.bits, 4))),
{
    objc_super {
        receiver: id(env.mem.read_word(super_ptr.bits)),
        class: id(env.mem.read_word(above(super_ptr.bits, 4))),
    }
}

/// Variant of `objc_msgSend` for supercalls. See [`objc_msgSend_inner`].
///
/// This variant has a weird ABI because it needs to receive an additional piece
/// of information (a class pointer), but it can't actually take this as an
/// extra parameter, because that would take one of the argument slots reserved
/// for arguments passed onto the method implementation. Hence the [`objc_super`]
/// pointer in place of the normal [`id`].
#[allow(non_snake_case)]
pub fn objc_msgSendSuper2(
    env: &mut Environment,
    super_ptr: ConstPtr<objc_super>,
    selector: SEL,
) -> (step: Step)
    requires
        old(env)@.wf(),
    ensures
        super_outcome(old(env)@, super_ptr.bits, selector, final(env)@, step),
        final(env)@.wf(),
{
    let objc_super { receiver, class } = read_super(env, &super_ptr);
    // Rewrite first argument to match the normal ABI.
    let mut reg_offset: usize = 0;
    write_next_arg(&mut reg_offset, &mut env.cpu.regs, &mut env.mem, receiver.0);
    assert(env@ =~= super_rewritten(old(env)@, super_ptr.bits));
    objc_msgSend_inner(env, receiver, selector, Some(class), false)
}

/// Variant of [`objc_msgSendSuper2`] for methods that return a struct via a pointer.
#[allow(non_snake_case)]
pub fn objc_msgSendSuper2_stret(
    env: &mut Environment,
    super_ptr: ConstPtr<objc_super>,
    selector: SEL,
) -> (step: Step)
    requires
        old(env)@.wf(),
    ensures
        super_outcome(old(env)@, super_ptr.bits, selector, final(env)@, step),
        final(env)@.wf(),
{
    let objc_super { receiver, class } = read_super(env, &super_ptr);
    // Rewrite first argument to match the normal ABI.
    let mut reg_offset: usize = 0;
    write_next_arg(&mut reg_offset, &mut env.cpu.regs, &mut env.mem, receiver.0);
    assert(env@ =~= super_rewritten(old(env)@, super_ptr.bits));
    objc_msgSend_inner(env, receiver, selector, Some(class), false)
}

/// The words of a message, in the order in which they are passed.
fn words_of(receiver: u32, selector: SEL, rest: &Vec<u32>) -> (words: Vec<u32>)
    ensures
        words@ == message_words(receiver, selector, rest@),
{
    let mut words: Vec<u32> = Vec::new();
    words.push(receiver);
    words.push(selector.0);
    let mut i: usize = 0;
    while i < rest.len()
        invariant
            i <= rest.len(),
            words@ == message_words(receiver, selector, rest@.take(i as int)),
        decreases rest.len() - i,
    {
        words.push(rest[i]);
        assert(rest@.take(i + 1) =~= rest@.take(i as int).push(rest@[i as int]));
        assert(words@ =~= message_words(receiver, selector, rest@.take(i + 1)));
        i += 1;
    }
    assert(rest@.take(rest@.len() as int) =~= rest@);
    words
}

/// Sends a message of a known type that returns a struct of `struct_size` bytes in
/// memory, or something in registers.
pub fn msg_send_typed(
    env: &mut Environment,
    info: TypeInfo,
    struct_size: Option<u32>,
    receiver: id,
    selector: SEL,
    rest: &Vec<u32>,
) -> (sent: Sent)
    requires
        old(env)@.wf(),
        rest@.len() <= MAX_REST_WORDS,
    ensures
        send_outcome(
            old(env)@,
            Some(info),
            struct_size,
            receiver,
            selector,
            rest@,
            false,
            final(env)@,
            sent,
        ),
        final(env)@.wf(),
{
    // Provide type info for dynamic type checking.
    env.objc.message_type_info = Some(info);
    let words = words_of(receiver.0, selector, rest);
    let frame = enter_host_call(env, struct_size, &words);
    let step = if struct_size.is_some() {
        let stret = env.cpu.regs[0];
        objc_msgSend_stret(env, stret, receiver, selector)
    } else {
        objc_msgSend(env, receiver, selector)
    };
    Sent { frame, step }
}

/// Wrapper around [`objc_msgSend`] which, together with [`msg`], makes it easy to
/// send messages in host code. Warning: all types are inferred from the call-site and
/// they may not be checked, so be very sure you get them correct!
pub fn msg_send<R, P>(env: &mut Environment, args: P) -> (sent: Sent) where
    (R, P): MsgSendSignature,
    R: GuestRet,
    P: MessageArgs,

    requires
        old(env)@.wf(),
        args.rest().len() <= MAX_REST_WORDS,
    ensures
        sent_as::<(R, P)>(
            old(env)@,
            R::SIZE_IN_MEM,
            id(args.receiver()),
            args.selector(),
            args.rest(),
            final(env)@,
            sent,
        ),
        final(env)@.wf(),
{
    let info = info_of::<(R, P)>();
    let MessageParts { receiver, selector, rest } = args.into_parts();
    let receiver = id(receiver);
    msg_send_typed(env, info, R::SIZE_IN_MEM, receiver, selector, &rest)
}

/// Variant of [`msg_send`] for messages whose type is not to be checked.
pub fn msg_send_no_type_checking<R, P>(env: &mut Environment, args: P) -> (sent: Sent) where
    (R, P): MsgSendSignature,
    R: GuestRet,
    P: MessageArgs,

    requires
        old(env)@.wf(),
        args.rest().len() <= MAX_REST_WORDS,
    ensures
        send_outcome(
            old(env)@,
            old(env)@.message_type_info,
            R::SIZE_IN_MEM,
            id(args.receiver()),
            args.selector(),
            args.rest(),
            true,
            final(env)@,
            sent,
        ),
        final(env)@.wf(),
{
    let MessageParts { receiver, selector, rest } = args.into_parts();
    let receiver = id(receiver);
    let words = words_of(receiver.0, selector, &rest);
    let frame = enter_host_call(env, R::SIZE_IN_MEM, &words);
    let step = if R::SIZE_IN_MEM.is_some() {
        let stret = env.cpu.regs[0];
        _touchHLE_objc_msgSend_stret_tolerant(env, stret, receiver, selector)
    } else {
        _touchHLE_objc_msgSend_tolerant(env, receiver, selector)
    };
    Sent { frame, step }
}

/// Sends the `+initialize` that the initialization of a class waits for.
pub fn send_initialize(env: &mut Environment, pending: &PendingInitialize) -> (sent: Sent)
    requires
        old(env)@.wf(),
    ensures
        send_outcome(
            old(env)@,
            old(env)@.message_type_info,
            None,
            pending.class,
            pending.selector,
            Seq::empty(),
            true,
            final(env)@,
            sent,
        ),
        final(env)@.wf(),
{
    proof {
        plain_values_are_returned_in_registers();
    }
    msg_send_no_type_checking::<(), (id, SEL)>(env, (pending.class, pending.selector))
}

/// Sends a super-call of a known type.
pub fn msg_send_super2_typed(
    env: &mut Environment,
    info: TypeInfo,
    super_ptr: ConstPtr<objc_super>,
    selector: SEL,
    rest: &Vec<u32>,
) -> (sent: Sent)
    requires
        old(env)@.wf(),
        rest@.len() <= MAX_REST_WORDS,
    ensures
        send_super_outcome(
            old(env)@,
            info,
            super_ptr.bits,
            selector,
            rest@,
            final(env)@,
            sent,
        ),
        final(env)@.wf(),
{
    // Provide type info for dynamic type checking.
    env.objc.message_type_info = Some(info);
    let words = words_of(super_ptr.bits, selector, rest);
    let frame = enter_host_call(env, None, &words);
    let step = objc_msgSendSuper2(env, super_ptr, selector);
    Sent { frame, step }
}

/// What a super-call of the signature `S` from the host leads to.
pub open spec fn super_sent_as<S: MsgSendSignature>(
    before: Model,
    super_ptr: u32,
    selector: SEL,
    rest: Seq<u32>,
    after: Model,
    sent: Sent,
) -> bool {
    exists|info: TypeInfo|
        is_info_of::<S>(info) && #[trigger] send_super_outcome(
            before,
            info,
            super_ptr,
            selector,
            rest,
            after,
            sent,
        )
}

/// [`msg_send`] but for super-calls (calls [`objc_msgSendSuper2`]). You probably
/// want to use [`msg_super`] rather than calling this directly.
///
/// There is no variant for struct returns: where `R` is returned in memory, the
/// message is sent as if it were not, and its answer may be unreliable.
pub fn msg_send_super2<R, P>(env: &mut Environment, args: P) -> (sent: Sent) where
    (R, P): MsgSendSuperSignature,
    R: GuestRet,
    P: MessageArgs,

    requires
        old(env)@.wf(),
        args.rest().len() <= MAX_REST_WORDS,
    ensures
        super_sent_as::<<(R, P) as MsgSendSuperSignature>::WithoutSuper>(
            old(env)@,
            args.receiver(),
            args.selector(),
            args.rest(),
            final(env)@,
            sent,
        ),
        final(env)@.wf(),
{
    let info = info_of::<<(R, P) as MsgSendSuperSignature>::WithoutSuper>();
    let MessageParts { receiver, selector, rest } = args.into_parts();
    let super_ptr = ConstPtr { bits: receiver, pointee: PhantomData };
    msg_send_super2_typed(env, info, super_ptr, selector, &rest)
}

/// The environment with an [`objc_super`] pushed on the stack.
pub open spec fn super_pushed(before: Model, receiver: id, class: Class) -> Model {
    let super_ptr = address(before.regs[SP as int], -8);
    Model {
        regs: before.regs.update(SP as int, super_ptr),
        mem: with_word(
            with_word(before.mem, super_ptr, receiver.0),
            address(super_ptr, 4),
            class.0,
        ),
        ..before
    }
}

/// What a super-call from a method of `class` leads to: the method is looked up
/// above `class`, and its receiver is the object that the call was made for.
pub open spec fn msg_super_outcome(
    before: Model,
    info: TypeInfo,
    class: Class,
    receiver: id,
    selector: SEL,
    rest: Seq<u32>,
    after: Model,
    sent: SentToSuper,
) -> bool {
    let pushed = super_pushed(before, receiver, class);
    let called = host_call(
        Model { message_type_info: Some(info), ..pushed },
        None,
        message_words(pushed.regs[SP as int], selector, rest),
    );
    &&& sent.old_sp == before.regs[SP as int]
    &&& sent.sent.frame == frame_of(pushed)
    &&& dispatch_outcome(
        Model { regs: called.regs.update(0, receiver.0), ..called },
        receiver,
        selector,
        Some(class),
        false,
        after,
        sent.sent.step,
    )
}

/// What was pushed for a super-call is still there when it is made.
proof fn lemma_super_read_back(before: Model, info: TypeInfo, receiver: id, class: Class, words: Seq<u32>)
    requires
        before.regs.len() == 16,
        words.len() < 0x3fff_fff0,
    ensures
        ({
            let pushed = super_pushed(before, receiver, class);
            let super_ptr = pushed.regs[SP as int];
            let called = host_call(
                Model { message_type_info: Some(info), ..pushed },
                None,
                words,
            );
            &&& word_at(called.mem, super_ptr) == receiver.0
            &&& word_at(called.mem, address(super_ptr, 4)) == class.0
        }),
{
    let pushed = super_pushed(before, receiver, class);
    let top = pushed.regs[SP as int];
    let stack = stack_words(words);
    let with_receiver = with_word(before.mem, top, receiver.0);
    offsets_differ(top, 4, 0);
    offsets_add_up(top, 0, 0);
    assert(address(top, 0) == top) by {
        reveal(address);
    }
    word_is_read_back(before.mem, top, receiver.0);
    other_words_stay(with_receiver, address(top, 4), class.0, top);
    word_is_read_back(with_receiver, address(top, 4), class.0);
    lemma_pushed_below(pushed.mem, top, stack, stack.len(), 0);
    lemma_pushed_below(pushed.mem, top, stack, stack.len(), 4);
}

/// Sends a message by the name of its selector.
///
/// See also [`msg_class`], if you want to send a message to a class.
pub fn msg<R, A>(env: &mut Environment, receiver: id, name: &str, args: A) -> (sent: Sent) where
    (R, A::Message): MsgSendSignature,
    R: GuestRet,
    A: RestArgs,

    requires
        old(env)@.wf(),
        selector_named(old(env)@.selectors, name@) is Some,
        args.words().len() <= MAX_REST_WORDS,
    ensures
        sent_as::<(R, A::Message)>(
            old(env)@,
            R::SIZE_IN_MEM,
            receiver,
            selector_named(old(env)@.selectors, name@)->0,
            args.words(),
            final(env)@,
            sent,
        ),
        final(env)@.wf(),
{
    let selector = env.objc.lookup_selector(name).unwrap();
    let info = info_of::<(R, A::Message)>();
    let rest = args.to_words();
    msg_send_typed(env, info, R::SIZE_IN_MEM, receiver, selector, &rest)
}

/// Variant of [`msg`] for sending a message to a named class.
/// Useful for calling class methods, especially `new`.
pub fn msg_class<R, A>(env: &mut Environment, class: &str, name: &str, args: A) -> (sent: Sent) where
    (R, A::Message): MsgSendSignature,
    R: GuestRet,
    A: RestArgs,

    requires
        old(env)@.wf(),
        class_named(old(env)@.known_classes, class@) is Some,
        selector_named(old(env)@.selectors, name@) is Some,
        args.words().len() <= MAX_REST_WORDS,
    ensures
        sent_as::<(R, A::Message)>(
            old(env)@,
            R::SIZE_IN_MEM,
            class_named(old(env)@.known_classes, class@)->0,
            selector_named(old(env)@.selectors, name@)->0,
            args.words(),
            final(env)@,
            sent,
        ),
        final(env)@.wf(),
{
    let receiver = env.objc.lookup_known_class(class).unwrap();
    msg::<R, A>(env, receiver, name, args)
}

/// Variant of [`msg`] for super-calls, of a known type, from a method of
/// `current_class`.
pub fn msg_super_typed(
    env: &mut Environment,
    info: TypeInfo,
    current_class: &str,
    receiver: id,
    name: &str,
    rest: &Vec<u32>,
) -> (sent: SentToSuper)
    requires
        old(env)@.wf(),
        class_named(old(env)@.known_classes, current_class@) is Some,
        selector_named(old(env)@.selectors, name@) is Some,
        old(env)@.regs[SP as int] >= 8,
        rest@.len() <= MAX_REST_WORDS,
    ensures
        msg_super_outcome(
            old(env)@,
            info,
            class_named(old(env)@.known_classes, current_class@)->0,
            receiver,
            selector_named(old(env)@.selectors, name@)->0,
            rest@,
            final(env)@,
            sent,
        ),
        final(env)@.wf(),
{
    let class = env.objc.lookup_known_class(current_class).unwrap();
    let selector = env.objc.lookup_selector(name).unwrap();
    let old_sp = env.cpu.regs[SP];
    let bits = below(old_sp, 8);
    env.cpu.regs[SP] = bits;
    env.mem.write_word(bits, receiver.0);
    env.mem.write_word(above(bits, 4), class.0);
    assert(env@ =~= super_pushed(old(env)@, receiver, class));
    proof {
        lemma_super_read_back(
            old(env)@,
            info,
            receiver,
            class,
            message_words(bits, selector, rest@),
        );
    }
    let super_ptr = ConstPtr { bits, pointee: PhantomData };
    let sent = msg_send_super2_typed(env, info, super_ptr, selector, rest);
    SentToSuper { old_sp, sent }
}

/// What a super-call of the signature `S` from a method of `class` leads to.
pub open spec fn msg_super_sent_as<S: MsgSendSignature>(
    before: Model,
    class: Class,
    receiver: id,
    selector: SEL,
    rest: Seq<u32>,
    after: Model,
    sent: SentToSuper,
) -> bool {
    exists|info: TypeInfo|
        is_info_of::<S>(info) && #[trigger] msg_super_outcome(
            before,
            info,
            class,
            receiver,
            selector,
            rest,
            after,
            sent,
        )
}

/// Variant of [`msg`] for super-calls from a method of `current_class`.
pub fn msg_super<R, A>(
    env: &mut Environment,
    current_class: &str,
    receiver: id,
    name: &str,
    args: A,
) -> (sent: SentToSuper) where
    (R, A::SuperCall): MsgSendSuperSignature,
    R: GuestRet,
    A: RestArgs,

    requires
        old(env)@.wf(),
        class_named(old(env)@.known_classes, current_class@) is Some,
        selector_named(old(env)@.selectors, name@) is Some,
        old(env)@.regs[SP as int] >= 8,
        args.words().len() <= MAX_REST_WORDS,
    ensures
        msg_super_sent_as::<<(R, A::SuperCall) as MsgSendSuperSignature>::WithoutSuper>(
            old(env)@,
            class_named(old(env)@.known_classes, current_class@)->0,
            receiver,
            selector_named(old(env)@.selectors, name@)->0,
            args.words(),
            final(env)@,
            sent,
        ),
        final(env)@.wf(),
{
    let info = info_of::<<(R, A::SuperCall) as MsgSendSuperSignature>::WithoutSuper>();
    let rest = args.to_words();
    msg_super_typed(env, info, current_class, receiver, name, &rest)
}

/// Ends a super-call from the host: takes what was pushed for it off the stack.
pub fn finish_super(env: &mut Environment, old_sp: u32, frame: HostFrame)
    ensures
        final(env)@ == host_call_ended(old(env)@, (HostFrame { sp: old_sp, lr: frame.lr })),
{
    leave_host_call(env, frame);
    env.cpu.regs[SP] = old_sp;
    assert(env@.regs =~= host_call_ended(old(env)@, HostFrame { sp: old_sp, lr: frame.lr }).regs);
}

/// Shorthand for sending `retain`. `nil` is not sent anything, and is itself the
/// answer then.
pub fn retain(env: &mut Environment, object: id) -> (sent: Option<Sent>)
    requires
        old(env)@.wf(),
        object != nil() ==> selector_named(old(env)@.selectors, "retain"@) is Some,
    ensures
        match sent {
            None => object == nil() && *final(env) == *old(env),
            Some(sent) => object != nil() && sent_as::<(id, (id, SEL))>(
                old(env)@,
                None,
                object,
                selector_named(old(env)@.selectors, "retain"@)->0,
                Seq::empty(),
                final(env)@,
                sent,
            ),
        },
        final(env)@.wf(),
{
    if object == nil() {
        // fast path
        return None;
    }
    proof {
        plain_values_are_returned_in_registers();
    }
    Some(msg::<id, ()>(env, object, "retain", ()))
}

/// Shorthand for sending `release`. `nil` is not sent anything.
pub fn release(env: &mut Environment, object: id) -> (sent: Option<Sent>)
    requires
        old(env)@.wf(),
        object != nil() ==> selector_named(old(env)@.selectors, "release"@) is Some,
    ensures
        match sent {
            None => object == nil() && *final(env) == *old(env),
            Some(sent) => object != nil() && sent_as::<((), (id, SEL))>(
                old(env)@,
                None,
                object,
                selector_named(old(env)@.selectors, "release"@)->0,
                Seq::empty(),
                final(env)@,
                sent,
            ),
        },
        final(env)@.wf(),
{
    if object == nil() {
        // fast path
        return None;
    }
    proof {
        plain_values_are_returned_in_registers();
    }
    Some(msg::<(), ()>(env, object, "release", ()))
}

/// Shorthand for sending `autorelease`. `nil` is not sent anything, and is itself
/// the answer then.
pub fn autorelease(env: &mut Environment, object: id) -> (sent: Option<Sent>)
    requires
        old(env)@.wf(),
        object != nil() ==> selector_named(old(env)@.selectors, "autorelease"@) is Some,
    ensures
        match sent {
            None => object == nil() && *final(env) == *old(env),
            Some(sent) => object != nil() && sent_as::<(id, (id, SEL))>(
                old(env)@,
                None,
                object,
                selector_named(old(env)@.selectors, "autorelease"@)->0,
                Seq::empty(),
                final(env)@,
                sent,
            ),
        },
        final(env)@.wf(),
{
    if object == nil() {
        // fast path
        return None;
    }
    proof {
        plain_values_are_returned_in_registers();
    }
    Some(msg::<id, ()>(env, object, "autorelease", ()))
}

} // verus!
