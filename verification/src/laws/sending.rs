//! Where the words of a message are when its method runs, which type the message has, and
//! what it comes to, whoever sends it.
use super::dispatch::{is_advertisement, messages_come_to_the_nearest_method, reached};
use super::dispatch_changes_little;
use super::paths::is_search;
use super::words::{addresses_count_bytes, byte, writing_a_word_writes_four_bytes};
use crate::abi::{
    arguments_arrive, host_call, host_call_ended, mem_with_stack, passed_words, stack_words, HostFrame,
};
use crate::dispatch::Step;
use crate::env::Model;
use crate::mem::{address, word_at};
use crate::messages::{
    message_words, msg_super_outcome, msg_super_sent_as, send_outcome, send_super_outcome, sent_as, super_outcome,
    super_pushed, super_rewritten, super_sent_as, Sent, SentToSuper,
};
use crate::objc::{id, Class, SEL};
use crate::signature::{is_id_of, is_info_of, MsgSendSignature, TypeInfo};
use vstd::prelude::*;

verus! {

/// All words that a call passes: the address of the memory for a struct, right below the
/// stack pointer, if one is returned there, and then the arguments.
pub open spec fn all_words(sp: u32, struct_size: Option<u32>, words: Seq<u32>) -> Seq<u32> {
    match struct_size {
        Some(size) => seq![((sp - size) % 0x1_0000_0000) as u32] + words,
        None => words,
    }
}

/// How many words of a call are on the stack: all but four.
pub open spec fn words_on_stack(sp: u32, struct_size: Option<u32>, words: Seq<u32>) -> int {
    if all_words(sp, struct_size, words).len() > 4 {
        all_words(sp, struct_size, words).len() - 4
    } else {
        0
    }
}

/// Where the top of the stack is when everything has been pushed.
pub open spec fn top_of_stack(sp: u32, struct_size: Option<u32>, words: Seq<u32>) -> int {
    let below = match struct_size {
        Some(size) => size as int,
        None => 0,
    };
    (sp - below - 4 * words_on_stack(sp, struct_size, words)) % 0x1_0000_0000
}

/// The words of a call are where the guest's calling convention has them: the first four
/// in the first four registers, the others on the stack. Of the other registers only the
/// stack pointer is another.
pub open spec fn words_in_place(
    before: Seq<u32>,
    struct_size: Option<u32>,
    words: Seq<u32>,
    regs: Seq<u32>,
    mem: Map<u32, u8>,
) -> bool {
    let all = all_words(before[13], struct_size, words);
    &&& regs.len() == 16
    &&& forall|i: int| 0 <= i < 4 && i < all.len() ==> #[trigger] regs[i] == all[i]
    &&& forall|i: int| all.len() <= i < 4 ==> #[trigger] regs[i] == before[i]
    &&& forall|i: int| 4 <= i < 16 && i != 13 ==> #[trigger] regs[i] == before[i]
    &&& regs[13] == top_of_stack(before[13], struct_size, words)
    &&& forall|i: int|
        4 <= i < all.len() ==> word_at(
            mem,
            ((regs[13] + 4 * (i - 4)) % 0x1_0000_0000) as u32,
        ) == #[trigger] all[i]
}

/// What is not among the words on the stack is as it was.
proof fn lemma_elsewhere(mem: Map<u32, u8>, sp: u32, stack: Seq<u32>, other: int)
    requires
        (other - sp) % 0x1_0000_0000 >= 4 * stack.len(),
        4 * stack.len() < 0x1_0000_0000,
    ensures
        byte(mem_with_stack(mem, sp, stack), other) == byte(mem, other),
    decreases stack.len(),
{
    if stack.len() > 0 {
        let last = stack.len() - 1;
        let below = mem_with_stack(mem, sp, stack.drop_last());
        lemma_elsewhere(mem, sp, stack.drop_last(), other);
        addresses_count_bytes(sp, 4 * last);
        let at = address(sp, 4 * last);
        assert((other - at) % 0x1_0000_0000 >= 4);
        writing_a_word_writes_four_bytes(below, at, stack.last(), other);
    }
}

/// A call from the host passes its words in their places, and leaves everything else as
/// it was: the other registers, and all bytes but those of the words on the stack.
pub proof fn calls_pass_their_words(before: Model, struct_size: Option<u32>, words: Seq<u32>, other: int)
    requires
        before.regs.len() == 16,
        words.len() < 0x3fff_fff0,
    ensures
        ({
            let called = host_call(before, struct_size, words);
            &&& words_in_place(before.regs, struct_size, words, called.regs, called.mem)
            &&& called == Model { regs: called.regs, mem: called.mem, ..before }
            &&& (other - called.regs[13]) % 0x1_0000_0000 >= 4 * words_on_stack(
                before.regs[13],
                struct_size,
                words,
            ) ==> byte(called.mem, other) == byte(before.mem, other)
        }),
{
    let sp = before.regs[13];
    let called = host_call(before, struct_size, words);
    let all = all_words(sp, struct_size, words);
    let passed = passed_words(sp, struct_size, words);
    let pushed = words_on_stack(sp, struct_size, words);
    assert(passed =~= all) by {
        match struct_size {
            Some(size) => {
                addresses_count_bytes(sp, -size);
            },
            None => {},
        }
    }
    assert(stack_words(passed).len() == pushed);
    let below_struct = match struct_size {
        Some(size) => address(sp, -size),
        None => sp,
    };
    addresses_count_bytes(below_struct, -4 * pushed);
    match struct_size {
        Some(size) => {
            addresses_count_bytes(sp, -size);
            assert((below_struct - 4 * pushed) % 0x1_0000_0000 == (sp - size - 4 * pushed)
                % 0x1_0000_0000);
        },
        None => {},
    }
    assert forall|i: int| 4 <= i < all.len() implies word_at(
        called.mem,
        ((called.regs[13] + 4 * (i - 4)) % 0x1_0000_0000) as u32,
    ) == #[trigger] all[i] by {
        arguments_arrive(before, struct_size, words, i);
        addresses_count_bytes(called.regs[13], 4 * (i - 4));
    }
    assert forall|i: int| 0 <= i < 4 && i < all.len() implies #[trigger] called.regs[i] == all[i] by {
        assert(passed[i] == all[i]);
    }
    if (other - called.regs[13]) % 0x1_0000_0000 >= 4 * pushed {
        lemma_elsewhere(before.mem, called.regs[13], stack_words(passed), other);
    }
}

/// A call from the host gives the guest back its stack pointer and its link register, and
/// changes nothing else at its end.
pub proof fn calls_give_back_sp_and_lr(meanwhile: Model, frame: HostFrame)
    requires
        meanwhile.regs.len() == 16,
    ensures
        ({
            let after = host_call_ended(meanwhile, frame);
            &&& after.regs.len() == 16
            &&& after.regs[13] == frame.sp
            &&& after.regs[14] == frame.lr
            &&& forall|i: int|
                0 <= i < 16 && i != 13 && i != 14 ==> #[trigger] after.regs[i] == meanwhile.regs[i]
            &&& after == Model { regs: after.regs, ..meanwhile }
        }),
{
}

/// A message from the host, of a type that is given or unknown, remembers the stack
/// pointer and the link register, has its words in place when its method runs or it has
/// to wait, and comes to the nearest method that its lookup leads to, with its own type
/// held against that of the method.
pub proof fn sent_messages_come_to_the_nearest_method(
    before: Model,
    info: Option<TypeInfo>,
    struct_size: Option<u32>,
    receiver: id,
    selector: SEL,
    rest: Seq<u32>,
    tolerate: bool,
    after: Model,
    sent: Sent,
    path: Seq<Class>,
)
    requires
        before.wf(),
        rest.len() <= 0x3fff_ffe0,
        send_outcome(before, info, struct_size, receiver, selector, rest, tolerate, after, sent),
    ensures
        sent.frame.sp == before.regs[13],
        sent.frame.lr == before.regs[14],
        sent.step is Call || sent.step is Initialize ==> words_in_place(
            before.regs,
            struct_size,
            seq![receiver.0, selector.0] + rest,
            after.regs,
            after.mem,
        ),
        ({
            let start = id(word_at(after.mem, receiver.0));
            &&& before.dispatch_depth < 128
            &&& receiver.0 != 0
            &&& start.0 != 0
            &&& !is_advertisement(Model { mem: after.mem, ..before }, start, selector)
            &&& is_search(before.objects, start, selector, false, path)
            &&& !(sent.step is Initialize)
        }) ==> reached(
            before.objects,
            id(word_at(after.mem, receiver.0)),
            path.last(),
            selector,
            info,
            tolerate,
            sent.step,
        ),
        sent.step matches Step::Initialize(pending) ==> {
            &&& pending.dispatch.message_type_info == info
            &&& pending.dispatch.tolerate_type_mismatch == tolerate
        },
        after.objects == before.objects,
        after.selectors == before.selectors,
        after.known_classes == before.known_classes,
        after.request_depth == before.request_depth,
{
    let model = Model { message_type_info: info, ..before };
    let words = message_words(receiver.0, selector, rest);
    let called = host_call(model, struct_size, words);
    calls_pass_their_words(model, struct_size, words, 0);
    dispatch_changes_little(called, receiver, selector, None, tolerate, after, sent.step);
    assert(words =~= seq![receiver.0, selector.0] + rest);
    let start = id(word_at(after.mem, receiver.0));
    lemma_advertisement_elsewhere(called, Model { mem: after.mem, ..before }, start, selector);
    if before.dispatch_depth < 128 && receiver.0 != 0 && start.0 != 0 && !is_advertisement(
        Model { mem: after.mem, ..before },
        start,
        selector,
    ) && is_search(before.objects, start, selector, false, path) {
        messages_come_to_the_nearest_method(
            called,
            receiver,
            selector,
            None,
            tolerate,
            after,
            sent.step,
            path,
        );
    }
}

/// Whether a message is for advertisements is a matter of objects and memory only.
proof fn lemma_advertisement_elsewhere(one: Model, other: Model, start: Class, selector: SEL)
    requires
        one.objects == other.objects,
        one.mem == other.mem,
    ensures
        is_advertisement(one, start, selector) == is_advertisement(other, start, selector),
{
}

/// A message of a signature carries the identity of just that signature, and its type is
/// checked without tolerance.
pub proof fn messages_carry_their_signature<S: MsgSendSignature>(
    before: Model,
    struct_size: Option<u32>,
    receiver: id,
    selector: SEL,
    rest: Seq<u32>,
    after: Model,
    sent: Sent,
)
    requires
        sent_as::<S>(before, struct_size, receiver, selector, rest, after, sent),
    ensures
        exists|info: TypeInfo|
            {
                &&& is_id_of::<S>(info.0)
                &&& #[trigger] send_outcome(
                    before,
                    Some(info),
                    struct_size,
                    receiver,
                    selector,
                    rest,
                    false,
                    after,
                    sent,
                )
            },
{
    let info = choose|info: TypeInfo|
        is_info_of::<S>(info) && #[trigger] send_outcome(
            before,
            Some(info),
            struct_size,
            receiver,
            selector,
            rest,
            false,
            after,
            sent,
        );
    assert(is_id_of::<S>(info.0));
}

/// A super-call of the guest takes the receiver and the class from the two words that its
/// first argument points to, puts the receiver in the place of the pointer, and comes to
/// the nearest method above the class.
pub proof fn super_calls_come_to_the_nearest_method_above(
    before: Model,
    super_ptr: u32,
    selector: SEL,
    after: Model,
    step: Step,
    path: Seq<Class>,
)
    requires
        before.wf(),
        super_outcome(before, super_ptr, selector, after, step),
    ensures
        ({
            let receiver = id(word_at(before.mem, super_ptr));
            let class = id(
                word_at(before.mem, ((super_ptr + 4) % 0x1_0000_0000) as u32),
            );
            &&& !(step is Initialize)
            &&& before.dispatch_depth < 128 && receiver.0 != 0 && class.0 != 0
                && !is_advertisement(before, class, selector) && is_search(
                before.objects,
                class,
                selector,
                true,
                path,
            ) ==> reached(
                before.objects,
                class,
                path.last(),
                selector,
                before.message_type_info,
                false,
                step,
            )
            &&& step is Call ==> {
                &&& after.regs.len() == 16
                &&& after.regs[0] == receiver.0
                &&& forall|i: int| 1 <= i < 16 ==> #[trigger] after.regs[i] == before.regs[i]
                &&& after.mem == before.mem
                &&& after.initialized == before.initialized
            }
        }),
{
    let receiver = id(word_at(before.mem, super_ptr));
    addresses_count_bytes(super_ptr, 4);
    let class = id(word_at(before.mem, address(super_ptr, 4)));
    let rewritten = super_rewritten(before, super_ptr);
    lemma_advertisement_elsewhere(rewritten, before, class, selector);
    super::answer_is_zero_or_the_methods(
        rewritten,
        receiver,
        selector,
        Some(class),
        false,
        after,
        step,
    );
    if before.dispatch_depth < 128 && receiver.0 != 0 && class.0 != 0 && !is_advertisement(
        before,
        class,
        selector,
    ) && is_search(before.objects, class, selector, true, path) {
        messages_come_to_the_nearest_method(
            rewritten,
            receiver,
            selector,
            Some(class),
            false,
            after,
            step,
            path,
        );
    }
}

/// A super-call of the host passes the pointer in the place of the receiver, and is then
/// a super-call like one of the guest, of the type that is given.
pub proof fn super_calls_of_the_host_pass_the_pointer(
    before: Model,
    info: TypeInfo,
    super_ptr: u32,
    selector: SEL,
    rest: Seq<u32>,
    after: Model,
    sent: Sent,
)
    requires
        before.wf(),
        rest.len() <= 0x3fff_ffe0,
        send_super_outcome(before, info, super_ptr, selector, rest, after, sent),
    ensures
        sent.frame.sp == before.regs[13],
        sent.frame.lr == before.regs[14],
        exists|called: Model|
            {
                &&& words_in_place(
                    before.regs,
                    None,
                    seq![super_ptr, selector.0] + rest,
                    called.regs,
                    called.mem,
                )
                &&& called == (Model {
                    regs: called.regs,
                    mem: called.mem,
                    message_type_info: Some(info),
                    ..before
                })
                &&& #[trigger] super_outcome(called, super_ptr, selector, after, sent.step)
            },
{
    let model = Model { message_type_info: Some(info), ..before };
    let words = message_words(super_ptr, selector, rest);
    calls_pass_their_words(model, None, words, 0);
    assert(words =~= seq![super_ptr, selector.0] + rest);
    assert(super_outcome(host_call(model, None, words), super_ptr, selector, after, sent.step));
}

/// A super-call of the host carries the identity of its signature with an object in the
/// place of the pointer.
pub proof fn super_calls_carry_their_signature<S: MsgSendSignature>(
    before: Model,
    super_ptr: u32,
    selector: SEL,
    rest: Seq<u32>,
    after: Model,
    sent: Sent,
)
    requires
        super_sent_as::<S>(before, super_ptr, selector, rest, after, sent),
    ensures
        exists|info: TypeInfo|
            is_id_of::<S>(info.0) && #[trigger] send_super_outcome(
                before,
                info,
                super_ptr,
                selector,
                rest,
                after,
                sent,
            ),
{
    let info = choose|info: TypeInfo|
        is_info_of::<S>(info) && #[trigger] send_super_outcome(
            before,
            info,
            super_ptr,
            selector,
            rest,
            after,
            sent,
        );
    assert(is_id_of::<S>(info.0));
}

/// A super-call from a method of a class remembers the stack pointer, pushes the receiver
/// and the class, and then comes to the nearest method above the class, which finds the
/// receiver, the selector and the arguments in their places.
pub proof fn super_calls_from_a_class_come_to_the_nearest_method_above(
    before: Model,
    info: TypeInfo,
    class: Class,
    receiver: id,
    selector: SEL,
    rest: Seq<u32>,
    after: Model,
    sent: SentToSuper,
    path: Seq<Class>,
)
    requires
        before.wf(),
        rest.len() <= 0x3fff_ffe0,
        msg_super_outcome(before, info, class, receiver, selector, rest, after, sent),
    ensures
        sent.old_sp == before.regs[13],
        sent.sent.frame.sp == (before.regs[13] - 8) % 0x1_0000_0000,
        sent.sent.frame.lr == before.regs[14],
        !(sent.sent.step is Initialize),
        before.dispatch_depth < 128 && receiver.0 != 0 && class.0 != 0 && !is_advertisement(
            Model { mem: after.mem, ..before },
            class,
            selector,
        ) && is_search(before.objects, class, selector, true, path) ==> reached(
            before.objects,
            class,
            path.last(),
            selector,
            Some(info),
            false,
            sent.sent.step,
        ),
        sent.sent.step is Call ==> {
            &&& after.regs[0] == receiver.0
            &&& after.regs[1] == selector.0
            &&& rest.len() > 0 ==> after.regs[2] == rest[0]
            &&& rest.len() > 1 ==> after.regs[3] == rest[1]
            &&& forall|i: int|
                2 <= i < rest.len() ==> word_at(
                    after.mem,
                    ((after.regs[13] + 4 * (i - 2)) % 0x1_0000_0000) as u32,
                ) == #[trigger] rest[i]
        },
{
    let pushed = super_pushed(before, receiver, class);
    let super_ptr = pushed.regs[13];
    addresses_count_bytes(before.regs[13], -8);
    let model = Model { message_type_info: Some(info), ..pushed };
    let words = message_words(super_ptr, selector, rest);
    let called = host_call(model, None, words);
    let rewritten = Model { regs: called.regs.update(0, receiver.0), ..called };
    calls_pass_their_words(model, None, words, 0);
    assert(words =~= seq![super_ptr, selector.0] + rest);
    dispatch_changes_little(
        rewritten,
        receiver,
        selector,
        Some(class),
        false,
        after,
        sent.sent.step,
    );
    super::answer_is_zero_or_the_methods(
        rewritten,
        receiver,
        selector,
        Some(class),
        false,
        after,
        sent.sent.step,
    );
    lemma_advertisement_elsewhere(rewritten, Model { mem: after.mem, ..before }, class, selector);
    assert forall|i: int| 2 <= i < rest.len() && sent.sent.step is Call implies word_at(
        after.mem,
        ((after.regs[13] + 4 * (i - 2)) % 0x1_0000_0000) as u32,
    ) == #[trigger] rest[i] by {
        assert(words[i + 2] == rest[i]);
        assert(all_words(super_ptr, None, words)[i + 2] == rest[i]);
    }
    if rest.len() > 0 {
        assert(words[2] == rest[0]);
    }
    if rest.len() > 1 {
        assert(words[3] == rest[1]);
    }
    if before.dispatch_depth < 128 && receiver.0 != 0 && class.0 != 0 && !is_advertisement(
        Model { mem: after.mem, ..before },
        class,
        selector,
    ) && is_search(before.objects, class, selector, true, path) {
        messages_come_to_the_nearest_method(
            rewritten,
            receiver,
            selector,
            Some(class),
            false,
            after,
            sent.sent.step,
            path,
        );
    }
}

/// A super-call from a method of a class carries the identity of its signature with an
/// object in the place of the pointer.
pub proof fn super_calls_from_a_class_carry_their_signature<S: MsgSendSignature>(
    before: Model,
    class: Class,
    receiver: id,
    selector: SEL,
    rest: Seq<u32>,
    after: Model,
    sent: SentToSuper,
)
    requires
        msg_super_sent_as::<S>(before, class, receiver, selector, rest, after, sent),
    ensures
        exists|info: TypeInfo|
            is_id_of::<S>(info.0) && #[trigger] msg_super_outcome(
                before,
                info,
                class,
                receiver,
                selector,
                rest,
                after,
                sent,
            ),
{
    let info = choose|info: TypeInfo|
        is_info_of::<S>(info) && #[trigger] msg_super_outcome(
            before,
            info,
            class,
            receiver,
            selector,
            rest,
            after,
            sent,
        );
    assert(is_id_of::<S>(info.0));
}

} // verus!
