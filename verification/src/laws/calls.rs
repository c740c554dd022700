//! What each way of sending a message does, by what it is called with.
use super::dispatch::{is_advertisement, messages_come_to_the_nearest_method, reached};
use super::initialize::{
    can_be_initialized, has_initialize, initialization_begins_at_the_top, initialization_goes_on_downwards, is_way_up,
    marked_at_end, step_is,
};
use super::paths::{
    being_above_is_being_on_a_path, climbs, has_class, is_search, known_first, leads_to_method, leads_up,
    lemma_path_of_ancestors, lemma_path_to, named_first, names_lead_to_the_first_class,
    names_lead_to_the_first_selector, parent,
};
use super::sending::super_calls_come_to_the_nearest_method_above;
use crate::abi::{GuestRet, HostFrame};
use crate::args::{MessageArgs, RestArgs};
use crate::dispatch::{
    alloc_object, dispatch_outcome, end_dispatch, finish_allocation, objc_msgSend_inner, proceed_outcome,
    report_nil_isa, resume_dispatch, NilIsaReport, PendingDispatch, Step,
};
use crate::env::{Environment, Model};
use crate::initialize::{
    after_initialize, ensure_class_initialized, initialize_outcome, marked_above, restored, uninitialized_chain,
    InitializeStep, PendingInitialize,
};
use crate::mem::{with_word, word_at};
use crate::messages::{
    autorelease, finish_super, msg, msg_class, msg_send, msg_send_no_type_checking, msg_send_super2,
    msg_send_super2_typed, msg_send_typed, msg_super, msg_super_outcome, msg_super_sent_as, msg_super_typed,
    objc_msgSend, objc_msgSendSuper2, objc_msgSendSuper2_stret, objc_msgSend_stret, release, retain, send_initialize,
    send_outcome, send_super_outcome, sent_as, super_outcome, super_sent_as, Sent, SentToSuper,
    _touchHLE_objc_msgSend_stret_tolerant, _touchHLE_objc_msgSend_tolerant,
};
use crate::objc::{
    ancestor, chain_ends, hierarchy_ends, id, is_class, lemma_smallest, objc_super, Class, ConstPtr, HostObject, ObjC,
    Objects, SEL,
};
use crate::signature::{MsgSendSignature, MsgSendSuperSignature, TypeInfo};
use vstd::prelude::*;

verus! {

/// A path from a class leads to something that is no class.
pub open spec fn comes_to_an_end(objects: Objects, class: Class, path: Seq<Class>) -> bool {
    climbs(objects, path) && path[0] == class && !has_class(objects, path.last())
}

/// From a class, superclasses lead to something that is no class.
pub open spec fn has_an_end(objects: Objects, class: Class) -> bool {
    exists|path: Seq<Class>| #[trigger] comes_to_an_end(objects, class, path)
}

/// Chains of superclasses end where a path does.
proof fn lemma_ends(objects: Objects, class: Class)
    ensures
        chain_ends(objects, class) <==> has_an_end(objects, class),
{
    if chain_ends(objects, class) {
        let some = choose|steps: nat| !is_class(objects, #[trigger] ancestor(objects, class, steps));
        let ends = |steps: nat| !is_class(objects, ancestor(objects, class, steps));
        let end = lemma_smallest(ends, some);
        assert forall|fewer: nat| fewer < end implies is_class(
            objects,
            #[trigger] ancestor(objects, class, fewer),
        ) by {
            assert(!ends(fewer));
        }
        let path = lemma_path_to(objects, class, end);
        assert(path.last() == ancestor(objects, class, end));
        assert(comes_to_an_end(objects, class, path));
    }
    if has_an_end(objects, class) {
        let path = choose|path: Seq<Class>| #[trigger] comes_to_an_end(objects, class, path);
        lemma_path_of_ancestors(objects, path, path.len() - 1);
        assert(!is_class(objects, ancestor(objects, class, (path.len() - 1) as nat)));
    }
}

/// An environment is in order if it has sixteen registers, its messages and requests do
/// not nest too deeply, and superclasses lead to an end from everywhere: nothing else is
/// asked.
pub proof fn environments_are_in_order(model: Model)
    ensures
        model.wf() <==> {
            &&& model.regs.len() == 16
            &&& model.dispatch_depth <= 128
            &&& model.request_depth <= 33
            &&& forall|class: Class| #[trigger] has_an_end(model.objects, class)
        },
{
    if hierarchy_ends(model.objects) {
        assert forall|class: Class| #[trigger] has_an_end(model.objects, class) by {
            assert(chain_ends(model.objects, class));
            lemma_ends(model.objects, class);
        }
    }
    if forall|class: Class| #[trigger] has_an_end(model.objects, class) {
        assert forall|class: Class| #[trigger] chain_ends(model.objects, class) by {
            assert(has_an_end(model.objects, class));
            lemma_ends(model.objects, class);
        }
    }
}

/// Whether an environment is in order is told as it is.
pub proof fn order_is_checked(env: &Environment, result: bool, from: Class, class: Class)
    ensures
        call_ensures(Environment::check, (env,), result) ==> (result <==> env@.regs.len() == 16
            && env@.dispatch_depth <= 128 && env@.request_depth <= 33 && forall|any: Class| #[trigger]
            has_an_end(env@.objects, any)),
        call_ensures(ObjC::check_hierarchy, (&env.objc,), result) ==> (result
            <==> forall|any: Class| #[trigger] has_an_end(env@.objects, any)),
        class.0 != 0 && call_ensures(ObjC::is_above, (&env.objc, from, class), result) ==> (result
            <==> exists|path: Seq<Class>| #[trigger] leads_up(env@.objects, from, class, path)),
{
    let model = Model { dispatch_depth: 0, request_depth: 0, ..env@ };
    environments_are_in_order(env@);
    environments_are_in_order(model);
    if class.0 != 0 {
        being_above_is_being_on_a_path(env@.objects, from, class);
    }
}

/// Whenever all is in order, any message can be sent by the guest, and whatever waited can
/// go on.
pub proof fn messages_can_be_sent_when_all_is_in_order(
    env: &mut Environment,
    stret: u32,
    receiver: id,
    selector: SEL,
    super2: Option<Class>,
    tolerate: bool,
    super_ptr: ConstPtr<objc_super>,
    pending: PendingDispatch,
    initialize: &PendingInitialize,
)
    requires
        old(env)@.wf(),
    ensures
        call_requires(objc_msgSend, (env, receiver, selector)),
        call_requires(objc_msgSend_stret, (env, stret, receiver, selector)),
        call_requires(_touchHLE_objc_msgSend_tolerant, (env, receiver, selector)),
        call_requires(_touchHLE_objc_msgSend_stret_tolerant, (env, stret, receiver, selector)),
        call_requires(objc_msgSend_inner, (env, receiver, selector, super2, tolerate)),
        call_requires(objc_msgSendSuper2, (env, super_ptr, selector)),
        call_requires(objc_msgSendSuper2_stret, (env, super_ptr, selector)),
        call_requires(resume_dispatch, (env, pending)),
        call_requires(ensure_class_initialized, (env, receiver)),
        call_requires(after_initialize, (env, pending.initialize)),
        call_requires(send_initialize, (env, initialize)),
        call_requires(end_dispatch, (env,)),
        call_requires(report_nil_isa, (env,)),
        call_requires(finish_allocation, (env, receiver, receiver)),
{
}

/// Whenever all is in order and the names are known, the host can send a message by name,
/// with as many words as fit into the memory of the guest.
pub proof fn the_host_can_send_what_is_known<R, A>(
    env: &mut Environment,
    receiver: id,
    class_name: &str,
    class: Class,
    name: &str,
    selector: SEL,
    args: A,
) where
    (R, A::Message): MsgSendSignature,
    (R, A::SuperCall): MsgSendSuperSignature,
    R: GuestRet,
    A: RestArgs,

    requires
        old(env)@.wf(),
        named_first(old(env)@.selectors, name@, selector),
        known_first(old(env)@.known_classes, class_name@, class),
        args.words().len() <= 0x3fff_ffe0,
    ensures
        call_requires(msg::<R, A>, (env, receiver, name, args)),
        call_requires(msg_class::<R, A>, (env, class_name, name, args)),
        old(env)@.regs[13] >= 8 ==> call_requires(
            msg_super::<R, A>,
            (env, class_name, receiver, name, args),
        ),
{
    names_lead_to_the_first_selector(old(env)@.selectors, name@);
    names_lead_to_the_first_class(old(env)@.known_classes, class_name@);
}

/// The variants of `objc_msgSend` look a method up in the same way, from the class of the
/// receiver. Only the tolerant ones tolerate that types differ, and the address of a
/// struct is none of their concern.
pub proof fn variants_differ_in_tolerance_only(
    env: &mut Environment,
    stret: u32,
    receiver: id,
    selector: SEL,
    step: Step,
)
    ensures
        call_ensures(objc_msgSend, (env, receiver, selector), step) ==> dispatch_outcome(
            old(env)@,
            receiver,
            selector,
            None,
            false,
            final(env)@,
            step,
        ),
        call_ensures(objc_msgSend_stret, (env, stret, receiver, selector), step)
            ==> dispatch_outcome(old(env)@, receiver, selector, None, false, final(env)@, step),
        call_ensures(_touchHLE_objc_msgSend_tolerant, (env, receiver, selector), step)
            ==> dispatch_outcome(old(env)@, receiver, selector, None, true, final(env)@, step),
        call_ensures(
            _touchHLE_objc_msgSend_stret_tolerant,
            (env, stret, receiver, selector),
            step,
        ) ==> dispatch_outcome(old(env)@, receiver, selector, None, true, final(env)@, step),
{
}

/// The core of them takes the class that the lookup starts from, and whether types may
/// differ, as it is told.
pub proof fn the_core_goes_by_its_arguments(
    env: &mut Environment,
    receiver: id,
    selector: SEL,
    super2: Option<Class>,
    tolerate: bool,
    step: Step,
)
    requires
        call_ensures(objc_msgSend_inner, (env, receiver, selector, super2, tolerate), step),
    ensures
        dispatch_outcome(old(env)@, receiver, selector, super2, tolerate, final(env)@, step),
{
}

/// The variants for super-calls go by the two words that they are given a pointer to.
pub proof fn super_variants_go_by_the_pointer(
    env: &mut Environment,
    super_ptr: ConstPtr<objc_super>,
    selector: SEL,
    step: Step,
)
    ensures
        call_ensures(objc_msgSendSuper2, (env, super_ptr, selector), step) ==> super_outcome(
            old(env)@,
            super_ptr.bits,
            selector,
            final(env)@,
            step,
        ),
        call_ensures(objc_msgSendSuper2_stret, (env, super_ptr, selector), step) ==> super_outcome(
            old(env)@,
            super_ptr.bits,
            selector,
            final(env)@,
            step,
        ),
{
}

/// A message that waited, and the initialization of a class, go on from what they waited
/// with.
pub proof fn what_waited_goes_on(
    env: &mut Environment,
    pending: PendingDispatch,
    step: Step,
    class: Class,
    initialize: PendingInitialize,
    initialization: InitializeStep,
)
    ensures
        call_ensures(resume_dispatch, (env, pending), step) ==> proceed_outcome(
            restored(old(env)@, pending.initialize.saved_r0_r3@),
            old(env)@.initialized,
            pending.initialize.rest@,
            pending.dispatch,
            final(env)@,
            step,
        ),
        call_ensures(ensure_class_initialized, (env, class), initialization) ==> initialize_outcome(
            old(env)@,
            marked_above(old(env)@.objects, old(env)@.initialized, class),
            uninitialized_chain(old(env)@.objects, old(env)@.initialized, class),
            final(env)@,
            initialization,
        ),
        call_ensures(after_initialize, (env, initialize), initialization) ==> initialize_outcome(
            restored(old(env)@, initialize.saved_r0_r3@),
            old(env)@.initialized,
            initialize.rest@,
            final(env)@,
            initialization,
        ),
{
}

/// A message of the guest that need not wait runs the method of the first class, from that
/// of the receiver upwards and at any distance, that has one for the selector. Where there
/// is none, it ends for the reason that stands at the end of the way.
pub proof fn messages_of_the_guest_come_to_the_nearest_method(
    env: &mut Environment,
    receiver: id,
    selector: SEL,
    path: Seq<Class>,
    step: Step,
)
    requires
        old(env)@.wf(),
        old(env)@.dispatch_depth < 128,
        receiver.0 != 0,
        path.len() > 0,
        path[0].0 != 0,
        path[0] == id(word_at(old(env)@.mem, receiver.0)),
        !is_advertisement(old(env)@, path[0], selector),
        is_search(old(env)@.objects, path[0], selector, false, path),
        call_ensures(objc_msgSend, (env, receiver, selector), step),
    ensures
        !(step is Initialize) ==> reached(
            old(env)@.objects,
            path[0],
            path.last(),
            selector,
            old(env)@.message_type_info,
            false,
            step,
        ),
{
    messages_come_to_the_nearest_method(
        old(env)@,
        receiver,
        selector,
        None,
        false,
        final(env)@,
        step,
        path,
    );
}

/// A super-call runs the method of the first class above the one that it is made from, at
/// any distance, that has one for the selector, and never waits.
pub proof fn super_calls_of_the_guest_come_to_the_nearest_method(
    env: &mut Environment,
    super_ptr: ConstPtr<objc_super>,
    selector: SEL,
    path: Seq<Class>,
    step: Step,
)
    requires
        old(env)@.wf(),
        old(env)@.dispatch_depth < 128,
        word_at(old(env)@.mem, super_ptr.bits) != 0,
        path.len() > 0,
        path[0].0 != 0,
        path[0].0 == word_at(
            old(env)@.mem,
            ((super_ptr.bits + 4) % 0x1_0000_0000) as u32,
        ),
        !is_advertisement(old(env)@, path[0], selector),
        is_search(old(env)@.objects, path[0], selector, true, path),
        call_ensures(objc_msgSendSuper2, (env, super_ptr, selector), step),
    ensures
        reached(
            old(env)@.objects,
            path[0],
            path.last(),
            selector,
            old(env)@.message_type_info,
            false,
            step,
        ),
{
    super_calls_come_to_the_nearest_method_above(
        old(env)@,
        super_ptr.bits,
        selector,
        final(env)@,
        step,
        path,
    );
}

/// The initialization of a class sends `+initialize` first to the topmost class on the way
/// up whose metaclass has a method for it or inherits one, and goes on downwards from
/// there. Classes without one are marked and passed by.
pub proof fn classes_are_initialized_from_the_top(
    env: &mut Environment,
    class: Class,
    path: Seq<Class>,
    begun: InitializeStep,
    later: &mut Environment,
    pending: PendingInitialize,
    step: InitializeStep,
)
    requires
        old(env)@.wf(),
        is_way_up(old(env)@.objects, old(env)@.initialized, class, path),
        call_ensures(ensure_class_initialized, (env, class), begun),
        old(later)@.wf(),
        call_ensures(after_initialize, (later, pending), step),
    ensures
        step_is(
            old(env)@,
            marked_at_end(old(env)@.initialized, path),
            path.drop_last(),
            final(env)@,
            begun,
        ),
        step_is(
            (Model { regs: final(later)@.regs, ..old(later)@ }),
            old(later)@.initialized,
            pending.rest@,
            final(later)@,
            step,
        ),
        forall|i: int|
            0 <= i < 4 ==> #[trigger] final(later)@.regs[i] == pending.saved_r0_r3@[i],
        forall|i: int| 4 <= i < 16 ==> #[trigger] final(later)@.regs[i] == old(later)@.regs[i],
{
    initialization_begins_at_the_top(old(env)@, class, final(env)@, begun, path);
    initialization_goes_on_downwards(old(later)@, pending, final(later)@, step);
}

/// A class with nothing above it that needs initialization, and that was not initialized
/// yet, is sent `+initialize` exactly if its metaclass has a method for it, or one that
/// superclasses lead to from there has: its own counts as much as an inherited one.
pub proof fn classes_are_sent_initialize_if_there_is_one(
    env: &mut Environment,
    class: Class,
    step: InitializeStep,
)
    requires
        old(env)@.wf(),
        has_class(old(env)@.objects, class),
        !old(env)@.initialized.contains(class.0),
        ({
            let above = parent(old(env)@.objects, class);
            !has_class(old(env)@.objects, above) || old(env)@.initialized.contains(above.0)
        }),
        call_ensures(ensure_class_initialized, (env, class), step),
    ensures
        (step matches InitializeStep::Send(pending) && pending.class == class) <==> exists|
            selector: SEL,
            metaclasses: Seq<Class>,
        |
            {
                &&& named_first(old(env)@.selectors, "initialize"@, selector)
                &&& #[trigger] leads_to_method(
                    old(env)@.objects,
                    id(word_at(old(env)@.mem, class.0)),
                    selector,
                    metaclasses,
                )
            },
        final(env)@.initialized.contains(class.0),
{
    let model = old(env)@;
    let above = parent(model.objects, class);
    let path = seq![class, above];
    assert(path.drop_last() =~= seq![class]);
    assert(is_way_up(model.objects, model.initialized, class, path));
    initialization_begins_at_the_top(model, class, final(env)@, step, path);
    assert(path.drop_last()[0] == class);
    if can_be_initialized(model, class) {
        let (selector, metaclasses) = choose|selector: SEL, metaclasses: Seq<Class>| #[trigger]
            has_initialize(model, class, selector, metaclasses);
        assert(leads_to_method(
            model.objects,
            id(word_at(model.mem, class.0)),
            selector,
            metaclasses,
        ));
    }
    assert forall|selector: SEL, metaclasses: Seq<Class>| #[trigger]
        leads_to_method(model.objects, id(word_at(model.mem, class.0)), selector, metaclasses)
            && named_first(model.selectors, "initialize"@, selector) implies can_be_initialized(
        model,
        class,
    ) by {
        assert(has_initialize(model, class, selector, metaclasses));
    }
}

/// The end of a message takes back the level that its beginning took, and nothing else: a
/// level that was never taken is not taken back.
pub proof fn messages_give_their_level_back(env: &mut Environment)
    requires
        call_ensures(end_dispatch, (env,), ()),
    ensures
        final(env)@ == (Model { dispatch_depth: final(env)@.dispatch_depth, ..old(env)@ }),
        old(env)@.dispatch_depth > 0 ==> final(env)@.dispatch_depth == old(env)@.dispatch_depth - 1,
        old(env)@.dispatch_depth == 0 ==> final(env)@.dispatch_depth == 0,
{
}

/// Of the messages to objects without a class, the first eight are reported, with their
/// numbers, and after the ninth nothing is said any more. Each one counts, up to the
/// largest number, after which counting starts over.
pub proof fn reports_come_to_an_end(env: &mut Environment, report: NilIsaReport)
    requires
        call_ensures(report_nil_isa, (env,), report),
    ensures
        final(env)@ == (Model { nil_isa_count: final(env)@.nil_isa_count, ..old(env)@ }),
        final(env)@.nil_isa_count == if old(env)@.nil_isa_count == usize::MAX {
            0
        } else {
            old(env)@.nil_isa_count + 1
        },
        old(env)@.nil_isa_count < 8 <==> report is Log,
        report matches NilIsaReport::Log { number } ==> number == old(env)@.nil_isa_count + 1,
        old(env)@.nil_isa_count == 8 <==> report is Suppressing,
{
}

/// An object that is made has its class as its first word and is known to the host as what
/// it was made. One that was made for a message is its answer too, and is known as an
/// object without state.
pub proof fn objects_are_made_of_their_class(
    env: &mut Environment,
    class: Class,
    object: id,
    host_object: HostObject,
)
    requires
        old(env)@.regs.len() == 16,
    ensures
        call_ensures(alloc_object, (env, class, object, host_object), ()) ==> {
            &&& final(env)@.mem == with_word(old(env)@.mem, object.0, class.0)
            &&& final(env)@.objects == old(env)@.objects.insert(object.0, host_object)
            &&& final(env)@ == Model {
                mem: final(env)@.mem,
                objects: final(env)@.objects,
                ..old(env)@
            }
        },
        call_ensures(finish_allocation, (env, class, object), ()) ==> {
            &&& final(env)@.mem == with_word(old(env)@.mem, object.0, class.0)
            &&& final(env)@.objects == old(env)@.objects.insert(object.0, HostObject::Trivial)
            &&& final(env)@.regs.len() == 16
            &&& final(env)@.regs[0] == object.0
            &&& forall|i: int| 1 <= i < 16 ==> #[trigger] final(env)@.regs[i] == old(env)@.regs[i]
            &&& final(env)@ == Model {
                regs: final(env)@.regs,
                mem: final(env)@.mem,
                objects: final(env)@.objects,
                ..old(env)@
            }
        },
{
}

/// A message of a known type is sent as that, without tolerance.
pub proof fn typed_messages_are_sent_as_told(
    env: &mut Environment,
    info: TypeInfo,
    struct_size: Option<u32>,
    receiver: id,
    super_ptr: ConstPtr<objc_super>,
    selector: SEL,
    rest: &Vec<u32>,
    sent: Sent,
)
    ensures
        call_ensures(msg_send_typed, (env, info, struct_size, receiver, selector, rest), sent)
            ==> send_outcome(
            old(env)@,
            Some(info),
            struct_size,
            receiver,
            selector,
            rest@,
            false,
            final(env)@,
            sent,
        ),
        call_ensures(msg_send_super2_typed, (env, info, super_ptr, selector, rest), sent)
            ==> send_super_outcome(
            old(env)@,
            info,
            super_ptr.bits,
            selector,
            rest@,
            final(env)@,
            sent,
        ),
{
}

/// A message of the host has the type that its arguments and its answer make up, and
/// where its type is not to be checked it has the type that is left over from before, if
/// any, and tolerates another.
pub proof fn messages_of_the_host_have_their_type<R, P>(env: &mut Environment, args: P, sent: Sent) where
    (R, P): MsgSendSignature,
    R: GuestRet,
    P: MessageArgs,

    ensures
        call_ensures(msg_send::<R, P>, (env, args), sent) ==> sent_as::<(R, P)>(
            old(env)@,
            R::SIZE_IN_MEM,
            id(args.receiver()),
            args.selector(),
            args.rest(),
            final(env)@,
            sent,
        ),
        call_ensures(msg_send_no_type_checking::<R, P>, (env, args), sent) ==> send_outcome(
            old(env)@,
            old(env)@.message_type_info,
            R::SIZE_IN_MEM,
            id(args.receiver()),
            args.selector(),
            args.rest(),
            true,
            final(env)@,
            sent,
        ),
{
}

/// A super-call of the host has the type of the same message to an object.
pub proof fn super_calls_of_the_host_have_the_type_of_the_message<R, P>(
    env: &mut Environment,
    args: P,
    sent: Sent,
) where (R, P): MsgSendSuperSignature, R: GuestRet, P: MessageArgs
    requires
        call_ensures(msg_send_super2::<R, P>, (env, args), sent),
    ensures
        super_sent_as::<<(R, P) as MsgSendSuperSignature>::WithoutSuper>(
            old(env)@,
            args.receiver(),
            args.selector(),
            args.rest(),
            final(env)@,
            sent,
        ),
{
}

/// `+initialize` goes to the class that is due, without arguments and without a check of
/// its type.
pub proof fn initialize_goes_to_the_class_that_is_due(
    env: &mut Environment,
    pending: &PendingInitialize,
    sent: Sent,
)
    requires
        call_ensures(send_initialize, (env, pending), sent),
    ensures
        send_outcome(
            old(env)@,
            old(env)@.message_type_info,
            None,
            pending.class,
            pending.selector,
            Seq::empty(),
            true,
            final(env)@,
            sent,
        ),
{
}

/// A message by name has the first selector of that name, and goes to its receiver, or to
/// the first class that is known by the name that is given in the place of it.
pub proof fn messages_by_name_have_the_first_selector<R, A>(
    env: &mut Environment,
    receiver: id,
    class_name: &str,
    class: Class,
    name: &str,
    selector: SEL,
    args: A,
    sent: Sent,
) where (R, A::Message): MsgSendSignature, R: GuestRet, A: RestArgs
    requires
        named_first(old(env)@.selectors, name@, selector),
    ensures
        call_ensures(msg::<R, A>, (env, receiver, name, args), sent) ==> sent_as::<(R, A::Message)>(
            old(env)@,
            R::SIZE_IN_MEM,
            receiver,
            selector,
            args.words(),
            final(env)@,
            sent,
        ),
        call_ensures(msg_class::<R, A>, (env, class_name, name, args), sent) && known_first(
            old(env)@.known_classes,
            class_name@,
            class,
        ) ==> sent_as::<(R, A::Message)>(
            old(env)@,
            R::SIZE_IN_MEM,
            class,
            selector,
            args.words(),
            final(env)@,
            sent,
        ),
{
    names_lead_to_the_first_selector(old(env)@.selectors, name@);
    names_lead_to_the_first_class(old(env)@.known_classes, class_name@);
}

/// A super-call by name is made from the first class that is known by the name of the
/// current one, has the first selector of its name, and goes to its receiver.
pub proof fn super_calls_by_name_are_made_from_the_current_class<R, A>(
    env: &mut Environment,
    info: TypeInfo,
    current_class: &str,
    class: Class,
    receiver: id,
    name: &str,
    selector: SEL,
    args: A,
    rest: &Vec<u32>,
    sent: SentToSuper,
) where (R, A::SuperCall): MsgSendSuperSignature, R: GuestRet, A: RestArgs
    requires
        named_first(old(env)@.selectors, name@, selector),
        known_first(old(env)@.known_classes, current_class@, class),
    ensures
        call_ensures(msg_super_typed, (env, info, current_class, receiver, name, rest), sent)
            ==> msg_super_outcome(
            old(env)@,
            info,
            class,
            receiver,
            selector,
            rest@,
            final(env)@,
            sent,
        ),
        call_ensures(msg_super::<R, A>, (env, current_class, receiver, name, args), sent)
            ==> msg_super_sent_as::<<(R, A::SuperCall) as MsgSendSuperSignature>::WithoutSuper>(
            old(env)@,
            class,
            receiver,
            selector,
            args.words(),
            final(env)@,
            sent,
        ),
{
    names_lead_to_the_first_selector(old(env)@.selectors, name@);
    names_lead_to_the_first_class(old(env)@.known_classes, current_class@);
}

/// The end of a super-call from a class gives back the stack pointer from before all that
/// was pushed for it, and the link register.
pub proof fn super_calls_give_back_the_stack(env: &mut Environment, old_sp: u32, frame: HostFrame)
    requires
        call_ensures(finish_super, (env, old_sp, frame), ()),
        old(env)@.regs.len() == 16,
    ensures
        final(env)@.regs.len() == 16,
        final(env)@.regs[13] == old_sp,
        final(env)@.regs[14] == frame.lr,
        forall|i: int|
            0 <= i < 16 && i != 13 && i != 14 ==> #[trigger] final(env)@.regs[i] == old(env)@.regs[i],
        final(env)@ == (Model { regs: final(env)@.regs, ..old(env)@ }),
{
}

/// `nil` is neither retained nor released: nothing is sent and nothing changes.
pub proof fn nil_is_not_counted(env: &mut Environment, sent: Option<Sent>)
    ensures
        call_ensures(retain, (env, id(0)), sent) ==> sent is None && final(env)@ == old(env)@,
        call_ensures(release, (env, id(0)), sent) ==> sent is None && final(env)@ == old(env)@,
        call_ensures(autorelease, (env, id(0)), sent) ==> sent is None && final(env)@ == old(env)@,
{
}

/// An object is retained, released and autoreleased by the messages of these names, which
/// have no arguments. Releasing has no answer.
pub proof fn objects_are_counted_by_messages(
    env: &mut Environment,
    object: id,
    selector: SEL,
    sent: Option<Sent>,
)
    requires
        object.0 != 0,
    ensures
        call_ensures(retain, (env, object), sent) && named_first(
            old(env)@.selectors,
            "retain"@,
            selector,
        ) ==> sent is Some && sent_as::<(id, (id, SEL))>(
            old(env)@,
            None,
            object,
            selector,
            Seq::empty(),
            final(env)@,
            sent->0,
        ),
        call_ensures(release, (env, object), sent) && named_first(
            old(env)@.selectors,
            "release"@,
            selector,
        ) ==> sent is Some && sent_as::<((), (id, SEL))>(
            old(env)@,
            None,
            object,
            selector,
            Seq::empty(),
            final(env)@,
            sent->0,
        ),
        call_ensures(autorelease, (env, object), sent) && named_first(
            old(env)@.selectors,
            "autorelease"@,
            selector,
        ) ==> sent is Some && sent_as::<(id, (id, SEL))>(
            old(env)@,
            None,
            object,
            selector,
            Seq::empty(),
            final(env)@,
            sent->0,
        ),
{
    names_lead_to_the_first_selector(old(env)@.selectors, "retain"@);
    names_lead_to_the_first_selector(old(env)@.selectors, "release"@);
    names_lead_to_the_first_selector(old(env)@.selectors, "autorelease"@);
}

} // verus!
