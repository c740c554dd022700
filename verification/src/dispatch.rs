//! The core of `objc_msgSend`: from a message to the method that answers it.
//!
//! The code of methods runs outside of this library. A dispatch therefore
//! comes in steps: each function here goes as far as it can, and its [`Step`] says
//! what has to be done before the dispatch can go on.
use crate::env::{Environment, Model, MAX_DISPATCH_DEPTH};
use crate::initialize::{
    after_initialize, ensure_class_initialized, marked_above, next_initialize, restored, uninitialized_chain,
    InitializeStep, PendingInitialize,
};
use crate::mem::with_word;
use crate::objc::{
    chain_ends, class_object, hierarchy_ends, id, isa, name_of, nil, read_isa, search_end, selector_named, Class,
    HostObject, Objects, IMP, SEL,
};
use crate::signature::{same_type, TypeInfo};
use crate::text::{begins_with, contains, occurs_in, same_bytes, starts_with};
use vstd::prelude::*;
use vstd::utf8::encode_utf8;

verus! {

/// How many messages to objects without a class are reported before reports stop.
pub const NIL_ISA_LOG_LIMIT: usize = 8;

/// Whether a message to an object without a class is reported. Such messages come
/// in floods, from programs that go on using what they have freed.
#[derive(Clone, Copy, Debug, PartialEq, Eq, Structural)]
pub enum NilIsaReport {
    /// It is reported, as the report of this number.
    Log { number: usize },
    /// It is not, and the end of the reports is reported in its place.
    Suppressing,
    /// It is not reported.
    Silent,
}

/// Why a message was answered with zero and reached no method.
#[derive(Clone, Copy, Debug, PartialEq, Eq, Structural)]
pub enum Ending {
    /// Messages are nested too deeply.
    RecursionLimit,
    /// The receiver is `nil`.
    NilReceiver,
    /// The message is for a library of advertisements, which is kept from running.
    AdMarvel,
    /// The receiver has no class: most often it was already freed.
    NilIsa(NilIsaReport),
    /// Neither this class nor one of its ancestors has a method for the selector.
    DoesNotRespond { class: Class },
    /// The chain of superclasses leads to something unknown to the host.
    NoHostObject { class: Class },
    /// The chain of superclasses leads to a class that nobody implements.
    Unimplemented { class: Class },
    /// The chain of superclasses leads to a class that behaves like `nil`.
    Faked { class: Class },
    /// The chain of superclasses leads to an object that is no class.
    UnexpectedHostObject { class: Class },
}

/// What came of holding the type of a message against that of a method.
#[derive(Clone, Copy, Debug, PartialEq, Eq)]
pub enum TypeCheck {
    /// One of the two types is not known.
    Unchecked,
    Same,
    /// They differ, which the sender may have said it tolerates.
    Different { sent: TypeInfo, expected: TypeInfo, tolerated: bool },
}

/// A message whose receiver has a class, and what is needed to find its method.
#[derive(Clone, Copy)]
pub struct Dispatch {
    pub receiver: id,
    pub selector: SEL,
    /// The class to start from.
    pub orig_class: Class,
    /// The search starts above `orig_class`.
    pub super_call: bool,
    pub tolerate_type_mismatch: bool,
    pub message_type_info: Option<TypeInfo>,
}

/// A dispatch that waits for a `+initialize`.
pub struct PendingDispatch {
    pub dispatch: Dispatch,
    pub initialize: PendingInitialize,
}

/// How far a dispatch has come.
pub enum Step {
    /// It is over, and the answer is zero.
    Done(Ending),
    /// Memory for an instance of this class has to be found, and
    /// [`finish_allocation`] to be called then.
    Allocate { class: Class },
    /// A `+initialize` has to be sent, and [`resume_dispatch`] to be called then.
    Initialize(PendingDispatch),
    /// This method has to be run, and [`end_dispatch`] to be called then. Whatever
    /// it leaves in the registers is the answer.
    Call { imp: IMP, check: TypeCheck },
}

/// The registers when the answer is zero.
pub open spec fn zeroed(regs: Seq<u32>) -> Seq<u32> {
    regs.update(0, 0).update(1, 0)
}

/// Whether the message number `count` (from zero) is reported.
pub open spec fn nil_isa_report(count: usize) -> NilIsaReport {
    if count < NIL_ISA_LOG_LIMIT {
        NilIsaReport::Log { number: (count + 1) as usize }
    } else if count == NIL_ISA_LOG_LIMIT {
        NilIsaReport::Suppressing
    } else {
        NilIsaReport::Silent
    }
}

/// A counter after one more, which starts over at its end.
pub open spec fn counted(count: usize) -> usize {
    if count == usize::MAX {
        0
    } else {
        (count + 1) as usize
    }
}

/// A depth after one level less.
pub open spec fn one_less(depth: usize) -> usize {
    if depth == 0 {
        0
    } else {
        (depth - 1) as usize
    }
}

/// The message is for a class, or has a selector, that is kept from running.
pub open spec fn is_blocked(model: Model, class: Class, selector: SEL) -> bool {
    ||| class_object(model.objects, class) matches Some(object) && begins_with(
        object.name@,
        "AdMarvel"@,
    )
    ||| occurs_in(name_of(model.mem, selector), encode_utf8("AdMarvel"@))
}

/// The class that must be initialized before a message: the receiver if it is a
/// class itself, else the class of the receiver. `nil` if there is none.
pub open spec fn class_to_initialize(objects: Objects, receiver: id, orig_class: Class) -> Class {
    match class_object(objects, orig_class) {
        Some(object) => if object.is_metaclass {
            receiver
        } else {
            orig_class
        },
        None => nil(),
    }
}

/// What comes of holding the type of a message against that of a method.
pub open spec fn type_check(imp: IMP, info: Option<TypeInfo>, tolerate: bool) -> TypeCheck {
    match (imp, info) {
        (IMP::Host(host_imp), Some(sent)) => if sent.0 == host_imp.type_id {
            TypeCheck::Same
        } else {
            TypeCheck::Different {
                sent,
                expected: (host_imp.type_id, host_imp.type_desc),
                tolerated: tolerate,
            }
        },
        _ => TypeCheck::Unchecked,
    }
}

/// What the search for the method of a message leads to.
pub open spec fn resolution(objects: Objects, dispatch: Dispatch) -> Step {
    let class = search_end(
        objects,
        dispatch.orig_class,
        dispatch.selector,
        dispatch.super_call,
    );
    if class == nil() {
        Step::Done(Ending::DoesNotRespond { class: dispatch.orig_class })
    } else if !objects.contains_key(class.0) {
        Step::Done(Ending::NoHostObject { class })
    } else {
        match objects[class.0] {
            HostObject::Class(object) => {
                let imp = object.methods@[dispatch.selector.0];
                Step::Call {
                    imp,
                    check: type_check(
                        imp,
                        dispatch.message_type_info,
                        dispatch.tolerate_type_mismatch,
                    ),
                }
            },
            HostObject::Unimplemented(_) => Step::Done(Ending::Unimplemented { class }),
            HostObject::Fake(_) => Step::Done(Ending::Faked { class }),
            _ => Step::Done(Ending::UnexpectedHostObject { class }),
        }
    }
}

/// A dispatch that is past all initialization: the method is to be run, or the
/// answer is zero and the dispatch is over.
pub open spec fn resolve_outcome(before: Model, dispatch: Dispatch, after: Model, step: Step) -> bool {
    &&& step == resolution(before.objects, dispatch)
    &&& after == if step is Done {
        Model {
            regs: zeroed(before.regs),
            dispatch_depth: one_less(before.dispatch_depth),
            ..before
        }
    } else {
        before
    }
}

/// A dispatch for which the classes of `chain` have to be initialized, the last
/// one first, where those in `initialized` need it no more.
pub open spec fn proceed_outcome(
    before: Model,
    initialized: Set<u32>,
    chain: Seq<Class>,
    dispatch: Dispatch,
    after: Model,
    step: Step,
) -> bool {
    let (marked, due) = next_initialize(before, initialized, chain);
    let model = Model { initialized: marked, ..before };
    match due {
        None => resolve_outcome(model, dispatch, after, step),
        Some((class, rest)) => {
            &&& after == model
            &&& step matches Step::Initialize(pending) && {
                &&& pending.dispatch == dispatch
                &&& pending.initialize.class == class
                &&& pending.initialize.rest@ == rest
                &&& Some(pending.initialize.selector) == selector_named(
                    before.selectors,
                    "initialize"@,
                )
                &&& pending.initialize.saved_r0_r3@ == before.regs.take(4)
            }
        },
    }
}

/// The environment one level of messages further in, with the type of the message
/// taken.
pub open spec fn entered(before: Model) -> Model {
    Model {
        message_type_info: None,
        dispatch_depth: (before.dispatch_depth + 1) as usize,
        ..before
    }
}

/// What a message leads to, and how it changes the environment.
pub open spec fn dispatch_outcome(
    before: Model,
    receiver: id,
    selector: SEL,
    super2: Option<Class>,
    tolerate_type_mismatch: bool,
    after: Model,
    step: Step,
) -> bool {
    let taken = Model { message_type_info: None, ..before };
    let orig_class = match super2 {
        Some(class) => class,
        None => isa(before.mem, receiver),
    };
    if before.dispatch_depth >= MAX_DISPATCH_DEPTH {
        if name_of(before.mem, selector) == encode_utf8("allocWithZone:"@) {
            step == Step::Allocate { class: receiver } && after == before
        } else {
            &&& step == Step::Done(Ending::RecursionLimit)
            &&& after == Model { regs: zeroed(before.regs), ..before }
        }
    } else if receiver == nil() {
        &&& step == Step::Done(Ending::NilReceiver)
        &&& after == Model { regs: zeroed(before.regs), ..taken }
    } else if is_blocked(before, orig_class, selector) {
        &&& step == Step::Done(Ending::AdMarvel)
        &&& after == Model { regs: zeroed(before.regs), ..taken }
    } else if orig_class == nil() {
        &&& step == Step::Done(Ending::NilIsa(nil_isa_report(before.nil_isa_count)))
        &&& after == Model {
            regs: zeroed(before.regs),
            nil_isa_count: counted(before.nil_isa_count),
            ..taken
        }
    } else {
        let entered = entered(before);
        let dispatch = Dispatch {
            receiver,
            selector,
            orig_class,
            super_call: super2 is Some,
            tolerate_type_mismatch,
            message_type_info: before.message_type_info,
        };
        let class = class_to_initialize(before.objects, receiver, orig_class);
        if super2 is Some {
            resolve_outcome(entered, dispatch, after, step)
        } else {
            proceed_outcome(
                entered,
                marked_above(before.objects, before.initialized, class),
                uninitialized_chain(before.objects, before.initialized, class),
                dispatch,
                after,
                step,
            )
        }
    }
}

/// Makes zero the answer of a message.
fn answer_zero(env: &mut Environment)
    ensures
        final(env)@ == (Model { regs: zeroed(old(env)@.regs), ..old(env)@ }),
{
    env.cpu.regs[0] = 0;
    env.cpu.regs[1] = 0;
    assert(env@ =~= (Model { regs: zeroed(old(env)@.regs), ..old(env)@ }));
}

/// Ends a dispatch, after its method was run.
pub fn end_dispatch(env: &mut Environment)
    ensures
        final(env)@ == (Model { dispatch_depth: one_less(old(env)@.dispatch_depth), ..old(env)@ }),
{
    if env.counters.dispatch_depth > 0 {
        env.counters.dispatch_depth -= 1;
    }
}

/// Counts a message to an object without a class, and says whether to report it.
pub fn report_nil_isa(env: &mut Environment) -> (report: NilIsaReport)
    ensures
        report == nil_isa_report(old(env)@.nil_isa_count),
        final(env)@ == (Model { nil_isa_count: counted(old(env)@.nil_isa_count), ..old(env)@ }),
{
    let count = env.counters.nil_isa_count;
    env.counters.nil_isa_count = count.wrapping_add(1);
    if count < NIL_ISA_LOG_LIMIT {
        NilIsaReport::Log { number: count + 1 }
    } else if count == NIL_ISA_LOG_LIMIT {
        NilIsaReport::Suppressing
    } else {
        NilIsaReport::Silent
    }
}

/// Whether a message is kept from running.
fn check_blocked(env: &Environment, class: Class, selector: SEL) -> (result: bool)
    ensures
        result == is_blocked(env@, class, selector),
{
    if let Some(object) = env.objc.get_class_object(class) {
        if starts_with(object.name.as_str(), "AdMarvel") {
            return true;
        }
    }
    let name = selector.name(&env.mem);
    contains(name.as_slice(), "AdMarvel".as_bytes())
}

/// Holds the type of a message against that of a method.
fn check_types(imp: &IMP, info: Option<TypeInfo>, tolerate: bool) -> (result: TypeCheck)
    ensures
        result == type_check(*imp, info, tolerate),
{
    match imp {
        IMP::Host(host_imp) => match info {
            Some(sent) => if same_type(sent.0, host_imp.type_id) {
                TypeCheck::Same
            } else {
                TypeCheck::Different { sent, expected: host_imp.type_info(), tolerated: tolerate }
            },
            None => TypeCheck::Unchecked,
        },
        IMP::Guest(_) => TypeCheck::Unchecked,
    }
}

/// Traverses the chain of superclasses to find the method of a message.
fn find_method(env: &Environment, dispatch: &Dispatch) -> (step: Step)
    requires
        chain_ends(env@.objects, dispatch.orig_class),
    ensures
        step == resolution(env@.objects, *dispatch),
{
    let class = env.objc.search(dispatch.orig_class, dispatch.selector, dispatch.super_call);
    if class == nil() {
        return Step::Done(Ending::DoesNotRespond { class: dispatch.orig_class });
    }
    match env.objc.get_host_object(class) {
        None => Step::Done(Ending::NoHostObject { class }),
        Some(HostObject::Class(object)) => match object.methods.get(&dispatch.selector.0) {
            Some(imp) => {
                let check = check_types(
                    imp,
                    dispatch.message_type_info,
                    dispatch.tolerate_type_mismatch,
                );
                Step::Call { imp: *imp, check }
            },
            None => Step::Done(Ending::DoesNotRespond { class: dispatch.orig_class }),
        },
        Some(HostObject::Unimplemented(_)) => Step::Done(Ending::Unimplemented { class }),
        Some(HostObject::Fake(_)) => Step::Done(Ending::Faked { class }),
        Some(_) => Step::Done(Ending::UnexpectedHostObject { class }),
    }
}

/// Goes on with a dispatch after a step of the initialization of its class.
fn proceed(env: &mut Environment, dispatch: Dispatch, initialization: InitializeStep) -> (step: Step)
    requires
        initialization is Initialized ==> hierarchy_ends(old(env)@.objects),
    ensures
        match initialization {
            InitializeStep::Initialized => resolve_outcome(
                old(env)@,
                dispatch,
                final(env)@,
                step,
            ),
            InitializeStep::Send(initialize) => {
                &&& final(env)@ == old(env)@
                &&& step == Step::Initialize((PendingDispatch { dispatch, initialize }))
            },
        },
{
    match initialization {
        InitializeStep::Send(initialize) => Step::Initialize(
            PendingDispatch { dispatch, initialize },
        ),
        InitializeStep::Initialized => {
            proof {
                assert(chain_ends(env@.objects, dispatch.orig_class));
            }
            let step = find_method(env, &dispatch);
            match step {
                Step::Done(_) => {
                    answer_zero(env);
                    end_dispatch(env);
                },
                _ => {},
            }
            step
        },
    }
}

/// The core implementation of `objc_msgSend`, the main function of Objective-C.
///
/// Note that while only two parameters (usually receiver and selector) are
/// defined by the wrappers over this function, a message may have additional
/// arguments, which are left untouched where they are, in registers and on the
/// stack, for the method that is looked up.
///
/// Similarly, the answer to a message is whatever value the method returns.
#[allow(non_snake_case)]
pub fn objc_msgSend_inner(
    env: &mut Environment,
    receiver: id,
    selector: SEL,
    super2: Option<Class>,
    tolerate_type_mismatch: bool,
) -> (step: Step)
    requires
        old(env)@.wf(),
    ensures
        dispatch_outcome(
            old(env)@,
            receiver,
            selector,
            super2,
            tolerate_type_mismatch,
            final(env)@,
            step,
        ),
        final(env)@.wf(),
{
    // Without a limit, methods that end up sending themselves messages would
    // exhaust the native stack.
    if env.counters.dispatch_depth >= MAX_DISPATCH_DEPTH {
        // A `nil` in place of a new object causes failures further on.
        let name = selector.name(&env.mem);
        if same_bytes(name.as_slice(), "allocWithZone:".as_bytes()) {
            return Step::Allocate { class: receiver };
        }
        answer_zero(env);
        return Step::Done(Ending::RecursionLimit);
    }
    let message_type_info = env.objc.message_type_info.take();
    if receiver == nil() {
        answer_zero(env);
        return Step::Done(Ending::NilReceiver);
    }
    let orig_class = match super2 {
        Some(class) => class,
        None => read_isa(receiver, &env.mem),
    };
    if check_blocked(env, orig_class, selector) {
        answer_zero(env);
        return Step::Done(Ending::AdMarvel);
    }
    if orig_class == nil() {
        let report = report_nil_isa(env);
        answer_zero(env);
        return Step::Done(Ending::NilIsa(report));
    }
    env.counters.dispatch_depth += 1;
    let dispatch = Dispatch {
        receiver,
        selector,
        orig_class,
        super_call: super2.is_some(),
        tolerate_type_mismatch,
        message_type_info,
    };
    // The class that makes a super-call is initialized by then.
    let initialization = if super2.is_some() {
        InitializeStep::Initialized
    } else {
        let class_to_init = match env.objc.get_class_object(orig_class) {
            Some(object) => if object.is_metaclass {
                receiver
            } else {
                orig_class
            },
            None => nil(),
        };
        ensure_class_initialized(env, class_to_init)
    };
    proceed(env, dispatch, initialization)
}

/// Goes on with a dispatch after the `+initialize` that it waited for.
pub fn resume_dispatch(env: &mut Environment, pending: PendingDispatch) -> (step: Step)
    requires
        old(env)@.wf(),
    ensures
        proceed_outcome(
            restored(old(env)@, pending.initialize.saved_r0_r3@),
            old(env)@.initialized,
            pending.initialize.rest@,
            pending.dispatch,
            final(env)@,
            step,
        ),
        final(env)@.wf(),
{
    let PendingDispatch { dispatch, initialize } = pending;
    let initialization = after_initialize(env, initialize);
    proceed(env, dispatch, initialization)
}

/// Makes an object of a class at an address where memory was found for it.
pub fn alloc_object(env: &mut Environment, class: Class, object: id, host_object: HostObject)
    requires
        !(host_object is Class),
    ensures
        final(env)@ == (Model {
            mem: with_word(old(env)@.mem, object.0, class.0),
            objects: old(env)@.objects.insert(object.0, host_object),
            ..old(env)@
        }),
        old(env)@.wf() ==> final(env)@.wf(),
{
    env.mem.write_word(object.0, class.0);
    env.objc.set_host_object(object, host_object);
}

/// Ends a dispatch that had to make an object, at the address that was found.
pub fn finish_allocation(env: &mut Environment, class: Class, object: id)
    ensures
        final(env)@ == (Model {
            regs: old(env)@.regs.update(0, object.0),
            mem: with_word(old(env)@.mem, object.0, class.0),
            objects: old(env)@.objects.insert(object.0, HostObject::Trivial),
            ..old(env)@
        }),
        old(env)@.wf() ==> final(env)@.wf(),
{
    alloc_object(env, class, object, HostObject::Trivial);
    env.cpu.regs[0] = object.0;
    assert(env@.regs =~= old(env)@.regs.update(0, object.0));
}

} // verus!
