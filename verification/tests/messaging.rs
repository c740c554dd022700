//! Dispatch, initialization and the sending of messages.
use objc_messaging::abi::{argument, leave_host_call, struct_answer, take_answer, write_next_arg, Answer, GuestRet};
use objc_messaging::args::{MessageArgs, RestArgs};
use objc_messaging::dispatch::{
    alloc_object, end_dispatch, finish_allocation, objc_msgSend_inner, report_nil_isa, resume_dispatch, Ending,
    NilIsaReport, PendingDispatch, Step, TypeCheck,
};
use objc_messaging::env::{Counters, Environment, LR, MAX_DISPATCH_DEPTH, SP};
use objc_messaging::initialize::{after_initialize, ensure_class_initialized, InitializeStep};
use objc_messaging::messages::{
    _touchHLE_objc_msgSend_stret_tolerant, _touchHLE_objc_msgSend_tolerant, autorelease, finish_super, msg, msg_class,
    msg_send, msg_send_no_type_checking, msg_send_super2, msg_send_super2_typed, msg_send_typed, msg_super, objc_msgSend, objc_msgSendSuper2,
    objc_msgSendSuper2_stret, objc_msgSend_stret, release, retain, send_initialize,
};
use objc_messaging::ns_url_request::{interval_argument, NSTimeInterval};
use objc_messaging::objc::{
    id, nil, objc_super, ClassHostObject, ConstPtr, FakeClass, GuestIMP, HostIMP, HostObject, UnimplementedClass, IMP,
    SEL,
};
use objc_messaging::signature::{info_of, MsgSendSignature, MsgSendSuperSignature};
use std::collections::HashMap;
use std::marker::PhantomData;

const ROOT_META: id = id(0x100);
const ROOT: id = id(0x200);
const CHILD_META: id = id(0x300);
const CHILD: id = id(0x400);
const OBJECT: id = id(0x1000);

const INITIALIZE: SEL = SEL(0x10);
const FOO: SEL = SEL(0x20);
const BAR: SEL = SEL(0x30);
const ALLOC_WITH_ZONE: SEL = SEL(0x40);
const AD: SEL = SEL(0x50);
const RETAIN: SEL = SEL(0x60);
const RELEASE: SEL = SEL(0x70);
const AUTORELEASE: SEL = SEL(0x80);

fn guest(address: u32) -> IMP {
    IMP::Guest(GuestIMP { address })
}

fn class(name: &str, is_metaclass: bool, superclass: id, methods: &[(SEL, IMP)]) -> ClassHostObject {
    let mut map = HashMap::new();
    for (selector, imp) in methods {
        map.insert(selector.0, *imp);
    }
    ClassHostObject { name: name.to_string(), is_metaclass, superclass, methods: map }
}

fn selectors(env: &mut Environment) {
    let all = [
        ("initialize", INITIALIZE),
        ("foo", FOO),
        ("bar:", BAR),
        ("allocWithZone:", ALLOC_WITH_ZONE),
        ("isAdMarvelReady", AD),
        ("retain", RETAIN),
        ("release", RELEASE),
        ("autorelease", AUTORELEASE),
    ];
    for (name, selector) in all {
        assert_eq!(env.register_selector(name.to_string(), selector), selector);
    }
}

/// A root class with `foo` and a child with `bar:`; no class wants `initialize`.
fn quiet() -> Environment {
    let mut env = Environment::new();
    selectors(&mut env);
    assert!(env.objc.define_class(ROOT_META, class("Root", true, nil(), &[])));
    assert!(env.objc.define_class(ROOT, class("Root", false, nil(), &[(FOO, guest(0xf00)), (RETAIN, guest(0xa1)), (RELEASE, guest(0xa2)), (AUTORELEASE, guest(0xa3))])));
    assert!(env.objc.define_class(CHILD_META, class("Child", true, ROOT_META, &[])));
    assert!(env.objc.define_class(CHILD, class("Child", false, ROOT, &[(BAR, guest(0xba4))])));
    env.mem.write_word(ROOT.0, ROOT_META.0);
    env.mem.write_word(CHILD.0, CHILD_META.0);
    env.mem.write_word(OBJECT.0, CHILD.0);
    env.objc.register_known_class("Root".to_string(), ROOT);
    env.objc.register_known_class("Child".to_string(), CHILD);
    env.cpu.regs[SP] = 0x8000;
    env.cpu.regs[LR] = 0x4444;
    env
}

fn called(step: &Step) -> u32 {
    match step {
        Step::Call { imp: IMP::Guest(imp), .. } => imp.address,
        Step::Call { imp: IMP::Host(imp), .. } => imp.function,
        _ => panic!("no method was reached"),
    }
}

fn check_of(step: &Step) -> TypeCheck {
    match step {
        Step::Call { check, .. } => *check,
        _ => panic!("no method was reached"),
    }
}

fn ending(step: &Step) -> Ending {
    match step {
        Step::Done(ending) => *ending,
        _ => panic!("the dispatch is not over"),
    }
}

fn pending(step: Step) -> PendingDispatch {
    match step {
        Step::Initialize(pending) => pending,
        _ => panic!("no initialization is due"),
    }
}

fn fill_registers(env: &mut Environment) {
    for i in 0..13 {
        env.cpu.regs[i] = 0x9000 + i as u32;
    }
}

#[test]
fn nil_receiver_is_answered_with_zero() {
    let mut env = quiet();
    fill_registers(&mut env);
    env.objc.message_type_info = Some(info_of::<(id, (id, SEL))>());
    let step = objc_msgSend(&mut env, nil(), FOO);
    assert_eq!(ending(&step), Ending::NilReceiver);
    assert_eq!(env.cpu.regs[0..4], [0, 0, 0x9002, 0x9003]);
    assert_eq!(env.counters.dispatch_depth, 0);
    assert!(env.objc.message_type_info.is_none());
}

#[test]
fn nearest_method_is_called_and_arguments_stay() {
    let mut env = quiet();
    fill_registers(&mut env);
    env.mem.write_word(0x8000, 77);
    let step = objc_msgSend(&mut env, OBJECT, BAR);
    assert_eq!(called(&step), 0xba4);
    assert_eq!(env.counters.dispatch_depth, 1);
    assert_eq!(env.cpu.regs[0..4], [0x9000, 0x9001, 0x9002, 0x9003]);
    assert_eq!(env.mem.read_word(0x8000), 77);
    end_dispatch(&mut env);
    assert_eq!(env.counters.dispatch_depth, 0);
}

#[test]
fn methods_are_inherited_and_overridden() {
    let mut env = quiet();
    assert_eq!(called(&objc_msgSend(&mut env, OBJECT, FOO)), 0xf00);
    let override_foo = class("Child", false, ROOT, &[(FOO, guest(0xc0)), (BAR, guest(0xba4))]);
    assert!(env.objc.define_class(CHILD, override_foo));
    assert_eq!(called(&objc_msgSend(&mut env, OBJECT, FOO)), 0xc0);
}

#[test]
fn recursion_limit_ends_a_message() {
    let mut env = quiet();
    env.counters.dispatch_depth = MAX_DISPATCH_DEPTH - 1;
    assert_eq!(called(&objc_msgSend(&mut env, OBJECT, FOO)), 0xf00);
    assert_eq!(env.counters.dispatch_depth, MAX_DISPATCH_DEPTH);
    fill_registers(&mut env);
    env.objc.message_type_info = Some(info_of::<(id, (id, SEL))>());
    let step = objc_msgSend(&mut env, OBJECT, FOO);
    assert_eq!(ending(&step), Ending::RecursionLimit);
    assert_eq!(env.cpu.regs[0..3], [0, 0, 0x9002]);
    assert_eq!(env.counters.dispatch_depth, MAX_DISPATCH_DEPTH);
    // Such a message is not looked at any further.
    assert!(env.objc.message_type_info.is_some());
    assert_eq!(ending(&objc_msgSend(&mut env, nil(), FOO)), Ending::RecursionLimit);
}

#[test]
fn recursion_limit_still_allocates() {
    let mut env = quiet();
    env.counters.dispatch_depth = MAX_DISPATCH_DEPTH;
    fill_registers(&mut env);
    match objc_msgSend(&mut env, CHILD, ALLOC_WITH_ZONE) {
        Step::Allocate { class } => {
            assert_eq!(class, CHILD);
            finish_allocation(&mut env, class, id(0x2000));
        },
        _ => panic!("nothing is allocated"),
    }
    assert_eq!(env.cpu.regs[0..3], [0x2000, 0x9001, 0x9002]);
    assert_eq!(env.mem.read_word(0x2000), CHILD.0);
    assert!(matches!(env.objc.get_host_object(id(0x2000)), Some(HostObject::Trivial)));
    assert_eq!(env.counters.dispatch_depth, MAX_DISPATCH_DEPTH);
}

#[test]
fn advertisements_are_blocked_by_class() {
    let mut env = quiet();
    assert!(env.objc.define_class(CHILD, class("AdMarvelView", false, ROOT, &[(FOO, guest(1))])));
    fill_registers(&mut env);
    assert_eq!(ending(&objc_msgSend(&mut env, OBJECT, FOO)), Ending::AdMarvel);
    assert_eq!(env.cpu.regs[0..3], [0, 0, 0x9002]);
    assert!(!env.objc.initialized_classes.contains(&CHILD.0));
    // The name has to begin with it.
    assert!(env.objc.define_class(CHILD, class("NotAdMarvel", false, ROOT, &[(FOO, guest(1))])));
    assert_eq!(called(&objc_msgSend(&mut env, OBJECT, FOO)), 1);
}

#[test]
fn advertisements_are_blocked_by_selector() {
    let mut env = quiet();
    assert!(env.objc.define_class(CHILD, class("Child", false, ROOT, &[(AD, guest(1))])));
    assert_eq!(ending(&objc_msgSend(&mut env, OBJECT, AD)), Ending::AdMarvel);
    assert_eq!(env.counters.dispatch_depth, 0);
}

#[test]
fn names_are_read_where_selectors_point() {
    let mut env = quiet();
    // Selectors that nobody registered have names all the same.
    env.mem.write_cstr(0x700, b"showAdMarvel:");
    env.mem.write_cstr(0x720, b"allocWithZone:");
    assert_eq!(SEL(0x700).name(&env.mem), b"showAdMarvel:".to_vec());
    assert_eq!(ending(&objc_msgSend(&mut env, OBJECT, SEL(0x700))), Ending::AdMarvel);
    assert_eq!(ending(&objc_msgSend(&mut env, OBJECT, SEL(0x706))), Ending::DoesNotRespond { class: CHILD });
    env.counters.dispatch_depth = MAX_DISPATCH_DEPTH;
    assert!(matches!(objc_msgSend(&mut env, CHILD, SEL(0x720)), Step::Allocate { class: CHILD }));
    assert_eq!(ending(&objc_msgSend(&mut env, CHILD, SEL(0x721))), Ending::RecursionLimit);
}

#[test]
fn counts_are_handed_from_one_environment_to_another() {
    let mut one = quiet();
    let mut other = quiet();
    one.counters.dispatch_depth = MAX_DISPATCH_DEPTH - 1;
    assert_eq!(called(&objc_msgSend(&mut one, OBJECT, FOO)), 0xf00);
    other.counters = one.counters;
    assert_eq!(ending(&objc_msgSend(&mut other, OBJECT, FOO)), Ending::RecursionLimit);
    assert_eq!(Counters::new(), Environment::new().counters);
}

#[test]
fn environments_are_checked() {
    let mut env = quiet();
    assert!(env.check());
    env.counters.dispatch_depth = MAX_DISPATCH_DEPTH + 1;
    assert!(!env.check());
    env.counters = Counters::new();
    assert!(env.check());
    env.objc.host_objects.insert(ROOT.0, HostObject::Class(class("Root", false, CHILD, &[])));
    assert!(!env.objc.check_hierarchy());
    assert!(!env.check());
}

#[test]
fn nil_isa_is_reported_eight_times() {
    let mut env = quiet();
    for number in 1..=8 {
        let step = objc_msgSend(&mut env, id(0x7000), FOO);
        assert_eq!(ending(&step), Ending::NilIsa(NilIsaReport::Log { number }));
        assert_eq!(env.counters.dispatch_depth, 0);
    }
    assert_eq!(ending(&objc_msgSend(&mut env, id(0x7000), FOO)), Ending::NilIsa(NilIsaReport::Suppressing));
    assert_eq!(ending(&objc_msgSend(&mut env, id(0x7000), FOO)), Ending::NilIsa(NilIsaReport::Silent));
    assert_eq!(env.counters.nil_isa_count, 10);
    env.counters.nil_isa_count = usize::MAX;
    assert_eq!(report_nil_isa(&mut env), NilIsaReport::Silent);
    assert_eq!(report_nil_isa(&mut env), NilIsaReport::Log { number: 1 });
}

#[test]
fn unknown_selectors_are_answered_with_zero() {
    let mut env = quiet();
    fill_registers(&mut env);
    let step = objc_msgSend(&mut env, OBJECT, SEL(0x999));
    assert_eq!(ending(&step), Ending::DoesNotRespond { class: CHILD });
    assert_eq!(env.cpu.regs[0..3], [0, 0, 0x9002]);
    assert_eq!(env.counters.dispatch_depth, 0);
}

#[test]
fn chains_may_lead_out_of_the_known_classes() {
    let mut env = quiet();
    env.mem.write_word(0x5000, 0x600);
    assert_eq!(ending(&objc_msgSend(&mut env, id(0x5000), FOO)), Ending::NoHostObject { class: id(0x600) });

    let unimplemented = UnimplementedClass { name: "Missing".to_string(), is_metaclass: false };
    env.objc.set_host_object(id(0x600), HostObject::Unimplemented(unimplemented));
    assert_eq!(ending(&objc_msgSend(&mut env, id(0x5000), FOO)), Ending::Unimplemented { class: id(0x600) });

    let faked = FakeClass { name: "Faked".to_string(), is_metaclass: false };
    env.objc.set_host_object(id(0x600), HostObject::Fake(faked));
    fill_registers(&mut env);
    assert_eq!(ending(&objc_msgSend(&mut env, id(0x5000), FOO)), Ending::Faked { class: id(0x600) });
    // As if the message was sent to `nil`.
    let answer = env.cpu.regs;
    fill_registers(&mut env);
    assert_eq!(ending(&objc_msgSend(&mut env, nil(), FOO)), Ending::NilReceiver);
    assert_eq!(env.cpu.regs, answer);

    env.objc.set_host_object(id(0x600), HostObject::Other);
    assert_eq!(ending(&objc_msgSend(&mut env, id(0x5000), FOO)), Ending::UnexpectedHostObject { class: id(0x600) });
    env.objc.set_host_object(id(0x600), HostObject::Trivial);
    assert_eq!(ending(&objc_msgSend(&mut env, id(0x5000), FOO)), Ending::UnexpectedHostObject { class: id(0x600) });

    // Further up the chain it is the same.
    assert!(env.objc.define_class(ROOT, class("Root", false, id(0x600), &[])));
    assert_eq!(ending(&objc_msgSend(&mut env, OBJECT, FOO)), Ending::UnexpectedHostObject { class: id(0x600) });
    env.objc.remove_host_object(id(0x600));
    assert_eq!(ending(&objc_msgSend(&mut env, OBJECT, FOO)), Ending::NoHostObject { class: id(0x600) });
}

#[test]
fn super_calls_pass_over_the_class() {
    let mut env = quiet();
    let both = class("Child", false, ROOT, &[(FOO, guest(0xc0)), (BAR, guest(0xba4))]);
    assert!(env.objc.define_class(CHILD, both));
    let step = objc_msgSend_inner(&mut env, OBJECT, FOO, Some(CHILD), false);
    assert_eq!(called(&step), 0xf00);
    let step = objc_msgSend_inner(&mut env, OBJECT, BAR, Some(CHILD), false);
    assert_eq!(ending(&step), Ending::DoesNotRespond { class: CHILD });
    // Nothing is initialized for a super-call.
    assert!(env.objc.initialized_classes.is_empty());
    let step = objc_msgSend_inner(&mut env, OBJECT, FOO, Some(ROOT), false);
    assert_eq!(ending(&step), Ending::DoesNotRespond { class: ROOT });
    let step = objc_msgSend_inner(&mut env, OBJECT, FOO, Some(nil()), false);
    assert_eq!(ending(&step), Ending::NilIsa(NilIsaReport::Log { number: 1 }));
}

#[test]
fn super_calls_from_the_guest_rewrite_the_receiver() {
    let mut env = quiet();
    env.mem.write_word(0x7ff0, OBJECT.0);
    env.mem.write_word(0x7ff4, CHILD.0);
    fill_registers(&mut env);
    env.cpu.regs[0] = 0x7ff0;
    let pointer = ConstPtr { bits: 0x7ff0, pointee: PhantomData };
    assert_eq!(called(&objc_msgSendSuper2(&mut env, pointer, FOO)), 0xf00);
    assert_eq!(env.cpu.regs[0..2], [OBJECT.0, 0x9001]);
    env.cpu.regs[0] = 0x7ff0;
    let pointer = ConstPtr { bits: 0x7ff0, pointee: PhantomData };
    assert_eq!(called(&objc_msgSendSuper2_stret(&mut env, pointer, FOO)), 0xf00);
    assert_eq!(env.cpu.regs[0..2], [OBJECT.0, 0x9001]);
    let _: objc_super = objc_super { receiver: OBJECT, class: CHILD };
}

fn typed(env: &mut Environment) {
    let (type_id, type_desc) = info_of::<(u32, (id, SEL, u32))>();
    let imp = IMP::Host(HostIMP { function: 5, type_id, type_desc });
    assert!(env.objc.define_class(CHILD, class("Child", false, ROOT, &[(BAR, imp)])));
}

#[test]
fn types_of_messages_are_checked() {
    let mut env = quiet();
    typed(&mut env);
    let same = msg_send::<u32, (id, SEL, u32)>(&mut env, (OBJECT, BAR, 3));
    assert_eq!(called(&same.step), 5);
    assert_eq!(check_of(&same.step), TypeCheck::Same);
    let other = msg_send::<(), (id, SEL, u32)>(&mut env, (OBJECT, BAR, 3));
    assert_eq!(called(&other.step), 5);
    let sent = info_of::<((), (id, SEL, u32))>();
    let expected = info_of::<(u32, (id, SEL, u32))>();
    assert_eq!(check_of(&other.step), TypeCheck::Different { sent, expected, tolerated: false });
    let other = msg_send::<u32, (id, SEL, bool)>(&mut env, (OBJECT, BAR, true));
    assert!(matches!(check_of(&other.step), TypeCheck::Different { tolerated: false, .. }));
    // An object is no number.
    let other = msg_send::<u32, (id, SEL, id)>(&mut env, (OBJECT, BAR, OBJECT));
    assert!(matches!(check_of(&other.step), TypeCheck::Different { tolerated: false, .. }));
    let other = msg_send::<id, (id, SEL, u32)>(&mut env, (OBJECT, BAR, 3));
    assert!(matches!(check_of(&other.step), TypeCheck::Different { tolerated: false, .. }));
    // The type is used for one message only.
    assert!(env.objc.message_type_info.is_none());
    assert_eq!(check_of(&objc_msgSend(&mut env, OBJECT, BAR)), TypeCheck::Unchecked);
    let unchecked = msg_send_no_type_checking::<(), (id, SEL, u32)>(&mut env, (OBJECT, BAR, 3));
    assert_eq!(check_of(&unchecked.step), TypeCheck::Unchecked);
    // Nothing is known of the types of the guest's methods.
    let guests = msg_send::<u32, (id, SEL)>(&mut env, (OBJECT, FOO));
    assert_eq!(check_of(&guests.step), TypeCheck::Unchecked);
}

#[test]
fn tolerance_changes_nothing_but_the_check() {
    let mut env = quiet();
    typed(&mut env);
    env.objc.message_type_info = Some(info_of::<(id, (id, SEL))>());
    let step = _touchHLE_objc_msgSend_tolerant(&mut env, OBJECT, BAR);
    assert_eq!(called(&step), 5);
    assert!(matches!(check_of(&step), TypeCheck::Different { tolerated: true, .. }));
    env.objc.message_type_info = Some(info_of::<(id, (id, SEL))>());
    let step = _touchHLE_objc_msgSend_stret_tolerant(&mut env, 0x77, OBJECT, BAR);
    assert!(matches!(check_of(&step), TypeCheck::Different { tolerated: true, .. }));
    env.objc.message_type_info = Some(info_of::<(id, (id, SEL))>());
    let step = objc_msgSend_stret(&mut env, 0x77, OBJECT, BAR);
    assert!(matches!(check_of(&step), TypeCheck::Different { tolerated: false, .. }));
    env.objc.message_type_info = Some(info_of::<(u32, (id, SEL, u32))>());
    let step = objc_msgSend_stret(&mut env, 0x77, OBJECT, BAR);
    assert_eq!(check_of(&step), TypeCheck::Same);
}

#[test]
fn signatures_have_identities() {
    type Long = (id, SEL, u8, u16, u32, u64, i8, i16, i32, i64, bool);
    type LongSuper = (ConstPtr<objc_super>, SEL, u8, u16, u32, u64, i8, i16, i32, i64, bool);
    assert_eq!(info_of::<(id, (id, SEL))>(), info_of::<(id, (id, SEL))>());
    assert_ne!(info_of::<(id, (id, SEL))>().0, info_of::<((), (id, SEL))>().0);
    assert_ne!(info_of::<(id, (id, SEL))>().0, info_of::<(u32, (id, SEL))>().0);
    assert_ne!(info_of::<(id, (id, SEL, u8))>().0, info_of::<(id, (id, SEL, i8))>().0);
    assert_ne!(info_of::<((), Long)>().0, info_of::<((), (id, SEL))>().0);
    assert_eq!(<((), Long)>::type_info().1, "[description unavailable in release builds]");
    assert_eq!(
        info_of::<<((), LongSuper) as MsgSendSuperSignature>::WithoutSuper>(),
        info_of::<((), Long)>()
    );
}

/// Adds `initialize` to the root's metaclass, from which the child's inherits it.
fn eager() -> Environment {
    let mut env = quiet();
    assert!(env.objc.define_class(ROOT_META, class("Root", true, nil(), &[(INITIALIZE, guest(0x171))])));
    env
}

/// Sends a `+initialize`, whose method overwrites registers.
fn run_initialize(env: &mut Environment, pending: &PendingDispatch) {
    let depth = env.counters.dispatch_depth;
    let sent = send_initialize(env, &pending.initialize);
    assert_eq!(called(&sent.step), 0x171);
    assert_eq!(env.cpu.regs[0..2], [pending.initialize.class.0, INITIALIZE.0]);
    fill_registers(env);
    env.cpu.regs[SP] = 0;
    env.cpu.regs[LR] = 0;
    end_dispatch(env);
    leave_host_call(env, sent.frame);
    assert_eq!(env.counters.dispatch_depth, depth);
    assert_eq!(env.cpu.regs[SP], 0x8000);
    assert_eq!(env.cpu.regs[LR], 0x4444);
}

#[test]
fn superclasses_are_initialized_first_and_once() {
    let mut env = eager();
    env.cpu.regs[0..4].copy_from_slice(&[OBJECT.0, FOO.0, 0x22, 0x33]);
    let first = pending(objc_msgSend(&mut env, OBJECT, FOO));
    assert_eq!(first.initialize.class, ROOT);
    assert_eq!(first.initialize.selector, INITIALIZE);
    assert_eq!(first.initialize.rest, vec![CHILD]);
    assert!(env.objc.initialized_classes.contains(&ROOT.0));
    assert!(!env.objc.initialized_classes.contains(&CHILD.0));
    assert_eq!(env.counters.dispatch_depth, 1);
    run_initialize(&mut env, &first);
    let second = pending(resume_dispatch(&mut env, first));
    assert_eq!(second.initialize.class, CHILD);
    assert!(second.initialize.rest.is_empty());
    assert!(env.objc.initialized_classes.contains(&CHILD.0));
    run_initialize(&mut env, &second);
    let step = resume_dispatch(&mut env, second);
    assert_eq!(called(&step), 0xf00);
    assert_eq!(env.cpu.regs[0..4], [OBJECT.0, FOO.0, 0x22, 0x33]);
    assert_eq!(env.counters.dispatch_depth, 1);
    end_dispatch(&mut env);
    // From now on nothing is in the way.
    assert_eq!(called(&objc_msgSend(&mut env, OBJECT, BAR)), 0xba4);
}

#[test]
fn initialize_leaves_the_stack_alone() {
    let mut env = eager();
    fill_registers(&mut env);
    for i in 0..8 {
        env.mem.write_word(0x7ff0 + 4 * i, 0xee00 + i);
    }
    let first = pending(objc_msgSend(&mut env, OBJECT, FOO));
    let sent = send_initialize(&mut env, &first.initialize);
    assert_eq!(called(&sent.step), 0x171);
    for i in 0..8 {
        assert_eq!(env.mem.read_word(0x7ff0 + 4 * i), 0xee00 + i);
    }
    assert_eq!(env.cpu.regs[SP], 0x8000);
    assert_eq!(env.cpu.regs[2..13], [0x9002, 0x9003, 0x9004, 0x9005, 0x9006, 0x9007, 0x9008, 0x9009, 0x900a, 0x900b, 0x900c]);
}

#[test]
fn messages_from_within_initialize_do_not_start_over() {
    let mut env = eager();
    let first = pending(objc_msgSend(&mut env, ROOT, FOO));
    assert_eq!(first.initialize.class, ROOT);
    let sent = send_initialize(&mut env, &first.initialize);
    assert_eq!(called(&sent.step), 0x171);
    let inner = objc_msgSend(&mut env, ROOT, FOO);
    assert_eq!(ending(&inner), Ending::DoesNotRespond { class: ROOT_META });
    end_dispatch(&mut env);
    leave_host_call(&mut env, sent.frame);
    assert_eq!(ending(&resume_dispatch(&mut env, first)), Ending::DoesNotRespond { class: ROOT_META });
    assert_eq!(env.counters.dispatch_depth, 0);
}

#[test]
fn classes_initialized_in_the_meantime_are_passed_by() {
    let mut env = eager();
    let first = pending(objc_msgSend(&mut env, OBJECT, FOO));
    run_initialize(&mut env, &first);
    env.objc.initialized_classes.insert(CHILD.0);
    assert_eq!(called(&resume_dispatch(&mut env, first)), 0xf00);
}

#[test]
fn classes_without_initialize_are_only_marked() {
    let mut env = quiet();
    assert!(matches!(ensure_class_initialized(&mut env, CHILD), InitializeStep::Initialized));
    assert!(env.objc.initialized_classes.contains(&CHILD.0));
    assert!(env.objc.initialized_classes.contains(&ROOT.0));
    assert_eq!(env.objc.initialized_classes.len(), 2);
    assert!(matches!(ensure_class_initialized(&mut env, nil()), InitializeStep::Initialized));
    assert_eq!(env.objc.initialized_classes.len(), 2);
    // So is what is no class, wherever it stands.
    assert!(matches!(ensure_class_initialized(&mut env, id(0x6660)), InitializeStep::Initialized));
    assert!(env.objc.initialized_classes.contains(&0x6660));
    env.objc.set_host_object(id(0x600), HostObject::Other);
    assert!(env.objc.define_class(id(0x700), class("Odd", false, id(0x600), &[])));
    assert!(matches!(ensure_class_initialized(&mut env, id(0x700)), InitializeStep::Initialized));
    assert!(env.objc.initialized_classes.contains(&0x600));
    assert!(env.objc.initialized_classes.contains(&0x700));
}

#[test]
fn without_the_selector_nothing_is_sent() {
    let mut env = eager();
    env.objc.selectors.clear();
    assert!(matches!(ensure_class_initialized(&mut env, CHILD), InitializeStep::Initialized));
    assert!(env.objc.initialized_classes.contains(&CHILD.0));
}

#[test]
fn registers_survive_initialize() {
    let mut env = eager();
    env.cpu.regs[0..4].copy_from_slice(&[1, 2, 3, 4]);
    let waiting = match ensure_class_initialized(&mut env, CHILD) {
        InitializeStep::Send(waiting) => waiting,
        InitializeStep::Initialized => panic!("nothing is sent"),
    };
    assert_eq!(waiting.saved_r0_r3, [1, 2, 3, 4]);
    fill_registers(&mut env);
    let waiting = match after_initialize(&mut env, waiting) {
        InitializeStep::Send(waiting) => waiting,
        InitializeStep::Initialized => panic!("nothing is sent"),
    };
    assert_eq!(waiting.class, CHILD);
    assert_eq!(env.cpu.regs[0..6], [1, 2, 3, 4, 0x9004, 0x9005]);
    assert!(matches!(after_initialize(&mut env, waiting), InitializeStep::Initialized));
}

#[test]
fn arguments_go_to_registers_and_to_the_stack() {
    let mut env = quiet();
    env.mem.write_word(0x8000, 0xabcd);
    let sent = msg_send::<u32, (id, SEL, u32, u32, u32, u32)>(&mut env, (OBJECT, FOO, 10, 11, 12, 13));
    assert_eq!(called(&sent.step), 0xf00);
    assert_eq!(env.cpu.regs[0..4], [OBJECT.0, FOO.0, 10, 11]);
    assert_eq!(env.cpu.regs[SP], 0x8000 - 8);
    assert_eq!(env.mem.read_word(0x7ff8), 12);
    assert_eq!(env.mem.read_word(0x7ffc), 13);
    assert_eq!(env.mem.read_word(0x8000), 0xabcd);
    env.cpu.regs[LR] = 1;
    env.cpu.regs[0] = 42;
    end_dispatch(&mut env);
    leave_host_call(&mut env, sent.frame);
    assert_eq!(env.cpu.regs[0], 42);
    assert_eq!(env.cpu.regs[SP], 0x8000);
    assert_eq!(env.cpu.regs[LR], 0x4444);
}

struct Rect {}

impl GuestRet for Rect {
    const SIZE_IN_MEM: Option<u32> = Some(16);
}

#[test]
fn structs_are_returned_in_memory() {
    let mut env = quiet();
    let sent = msg_send::<Rect, (id, SEL, u32, u32)>(&mut env, (OBJECT, FOO, 10, 11));
    assert_eq!(called(&sent.step), 0xf00);
    assert_eq!(env.cpu.regs[0..4], [0x8000 - 16, OBJECT.0, FOO.0, 10]);
    assert_eq!(env.cpu.regs[SP], 0x8000 - 20);
    assert_eq!(env.mem.read_word(0x8000 - 20), 11);
    leave_host_call(&mut env, sent.frame);
    let sent = msg_send_no_type_checking::<Rect, (id, SEL)>(&mut env, (OBJECT, FOO));
    assert_eq!(called(&sent.step), 0xf00);
    assert_eq!(env.cpu.regs[0..3], [0x8000 - 16, OBJECT.0, FOO.0]);
    assert_eq!(env.cpu.regs[SP], 0x8000 - 16);
}

#[test]
fn struct_answers_are_read_from_memory() {
    let mut env = quiet();
    let sent = msg_send::<Rect, (id, SEL)>(&mut env, (OBJECT, FOO));
    let pointer = env.cpu.regs[0];
    for i in 0..4 {
        env.mem.write_word(pointer + 4 * i, 0x0101_0101 * (i + 1));
    }
    end_dispatch(&mut env);
    leave_host_call(&mut env, sent.frame);
    let bytes = struct_answer(&env, sent.frame, 16);
    assert_eq!(bytes, vec![1, 1, 1, 1, 2, 2, 2, 2, 3, 3, 3, 3, 4, 4, 4, 4]);
}

#[test]
fn answers_are_read_from_registers() {
    let mut env = quiet();
    let sent = msg_send::<u64, (id, SEL)>(&mut env, (OBJECT, FOO));
    env.cpu.regs[0] = 0x0000_0100;
    env.cpu.regs[1] = 7;
    assert_eq!(u32::read(&env), 0x100);
    assert_eq!(u64::read(&env), 0x0000_0007_0000_0100);
    assert!(!bool::read(&env));
    assert_eq!(id::read(&env), id(0x100));
    assert_eq!(SEL::read(&env), SEL(0x100));
    assert_eq!(ConstPtr::<objc_super>::read(&env).bits, 0x100);
    assert_eq!(NSTimeInterval::read(&env), NSTimeInterval(0x0000_0007_0000_0100));
    env.cpu.regs[SP] = 1;
    assert_eq!(take_answer::<u64>(&mut env, sent.frame), 0x0000_0007_0000_0100);
    assert_eq!(env.cpu.regs[SP], 0x8000);
    env.cpu.regs[0] = 0xff01;
    assert!(bool::read(&env));
    <()>::read(&env);
}

#[test]
fn endings_are_read_as_zero() {
    let mut env = quiet();
    fill_registers(&mut env);
    assert_eq!(ending(&objc_msgSend(&mut env, nil(), FOO)), Ending::NilReceiver);
    assert_eq!(u64::read(&env), 0);
    assert_eq!(id::read(&env), nil());
    assert!(!bool::read(&env));
}

#[test]
fn methods_read_what_was_passed() {
    let mut env = quiet();
    let interval = NSTimeInterval(0x0000_0003_0000_0004);
    let args = (OBJECT, FOO, id(11), 12u32, interval, true);
    let sent = msg_send::<id, (id, SEL, id, u32, NSTimeInterval, bool)>(&mut env, args);
    assert_eq!(called(&sent.step), 0xf00);
    assert_eq!([argument(&env, 0), argument(&env, 1), argument(&env, 2), argument(&env, 3)], [11, 12, 4, 3]);
    assert_eq!(argument(&env, 4), 1);
    assert_eq!(interval_argument(&env, 2), interval);
}

#[test]
fn words_are_written_one_after_the_other() {
    let mut env = quiet();
    let mut number = 3;
    write_next_arg(&mut number, &mut env.cpu.regs, &mut env.mem, 7);
    assert_eq!(number, 4);
    assert_eq!(env.cpu.regs[3], 7);
    write_next_arg(&mut number, &mut env.cpu.regs, &mut env.mem, 8);
    write_next_arg(&mut number, &mut env.cpu.regs, &mut env.mem, 9);
    assert_eq!(number, 6);
    assert_eq!(env.mem.read_word(0x8000), 8);
    assert_eq!(env.mem.read_word(0x8004), 9);
}

#[test]
fn arguments_are_passed_in_words() {
    let pointer: ConstPtr<objc_super> = ConstPtr { bits: 0x77, pointee: PhantomData };
    assert_eq!((1u32, 0x0000_0002_0000_0003u64, true, false, FOO, pointer).to_words(), vec![1, 3, 2, 1, 0, 0x20, 0x77]);
    let parts = (OBJECT, FOO, 5u32, 6u64).into_parts();
    assert_eq!(parts.receiver, OBJECT.0);
    assert_eq!(parts.selector, FOO);
    assert_eq!(parts.rest, vec![5, 6, 0]);
    let none: Vec<u32> = vec![];
    assert_eq!(().to_words(), none);
    assert_eq!((1u32, 2u32, 3u32, 4u32, 5u32, 6u32, 7u32, 8u32, 9u32).to_words(), vec![1, 2, 3, 4, 5, 6, 7, 8, 9]);
    let pointer: ConstPtr<objc_super> = ConstPtr { bits: 0x77, pointee: PhantomData };
    let long = (pointer, BAR, 1u32, 2u32, 3u32, 4u32, 5u32, 6u32, 7u32, 8u32, 9u32).into_parts();
    assert_eq!(long.receiver, 0x77);
    assert_eq!(long.rest, vec![1, 2, 3, 4, 5, 6, 7, 8, 9]);
}

#[test]
fn messages_are_sent_by_name() {
    let mut env = quiet();
    let sent = msg::<u32, (u32,)>(&mut env, OBJECT, "bar:", (3,));
    assert_eq!(called(&sent.step), 0xba4);
    assert_eq!(env.cpu.regs[0..3], [OBJECT.0, BAR.0, 3]);
    assert!(env.objc.define_class(CHILD_META, class("Child", true, ROOT_META, &[(FOO, guest(0xc1a55))])));
    let sent = msg_class::<u32, ()>(&mut env, "Child", "foo", ());
    assert_eq!(called(&sent.step), 0xc1a55);
    assert_eq!(env.cpu.regs[0..2], [CHILD.0, FOO.0]);
    let info = info_of::<(u32, (id, SEL))>();
    let sent = msg_send_typed(&mut env, info, None, OBJECT, FOO, &vec![]);
    assert_eq!(called(&sent.step), 0xf00);
}

#[test]
fn super_calls_from_the_host_use_the_stack() {
    let mut env = quiet();
    let both = class("Child", false, ROOT, &[(FOO, guest(0xc0))]);
    assert!(env.objc.define_class(CHILD, both));
    let sent = msg_super::<u32, (u32, u32, u32)>(&mut env, "Child", OBJECT, "foo", (1, 2, 3));
    assert_eq!(called(&sent.sent.step), 0xf00);
    assert_eq!(sent.old_sp, 0x8000);
    assert_eq!(env.cpu.regs[0..4], [OBJECT.0, FOO.0, 1, 2]);
    assert_eq!(env.mem.read_word(0x7ff8), OBJECT.0);
    assert_eq!(env.mem.read_word(0x7ffc), CHILD.0);
    assert_eq!(env.cpu.regs[SP], 0x7ff4);
    assert_eq!(env.mem.read_word(0x7ff4), 3);
    env.cpu.regs[LR] = 0;
    end_dispatch(&mut env);
    finish_super(&mut env, sent.old_sp, sent.sent.frame);
    assert_eq!(env.cpu.regs[SP], 0x8000);
    assert_eq!(env.cpu.regs[LR], 0x4444);
}

#[test]
fn super_calls_carry_the_type_without_super() {
    let mut env = quiet();
    let (type_id, type_desc) = info_of::<(u32, (id, SEL))>();
    let imp = IMP::Host(HostIMP { function: 9, type_id, type_desc });
    assert!(env.objc.define_class(ROOT, class("Root", false, nil(), &[(FOO, imp)])));
    env.mem.write_word(0x7ff8, OBJECT.0);
    env.mem.write_word(0x7ffc, CHILD.0);
    let pointer = ConstPtr { bits: 0x7ff8, pointee: PhantomData };
    let sent = msg_send_super2::<u32, (ConstPtr<objc_super>, SEL)>(&mut env, (pointer, FOO));
    assert_eq!(check_of(&sent.step), TypeCheck::Same);
    let pointer = ConstPtr { bits: 0x7ff8, pointee: PhantomData };
    let sent = msg_send_super2::<Rect, (ConstPtr<objc_super>, SEL)>(&mut env, (pointer, FOO));
    assert!(matches!(check_of(&sent.step), TypeCheck::Different { tolerated: false, .. }));
    // There is no variant for structs: the receiver comes first all the same.
    assert_eq!(env.cpu.regs[0..2], [OBJECT.0, FOO.0]);
    let pointer = ConstPtr { bits: 0x7ff8, pointee: PhantomData };
    let sent = msg_send_super2_typed(&mut env, info_of::<(u32, (id, SEL))>(), pointer, FOO, &vec![]);
    assert_eq!(check_of(&sent.step), TypeCheck::Same);
}

#[test]
fn nil_is_not_sent_what_counts_references() {
    let mut env = quiet();
    fill_registers(&mut env);
    let before = env.cpu.regs;
    assert!(retain(&mut env, nil()).is_none());
    assert!(release(&mut env, nil()).is_none());
    assert!(autorelease(&mut env, nil()).is_none());
    assert_eq!(env.cpu.regs, before);
    assert_eq!(called(&retain(&mut env, OBJECT).unwrap().step), 0xa1);
    assert_eq!(env.cpu.regs[0..2], [OBJECT.0, RETAIN.0]);
    assert_eq!(called(&release(&mut env, OBJECT).unwrap().step), 0xa2);
    assert_eq!(env.cpu.regs[0..2], [OBJECT.0, RELEASE.0]);
    assert_eq!(called(&autorelease(&mut env, OBJECT).unwrap().step), 0xa3);
    assert_eq!(env.cpu.regs[0..2], [OBJECT.0, AUTORELEASE.0]);
}

#[test]
fn no_class_is_its_own_ancestor() {
    let mut env = quiet();
    assert!(!env.objc.define_class(nil(), class("Nil", false, nil(), &[])));
    assert!(!env.objc.define_class(ROOT, class("Root", false, ROOT, &[])));
    assert!(!env.objc.define_class(ROOT, class("Root", false, CHILD, &[])));
    assert!(env.objc.is_above(CHILD, ROOT));
    assert!(!env.objc.is_above(ROOT, CHILD));
    assert_eq!(env.objc.get_class_object(ROOT).unwrap().superclass, nil());
    assert_eq!(env.objc.search(CHILD, FOO, false), ROOT);
    assert_eq!(env.objc.search(CHILD, BAR, false), CHILD);
    assert_eq!(env.objc.search(CHILD, BAR, true), nil());
    assert!(env.objc.class_has_method(CHILD, FOO));
    assert!(!env.objc.class_has_method(ROOT, BAR));
}

#[test]
fn names_belong_to_the_first() {
    let mut env = quiet();
    assert_eq!(env.register_selector("foo".to_string(), SEL(0x777)), FOO);
    assert_eq!(env.objc.lookup_selector("foo"), Some(FOO));
    assert_eq!(env.objc.lookup_selector("fo"), None);
    assert_eq!(FOO.name(&env.mem), b"foo".to_vec());
    assert_eq!(SEL(0x777).name(&env.mem), b"".to_vec());
    env.objc.register_known_class("Child".to_string(), id(0x999));
    assert_eq!(env.objc.lookup_known_class("Child"), Some(CHILD));
    assert_eq!(env.objc.lookup_known_class("Nobody"), None);
}

#[test]
fn objects_are_allocated_with_their_class() {
    let mut env = quiet();
    alloc_object(&mut env, CHILD, id(0x3000), HostObject::Other);
    assert_eq!(env.mem.read_word(0x3000), CHILD.0);
    assert!(matches!(env.objc.get_host_object(id(0x3000)), Some(HostObject::Other)));
    assert_eq!(called(&objc_msgSend(&mut env, id(0x3000), BAR)), 0xba4);
}

#[test]
fn depth_does_not_go_below_zero() {
    let mut env = Environment::new();
    end_dispatch(&mut env);
    assert_eq!(env.counters.dispatch_depth, 0);
}
