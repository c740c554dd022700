//! What a message comes to, from what the receiver, its class and the chain of
//! superclasses are.
use super::paths::{climbs, has_class, has_method, is_search, lemma_search_has_path, lemma_search_path};
use crate::dispatch::{dispatch_outcome, proceed_outcome, Ending, NilIsaReport, PendingDispatch, Step, TypeCheck};
use crate::env::Model;
use crate::initialize::restored;
use crate::mem::{cstr_at, word_at};
use crate::objc::{chain_ends, id, Class, HostObject, Objects, IMP, SEL};
use crate::signature::TypeInfo;
use crate::text::{begins_with, has_at, occurs_in};
use vstd::prelude::*;
use vstd::utf8::{encode_utf8, is_ascii_chars, is_ascii_chars_encode_utf8};

verus! {

/// The class that the lookup starts from: that of a super-call, else the first word of
/// the receiver.
pub open spec fn start_of(before: Model, receiver: id, super2: Option<Class>) -> Class {
    match super2 {
        Some(class) => class,
        None => id(word_at(before.mem, receiver.0)),
    }
}

/// The bytes from a position on are those of a text.
pub open spec fn text_is_at(name: Seq<u8>, text: Seq<char>, at: int) -> bool {
    0 <= at <= name.len() - text.len() && name.subrange(at, at + text.len()) == encode_utf8(text)
}

/// The name of the class begins with the name of a library of advertisements, or that
/// name is somewhere in the name of the selector.
pub open spec fn is_advertisement(before: Model, start: Class, selector: SEL) -> bool {
    ||| before.objects.contains_key(start.0) && (before.objects[start.0] matches HostObject::Class(
        object,
    ) && object.name@.len() >= "AdMarvel"@.len() && object.name@.take("AdMarvel"@.len() as int)
        == "AdMarvel"@)
    ||| exists|at: int| #[trigger] text_is_at(cstr_at(before.mem, selector.0), "AdMarvel"@, at)
}

/// The two registers of an answer are zero, and all other registers are as they were.
pub open spec fn answers_zero(before: Seq<u32>, after: Seq<u32>) -> bool {
    &&& after.len() == before.len()
    &&& after[0] == 0
    &&& after[1] == 0
    &&& forall|i: int| 2 <= i < before.len() ==> #[trigger] after[i] == before[i]
}

/// What comes of holding types against each other: nothing for a method of the guest or a
/// message of unknown type, else whether they are the same.
pub open spec fn check_is(imp: IMP, info: Option<TypeInfo>, tolerate: bool, check: TypeCheck) -> bool {
    match imp {
        IMP::Guest(_) => check is Unchecked,
        IMP::Host(method) => match info {
            None => check is Unchecked,
            Some(sent) => if sent.0 == method.type_id {
                check is Same
            } else {
                check == TypeCheck::Different {
                    sent,
                    expected: (method.type_id, method.type_desc),
                    tolerated: tolerate,
                }
            },
        },
    }
}

/// What a lookup that ends somewhere comes to: the method there, or the reason why there
/// is none.
pub open spec fn reached(
    objects: Objects,
    start: Class,
    end: Class,
    selector: SEL,
    info: Option<TypeInfo>,
    tolerate: bool,
    step: Step,
) -> bool {
    if end.0 == 0 {
        step == Step::Done(Ending::DoesNotRespond { class: start })
    } else if !objects.contains_key(end.0) {
        step == Step::Done(Ending::NoHostObject { class: end })
    } else {
        match objects[end.0] {
            HostObject::Class(object) => step matches Step::Call { imp, check } && imp
                == object.methods@[selector.0] && check_is(imp, info, tolerate, check),
            HostObject::Unimplemented(_) => step == Step::Done(
                Ending::Unimplemented { class: end },
            ),
            HostObject::Fake(_) => step == Step::Done(Ending::Faked { class: end }),
            HostObject::Trivial | HostObject::URLRequest(_) | HostObject::Other => step
                == Step::Done(Ending::UnexpectedHostObject { class: end }),
        }
    }
}

/// The tests for advertisements mean what they say.
proof fn lemma_advertisement(before: Model, start: Class, selector: SEL)
    ensures
        crate::dispatch::is_blocked(before, start, selector) == is_advertisement(
            before,
            start,
            selector,
        ),
{
    reveal_strlit("AdMarvel");
    let text = "AdMarvel"@;
    let name = cstr_at(before.mem, selector.0);
    assert(is_ascii_chars(text));
    is_ascii_chars_encode_utf8(text);
    assert(encode_utf8(text).len() == text.len());
    assert forall|at: int| text_is_at(name, text, at) == #[trigger] has_at(
        name,
        encode_utf8(text),
        at,
    ) by {}
    if occurs_in(name, encode_utf8(text)) {
        let at = choose|at: int| has_at(name, encode_utf8(text), at);
        assert(text_is_at(name, text, at));
    }
    if exists|at: int| #[trigger] text_is_at(name, text, at) {
        let at = choose|at: int| #[trigger] text_is_at(name, text, at);
        assert(has_at(name, encode_utf8(text), at));
    }
    if before.objects.contains_key(start.0) {
        if let HostObject::Class(object) = before.objects[start.0] {
            if object.name@.len() >= text.len() {
                assert(object.name@.subrange(0, text.len() as int) =~= object.name@.take(
                    text.len() as int,
                ));
            }
        }
    }
}

/// A message from within as many as 128 others goes nowhere: it is answered with zero,
/// and nothing else is changed, unless it is `allocWithZone:`, for which an object of
/// the receiver is made.
pub proof fn deep_messages_go_nowhere(
    before: Model,
    receiver: id,
    selector: SEL,
    super2: Option<Class>,
    tolerate: bool,
    after: Model,
    step: Step,
)
    requires
        before.regs.len() == 16,
        before.dispatch_depth >= 128,
        dispatch_outcome(before, receiver, selector, super2, tolerate, after, step),
    ensures
        if cstr_at(before.mem, selector.0) == encode_utf8("allocWithZone:"@) {
            step == Step::Allocate { class: receiver } && after == before
        } else {
            &&& step == Step::Done(Ending::RecursionLimit)
            &&& answers_zero(before.regs, after.regs)
            &&& after == Model { regs: after.regs, ..before }
        },
{
}

/// A message from within fewer others is looked at, whatever it is.
pub proof fn other_messages_are_looked_at(
    before: Model,
    receiver: id,
    selector: SEL,
    super2: Option<Class>,
    tolerate: bool,
    after: Model,
    step: Step,
)
    requires
        before.dispatch_depth < 128,
        before.wf(),
        dispatch_outcome(before, receiver, selector, super2, tolerate, after, step),
    ensures
        step != Step::Done(Ending::RecursionLimit),
        !(step is Allocate),
{
    let start = start_of(before, receiver, super2);
    assert(chain_ends(before.objects, start));
    let path = lemma_search_has_path(before.objects, start, selector, super2 is Some);
    lemma_search_path(before.objects, start, selector, super2 is Some, path);
}

/// A message to `nil` is answered with zero, and nothing else is changed.
pub proof fn messages_to_nil_are_answered_with_zero(
    before: Model,
    selector: SEL,
    super2: Option<Class>,
    tolerate: bool,
    after: Model,
    step: Step,
)
    requires
        before.regs.len() == 16,
        before.dispatch_depth < 128,
        dispatch_outcome(before, id(0), selector, super2, tolerate, after, step),
    ensures
        step == Step::Done(Ending::NilReceiver),
        answers_zero(before.regs, after.regs),
        after == (Model { regs: after.regs, message_type_info: None, ..before }),
{
}

/// A message for advertisements is answered with zero, and nothing else is changed. No
/// other message is answered for this reason.
pub proof fn advertisements_do_not_run(
    before: Model,
    receiver: id,
    selector: SEL,
    super2: Option<Class>,
    tolerate: bool,
    after: Model,
    step: Step,
)
    requires
        before.wf(),
        before.dispatch_depth < 128,
        receiver.0 != 0,
        dispatch_outcome(before, receiver, selector, super2, tolerate, after, step),
    ensures
        is_advertisement(before, start_of(before, receiver, super2), selector) <==> step
            == Step::Done(Ending::AdMarvel),
        step == Step::Done(Ending::AdMarvel) ==> {
            &&& answers_zero(before.regs, after.regs)
            &&& after == Model { regs: after.regs, message_type_info: None, ..before }
        },
{
    let start = start_of(before, receiver, super2);
    lemma_advertisement(before, start, selector);
    assert(chain_ends(before.objects, start));
    let path = lemma_search_has_path(before.objects, start, selector, super2 is Some);
    lemma_search_path(before.objects, start, selector, super2 is Some, path);
}

/// A message to an object without a class is answered with zero and counted. The first
/// eight are reported under their numbers, with the next one the reports end.
pub proof fn messages_without_a_class_are_counted(
    before: Model,
    receiver: id,
    selector: SEL,
    super2: Option<Class>,
    tolerate: bool,
    after: Model,
    step: Step,
)
    requires
        before.regs.len() == 16,
        before.dispatch_depth < 128,
        receiver.0 != 0,
        start_of(before, receiver, super2).0 == 0,
        !is_advertisement(before, start_of(before, receiver, super2), selector),
        dispatch_outcome(before, receiver, selector, super2, tolerate, after, step),
    ensures
        step matches Step::Done(Ending::NilIsa(report)) && {
            &&& before.nil_isa_count < 8 ==> report == NilIsaReport::Log {
                number: (before.nil_isa_count + 1) as usize,
            }
            &&& before.nil_isa_count == 8 ==> report is Suppressing
            &&& before.nil_isa_count > 8 ==> report is Silent
        },
        answers_zero(before.regs, after.regs),
        before.nil_isa_count < usize::MAX ==> after.nil_isa_count == before.nil_isa_count + 1,
        after == (Model {
            regs: after.regs,
            message_type_info: None,
            nil_isa_count: after.nil_isa_count,
            ..before
        }),
{
    lemma_advertisement(before, start_of(before, receiver, super2), selector);
}

/// A message to an object with a class comes to what its lookup leads to: the method of
/// the first class on the way that has one, with the arguments untouched, or zero as the
/// answer where the way ends without one. (A message that has to wait for a
/// `+initialize` comes to it later.)
pub proof fn messages_come_to_the_nearest_method(
    before: Model,
    receiver: id,
    selector: SEL,
    super2: Option<Class>,
    tolerate: bool,
    after: Model,
    step: Step,
    path: Seq<Class>,
)
    requires
        before.wf(),
        before.dispatch_depth < 128,
        receiver.0 != 0,
        start_of(before, receiver, super2).0 != 0,
        !is_advertisement(before, start_of(before, receiver, super2), selector),
        dispatch_outcome(before, receiver, selector, super2, tolerate, after, step),
        is_search(
            before.objects,
            start_of(before, receiver, super2),
            selector,
            super2 is Some,
            path,
        ),
    ensures
        super2 is Some ==> !(step is Initialize) && after.initialized == before.initialized,
        !(step is Initialize) ==> reached(
            before.objects,
            start_of(before, receiver, super2),
            path.last(),
            selector,
            before.message_type_info,
            tolerate,
            step,
        ),
        step is Call ==> after == (Model {
            initialized: after.initialized,
            message_type_info: None,
            dispatch_depth: (before.dispatch_depth + 1) as usize,
            ..before
        }),
        step is Done ==> answers_zero(before.regs, after.regs) && after == (Model {
            regs: after.regs,
            initialized: after.initialized,
            message_type_info: None,
            ..before
        }),
        step matches Step::Initialize(pending) ==> {
            &&& pending.dispatch.receiver == receiver
            &&& pending.dispatch.selector == selector
            &&& pending.dispatch.orig_class == start_of(before, receiver, super2)
            &&& !pending.dispatch.super_call
            &&& pending.dispatch.tolerate_type_mismatch == tolerate
            &&& pending.dispatch.message_type_info == before.message_type_info
            &&& after == Model {
                initialized: after.initialized,
                message_type_info: None,
                dispatch_depth: (before.dispatch_depth + 1) as usize,
                ..before
            }
        },
{
    let start = start_of(before, receiver, super2);
    lemma_advertisement(before, start, selector);
    assert(chain_ends(before.objects, start));
    lemma_search_path(before.objects, start, selector, super2 is Some, path);
}

/// A message that waited comes to what its lookup leads to then, just as one that did not
/// have to wait, and its method finds the arguments in the first four registers again.
pub proof fn waiting_messages_come_to_the_nearest_method(
    resumed: Model,
    pending: PendingDispatch,
    after: Model,
    step: Step,
    path: Seq<Class>,
)
    requires
        resumed.wf(),
        proceed_outcome(
            restored(resumed, pending.initialize.saved_r0_r3@),
            resumed.initialized,
            pending.initialize.rest@,
            pending.dispatch,
            after,
            step,
        ),
        is_search(
            resumed.objects,
            pending.dispatch.orig_class,
            pending.dispatch.selector,
            pending.dispatch.super_call,
            path,
        ),
    ensures
        !(step is Initialize) ==> reached(
            resumed.objects,
            pending.dispatch.orig_class,
            path.last(),
            pending.dispatch.selector,
            pending.dispatch.message_type_info,
            pending.dispatch.tolerate_type_mismatch,
            step,
        ),
        step is Call ==> {
            &&& after.regs.len() == 16
            &&& forall|i: int| 0 <= i < 4 ==> #[trigger] after.regs[i] == pending.initialize.saved_r0_r3@[i]
            &&& forall|i: int| 4 <= i < 16 ==> #[trigger] after.regs[i] == resumed.regs[i]
            &&& after == Model { regs: after.regs, initialized: after.initialized, ..resumed }
        },
        step is Done ==> {
            &&& after.regs[0] == 0
            &&& after.regs[1] == 0
            &&& resumed.dispatch_depth > 0 ==> after.dispatch_depth == resumed.dispatch_depth - 1
            &&& after == Model {
                regs: after.regs,
                initialized: after.initialized,
                dispatch_depth: after.dispatch_depth,
                ..resumed
            }
        },
{
    assert(chain_ends(resumed.objects, pending.dispatch.orig_class));
    lemma_search_path(
        resumed.objects,
        pending.dispatch.orig_class,
        pending.dispatch.selector,
        pending.dispatch.super_call,
        path,
    );
    assert(pending.initialize.saved_r0_r3@.len() == 4);
}

/// A method is inherited from any ancestor: if superclasses lead, through any number of
/// classes without a method for the selector, to one that has one, a message that need
/// not wait runs it. For a super-call the class that it is made from does not count.
pub proof fn methods_are_inherited(
    before: Model,
    receiver: id,
    selector: SEL,
    super2: Option<Class>,
    tolerate: bool,
    after: Model,
    step: Step,
    path: Seq<Class>,
)
    requires
        before.wf(),
        before.dispatch_depth < 128,
        receiver.0 != 0,
        !is_advertisement(before, start_of(before, receiver, super2), selector),
        dispatch_outcome(before, receiver, selector, super2, tolerate, after, step),
        climbs(before.objects, path),
        path[0] == start_of(before, receiver, super2),
        has_method(before.objects, path.last(), selector),
        super2 is Some ==> path.len() > 1,
        forall|i: int|
            (if super2 is Some {
                1int
            } else {
                0int
            }) <= i < path.len() - 1 ==> !has_method(
                before.objects,
                #[trigger] path[i],
                selector,
            ),
    ensures
        step matches Step::Call { imp, .. } && imp
            == before.objects[path.last().0]->Class_0.methods@[selector.0] || step is Initialize,
        super2 is Some ==> step is Call,
{
    assert(has_class(before.objects, path[0]));
    assert(is_search(
        before.objects,
        start_of(before, receiver, super2),
        selector,
        super2 is Some,
        path,
    ));
    messages_come_to_the_nearest_method(
        before,
        receiver,
        selector,
        super2,
        tolerate,
        after,
        step,
        path,
    );
}

/// A message that ends at something that is no class has a reason: superclasses lead to
/// just that, and no class on the way has a method for the selector, but for the class
/// that a super-call is made from.
pub proof fn endings_have_reasons(
    before: Model,
    receiver: id,
    selector: SEL,
    super2: Option<Class>,
    tolerate: bool,
    after: Model,
    step: Step,
)
    requires
        before.wf(),
        before.dispatch_depth < 128,
        receiver.0 != 0,
        start_of(before, receiver, super2).0 != 0,
        !is_advertisement(before, start_of(before, receiver, super2), selector),
        dispatch_outcome(before, receiver, selector, super2, tolerate, after, step),
        step is Done,
    ensures
        exists|path: Seq<Class>|
            {
                &&& #[trigger] is_search(
                    before.objects,
                    start_of(before, receiver, super2),
                    selector,
                    super2 is Some,
                    path,
                )
                &&& !has_class(before.objects, path.last())
                &&& match step->Done_0 {
                    Ending::DoesNotRespond { class } => path.last().0 == 0 && class == path[0],
                    Ending::NoHostObject { class } => class == path.last() && class.0 != 0
                        && !before.objects.contains_key(class.0),
                    Ending::Unimplemented { class } => class == path.last() && class.0 != 0
                        && before.objects.contains_key(class.0)
                        && before.objects[class.0] is Unimplemented,
                    Ending::Faked { class } => class == path.last()
                        && before.objects.contains_key(class.0) && before.objects[class.0] is Fake,
                    Ending::UnexpectedHostObject { class } => class == path.last()
                        && before.objects.contains_key(class.0) && (
                    before.objects[class.0] is Trivial || before.objects[class.0] is URLRequest
                        || before.objects[class.0] is Other),
                    _ => false,
                }
            },
{
    let start = start_of(before, receiver, super2);
    assert(chain_ends(before.objects, start));
    let path = lemma_search_has_path(before.objects, start, selector, super2 is Some);
    messages_come_to_the_nearest_method(
        before,
        receiver,
        selector,
        super2,
        tolerate,
        after,
        step,
        path,
    );
    assert(is_search(before.objects, start, selector, super2 is Some, path));
}

/// From a position on, each element is that of a part.
pub open spec fn agrees_from<T>(whole: Seq<T>, part: Seq<T>, at: int) -> bool {
    &&& 0 <= at <= whole.len() - part.len()
    &&& forall|i: int| 0 <= i < part.len() ==> whole[at + i] == #[trigger] part[i]
}

/// Whether a text is in a name is a matter of each character in turn.
pub proof fn texts_are_found_character_by_character<T>(whole: Seq<T>, part: Seq<T>)
    ensures
        occurs_in(whole, part) <==> exists|at: int| #[trigger] agrees_from(whole, part, at),
        begins_with(whole, part) <==> agrees_from(whole, part, 0),
{
    assert forall|at: int| #[trigger] agrees_from(whole, part, at) == has_at(whole, part, at) by {
        if has_at(whole, part, at) {
            assert forall|i: int| 0 <= i < part.len() implies whole[at + i] == #[trigger] part[i] by {
                assert(whole.subrange(at, at + part.len())[i] == part[i]);
            }
        }
        if agrees_from(whole, part, at) {
            assert(whole.subrange(at, at + part.len()) =~= part);
        }
    }
    if occurs_in(whole, part) {
        let at = choose|at: int| has_at(whole, part, at);
        assert(agrees_from(whole, part, at));
    }
    if exists|at: int| #[trigger] agrees_from(whole, part, at) {
        let at = choose|at: int| #[trigger] agrees_from(whole, part, at);
        assert(has_at(whole, part, at));
    }
    assert(agrees_from(whole, part, 0) == has_at(whole, part, 0));
}

} // verus!
