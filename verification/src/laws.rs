//! What holds of messages as a whole.
use crate::abi::{argument_of, arguments_arrive, host_call, host_call_ended, pushed_sp, Answer, HostFrame};
use crate::args::MAX_REST_WORDS;
use crate::dispatch::{
    class_to_initialize, dispatch_outcome, entered, is_blocked, nil_isa_report, one_less, proceed_outcome,
    resolution, type_check, zeroed, Dispatch, Ending, NilIsaReport, PendingDispatch, Step, TypeCheck,
    NIL_ISA_LOG_LIMIT,
};
use crate::env::{Model, LR, MAX_DISPATCH_DEPTH, SP};
use crate::initialize::{
    climb_height, climb_stops, climb_takes, initialize_outcome, marked_above, next_initialize, restored,
    uninitialized_chain, wants_initialize, InitializeStep, PendingInitialize,
};
use crate::mem::address;
use crate::messages::{message_words, msg_super_outcome, send_outcome, super_pushed, Sent, SentToSuper};
use crate::ns_url_request::NSTimeInterval;
use crate::objc::{
    ancestor, chain_ends, class_object, hierarchy_ends, id, implements, is_class, isa, lemma_ancestor_of_ancestor,
    lemma_no_ancestors, lemma_search_end, lemma_smallest, nil, objc_super, search_end, search_takes, stops_at,
    superclass_of, Class, ConstPtr, HostIMP, Objects, IMP, SEL,
};
use crate::signature::{a_signature_has_one_identity, is_info_of, MsgSendSignature, TypeInfo};
use vstd::prelude::*;

pub mod calls;
pub mod dispatch;
pub mod initialize;
pub mod paths;
pub mod runtime;
pub mod sending;
pub mod signatures;
pub mod words;

verus! {

/// A search for a method ends.
pub(crate) proof fn lemma_search_ends(objects: Objects, start: Class, selector: SEL, super_call: bool) -> (steps: nat)
    requires
        chain_ends(objects, start),
    ensures
        search_takes(objects, start, selector, super_call, steps),
        search_end(objects, start, selector, super_call) == ancestor(objects, start, steps),
{
    let end = choose|steps: nat| !is_class(objects, #[trigger] ancestor(objects, start, steps));
    let stops = |n: nat| stops_at(objects, start, selector, super_call, ancestor(objects, start, n));
    assert(stops(end));
    let steps = lemma_smallest(stops, end);
    assert forall|fewer: nat| fewer < steps implies !stops_at(
        objects,
        start,
        selector,
        super_call,
        #[trigger] ancestor(objects, start, fewer),
    ) by {
        assert(!stops(fewer));
    }
    lemma_search_end(objects, start, selector, super_call, steps);
    steps
}

/// The way up to the classes that need initialization ends.
pub(crate) proof fn lemma_climb_ends(objects: Objects, initialized: Set<u32>, class: Class)
    requires
        chain_ends(objects, class),
    ensures
        climb_takes(objects, initialized, class, climb_height(objects, initialized, class)),
{
    let end = choose|steps: nat| !is_class(objects, #[trigger] ancestor(objects, class, steps));
    let stops = |n: nat| climb_stops(objects, initialized, ancestor(objects, class, n));
    assert(stops(end));
    let steps = lemma_smallest(stops, end);
    assert forall|fewer: nat| fewer < steps implies !climb_stops(
        objects,
        initialized,
        #[trigger] ancestor(objects, class, fewer),
    ) by {
        assert(!stops(fewer));
    }
    assert(climb_takes(objects, initialized, class, steps));
}

/// A method that answers a message is the nearest: no class below the one that it
/// was found in has a method for the selector, but for the class that a super-call
/// is made from.
pub proof fn nearest_method_answers(objects: Objects, dispatch: Dispatch)
    requires
        chain_ends(objects, dispatch.orig_class),
        resolution(objects, dispatch) is Call,
    ensures
        exists|steps: nat|
            {
                let class = #[trigger] ancestor(objects, dispatch.orig_class, steps);
                &&& implements(objects, class, dispatch.selector)
                &&& !(dispatch.super_call && class == dispatch.orig_class)
                &&& resolution(objects, dispatch)->imp == class_object(
                    objects,
                    class,
                )->0.methods@[dispatch.selector.0]
                &&& forall|fewer: nat|
                    fewer < steps ==> {
                        let below = #[trigger] ancestor(objects, dispatch.orig_class, fewer);
                        &&& is_class(objects, below)
                        &&& implements(objects, below, dispatch.selector) ==> dispatch.super_call
                            && below == dispatch.orig_class
                    }
            },
{
    let steps = lemma_search_ends(
        objects,
        dispatch.orig_class,
        dispatch.selector,
        dispatch.super_call,
    );
    let class = ancestor(objects, dispatch.orig_class, steps);
    assert(is_class(objects, class));
}

/// A message is not understood only if every class in the chain was asked: the chain
/// leads to `nil`, and no class in it has a method for the selector, but for the
/// class that a super-call is made from.
pub proof fn not_understood_by_any(objects: Objects, dispatch: Dispatch)
    requires
        chain_ends(objects, dispatch.orig_class),
        resolution(objects, dispatch) matches Step::Done(Ending::DoesNotRespond { .. }),
    ensures
        forall|steps: nat|
            implements(
                objects,
                #[trigger] ancestor(objects, dispatch.orig_class, steps),
                dispatch.selector,
            ) ==> dispatch.super_call && ancestor(objects, dispatch.orig_class, steps)
                == dispatch.orig_class,
{
    let end = lemma_search_ends(
        objects,
        dispatch.orig_class,
        dispatch.selector,
        dispatch.super_call,
    );
    assert forall|steps: nat|
        implements(
            objects,
            #[trigger] ancestor(objects, dispatch.orig_class, steps),
            dispatch.selector,
        ) implies dispatch.super_call && ancestor(objects, dispatch.orig_class, steps)
        == dispatch.orig_class by {
        if steps > end {
            lemma_no_ancestors(objects, dispatch.orig_class, end, steps);
        }
    }
}

/// The type of a message, and whether a difference is tolerated, have no influence
/// on where the message goes.
pub proof fn types_do_not_decide(
    objects: Objects,
    dispatch: Dispatch,
    info: Option<TypeInfo>,
    tolerate: bool,
)
    ensures
        ({
            let other = Dispatch {
                message_type_info: info,
                tolerate_type_mismatch: tolerate,
                ..dispatch
            };
            match resolution(objects, dispatch) {
                Step::Call { imp, .. } => resolution(objects, other) matches Step::Call {
                    imp: same,
                    ..
                } && same == imp,
                step => resolution(objects, other) == step,
            }
        }),
{
}

/// A message that reaches no method is answered with zero, in both registers that
/// an answer may take, and one that does reach a method finds its arguments where
/// they were.
pub proof fn answer_is_zero_or_the_methods(
    before: Model,
    receiver: id,
    selector: SEL,
    super2: Option<Class>,
    tolerate: bool,
    after: Model,
    step: Step,
)
    requires
        before.wf(),
        dispatch_outcome(before, receiver, selector, super2, tolerate, after, step),
    ensures
        step is Done ==> after.regs == zeroed(before.regs) && after.mem == before.mem,
        step is Call ==> after.regs == before.regs && after.mem == before.mem,
{
}

/// Messages are nested no deeper than the limit, and each one that is over leaves the
/// depth as it found it.
pub proof fn depth_is_bounded_and_balanced(
    before: Model,
    receiver: id,
    selector: SEL,
    super2: Option<Class>,
    tolerate: bool,
    after: Model,
    step: Step,
)
    requires
        before.wf(),
        dispatch_outcome(before, receiver, selector, super2, tolerate, after, step),
    ensures
        after.dispatch_depth <= MAX_DISPATCH_DEPTH,
        match step {
            Step::Done(_) | Step::Allocate { .. } => after.dispatch_depth
                == before.dispatch_depth,
            Step::Call { .. } | Step::Initialize(_) => {
                &&& after.dispatch_depth == before.dispatch_depth + 1
                &&& one_less(after.dispatch_depth) == before.dispatch_depth
            },
        },
{
}

/// A dispatch that goes on after `+initialize` is at the depth at which it waited, or
/// is over and one level further out.
pub proof fn depth_is_balanced_after_initialize(
    before: Model,
    pending: PendingDispatch,
    after: Model,
    step: Step,
)
    requires
        before.wf(),
        proceed_outcome(
            restored(before, pending.initialize.saved_r0_r3@),
            before.initialized,
            pending.initialize.rest@,
            pending.dispatch,
            after,
            step,
        ),
    ensures
        match step {
            Step::Done(_) => after.dispatch_depth == one_less(before.dispatch_depth),
            Step::Call { .. } | Step::Initialize(_) => after.dispatch_depth
                == before.dispatch_depth,
            Step::Allocate { .. } => false,
        },
{
}

/// A message to `nil` changes nothing but the answer, which is zero.
pub proof fn nil_answers_zero(
    before: Model,
    selector: SEL,
    super2: Option<Class>,
    tolerate: bool,
    after: Model,
    step: Step,
)
    requires
        before.wf(),
        before.dispatch_depth < MAX_DISPATCH_DEPTH,
        dispatch_outcome(before, nil(), selector, super2, tolerate, after, step),
    ensures
        step == Step::Done(Ending::NilReceiver),
        after == (Model { regs: zeroed(before.regs), message_type_info: None, ..before }),
{
}

/// A message that is kept from running neither runs a method nor initializes a class.
pub proof fn blocked_messages_run_nothing(
    before: Model,
    receiver: id,
    selector: SEL,
    super2: Option<Class>,
    tolerate: bool,
    after: Model,
    step: Step,
)
    requires
        before.wf(),
        dispatch_outcome(before, receiver, selector, super2, tolerate, after, step),
        is_blocked(
            before,
            match super2 {
                Some(class) => class,
                None => isa(before.mem, receiver),
            },
            selector,
        ),
    ensures
        step is Done || step is Allocate,
        after.initialized == before.initialized,
        after.objects == before.objects,
{
}

/// The type of a message is used for that message alone: no later message is held
/// against it. (Messages that are nested too deeply are not looked at at all.)
pub proof fn type_info_is_used_once(
    before: Model,
    receiver: id,
    selector: SEL,
    super2: Option<Class>,
    tolerate: bool,
    after: Model,
    step: Step,
)
    requires
        before.wf(),
        before.dispatch_depth < MAX_DISPATCH_DEPTH,
        dispatch_outcome(before, receiver, selector, super2, tolerate, after, step),
    ensures
        after.message_type_info is None,
{
}

/// A method that was reached through a super-call is never that of the class that the
/// call is made from.
pub proof fn super_call_passes_over_the_class(objects: Objects, dispatch: Dispatch)
    requires
        chain_ends(objects, dispatch.orig_class),
        dispatch.super_call,
        resolution(objects, dispatch) is Call,
    ensures
        search_end(objects, dispatch.orig_class, dispatch.selector, true) != dispatch.orig_class,
{
    lemma_search_ends(objects, dispatch.orig_class, dispatch.selector, true);
}

/// A message to an object without a class is reported at most so many times, and
/// after that, once, that the reports end.
pub proof fn nil_isa_reports_end(count: usize, later: usize)
    requires
        count < later,
    ensures
        nil_isa_report(count) is Log <==> count < NIL_ISA_LOG_LIMIT,
        nil_isa_report(count) matches NilIsaReport::Log { number } ==> 1 <= number
            <= NIL_ISA_LOG_LIMIT && number == count + 1,
        nil_isa_report(count) is Suppressing ==> nil_isa_report(later) is Silent,
        nil_isa_report(count) is Silent ==> nil_isa_report(later) is Silent,
{
}

/// Whatever is initialized, so is what is above it.
pub open spec fn upward_closed(objects: Objects, initialized: Set<u32>) -> bool {
    forall|class: Class|
        #![trigger initialized.contains(class.0)]
        initialized.contains(class.0) && superclass_of(objects, class) != nil()
            ==> initialized.contains(superclass_of(objects, class).0)
}

/// A class and all that is above it is initialized.
pub open spec fn all_initialized_from(objects: Objects, initialized: Set<u32>, class: Class) -> bool {
    forall|steps: nat|
        #![trigger ancestor(objects, class, steps)]
        ancestor(objects, class, steps) != nil() ==> initialized.contains(
            ancestor(objects, class, steps).0,
        )
}

/// What is above a class of a chain is initialized, or is a class of the chain that
/// comes before it when the last class comes first.
pub open spec fn above_comes_first(
    objects: Objects,
    initialized: Set<u32>,
    chain: Seq<Class>,
    number: int,
) -> bool {
    let above = superclass_of(objects, chain[number]);
    ||| above == nil()
    ||| initialized.contains(above.0)
    ||| exists|later: int| number < later < chain.len() && #[trigger] chain[later] == above
}

/// What is above each class of a chain is initialized or comes first.
pub open spec fn linked(objects: Objects, initialized: Set<u32>, chain: Seq<Class>) -> bool {
    forall|i: int|
        0 <= i < chain.len() ==> #[trigger] above_comes_first(objects, initialized, chain, i)
}

/// The classes that need initialization are linked.
pub proof fn uninitialized_classes_are_linked(objects: Objects, initialized: Set<u32>, class: Class)
    requires
        chain_ends(objects, class),
        upward_closed(objects, initialized),
    ensures
        linked(
            objects,
            marked_above(objects, initialized, class),
            uninitialized_chain(objects, initialized, class),
        ),
        upward_closed(objects, marked_above(objects, initialized, class)),
{
    lemma_climb_ends(objects, initialized, class);
    let height = climb_height(objects, initialized, class);
    let chain = uninitialized_chain(objects, initialized, class);
    let marked = marked_above(objects, initialized, class);
    assert forall|i: int| 0 <= i < chain.len() implies #[trigger] above_comes_first(
        objects,
        marked,
        chain,
        i,
    ) by {
        assert(superclass_of(objects, chain[i]) == ancestor(objects, class, (i + 1) as nat));
        if i + 1 < chain.len() {
            assert(chain[i + 1] == ancestor(objects, class, (i + 1) as nat));
        }
    }
}

/// Superclasses are initialized before their subclasses: when a class is sent
/// `+initialize`, everything above it is initialized already, and this stays so for
/// the classes that are still to come.
pub proof fn superclasses_come_first(model: Model, initialized: Set<u32>, chain: Seq<Class>)
    requires
        linked(model.objects, initialized, chain),
        upward_closed(model.objects, initialized),
    ensures
        ({
            let (marked, due) = next_initialize(model, initialized, chain);
            &&& upward_closed(model.objects, marked)
            &&& due matches Some((class, rest)) ==> {
                &&& all_initialized_from(model.objects, marked, class)
                &&& linked(model.objects, marked, rest)
            }
        }),
    decreases chain.len(),
{
    if chain.len() > 0 {
        let class = chain.last();
        let rest = chain.drop_last();
        let next = initialized.insert(class.0);
        if initialized.contains(class.0) {
            assert(next =~= initialized);
        }
        assert(above_comes_first(model.objects, initialized, chain, chain.len() - 1));
        assert(upward_closed(model.objects, next));
        assert forall|i: int| 0 <= i < rest.len() implies #[trigger] above_comes_first(
            model.objects,
            next,
            rest,
            i,
        ) by {
            assert(above_comes_first(model.objects, initialized, chain, i));
            let above = superclass_of(model.objects, chain[i]);
            if above != nil() && !next.contains(above.0) {
                let later = choose|later: int|
                    i < later < chain.len() && #[trigger] chain[later] == above;
                assert(rest[later] == above);
            }
        }
        if initialized.contains(class.0) {
            superclasses_come_first(model, initialized, rest);
        } else if wants_initialize(model, class) {
            lemma_all_initialized(model.objects, next, class);
        } else {
            superclasses_come_first(model, next, rest);
        }
    }
}

/// Everything that is initialized has everything above it initialized too, so all is
/// from a class on that is initialized or `nil`.
proof fn lemma_all_initialized(objects: Objects, initialized: Set<u32>, class: Class)
    requires
        upward_closed(objects, initialized),
        class != nil() ==> initialized.contains(class.0),
    ensures
        all_initialized_from(objects, initialized, class),
{
    assert forall|steps: nat| ancestor(objects, class, steps) != nil() implies initialized.contains(
        (#[trigger] ancestor(objects, class, steps)).0,
    ) by {
        if class == nil() {
            if steps > 0 {
                lemma_no_ancestors(objects, class, 0, steps);
            }
        } else {
            lemma_ancestors_initialized(objects, initialized, class, steps);
        }
    }
}

/// All that is above something initialized is initialized.
proof fn lemma_ancestors_initialized(objects: Objects, initialized: Set<u32>, class: Class, steps: nat)
    requires
        upward_closed(objects, initialized),
        initialized.contains(class.0),
        ancestor(objects, class, steps) != nil(),
    ensures
        initialized.contains(ancestor(objects, class, steps).0),
    decreases steps,
{
    if steps > 0 {
        let below = ancestor(objects, class, (steps - 1) as nat);
        if below == nil() {
            assert(superclass_of(objects, nil()) == nil());
        } else {
            lemma_ancestors_initialized(objects, initialized, class, (steps - 1) as nat);
        }
    }
}

/// Each of the classes was initialized, or does not want to be sent `+initialize`; in
/// the end all of them are marked.
pub open spec fn passed_by(
    model: Model,
    initialized: Set<u32>,
    marked: Set<u32>,
    classes: Seq<Class>,
) -> bool {
    forall|i: int|
        0 <= i < classes.len() ==> {
            &&& initialized.contains((#[trigger] classes[i]).0) || !wants_initialize(
                model,
                classes[i],
            )
            &&& marked.contains(classes[i].0)
        }
}

/// The first class was passed by, and then the others.
proof fn lemma_passed_by_one_more(
    model: Model,
    initialized: Set<u32>,
    next: Set<u32>,
    marked: Set<u32>,
    classes: Seq<Class>,
    first: Class,
)
    requires
        passed_by(model, next, marked, classes),
        initialized.contains(first.0) || !wants_initialize(model, first),
        next == initialized.insert(first.0),
        marked.contains(first.0),
    ensures
        passed_by(model, initialized, marked, classes.push(first)),
{
    assert forall|i: int| 0 <= i < classes.push(first).len() implies initialized.contains(
        (#[trigger] classes.push(first)[i]).0,
    ) || !wants_initialize(model, classes.push(first)[i]) by {
        if i < classes.len() {
            assert(next.contains(classes[i].0) || !wants_initialize(model, classes[i]));
            if classes[i].0 == first.0 {
                assert(classes[i] == first);
            }
        }
    }
    assert forall|i: int| 0 <= i < classes.push(first).len() implies marked.contains(
        (#[trigger] classes.push(first)[i]).0,
    ) by {
        if i < classes.len() {
            assert(marked.contains(classes[i].0));
        }
    }
}

/// A class is sent `+initialize` only if it was not initialized, and it is marked as
/// initialized before the message is sent. It is the last class of the chain that was
/// not passed by: a class that is passed by either was initialized or does not want
/// the message, and is initialized then. Nothing is ever unmarked, the classes still
/// to come get fewer, and once none is left all of them are initialized.
pub proof fn classes_are_marked_before_the_message(model: Model, initialized: Set<u32>, chain: Seq<Class>)
    ensures
        ({
            let (marked, due) = next_initialize(model, initialized, chain);
            &&& initialized.subset_of(marked)
            &&& match due {
                Some((class, rest)) => {
                    &&& !initialized.contains(class.0)
                    &&& marked.contains(class.0)
                    &&& wants_initialize(model, class)
                    &&& rest.len() < chain.len()
                    &&& rest == chain.take(rest.len() as int)
                    &&& class == chain[rest.len() as int]
                    &&& passed_by(model, initialized, marked, chain.skip(rest.len() as int + 1))
                },
                None => passed_by(model, initialized, marked, chain),
            }
        }),
    decreases chain.len(),
{
    if chain.len() > 0 {
        let class = chain.last();
        let rest = chain.drop_last();
        assert(chain[chain.len() - 1] == class);
        let next = initialized.insert(class.0);
        if initialized.contains(class.0) {
            assert(next =~= initialized);
        }
        assert(rest =~= chain.take(rest.len() as int));
        if initialized.contains(class.0) || !wants_initialize(model, class) {
            classes_are_marked_before_the_message(model, next, rest);
            let (marked, due) = next_initialize(model, next, rest);
            match due {
                Some((sent_to, left)) => {
                    assert(left =~= chain.take(left.len() as int));
                    let below = rest.skip(left.len() as int + 1);
                    assert(chain.skip(left.len() as int + 1) =~= below.push(class));
                    lemma_passed_by_one_more(model, initialized, next, marked, below, class);
                },
                None => {
                    assert(chain =~= rest.push(class));
                    lemma_passed_by_one_more(model, initialized, next, marked, rest, class);
                },
            }
        }
    }
}

/// No class is sent `+initialize` twice: after one was, whatever else was marked in
/// the meantime, the next to be sent the message is another.
pub proof fn no_class_is_initialized_twice(
    first: Model,
    first_initialized: Set<u32>,
    first_chain: Seq<Class>,
    second: Model,
    second_initialized: Set<u32>,
    second_chain: Seq<Class>,
)
    requires
        next_initialize(first, first_initialized, first_chain).0.subset_of(second_initialized),
    ensures
        match (
            next_initialize(first, first_initialized, first_chain).1,
            next_initialize(second, second_initialized, second_chain).1,
        ) {
            (Some((one, _)), Some((other, _))) => one != other,
            _ => true,
        },
{
    classes_are_marked_before_the_message(first, first_initialized, first_chain);
    classes_are_marked_before_the_message(second, second_initialized, second_chain);
}

/// A class that is initialized needs nothing more, and nothing is changed for it.
/// Messages that it is sent from within its own `+initialize` therefore do not start
/// over.
pub proof fn initialized_classes_are_left_alone(model: Model, class: Class)
    requires
        hierarchy_ends(model.objects),
        model.initialized.contains(class.0),
    ensures
        uninitialized_chain(model.objects, model.initialized, class).len() == 0,
        marked_above(model.objects, model.initialized, class) == model.initialized,
        next_initialize(
            model,
            marked_above(model.objects, model.initialized, class),
            uninitialized_chain(model.objects, model.initialized, class),
        ) == (model.initialized, None::<(Class, Seq<Class>)>),
{
    assert(chain_ends(model.objects, class));
    lemma_climb_ends(model.objects, model.initialized, class);
    let height = climb_height(model.objects, model.initialized, class);
    if height > 0 {
        assert(!climb_stops(model.objects, model.initialized, ancestor(model.objects, class, 0)));
    }
    assert(model.initialized.insert(class.0) =~= model.initialized);
}

/// The beginning of the initialization of a class, in an environment with the objects
/// of `before`.
proof fn lemma_initialization_begins(before: Model, model: Model, class: Class)
    requires
        chain_ends(before.objects, class),
        model.objects == before.objects,
    ensures
        ({
            let chain = uninitialized_chain(before.objects, before.initialized, class);
            let (marked, due) = next_initialize(
                model,
                marked_above(before.objects, before.initialized, class),
                chain,
            );
            &&& before.initialized.subset_of(marked)
            &&& upward_closed(before.objects, before.initialized) ==> upward_closed(
                before.objects,
                marked,
            )
            &&& match due {
                None => upward_closed(before.objects, before.initialized)
                    ==> all_initialized_from(before.objects, marked, class),
                Some((first, rest)) => {
                    &&& !before.initialized.contains(first.0)
                    &&& wants_initialize(model, first)
                    &&& marked.contains(first.0)
                    &&& rest.push(first)[0] == class
                    &&& upward_closed(before.objects, before.initialized) ==> {
                        &&& all_initialized_from(before.objects, marked, first)
                        &&& linked(before.objects, marked, rest)
                    }
                },
            }
        }),
{
    let above = marked_above(before.objects, before.initialized, class);
    let chain = uninitialized_chain(before.objects, before.initialized, class);
    let (marked, due) = next_initialize(model, above, chain);
    lemma_climb_ends(before.objects, before.initialized, class);
    classes_are_marked_before_the_message(model, above, chain);
    if chain.len() > 0 {
        assert(chain[0] == class);
    }
    if upward_closed(before.objects, before.initialized) {
        uninitialized_classes_are_linked(before.objects, before.initialized, class);
        superclasses_come_first(model, above, chain);
        if due is None {
            lemma_all_initialized(before.objects, marked, class);
        }
    }
}

/// A class and all that is above it are initialized when a message that is no
/// super-call reaches a method at once.
pub proof fn methods_run_on_initialized_classes(
    before: Model,
    receiver: id,
    selector: SEL,
    tolerate: bool,
    after: Model,
    step: Step,
)
    requires
        before.wf(),
        upward_closed(before.objects, before.initialized),
        dispatch_outcome(before, receiver, selector, None, tolerate, after, step),
        step is Call,
    ensures
        upward_closed(after.objects, after.initialized),
        all_initialized_from(
            before.objects,
            after.initialized,
            class_to_initialize(before.objects, receiver, isa(before.mem, receiver)),
        ),
{
    let class = class_to_initialize(before.objects, receiver, isa(before.mem, receiver));
    assert(chain_ends(before.objects, class));
    lemma_initialization_begins(before, entered(before), class);
}

/// `+initialize` takes nothing from the message that it was sent for: whatever it does
/// to the registers, the method of the message finds its first four arguments again,
/// be it at once or after further `+initialize`s.
pub proof fn arguments_survive_initialize(
    before: Model,
    receiver: id,
    selector: SEL,
    super2: Option<Class>,
    tolerate: bool,
    waiting: Model,
    pending: PendingDispatch,
    resumed: Model,
    after: Model,
    step: Step,
)
    requires
        before.wf(),
        resumed.wf(),
        dispatch_outcome(
            before,
            receiver,
            selector,
            super2,
            tolerate,
            waiting,
            Step::Initialize(pending),
        ),
        proceed_outcome(
            restored(resumed, pending.initialize.saved_r0_r3@),
            resumed.initialized,
            pending.initialize.rest@,
            pending.dispatch,
            after,
            step,
        ),
    ensures
        step is Call ==> after.regs.take(4) == before.regs.take(4),
        step matches Step::Initialize(next) ==> next.initialize.saved_r0_r3@
            == before.regs.take(4),
        pending.dispatch.receiver == receiver,
        pending.dispatch.selector == selector,
        pending.dispatch.message_type_info == before.message_type_info,
{
    let saved = pending.initialize.saved_r0_r3@;
    assert(saved == before.regs.take(4));
    assert(restored(resumed, saved).regs.take(4) =~= saved);
}

/// What is marked as initialized stays so, whatever a message leads to. Where all was
/// marked that is above something marked, it still is.
pub proof fn marks_stay(
    before: Model,
    receiver: id,
    selector: SEL,
    super2: Option<Class>,
    tolerate: bool,
    after: Model,
    step: Step,
)
    requires
        before.wf(),
        dispatch_outcome(before, receiver, selector, super2, tolerate, after, step),
    ensures
        before.initialized.subset_of(after.initialized),
        upward_closed(before.objects, before.initialized) ==> upward_closed(
            after.objects,
            after.initialized,
        ),
{
    let class = class_to_initialize(before.objects, receiver, isa(before.mem, receiver));
    assert(chain_ends(before.objects, class));
    lemma_initialization_begins(before, entered(before), class);
}

/// The class that a waiting dispatch initializes in the end: the lowest of those that
/// are sent `+initialize` now or later.
pub open spec fn initializes(pending: PendingDispatch, class: Class) -> bool {
    pending.initialize.rest@.push(pending.initialize.class)[0] == class
}

/// A message that makes a class wait for `+initialize` has found a class that was not
/// initialized, and above which all is. The class is marked by then, and so is all
/// that is above it; the classes that still wait come right below it.
pub proof fn first_initialize_goes_to_the_top(
    before: Model,
    receiver: id,
    selector: SEL,
    tolerate: bool,
    after: Model,
    pending: PendingDispatch,
)
    requires
        before.wf(),
        upward_closed(before.objects, before.initialized),
        dispatch_outcome(
            before,
            receiver,
            selector,
            None,
            tolerate,
            after,
            Step::Initialize(pending),
        ),
    ensures
        !before.initialized.contains(pending.initialize.class.0),
        wants_initialize(before, pending.initialize.class),
        upward_closed(after.objects, after.initialized),
        all_initialized_from(after.objects, after.initialized, pending.initialize.class),
        after.initialized.contains(pending.initialize.class.0),
        initializes(
            pending,
            class_to_initialize(before.objects, receiver, isa(before.mem, receiver)),
        ),
        linked(after.objects, after.initialized, pending.initialize.rest@),
{
    let class = class_to_initialize(before.objects, receiver, isa(before.mem, receiver));
    assert(chain_ends(before.objects, class));
    lemma_initialization_begins(before, entered(before), class);
}

/// Nothing that matters to the classes that wait was done while a `+initialize` ran:
/// nothing was unmarked, all is marked that is above something marked, and a class that
/// waits has the superclass that it had, or one that is initialized.
pub open spec fn undisturbed(waited: Model, resumed: Model, waiting: Seq<Class>) -> bool {
    &&& waited.initialized.subset_of(resumed.initialized)
    &&& upward_closed(resumed.objects, resumed.initialized)
    &&& forall|i: int|
        0 <= i < waiting.len() ==> {
            let above = superclass_of(resumed.objects, #[trigger] waiting[i]);
            ||| above == superclass_of(waited.objects, waiting[i])
            ||| above == nil()
            ||| resumed.initialized.contains(above.0)
        }
}

/// Classes that wait are still linked after a `+initialize` that did not disturb them.
proof fn lemma_still_linked(waited: Model, resumed: Model, chain: Seq<Class>)
    requires
        linked(waited.objects, waited.initialized, chain),
        undisturbed(waited, resumed, chain),
    ensures
        linked(resumed.objects, resumed.initialized, chain),
{
    assert forall|i: int| 0 <= i < chain.len() implies #[trigger] above_comes_first(
        resumed.objects,
        resumed.initialized,
        chain,
        i,
    ) by {
        assert(above_comes_first(waited.objects, waited.initialized, chain, i));
        let above = superclass_of(resumed.objects, chain[i]);
        if above != nil() && !resumed.initialized.contains(above.0) {
            let later = choose|later: int|
                i < later < chain.len() && #[trigger] chain[later] == above;
            assert(chain[later] == above);
        }
    }
}

/// The same holds of every further `+initialize`, as long as the one before did not
/// disturb the classes that wait.
pub proof fn further_initializes_go_down(
    waited: Model,
    resumed: Model,
    pending: PendingDispatch,
    class: Class,
    after: Model,
    next: PendingDispatch,
)
    requires
        resumed.wf(),
        initializes(pending, class),
        linked(waited.objects, waited.initialized, pending.initialize.rest@),
        undisturbed(waited, resumed, pending.initialize.rest@),
        proceed_outcome(
            restored(resumed, pending.initialize.saved_r0_r3@),
            resumed.initialized,
            pending.initialize.rest@,
            pending.dispatch,
            after,
            Step::Initialize(next),
        ),
    ensures
        !resumed.initialized.contains(next.initialize.class.0),
        next.initialize.rest@.len() < pending.initialize.rest@.len(),
        upward_closed(after.objects, after.initialized),
        all_initialized_from(after.objects, after.initialized, next.initialize.class),
        after.initialized.contains(next.initialize.class.0),
        initializes(next, class),
        linked(after.objects, after.initialized, next.initialize.rest@),
{
    let model = restored(resumed, pending.initialize.saved_r0_r3@);
    let chain = pending.initialize.rest@;
    lemma_still_linked(waited, resumed, chain);
    superclasses_come_first(model, resumed.initialized, chain);
    classes_are_marked_before_the_message(model, resumed.initialized, chain);
}

/// A class and all that is above it are initialized, too, when a message reaches a
/// method that had to wait for `+initialize`, as long as that did not disturb the
/// classes that wait.
pub proof fn methods_run_on_initialized_classes_after_waiting(
    waited: Model,
    resumed: Model,
    pending: PendingDispatch,
    class: Class,
    after: Model,
    step: Step,
)
    requires
        resumed.wf(),
        initializes(pending, class),
        waited.initialized.contains(pending.initialize.class.0),
        linked(waited.objects, waited.initialized, pending.initialize.rest@),
        undisturbed(waited, resumed, pending.initialize.rest@),
        proceed_outcome(
            restored(resumed, pending.initialize.saved_r0_r3@),
            resumed.initialized,
            pending.initialize.rest@,
            pending.dispatch,
            after,
            step,
        ),
        step is Call,
    ensures
        upward_closed(after.objects, after.initialized),
        all_initialized_from(after.objects, after.initialized, class),
{
    let model = restored(resumed, pending.initialize.saved_r0_r3@);
    let chain = pending.initialize.rest@;
    lemma_still_linked(waited, resumed, chain);
    superclasses_come_first(model, resumed.initialized, chain);
    classes_are_marked_before_the_message(model, resumed.initialized, chain);
    if chain.len() > 0 {
        assert(chain[0] == class);
    }
    lemma_all_initialized(after.objects, after.initialized, class);
}

/// The initialization of a class from the beginning to the end, round by round. Each
/// round but the last ends with a `+initialize` that is to be sent.
pub struct InitializeRun {
    /// The environment in which each round begins.
    pub begins: Seq<Model>,
    /// The environment in which each round ends.
    pub ends: Seq<Model>,
    /// What each round but the last waits for.
    pub waits: Seq<PendingInitialize>,
}

impl InitializeRun {
    /// What a round comes to.
    pub open spec fn step(self, round: int) -> InitializeStep {
        if round < self.waits.len() {
            InitializeStep::Send(self.waits[round])
        } else {
            InitializeStep::Initialized
        }
    }

    /// The rounds are those of the initialization of a class.
    pub open spec fn is_of(self, class: Class) -> bool {
        &&& self.begins.len() == self.waits.len() + 1
        &&& self.ends.len() == self.waits.len() + 1
        &&& initialize_outcome(
            self.begins[0],
            marked_above(self.begins[0].objects, self.begins[0].initialized, class),
            uninitialized_chain(self.begins[0].objects, self.begins[0].initialized, class),
            self.ends[0],
            self.step(0),
        )
        &&& forall|round: int|
            0 < round < self.begins.len() ==> initialize_outcome(
                restored(
                    #[trigger] self.begins[round],
                    self.waits[round - 1].saved_r0_r3@,
                ),
                self.begins[round].initialized,
                self.waits[round - 1].rest@,
                self.ends[round],
                self.step(round),
            )
    }

    /// Nothing is unmarked while a `+initialize` runs.
    pub open spec fn keeps_marks(self) -> bool {
        forall|round: int|
            0 < round < self.begins.len() ==> self.ends[round - 1].initialized.subset_of(
                (#[trigger] self.begins[round]).initialized,
            )
    }

    /// No `+initialize` disturbs the classes that wait.
    pub open spec fn is_undisturbed(self) -> bool {
        forall|round: int|
            0 < round < self.begins.len() ==> undisturbed(
                self.ends[round - 1],
                #[trigger] self.begins[round],
                self.waits[round - 1].rest@,
            )
    }
}

/// What holds after a round: all that was marked is, and all classes that needed
/// initialization are but for those that still wait.
proof fn lemma_rounds_mark(run: InitializeRun, class: Class, round: int)
    requires
        run.is_of(class),
        run.keeps_marks(),
        0 <= round < run.ends.len(),
    ensures
        ({
            let start = run.begins[0];
            let above = marked_above(start.objects, start.initialized, class);
            let chain = uninitialized_chain(start.objects, start.initialized, class);
            let left: int = if round < run.waits.len() {
                run.waits[round].rest@.len() as int
            } else {
                0
            };
            &&& above.subset_of(run.ends[round].initialized)
            &&& left <= chain.len()
            &&& round < run.waits.len() ==> run.waits[round].rest@ == chain.take(left)
            &&& forall|i: int|
                left <= i < chain.len() ==> run.ends[round].initialized.contains(
                    (#[trigger] chain[i]).0,
                )
        }),
    decreases round,
{
    let start = run.begins[0];
    let above = marked_above(start.objects, start.initialized, class);
    let chain = uninitialized_chain(start.objects, start.initialized, class);
    let (model, initialized, waiting) = if round == 0 {
        (start, above, chain)
    } else {
        lemma_rounds_mark(run, class, round - 1);
        (
            restored(run.begins[round], run.waits[round - 1].saved_r0_r3@),
            run.begins[round].initialized,
            run.waits[round - 1].rest@,
        )
    };
    assert(waiting =~= chain.take(waiting.len() as int));
    classes_are_marked_before_the_message(model, initialized, waiting);
    let (marked, due) = next_initialize(model, initialized, waiting);
    assert(run.ends[round].initialized == marked);
    let left: int = match due {
        Some((_, rest)) => rest.len() as int,
        None => 0,
    };
    if due is Some {
        assert(waiting.take(left) =~= chain.take(left));
    }
    assert forall|i: int| left <= i < chain.len() implies marked.contains((#[trigger] chain[i]).0) by {
        if i >= waiting.len() {
            assert(run.ends[round - 1].initialized.contains(chain[i].0));
            assert(initialized.contains(chain[i].0));
        } else {
            assert(waiting[i] == chain[i]);
            match due {
                Some((first, rest)) => {
                    if i > left {
                        assert(waiting.skip(left + 1)[i - left - 1] == waiting[i]);
                    }
                },
                None => {},
            }
        }
    }
}

/// When a class is initialized, however many `+initialize`s were sent for it, all that
/// was initialized still is, and so are the class and all that was above it when the
/// initialization began. Whatever else was done in the meantime makes no difference, as
/// long as nothing was unmarked.
pub proof fn initialization_marks_the_whole_chain(run: InitializeRun, class: Class)
    requires
        run.is_of(class),
        run.keeps_marks(),
        hierarchy_ends(run.begins[0].objects),
        upward_closed(run.begins[0].objects, run.begins[0].initialized),
    ensures
        run.begins[0].initialized.subset_of(run.ends.last().initialized),
        all_initialized_from(run.begins[0].objects, run.ends.last().initialized, class),
{
    let start = run.begins[0];
    let objects = start.objects;
    let above = marked_above(objects, start.initialized, class);
    let chain = uninitialized_chain(objects, start.initialized, class);
    let end = run.ends.last().initialized;
    lemma_rounds_mark(run, class, run.ends.len() - 1);
    assert(chain_ends(objects, class));
    lemma_climb_ends(objects, start.initialized, class);
    uninitialized_classes_are_linked(objects, start.initialized, class);
    let height = climb_height(objects, start.initialized, class);
    let top = ancestor(objects, class, height);
    lemma_all_initialized(objects, above, top);
    assert forall|steps: nat| ancestor(objects, class, steps) != nil() implies end.contains(
        (#[trigger] ancestor(objects, class, steps)).0,
    ) by {
        if steps < height {
            assert(chain[steps as int] == ancestor(objects, class, steps));
        } else {
            lemma_ancestor_of_ancestor(objects, class, height, (steps - height) as nat);
            assert(ancestor(objects, top, (steps - height) as nat) == ancestor(
                objects,
                class,
                steps,
            ));
            assert(above.contains(ancestor(objects, class, steps).0));
        }
    }
}

/// Whenever a `+initialize` is to be sent, and when the class is initialized, all is
/// marked that is above something marked, as long as no `+initialize` disturbs the
/// classes that wait; and those that wait are linked.
proof fn lemma_rounds_close(run: InitializeRun, class: Class, round: int)
    requires
        run.is_of(class),
        run.is_undisturbed(),
        hierarchy_ends(run.begins[0].objects),
        upward_closed(run.begins[0].objects, run.begins[0].initialized),
        0 <= round < run.ends.len(),
    ensures
        upward_closed(run.ends[round].objects, run.ends[round].initialized),
        round < run.waits.len() ==> {
            &&& linked(
                run.ends[round].objects,
                run.ends[round].initialized,
                run.waits[round].rest@,
            )
            &&& all_initialized_from(
                run.ends[round].objects,
                run.ends[round].initialized,
                run.waits[round].class,
            )
        },
    decreases round,
{
    if round == 0 {
        let start = run.begins[0];
        assert(chain_ends(start.objects, class));
        lemma_initialization_begins(start, start, class);
    } else {
        lemma_rounds_close(run, class, round - 1);
        let waiting = run.waits[round - 1].rest@;
        lemma_still_linked(run.ends[round - 1], run.begins[round], waiting);
        superclasses_come_first(
            restored(run.begins[round], run.waits[round - 1].saved_r0_r3@),
            run.begins[round].initialized,
            waiting,
        );
    }
}

/// At every moment at which a `+initialize` is sent in the initialization of a class, and
/// at its end, all that is above something initialized is initialized, as long as no
/// `+initialize` disturbs the classes that wait; in particular all that is above the
/// class that the message is sent to, and that class itself.
pub proof fn initialization_closes_upward(run: InitializeRun, class: Class, round: int)
    requires
        run.is_of(class),
        run.is_undisturbed(),
        hierarchy_ends(run.begins[0].objects),
        upward_closed(run.begins[0].objects, run.begins[0].initialized),
        0 <= round < run.ends.len(),
    ensures
        upward_closed(run.ends[round].objects, run.ends[round].initialized),
        round < run.waits.len() ==> all_initialized_from(
            run.ends[round].objects,
            run.ends[round].initialized,
            run.waits[round].class,
        ),
{
    lemma_rounds_close(run, class, round);
}

/// A method finds the receiver and the selector where it expects them, whoever sent
/// the message: first, or behind the pointer to the struct that it returns.
pub proof fn methods_find_receiver_and_selector(
    before: Model,
    info: Option<TypeInfo>,
    struct_size: Option<u32>,
    receiver: id,
    selector: SEL,
    rest: Seq<u32>,
    tolerate: bool,
    after: Model,
    sent: Sent,
)
    requires
        before.wf(),
        send_outcome(before, info, struct_size, receiver, selector, rest, tolerate, after, sent),
        sent.step is Call,
    ensures
        match struct_size {
            None => after.regs[0] == receiver.0 && after.regs[1] == selector.0,
            Some(size) => {
                &&& after.regs[0] == address(before.regs[SP as int], -size)
                &&& after.regs[1] == receiver.0
                &&& after.regs[2] == selector.0
            },
        },
{
    let model = Model { message_type_info: info, ..before };
    let words = message_words(receiver.0, selector, rest);
    let called = host_call(model, struct_size, words);
    answer_is_zero_or_the_methods(called, receiver, selector, None, tolerate, after, sent.step);
}

/// A method reads the arguments that the sender passed.
pub proof fn methods_read_what_was_passed(
    before: Model,
    info: Option<TypeInfo>,
    receiver: id,
    selector: SEL,
    rest: Seq<u32>,
    tolerate: bool,
    after: Model,
    sent: Sent,
    number: int,
)
    requires
        before.wf(),
        send_outcome(before, info, None, receiver, selector, rest, tolerate, after, sent),
        sent.step is Call,
        rest.len() <= MAX_REST_WORDS,
        0 <= number < rest.len(),
    ensures
        argument_of(after, number) == rest[number],
{
    let model = Model { message_type_info: info, ..before };
    let words = message_words(receiver.0, selector, rest);
    let called = host_call(model, None, words);
    answer_is_zero_or_the_methods(called, receiver, selector, None, tolerate, after, sent.step);
    arguments_arrive(model, None, words, number + 2);
    assert(words[number + 2] == rest[number]);
}

/// A message that reaches no method is answered with what is zero, `nil` or false,
/// whatever kind of answer is expected in the registers.
pub proof fn endings_read_as_zero(
    before: Model,
    receiver: id,
    selector: SEL,
    super2: Option<Class>,
    tolerate: bool,
    after: Model,
    step: Step,
    frame: HostFrame,
)
    requires
        before.wf(),
        dispatch_outcome(before, receiver, selector, super2, tolerate, after, step),
        step is Done,
    ensures
        ({
            let regs = host_call_ended(after, frame).regs;
            &&& u32::of_regs(regs) == 0
            &&& u64::of_regs(regs) == 0
            &&& bool::of_regs(regs) == false
            &&& id::of_regs(regs) == nil()
            &&& SEL::of_regs(regs) == SEL(0)
            &&& ConstPtr::<objc_super>::of_regs(regs).bits == 0
            &&& NSTimeInterval::of_regs(regs) == NSTimeInterval(0)
        }),
{
    answer_is_zero_or_the_methods(before, receiver, selector, super2, tolerate, after, step);
}

/// A super-call finds its method above the class that it is made from, and hands it
/// the object that the call was made for.
pub proof fn super_calls_keep_the_receiver(
    before: Model,
    info: TypeInfo,
    class: Class,
    receiver: id,
    selector: SEL,
    rest: Seq<u32>,
    after: Model,
    sent: SentToSuper,
)
    requires
        before.wf(),
        msg_super_outcome(before, info, class, receiver, selector, rest, after, sent),
        sent.sent.step is Call,
    ensures
        after.regs[0] == receiver.0,
        after.regs[1] == selector.0,
        search_end(before.objects, class, selector, true) != class,
{
    let pushed = super_pushed(before, receiver, class);
    let called = host_call(
        Model { message_type_info: Some(info), ..pushed },
        None,
        message_words(pushed.regs[SP as int], selector, rest),
    );
    let rewritten = Model { regs: called.regs.update(0, receiver.0), ..called };
    answer_is_zero_or_the_methods(
        rewritten,
        receiver,
        selector,
        Some(class),
        false,
        after,
        sent.sent.step,
    );
    assert(chain_ends(before.objects, class));
    let dispatch = Dispatch {
        receiver,
        selector,
        orig_class: class,
        super_call: true,
        tolerate_type_mismatch: false,
        message_type_info: Some(info),
    };
    super_call_passes_over_the_class(before.objects, dispatch);
}

/// Whatever the method does, a super-call leaves the guest's stack pointer and link
/// register as they were.
pub proof fn super_calls_leave_the_stack(
    before: Model,
    info: TypeInfo,
    class: Class,
    receiver: id,
    selector: SEL,
    rest: Seq<u32>,
    after: Model,
    sent: SentToSuper,
    meanwhile: Model,
)
    requires
        before.wf(),
        msg_super_outcome(before, info, class, receiver, selector, rest, after, sent),
        meanwhile.regs.len() == 16,
    ensures
        ({
            let ended = host_call_ended(
                meanwhile,
                HostFrame { sp: sent.old_sp, lr: sent.sent.frame.lr },
            );
            &&& ended.regs[SP as int] == before.regs[SP as int]
            &&& ended.regs[LR as int] == before.regs[LR as int]
        }),
{
}

/// A message of the signature that a method of the host was declared with is found to
/// have the type that the method expects.
pub proof fn matching_signatures_pass<S: MsgSendSignature>(
    method: HostIMP,
    declared: TypeInfo,
    sent: TypeInfo,
    tolerate: bool,
)
    requires
        is_info_of::<S>(declared),
        method.type_id == declared.0,
        is_info_of::<S>(sent),
    ensures
        type_check(IMP::Host(method), Some(sent), tolerate) == TypeCheck::Same,
{
    a_signature_has_one_identity::<S>(declared, sent);
}

/// A faked class answers its messages as `nil` does.
pub proof fn faked_classes_behave_like_nil(
    before: Model,
    receiver: id,
    selector: SEL,
    tolerate: bool,
    after: Model,
    step: Step,
    nil_after: Model,
    nil_step: Step,
)
    requires
        before.wf(),
        before.dispatch_depth < MAX_DISPATCH_DEPTH,
        receiver != nil(),
        isa(before.mem, receiver) != nil(),
        before.objects.contains_key(isa(before.mem, receiver).0),
        before.objects[isa(before.mem, receiver).0] is Fake,
        !is_blocked(before, isa(before.mem, receiver), selector),
        dispatch_outcome(before, receiver, selector, None, tolerate, after, step),
        dispatch_outcome(before, nil(), selector, None, tolerate, nil_after, nil_step),
    ensures
        step == Step::Done(Ending::Faked { class: isa(before.mem, receiver) }),
        after == nil_after,
{
    let class = isa(before.mem, receiver);
    let steps = lemma_search_ends(before.objects, class, selector, false);
    if steps > 0 {
        assert(!stops_at(before.objects, class, selector, false, ancestor(before.objects, class, 0)));
    }
    lemma_climb_ends(before.objects, before.initialized, nil());
    let height = climb_height(before.objects, before.initialized, nil());
    if height > 0 {
        assert(!climb_stops(before.objects, before.initialized, ancestor(before.objects, nil(), 0)));
    }
    assert(uninitialized_chain(before.objects, before.initialized, nil()) =~= Seq::empty());
    assert(after =~= nil_after);
}

/// A dispatch by itself changes neither the memory of the guest nor what the runtime
/// knows of objects, selectors and classes; of the registers, it changes none but the
/// two of the answer.
pub proof fn dispatch_changes_little(
    before: Model,
    receiver: id,
    selector: SEL,
    super2: Option<Class>,
    tolerate: bool,
    after: Model,
    step: Step,
)
    requires
        before.wf(),
        dispatch_outcome(before, receiver, selector, super2, tolerate, after, step),
    ensures
        after == (Model {
            regs: after.regs,
            initialized: after.initialized,
            message_type_info: after.message_type_info,
            dispatch_depth: after.dispatch_depth,
            nil_isa_count: after.nil_isa_count,
            ..before
        }),
        after.regs.skip(2) == before.regs.skip(2),
{
    assert(zeroed(before.regs).skip(2) =~= before.regs.skip(2));
}

/// `+initialize` has no arguments of its own on the stack: the arguments that the
/// message it is sent for has there, and the registers beyond the first four, are as
/// they were when its method is reached.
pub proof fn initialize_touches_no_stack(
    before: Model,
    info: Option<TypeInfo>,
    class: Class,
    selector: SEL,
    tolerate: bool,
    after: Model,
    sent: Sent,
)
    requires
        before.wf(),
        send_outcome(before, info, None, class, selector, Seq::empty(), tolerate, after, sent),
    ensures
        after.mem == before.mem,
        after.regs.skip(4) == before.regs.skip(4),
{
    let words = message_words(class.0, selector, Seq::empty());
    let called = host_call(Model { message_type_info: info, ..before }, None, words);
    dispatch_changes_little(called, class, selector, None, tolerate, after, sent.step);
    assert(pushed_sp(before.regs[SP as int], None, words) == before.regs[SP as int]) by {
        reveal(address);
    }
    assert forall|i: int| 4 <= i < 16 implies after.regs[i] == before.regs[i] by {
        assert(after.regs.skip(2)[i - 2] == called.regs.skip(2)[i - 2]);
    }
    assert(after.regs.skip(4) =~= before.regs.skip(4));
}

} // verus!
