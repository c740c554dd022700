//! Which class is sent `+initialize` for a message, and which classes count as
//! initialized then, from the chain of superclasses and the chains of metaclasses.
use super::dispatch::{is_advertisement, start_of};
use super::lemma_climb_ends;
use super::paths::{
    climbs, has_class, lemma_path_of_ancestors, lemma_path_to, leads_to_method, named_first,
    names_lead_to_the_first_selector, responding_is_having_or_inheriting,
};
use crate::dispatch::{dispatch_outcome, proceed_outcome, PendingDispatch, Step};
use crate::env::Model;
use crate::initialize::{
    climb_height, climb_stops, climb_takes, initialize_outcome, marked_above, next_initialize, restored,
    uninitialized_chain, wants_initialize, InitializeStep, PendingInitialize,
};
use crate::mem::word_at;
use crate::objc::{ancestor, chain_ends, hierarchy_ends, id, is_class, Class, Objects, SEL};
use vstd::prelude::*;

verus! {

/// The class of a class, or one that superclasses lead to from there, has a method for
/// the selector that is named `initialize`.
pub open spec fn has_initialize(model: Model, class: Class, selector: SEL, path: Seq<Class>) -> bool {
    &&& named_first(model.selectors, "initialize"@, selector)
    &&& leads_to_method(model.objects, id(word_at(model.mem, class.0)), selector, path)
}

/// There is a method for `+initialize`, be it the class's own or inherited.
pub open spec fn can_be_initialized(model: Model, class: Class) -> bool {
    exists|selector: SEL, path: Seq<Class>| #[trigger] has_initialize(model, class, selector, path)
}

/// A class is sent `+initialize` if its metaclass has a method for it, or inherits one
/// from any distance, and only then.
pub proof fn own_and_inherited_initialize_count(model: Model, class: Class)
    ensures
        wants_initialize(model, class) <==> can_be_initialized(model, class),
{
    let metaclass = id(word_at(model.mem, class.0));
    names_lead_to_the_first_selector(model.selectors, "initialize"@);
    if wants_initialize(model, class) {
        let selector = crate::objc::selector_named(model.selectors, "initialize"@)->0;
        responding_is_having_or_inheriting(model.objects, metaclass, selector);
        let path = choose|path: Seq<Class>| #[trigger]
            leads_to_method(model.objects, metaclass, selector, path);
        assert(has_initialize(model, class, selector, path));
    }
    if can_be_initialized(model, class) {
        let (selector, path) = choose|selector: SEL, path: Seq<Class>| #[trigger]
            has_initialize(model, class, selector, path);
        responding_is_having_or_inheriting(model.objects, metaclass, selector);
        assert(leads_to_method(model.objects, metaclass, selector, path));
    }
}

/// The marks after classes of a chain, from one on, were marked: those, and what was
/// marked before, and nothing else.
pub open spec fn marks_from(before: Set<u32>, chain: Seq<Class>, first: int, after: Set<u32>) -> bool {
    &&& forall|i: int| first <= i < chain.len() ==> after.contains((#[trigger] chain[i]).0)
    &&& forall|address: u32| before.contains(address) ==> #[trigger] after.contains(address)
    &&& forall|address: u32| #[trigger]
        after.contains(address) ==> before.contains(address) || exists|i: int|
            first <= i < chain.len() && (#[trigger] chain[i]).0 == address
}

/// Of the classes of a chain, the last comes first. The first in this order that is not
/// marked and has a method for `+initialize` is due, and it and those before it are
/// marked then; if there is none, all are.
pub open spec fn due_is(
    model: Model,
    initialized: Set<u32>,
    chain: Seq<Class>,
    marked: Set<u32>,
    due: Option<(Class, Seq<Class>)>,
) -> bool {
    match due {
        None => {
            &&& forall|i: int|
                0 <= i < chain.len() ==> initialized.contains((#[trigger] chain[i]).0)
                    || !can_be_initialized(model, chain[i])
            &&& marks_from(initialized, chain, 0, marked)
        },
        Some((class, rest)) => {
            let at = rest.len() as int;
            &&& at < chain.len()
            &&& rest == chain.take(at)
            &&& class == chain[at]
            &&& !initialized.contains(class.0)
            &&& can_be_initialized(model, class)
            &&& forall|i: int|
                at < i < chain.len() ==> initialized.contains((#[trigger] chain[i]).0)
                    || !can_be_initialized(model, chain[i])
            &&& marks_from(initialized, chain, at, marked)
        },
    }
}

/// One more class at the end of a chain was passed by.
proof fn lemma_due_one_more(
    model: Model,
    initialized: Set<u32>,
    chain: Seq<Class>,
    marked: Set<u32>,
    due: Option<(Class, Seq<Class>)>,
)
    requires
        chain.len() > 0,
        initialized.contains(chain.last().0) || !can_be_initialized(model, chain.last()),
        due_is(model, initialized.insert(chain.last().0), chain.drop_last(), marked, due),
    ensures
        due_is(model, initialized, chain, marked, due),
{
    let class = chain.last();
    let next = initialized.insert(class.0);
    let rest = chain.drop_last();
    let first: int = match due {
        None => 0,
        Some((_, left)) => left.len() as int,
    };
    assert forall|i: int| first <= i < chain.len() implies marked.contains((#[trigger] chain[i]).0) by {
        if i < rest.len() {
            assert(rest[i] == chain[i]);
        } else {
            assert(next.contains(class.0));
        }
    }
    assert forall|address: u32| #[trigger] marked.contains(address) implies initialized.contains(
        address,
    ) || exists|i: int| first <= i < chain.len() && (#[trigger] chain[i]).0 == address by {
        if !next.contains(address) {
            let i = choose|i: int| first <= i < rest.len() && (#[trigger] rest[i]).0 == address;
            assert(chain[i].0 == address);
        } else if !initialized.contains(address) {
            assert(chain[chain.len() - 1].0 == address);
        }
    }
    let after: int = if due is None {
        0
    } else {
        first + 1
    };
    assert forall|i: int| after <= i < chain.len() implies initialized.contains(
        (#[trigger] chain[i]).0,
    ) || !can_be_initialized(model, chain[i]) by {
        if i < rest.len() {
            assert(rest[i] == chain[i]);
            if chain[i].0 == class.0 {
                assert(chain[i] == class);
            }
        }
    }
    if let Some((_, left)) = due {
        assert(left =~= chain.take(first));
        assert(rest[first] == chain[first]);
    }
}

/// Which class is due is known from which are marked and which have the method.
proof fn lemma_due(model: Model, initialized: Set<u32>, chain: Seq<Class>)
    ensures
        due_is(
            model,
            initialized,
            chain,
            next_initialize(model, initialized, chain).0,
            next_initialize(model, initialized, chain).1,
        ),
    decreases chain.len(),
{
    if chain.len() > 0 {
        let class = chain.last();
        let rest = chain.drop_last();
        own_and_inherited_initialize_count(model, class);
        if initialized.contains(class.0) {
            assert(initialized.insert(class.0) =~= initialized);
        }
        if initialized.contains(class.0) || !wants_initialize(model, class) {
            lemma_due(model, initialized.insert(class.0), rest);
            let (marked, due) = next_initialize(model, initialized.insert(class.0), rest);
            lemma_due_one_more(model, initialized, chain, marked, due);
        } else {
            assert(rest =~= chain.take(rest.len() as int));
            assert(chain[chain.len() - 1] == class);
        }
    }
}

/// What comes of a chain of classes, when the marks are given.
pub open spec fn step_is(
    before: Model,
    initialized: Set<u32>,
    chain: Seq<Class>,
    after: Model,
    step: InitializeStep,
) -> bool {
    &&& after == Model { initialized: after.initialized, ..before }
    &&& match step {
        InitializeStep::Initialized => due_is(before, initialized, chain, after.initialized, None),
        InitializeStep::Send(pending) => {
            &&& due_is(
                before,
                initialized,
                chain,
                after.initialized,
                Some((pending.class, pending.rest@)),
            )
            &&& named_first(before.selectors, "initialize"@, pending.selector)
            &&& forall|i: int|
                0 <= i < 4 ==> #[trigger] pending.saved_r0_r3@[i] == before.regs[i]
        },
    }
}

/// The way up from a class: it goes through classes that are not marked, and ends at one
/// that is, or where there is no class.
pub open spec fn is_way_up(
    objects: Objects,
    initialized: Set<u32>,
    class: Class,
    path: Seq<Class>,
) -> bool {
    &&& climbs(objects, path)
    &&& path[0] == class
    &&& forall|i: int| 0 <= i < path.len() - 1 ==> !initialized.contains((#[trigger] path[i]).0)
    &&& !has_class(objects, path.last()) || initialized.contains(path.last().0)
}

/// The marks when a way up has been found: what stands at its end is marked.
pub open spec fn marked_at_end(initialized: Set<u32>, path: Seq<Class>) -> Set<u32> {
    if path.last().0 == 0 {
        initialized
    } else {
        initialized.insert(path.last().0)
    }
}

/// The way up is known from any that can be taken.
proof fn lemma_way_up(objects: Objects, initialized: Set<u32>, class: Class, path: Seq<Class>)
    requires
        chain_ends(objects, class),
        is_way_up(objects, initialized, class, path),
    ensures
        uninitialized_chain(objects, initialized, class) == path.drop_last(),
        marked_above(objects, initialized, class) == marked_at_end(initialized, path),
{
    let last = (path.len() - 1) as nat;
    assert forall|fewer: nat| fewer < last implies !climb_stops(
        objects,
        initialized,
        #[trigger] ancestor(objects, class, fewer),
    ) by {
        lemma_path_of_ancestors(objects, path, fewer as int);
        assert(!initialized.contains(path[fewer as int].0));
    }
    lemma_path_of_ancestors(objects, path, last as int);
    assert(climb_takes(objects, initialized, class, last));
    lemma_climb_ends(objects, initialized, class);
    let height = climb_height(objects, initialized, class);
    if height < last {
        assert(!climb_stops(objects, initialized, ancestor(objects, class, height)));
    }
    if last < height {
        assert(!climb_stops(objects, initialized, ancestor(objects, class, last)));
    }
    assert forall|i: int| 0 <= i < last implies #[trigger] path.drop_last()[i] == ancestor(
        objects,
        class,
        i as nat,
    ) by {
        lemma_path_of_ancestors(objects, path, i);
    }
    assert(uninitialized_chain(objects, initialized, class) =~= path.drop_last());
}

/// There is always a way up.
pub proof fn there_is_a_way_up(objects: Objects, initialized: Set<u32>, class: Class)
    requires
        chain_ends(objects, class),
    ensures
        exists|path: Seq<Class>| #[trigger] is_way_up(objects, initialized, class, path),
{
    lemma_climb_ends(objects, initialized, class);
    let height = climb_height(objects, initialized, class);
    assert forall|fewer: nat| fewer < height implies is_class(
        objects,
        #[trigger] ancestor(objects, class, fewer),
    ) by {
        assert(!climb_stops(objects, initialized, ancestor(objects, class, fewer)));
    }
    let path = lemma_path_to(objects, class, height);
    assert(path.last() == ancestor(objects, class, height));
    assert forall|i: int| 0 <= i < path.len() - 1 implies !initialized.contains(
        (#[trigger] path[i]).0,
    ) by {
        assert(!climb_stops(objects, initialized, ancestor(objects, class, i as nat)));
    }
    assert(is_way_up(objects, initialized, class, path));
}

/// The initialization of a class begins with the topmost class on the way up that has a
/// method for `+initialize`; those above it are marked without a message, and so is it.
pub proof fn initialization_begins_at_the_top(
    before: Model,
    class: Class,
    after: Model,
    step: InitializeStep,
    path: Seq<Class>,
)
    requires
        hierarchy_ends(before.objects),
        before.regs.len() == 16,
        is_way_up(before.objects, before.initialized, class, path),
        initialize_outcome(
            before,
            marked_above(before.objects, before.initialized, class),
            uninitialized_chain(before.objects, before.initialized, class),
            after,
            step,
        ),
    ensures
        step_is(
            before,
            marked_at_end(before.initialized, path),
            path.drop_last(),
            after,
            step,
        ),
{
    assert(chain_ends(before.objects, class));
    lemma_way_up(before.objects, before.initialized, class, path);
    lemma_due(before, marked_at_end(before.initialized, path), path.drop_last());
    names_lead_to_the_first_selector(before.selectors, "initialize"@);
}

/// The initialization of a class goes on with the next class in the chain that is not
/// marked and has a method for `+initialize`. The first four registers are what they
/// were saved as.
pub proof fn initialization_goes_on_downwards(
    resumed: Model,
    pending: PendingInitialize,
    after: Model,
    step: InitializeStep,
)
    requires
        resumed.regs.len() == 16,
        initialize_outcome(
            restored(resumed, pending.saved_r0_r3@),
            resumed.initialized,
            pending.rest@,
            after,
            step,
        ),
    ensures
        ({
            let before = Model { regs: after.regs, ..resumed };
            &&& step_is(before, resumed.initialized, pending.rest@, after, step)
            &&& after.regs.len() == 16
            &&& forall|i: int| 0 <= i < 4 ==> #[trigger] after.regs[i] == pending.saved_r0_r3@[i]
            &&& forall|i: int| 4 <= i < 16 ==> #[trigger] after.regs[i] == resumed.regs[i]
        }),
{
    let before = restored(resumed, pending.saved_r0_r3@);
    assert(pending.saved_r0_r3@.len() == 4);
    lemma_due(before, resumed.initialized, pending.rest@);
    names_lead_to_the_first_selector(before.selectors, "initialize"@);
    assert(before == (Model { regs: after.regs, ..resumed }));
}

/// The class that a message has initialized: the receiver, if its class is a metaclass,
/// else the class of the receiver; none if that is no implemented class.
pub open spec fn class_of_message(before: Model, receiver: id) -> Class {
    let start = id(word_at(before.mem, receiver.0));
    if before.objects.contains_key(start.0) && before.objects[start.0] is Class {
        if before.objects[start.0]->Class_0.is_metaclass {
            receiver
        } else {
            start
        }
    } else {
        id(0)
    }
}

/// A message to an object with a class waits for a `+initialize` exactly if a class on the
/// way up, from the class that the message has initialized, has a method for it: then the
/// topmost of these is sent it. When the message need not wait, all classes on the way up
/// are marked.
pub proof fn messages_wait_for_the_topmost_initialize(
    before: Model,
    receiver: id,
    selector: SEL,
    tolerate: bool,
    after: Model,
    step: Step,
    path: Seq<Class>,
)
    requires
        before.wf(),
        before.dispatch_depth < 128,
        receiver.0 != 0,
        word_at(before.mem, receiver.0) != 0,
        !is_advertisement(before, start_of(before, receiver, None), selector),
        dispatch_outcome(before, receiver, selector, None, tolerate, after, step),
        is_way_up(
            before.objects,
            before.initialized,
            class_of_message(before, receiver),
            path,
        ),
    ensures
        match step {
            Step::Initialize(pending) => {
                &&& due_is(
                    before,
                    marked_at_end(before.initialized, path),
                    path.drop_last(),
                    after.initialized,
                    Some((pending.initialize.class, pending.initialize.rest@)),
                )
                &&& named_first(before.selectors, "initialize"@, pending.initialize.selector)
                &&& forall|i: int|
                    0 <= i < 4 ==> #[trigger] pending.initialize.saved_r0_r3@[i] == before.regs[i]
            },
            _ => due_is(
                before,
                marked_at_end(before.initialized, path),
                path.drop_last(),
                after.initialized,
                None,
            ),
        },
{
    let class = class_of_message(before, receiver);
    let entered = crate::dispatch::entered(before);
    assert(chain_ends(before.objects, class));
    super::dispatch::advertisements_do_not_run(
        before,
        receiver,
        selector,
        None,
        tolerate,
        after,
        step,
    );
    lemma_way_up(before.objects, before.initialized, class, path);
    let initialized = marked_at_end(before.initialized, path);
    let chain = path.drop_last();
    lemma_due(entered, initialized, chain);
    names_lead_to_the_first_selector(before.selectors, "initialize"@);
    let (marked, due) = next_initialize(entered, initialized, chain);
    lemma_due_elsewhere(before, entered, initialized, chain, marked, due);
}

/// Which class is due is a matter of objects, memory and selectors only.
proof fn lemma_due_elsewhere(
    one: Model,
    other: Model,
    initialized: Set<u32>,
    chain: Seq<Class>,
    marked: Set<u32>,
    due: Option<(Class, Seq<Class>)>,
)
    requires
        one.objects == other.objects,
        one.mem == other.mem,
        one.selectors == other.selectors,
        due_is(other, initialized, chain, marked, due),
    ensures
        due_is(one, initialized, chain, marked, due),
{
    assert forall|class: Class| #[trigger] can_be_initialized(one, class) == can_be_initialized(
        other,
        class,
    ) by {
        assert forall|selector: SEL, path: Seq<Class>| #[trigger]
            has_initialize(one, class, selector, path) == has_initialize(
            other,
            class,
            selector,
            path,
        ) by {}
        if can_be_initialized(one, class) {
            let (selector, path) = choose|selector: SEL, path: Seq<Class>| #[trigger]
                has_initialize(one, class, selector, path);
            assert(has_initialize(other, class, selector, path));
        }
        if can_be_initialized(other, class) {
            let (selector, path) = choose|selector: SEL, path: Seq<Class>| #[trigger]
                has_initialize(other, class, selector, path);
            assert(has_initialize(one, class, selector, path));
        }
    }
}

/// A message that waited waits again exactly if another class of those that wait is still
/// not marked and has a method for `+initialize`.
pub proof fn waiting_messages_wait_for_the_next_initialize(
    resumed: Model,
    pending: PendingDispatch,
    after: Model,
    step: Step,
)
    requires
        resumed.regs.len() == 16,
        proceed_outcome(
            restored(resumed, pending.initialize.saved_r0_r3@),
            resumed.initialized,
            pending.initialize.rest@,
            pending.dispatch,
            after,
            step,
        ),
    ensures
        match step {
            Step::Initialize(next) => {
                &&& next.dispatch == pending.dispatch
                &&& due_is(
                    resumed,
                    resumed.initialized,
                    pending.initialize.rest@,
                    after.initialized,
                    Some((next.initialize.class, next.initialize.rest@)),
                )
                &&& named_first(resumed.selectors, "initialize"@, next.initialize.selector)
                &&& forall|i: int|
                    0 <= i < 4 ==> #[trigger] next.initialize.saved_r0_r3@[i]
                        == pending.initialize.saved_r0_r3@[i]
            },
            _ => due_is(
                resumed,
                resumed.initialized,
                pending.initialize.rest@,
                after.initialized,
                None,
            ),
        },
{
    let before = restored(resumed, pending.initialize.saved_r0_r3@);
    assert(pending.initialize.saved_r0_r3@.len() == 4);
    lemma_due(before, resumed.initialized, pending.initialize.rest@);
    names_lead_to_the_first_selector(before.selectors, "initialize"@);
    let (marked, due) = next_initialize(before, resumed.initialized, pending.initialize.rest@);
    lemma_due_elsewhere(
        resumed,
        before,
        resumed.initialized,
        pending.initialize.rest@,
        marked,
        due,
    );
}

} // verus!
