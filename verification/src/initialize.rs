//! Apple's lazy `+initialize` contract:
//!
//! > The runtime sends `initialize` to each class in a program just before the
//! > class, or any class that inherits from it, is sent its first message from
//! > within the program. Superclasses receive this message before their
//! > subclasses.
use crate::env::{Environment, Model};
use crate::objc::{
    ancestor, chain_ends, hierarchy_ends, is_class, isa, nil, read_isa, responds, selector_named, Class, Objects, SEL,
};
use vstd::prelude::*;

verus! {

/// A `+initialize` that has to be sent, and what is left to do after it.
pub struct PendingInitialize {
    /// The class to send it to.
    pub class: Class,
    pub selector: SEL,
    /// The arguments of the message that the class is initialized for, which the
    /// sending of `+initialize` overwrites.
    pub saved_r0_r3: [u32; 4],
    /// The classes that come after this one, the last one first.
    pub rest: Vec<Class>,
}

/// How far the initialization of a class has come.
pub enum InitializeStep {
    /// There is nothing left to do.
    Initialized,
    /// A message has to be sent, and [`after_initialize`] to be called then.
    Send(PendingInitialize),
}

/// The way up to the classes that need initialization stops here.
pub open spec fn climb_stops(objects: Objects, initialized: Set<u32>, class: Class) -> bool {
    !is_class(objects, class) || initialized.contains(class.0)
}

/// This many classes, from `class` upwards, need initialization.
pub open spec fn climb_takes(
    objects: Objects,
    initialized: Set<u32>,
    class: Class,
    steps: nat,
) -> bool {
    &&& climb_stops(objects, initialized, ancestor(objects, class, steps))
    &&& forall|fewer: nat|
        fewer < steps ==> !climb_stops(
            objects,
            initialized,
            #[trigger] ancestor(objects, class, fewer),
        )
}

/// How many classes, from `class` upwards, need initialization.
pub open spec fn climb_height(objects: Objects, initialized: Set<u32>, class: Class) -> nat {
    choose|steps: nat| climb_takes(objects, initialized, class, steps)
}

/// The classes that need initialization before `class` can be sent a message:
/// itself and its ancestors, up to the first that needs none.
pub open spec fn uninitialized_chain(
    objects: Objects,
    initialized: Set<u32>,
    class: Class,
) -> Seq<Class> {
    Seq::new(
        climb_height(objects, initialized, class),
        |i: int| ancestor(objects, class, i as nat),
    )
}

/// The classes that need no initialization once it is known where the way up ends:
/// what is there and is no class will not be looked at again.
pub open spec fn marked_above(objects: Objects, initialized: Set<u32>, class: Class) -> Set<u32> {
    let top = ancestor(objects, class, climb_height(objects, initialized, class));
    if top == nil() {
        initialized
    } else {
        initialized.insert(top.0)
    }
}

/// Some class in the chain of the metaclass implements `initialize`.
pub open spec fn wants_initialize(model: Model, class: Class) -> bool {
    match selector_named(model.selectors, "initialize"@) {
        Some(selector) => responds(model.objects, isa(model.mem, class), selector),
        None => false,
    }
}

/// The way down: which classes are marked as initialized, and which one is sent
/// `+initialize` next, with those that are still to come. The last class of
/// `chain` comes first. Classes that do not want the message are marked and
/// passed by; so is one that was initialized in the meantime.
pub open spec fn next_initialize(model: Model, initialized: Set<u32>, chain: Seq<Class>) -> (
    Set<u32>,
    Option<(Class, Seq<Class>)>,
)
    decreases chain.len(),
{
    if chain.len() == 0 {
        (initialized, None)
    } else {
        let class = chain.last();
        let rest = chain.drop_last();
        if initialized.contains(class.0) {
            next_initialize(model, initialized, rest)
        } else if wants_initialize(model, class) {
            (initialized.insert(class.0), Some((class, rest)))
        } else {
            next_initialize(model, initialized.insert(class.0), rest)
        }
    }
}

/// The environment and the step after the way down from a model in which
/// `initialized` is already marked.
pub open spec fn initialize_outcome(
    before: Model,
    initialized: Set<u32>,
    chain: Seq<Class>,
    after: Model,
    step: InitializeStep,
) -> bool {
    let (marked, due) = next_initialize(before, initialized, chain);
    &&& after == Model { initialized: marked, ..before }
    &&& match due {
        None => step is Initialized,
        Some((class, rest)) => step matches InitializeStep::Send(pending) && {
            &&& pending.class == class
            &&& pending.rest@ == rest
            &&& Some(pending.selector) == selector_named(before.selectors, "initialize"@)
            &&& pending.saved_r0_r3@ == before.regs.take(4)
        },
    }
}

/// A way up takes some number of steps, and only one.
proof fn lemma_climb_height(
    objects: Objects,
    initialized: Set<u32>,
    class: Class,
    steps: nat,
)
    requires
        climb_takes(objects, initialized, class, steps),
    ensures
        climb_height(objects, initialized, class) == steps,
{
    let chosen = climb_height(objects, initialized, class);
    assert(climb_takes(objects, initialized, class, chosen));
    if chosen < steps {
        assert(!climb_stops(objects, initialized, ancestor(objects, class, chosen)));
    }
    if steps < chosen {
        assert(!climb_stops(objects, initialized, ancestor(objects, class, steps)));
    }
}

/// The way up: collects the classes that need initialization, and marks what is
/// above them as initialized.
fn climb(env: &mut Environment, class: Class) -> (chain: Vec<Class>)
    requires
        chain_ends(old(env)@.objects, class),
    ensures
        chain@ == uninitialized_chain(old(env)@.objects, old(env)@.initialized, class),
        final(env)@ == (Model {
            initialized: marked_above(old(env)@.objects, old(env)@.initialized, class),
            ..old(env)@
        }),
{
    let ghost objects = env@.objects;
    let ghost initialized = env@.initialized;
    let ghost end = choose|steps: nat| !is_class(objects, #[trigger] ancestor(objects, class, steps));
    let mut chain: Vec<Class> = Vec::new();
    let mut current = class;
    while current != nil() && !env.objc.initialized_classes.contains(&current.0)
        invariant
            *env == *old(env),
            objects == env@.objects,
            initialized == env@.initialized,
            current == ancestor(objects, class, chain@.len()),
            chain@.len() <= end,
            !is_class(objects, ancestor(objects, class, end)),
            chain@ == Seq::new(chain@.len(), |i: int| ancestor(objects, class, i as nat)),
            forall|fewer: nat|
                fewer < chain@.len() ==> !climb_stops(
                    objects,
                    initialized,
                    #[trigger] ancestor(objects, class, fewer),
                ),
        ensures
            *env == *old(env),
            current == ancestor(objects, class, chain@.len()),
            chain@ == Seq::new(chain@.len(), |i: int| ancestor(objects, class, i as nat)),
            climb_takes(objects, initialized, class, chain@.len()),
        decreases end - chain@.len(),
    {
        let superclass = match env.objc.get_class_object(current) {
            Some(object) => object.superclass,
            None => {
                // Not a class, or not an implemented one: nothing to initialize.
                break ;
            },
        };
        let ghost before = chain@;
        chain.push(current);
        assert(chain@ =~= Seq::new(chain@.len(), |i: int| ancestor(objects, class, i as nat)));
        assert(chain@.len() == before.len() + 1);
        current = superclass;
    }
    proof {
        lemma_climb_height(objects, initialized, class, chain@.len());
    }
    if current != nil() {
        // So that it is not looked at again on every dispatch.
        env.objc.initialized_classes.insert(current.0);
    }
    assert(env@ =~= (Model {
        initialized: marked_above(objects, initialized, class),
        ..old(env)@
    }));
    chain
}

/// The way down: marks the classes of `chain`, the last one first, up to and
/// including the first that is to be sent `+initialize`.
fn descend(env: &mut Environment, chain: Vec<Class>) -> (step: InitializeStep)
    requires
        hierarchy_ends(old(env)@.objects),
    ensures
        initialize_outcome(old(env)@, old(env)@.initialized, chain@, final(env)@, step),
{
    let ghost before = env@;
    let mut remaining = chain;
    while remaining.len() > 0
        invariant
            env@ == (Model { initialized: env@.initialized, ..before }),
            hierarchy_ends(before.objects),
            next_initialize(before, env@.initialized, remaining@) == next_initialize(
                before,
                before.initialized,
                chain@,
            ),
            before == old(env)@,
        decreases remaining.len(),
    {
        let ghost top = remaining@;
        let class = remaining.pop().unwrap();
        assert(remaining@ =~= top.drop_last());
        // A message sent by a superclass may have come first.
        if env.objc.initialized_classes.contains(&class.0) {
            continue ;
        }
        // Marked before the message is sent, so that messages that the class is
        // sent meanwhile do not start over.
        env.objc.initialized_classes.insert(class.0);
        assert(env@ =~= (Model { initialized: env@.initialized, ..before }));
        let metaclass = read_isa(class, &env.mem);
        let selector = match env.objc.lookup_selector("initialize") {
            Some(selector) => selector,
            None => {
                continue ;
            },
        };
        proof {
            assert(chain_ends(before.objects, metaclass));
        }
        if !env.objc.class_has_method(metaclass, selector) {
            continue ;
        }
        let regs = &env.cpu.regs;
        let saved_r0_r3: [u32; 4] = [regs[0], regs[1], regs[2], regs[3]];
        assert(saved_r0_r3@ =~= before.regs.take(4));
        assert(wants_initialize(before, class));
        assert(next_initialize(before, before.initialized, chain@) == (
            env@.initialized,
            Some((class, remaining@)),
        ));
        return InitializeStep::Send(
            PendingInitialize { class, selector, saved_r0_r3, rest: remaining },
        );
    }
    assert(env@ =~= (Model { initialized: env@.initialized, ..before }));
    InitializeStep::Initialized
}

/// Starts to initialize a class, which must be a (regular) class, not a metaclass.
///
/// A class is marked as initialized *before* `+initialize` is dispatched, so that
/// any messages sent to it from within `+initialize` itself do not cause infinite
/// recursion.
pub fn ensure_class_initialized(env: &mut Environment, class_to_init: Class) -> (step:
    InitializeStep)
    requires
        hierarchy_ends(old(env)@.objects),
    ensures
        initialize_outcome(
            old(env)@,
            marked_above(old(env)@.objects, old(env)@.initialized, class_to_init),
            uninitialized_chain(old(env)@.objects, old(env)@.initialized, class_to_init),
            final(env)@,
            step,
        ),
{
    proof {
        assert(chain_ends(env@.objects, class_to_init));
    }
    let chain = climb(env, class_to_init);
    let ghost marked = env@.initialized;
    proof {
        lemma_marks_do_not_matter(old(env)@, env@, marked, chain@);
    }
    descend(env, chain)
}

/// Goes on with the initialization of a class, after a `+initialize` was sent:
/// restores the registers that held the arguments of the message that it was all
/// done for, and finds the next class that is to be sent `+initialize`.
pub fn after_initialize(env: &mut Environment, pending: PendingInitialize) -> (step:
    InitializeStep)
    requires
        hierarchy_ends(old(env)@.objects),
    ensures
        initialize_outcome(
            restored(old(env)@, pending.saved_r0_r3@),
            old(env)@.initialized,
            pending.rest@,
            final(env)@,
            step,
        ),
{
    let saved = pending.saved_r0_r3;
    env.cpu.regs[0] = saved[0];
    env.cpu.regs[1] = saved[1];
    env.cpu.regs[2] = saved[2];
    env.cpu.regs[3] = saved[3];
    assert(env@ =~= restored(old(env)@, saved@));
    descend(env, pending.rest)
}

/// The environment with the first four registers as they were.
pub open spec fn restored(model: Model, saved: Seq<u32>) -> Model {
    Model { regs: saved + model.regs.skip(4), ..model }
}

/// Which class is next does not depend on what the model says is marked.
proof fn lemma_marks_do_not_matter(
    one: Model,
    other: Model,
    initialized: Set<u32>,
    chain: Seq<Class>,
)
    requires
        other == (Model { initialized: other.initialized, ..one }),
    ensures
        next_initialize(one, initialized, chain) == next_initialize(other, initialized, chain),
    decreases chain.len(),
{
    if chain.len() > 0 {
        let class = chain.last();
        let rest = chain.drop_last();
        lemma_marks_do_not_matter(one, other, initialized, rest);
        lemma_marks_do_not_matter(one, other, initialized.insert(class.0), rest);
    }
}

} // verus!
