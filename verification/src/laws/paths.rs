//! Chains of superclasses, class by class, and what lookups along them find.
use crate::laws::lemma_search_ends;
use crate::objc::{
    ancestor, chain_ends, class_named, class_object, implements, is_class, leads_to, lemma_no_ancestors, responds,
    search_end, search_takes, selector_named, stops_at, Class, HostObject, NamedClass, NamedSelector, Objects, SEL,
};
use vstd::prelude::*;

verus! {

/// There is an implemented class.
pub open spec fn has_class(objects: Objects, class: Class) -> bool {
    class.0 != 0 && objects.contains_key(class.0) && objects[class.0] is Class
}

/// The superclass that a class names.
pub open spec fn parent(objects: Objects, class: Class) -> Class {
    objects[class.0]->Class_0.superclass
}

/// There is a class, and its table of methods has the selector.
pub open spec fn has_method(objects: Objects, class: Class, selector: SEL) -> bool {
    has_class(objects, class) && objects[class.0]->Class_0.methods@.contains_key(selector.0)
}

/// Each step of a path goes from an implemented class to the superclass that it names.
pub open spec fn climbs(objects: Objects, path: Seq<Class>) -> bool {
    &&& path.len() > 0
    &&& forall|i: int|
        0 <= i < path.len() - 1 ==> has_class(objects, #[trigger] path[i]) && path[i + 1]
            == parent(objects, path[i])
}

/// The way of a search for a method: it goes on from every class that does not have the
/// method, and from the class that a super-call is made from, and ends at the first
/// class that has it, or where there is no implemented class.
pub open spec fn is_search(
    objects: Objects,
    start: Class,
    selector: SEL,
    super_call: bool,
    path: Seq<Class>,
) -> bool {
    &&& climbs(objects, path)
    &&& path[0] == start
    &&& forall|i: int|
        0 <= i < path.len() - 1 && has_method(objects, #[trigger] path[i], selector) ==> super_call
            && i == 0
    &&& !has_class(objects, path.last()) || (has_method(objects, path.last(), selector) && !(
    super_call && path.len() == 1))
}

/// A path is made of the ancestors of the class that it starts from.
pub(crate) proof fn lemma_path_of_ancestors(objects: Objects, path: Seq<Class>, number: int)
    requires
        climbs(objects, path),
        0 <= number < path.len(),
    ensures
        path[number] == ancestor(objects, path[0], number as nat),
        number < path.len() - 1 ==> is_class(objects, path[number]),
    decreases number,
{
    if number > 0 {
        lemma_path_of_ancestors(objects, path, number - 1);
        assert(has_class(objects, path[number - 1]));
    }
    if number < path.len() - 1 {
        assert(has_class(objects, path[number]));
    }
}

/// The ancestors of a class, up to one that is reached through classes only, are a path.
pub(crate) proof fn lemma_path_to(objects: Objects, class: Class, steps: nat) -> (path: Seq<Class>)
    requires
        forall|fewer: nat|
            fewer < steps ==> is_class(objects, #[trigger] ancestor(objects, class, fewer)),
    ensures
        climbs(objects, path),
        path.len() == steps + 1,
        path[0] == class,
        forall|i: int| 0 <= i <= steps ==> #[trigger] path[i] == ancestor(objects, class, i as nat),
{
    let path = Seq::new(steps + 1, |i: int| ancestor(objects, class, i as nat));
    assert forall|i: int| 0 <= i < path.len() - 1 implies has_class(objects, #[trigger] path[i])
        && path[i + 1] == parent(objects, path[i]) by {
        assert(is_class(objects, ancestor(objects, class, i as nat)));
        assert(path[i + 1] == ancestor(objects, class, (i + 1) as nat));
    }
    path
}

/// A chain that comes back to where it started does not end.
proof fn lemma_no_return(objects: Objects, start: Class, steps: nat, any: nat)
    requires
        steps > 0,
        ancestor(objects, start, steps) == start,
        forall|fewer: nat|
            fewer < steps ==> is_class(objects, #[trigger] ancestor(objects, start, fewer)),
    ensures
        is_class(objects, ancestor(objects, start, any)),
    decreases any,
{
    if any >= steps {
        crate::objc::lemma_ancestor_of_ancestor(objects, start, steps, (any - steps) as nat);
        lemma_no_return(objects, start, steps, (any - steps) as nat);
    }
}

/// Where a search ends is known from any way that it can take.
pub(crate) proof fn lemma_search_path(
    objects: Objects,
    start: Class,
    selector: SEL,
    super_call: bool,
    path: Seq<Class>,
)
    requires
        chain_ends(objects, start),
        is_search(objects, start, selector, super_call, path),
    ensures
        search_end(objects, start, selector, super_call) == path.last(),
{
    let last = (path.len() - 1) as nat;
    assert forall|fewer: nat| fewer < last implies is_class(
        objects,
        #[trigger] ancestor(objects, start, fewer),
    ) by {
        lemma_path_of_ancestors(objects, path, fewer as int);
    }
    lemma_path_of_ancestors(objects, path, last as int);
    assert forall|fewer: nat| 0 < fewer <= last implies #[trigger] ancestor(objects, start, fewer)
        != start by {
        if ancestor(objects, start, fewer) == start {
            let end = choose|steps: nat| !is_class(objects, #[trigger] ancestor(objects, start, steps));
            lemma_no_return(objects, start, fewer, end);
        }
    }
    assert forall|fewer: nat| fewer < last implies !stops_at(
        objects,
        start,
        selector,
        super_call,
        #[trigger] ancestor(objects, start, fewer),
    ) by {
        lemma_path_of_ancestors(objects, path, fewer as int);
        assert(has_method(objects, path[fewer as int], selector) ==> super_call && fewer == 0);
    }
    assert(search_takes(objects, start, selector, super_call, last));
    crate::objc::lemma_search_end(objects, start, selector, super_call, last);
}

/// Every search has a way that it takes.
pub(crate) proof fn lemma_search_has_path(objects: Objects, start: Class, selector: SEL, super_call: bool) -> (path:
    Seq<Class>)
    requires
        chain_ends(objects, start),
    ensures
        is_search(objects, start, selector, super_call, path),
{
    let steps = lemma_search_ends(objects, start, selector, super_call);
    assert forall|fewer: nat| fewer < steps implies is_class(
        objects,
        #[trigger] ancestor(objects, start, fewer),
    ) by {
        assert(!stops_at(objects, start, selector, super_call, ancestor(objects, start, fewer)));
    }
    let path = lemma_path_to(objects, start, steps);
    assert(path.last() == ancestor(objects, start, steps));
    assert forall|i: int|
        0 <= i < path.len() - 1 && has_method(objects, #[trigger] path[i], selector) implies super_call
        && i == 0 by {
        assert(!stops_at(objects, start, selector, super_call, ancestor(objects, start, i as nat)));
        assert(path[i] == start);
        if i > 0 {
            let end = choose|steps: nat| !is_class(objects, #[trigger] ancestor(objects, start, steps));
            lemma_no_return(objects, start, i as nat, end);
        }
    }
    path
}

/// A search for a method ends at the class that any way of it leads to, and there is
/// such a way.
pub proof fn searches_follow_superclasses(objects: Objects, start: Class, selector: SEL, super_call: bool)
    requires
        chain_ends(objects, start),
    ensures
        forall|path: Seq<Class>| #[trigger]
            is_search(objects, start, selector, super_call, path) ==> search_end(
                objects,
                start,
                selector,
                super_call,
            ) == path.last(),
        exists|path: Seq<Class>| #[trigger] is_search(objects, start, selector, super_call, path),
{
    assert forall|path: Seq<Class>| #[trigger]
        is_search(objects, start, selector, super_call, path) implies search_end(
        objects,
        start,
        selector,
        super_call,
    ) == path.last() by {
        lemma_search_path(objects, start, selector, super_call, path);
    }
    let path = lemma_search_has_path(objects, start, selector, super_call);
    assert(is_search(objects, start, selector, super_call, path));
}

/// A path that leads from a class to one that has a method for a selector.
pub open spec fn leads_to_method(
    objects: Objects,
    class: Class,
    selector: SEL,
    path: Seq<Class>,
) -> bool {
    climbs(objects, path) && path[0] == class && has_method(objects, path.last(), selector)
}

/// A class responds to a selector exactly if there is a path from it, of any length, to
/// a class that has a method for the selector.
pub proof fn responding_is_having_or_inheriting(objects: Objects, class: Class, selector: SEL)
    ensures
        responds(objects, class, selector) <==> exists|path: Seq<Class>| #[trigger]
            leads_to_method(objects, class, selector, path),
{
    if responds(objects, class, selector) {
        let steps = choose|steps: nat|
            implements(objects, #[trigger] ancestor(objects, class, steps), selector);
        assert forall|fewer: nat| fewer < steps implies is_class(
            objects,
            #[trigger] ancestor(objects, class, fewer),
        ) by {
            if !is_class(objects, ancestor(objects, class, fewer)) {
                lemma_no_ancestors(objects, class, fewer, steps);
            }
        }
        let path = lemma_path_to(objects, class, steps);
        assert(path.last() == ancestor(objects, class, steps));
        assert(leads_to_method(objects, class, selector, path));
    }
    if exists|path: Seq<Class>| #[trigger] leads_to_method(objects, class, selector, path) {
        let path = choose|path: Seq<Class>| #[trigger]
            leads_to_method(objects, class, selector, path);
        lemma_path_of_ancestors(objects, path, path.len() - 1);
        assert(implements(
            objects,
            ancestor(objects, class, (path.len() - 1) as nat),
            selector,
        ));
    }
}

/// A path that leads from a class to another.
pub open spec fn leads_up(objects: Objects, from: Class, class: Class, path: Seq<Class>) -> bool {
    climbs(objects, path) && path[0] == from && path.last() == class
}

/// A class is above another, or the same, exactly if there is a path to it.
pub proof fn being_above_is_being_on_a_path(objects: Objects, from: Class, class: Class)
    requires
        class.0 != 0,
    ensures
        leads_to(objects, from, class) <==> exists|path: Seq<Class>| #[trigger]
            leads_up(objects, from, class, path),
{
    if leads_to(objects, from, class) {
        let steps = choose|steps: nat| #[trigger] ancestor(objects, from, steps) == class;
        assert forall|fewer: nat| fewer < steps implies is_class(
            objects,
            #[trigger] ancestor(objects, from, fewer),
        ) by {
            if !is_class(objects, ancestor(objects, from, fewer)) {
                lemma_no_ancestors(objects, from, fewer, steps);
            }
        }
        let path = lemma_path_to(objects, from, steps);
        assert(path.last() == ancestor(objects, from, steps));
        assert(leads_up(objects, from, class, path));
    }
    if exists|path: Seq<Class>| #[trigger] leads_up(objects, from, class, path) {
        let path = choose|path: Seq<Class>| #[trigger] leads_up(objects, from, class, path);
        lemma_path_of_ancestors(objects, path, path.len() - 1);
    }
}

/// What is at an address is a class exactly if the host's side of it says so.
pub proof fn classes_are_what_the_host_holds(objects: Objects, class: Class)
    ensures
        class_object(objects, class) matches Some(object) ==> objects.contains_key(class.0)
            && objects[class.0] == HostObject::Class(object),
        class_object(objects, class) is None ==> !objects.contains_key(class.0) || !(
        objects[class.0] is Class),
        is_class(objects, class) == has_class(objects, class),
{
}

/// A selector is the first in the list that goes by a name.
pub open spec fn named_first(selectors: Seq<NamedSelector>, name: Seq<char>, selector: SEL) -> bool {
    exists|i: int|
        0 <= i < selectors.len() && (#[trigger] selectors[i]).name@ == name && selectors[i].selector
            == selector && forall|j: int|
            0 <= j < i ==> (#[trigger] selectors[j]).name@ != name
}

/// A name leads to the first selector that has it, and to none exactly if no selector has
/// it.
pub proof fn names_lead_to_the_first_selector(selectors: Seq<NamedSelector>, name: Seq<char>)
    ensures
        match selector_named(selectors, name) {
            Some(selector) => named_first(selectors, name, selector),
            None => forall|i: int|
                0 <= i < selectors.len() ==> (#[trigger] selectors[i]).name@ != name,
        },
        forall|selector: SEL| #[trigger]
            named_first(selectors, name, selector) ==> selector_named(selectors, name) == Some(
                selector,
            ),
    decreases selectors.len(),
{
    if selectors.len() > 0 {
        let rest = selectors.drop_first();
        names_lead_to_the_first_selector(rest, name);
        assert(forall|i: int| 0 <= i < rest.len() ==> #[trigger] rest[i] == selectors[i + 1]);
        if selectors[0].name@ == name {
            assert(named_first(selectors, name, selectors[0].selector));
        } else {
            match selector_named(rest, name) {
                Some(selector) => {
                    let i = choose|i: int|
                        0 <= i < rest.len() && (#[trigger] rest[i]).name@ == name && rest[i].selector
                            == selector && forall|j: int|
                            0 <= j < i ==> (#[trigger] rest[j]).name@ != name;
                    assert(selectors[i + 1].name@ == name);
                    assert forall|j: int| 0 <= j < i + 1 implies (#[trigger] selectors[j]).name@
                        != name by {
                        if j > 0 {
                            assert(rest[j - 1].name@ != name);
                        }
                    }
                },
                None => {
                    assert forall|i: int| 0 <= i < selectors.len() implies (
                    #[trigger] selectors[i]).name@ != name by {
                        if i > 0 {
                            assert(rest[i - 1].name@ != name);
                        }
                    }
                },
            }
        }
        assert forall|selector: SEL| #[trigger]
            named_first(selectors, name, selector) implies selector_named(selectors, name) == Some(
            selector,
        ) by {
            let i = choose|i: int|
                0 <= i < selectors.len() && (#[trigger] selectors[i]).name@ == name
                    && selectors[i].selector == selector && forall|j: int|
                    0 <= j < i ==> (#[trigger] selectors[j]).name@ != name;
            if i > 0 {
                assert(selectors[0].name@ != name);
                assert(rest[i - 1].name@ == name);
                assert forall|j: int| 0 <= j < i - 1 implies (#[trigger] rest[j]).name@ != name by {
                    assert(selectors[j + 1].name@ != name);
                }
                assert(named_first(rest, name, selector));
            }
        }
    }
}

/// A class is the first in the list that is known by a name.
pub open spec fn known_first(classes: Seq<NamedClass>, name: Seq<char>, class: Class) -> bool {
    exists|i: int|
        0 <= i < classes.len() && (#[trigger] classes[i]).name@ == name && classes[i].class == class
            && forall|j: int| 0 <= j < i ==> (#[trigger] classes[j]).name@ != name
}

/// A name leads to the first class that is known by it, and to none exactly if no class
/// is.
pub proof fn names_lead_to_the_first_class(classes: Seq<NamedClass>, name: Seq<char>)
    ensures
        match class_named(classes, name) {
            Some(class) => known_first(classes, name, class),
            None => forall|i: int| 0 <= i < classes.len() ==> (#[trigger] classes[i]).name@ != name,
        },
        forall|class: Class| #[trigger]
            known_first(classes, name, class) ==> class_named(classes, name) == Some(class),
    decreases classes.len(),
{
    if classes.len() > 0 {
        let rest = classes.drop_first();
        names_lead_to_the_first_class(rest, name);
        assert(forall|i: int| 0 <= i < rest.len() ==> #[trigger] rest[i] == classes[i + 1]);
        if classes[0].name@ == name {
            assert(known_first(classes, name, classes[0].class));
        } else {
            match class_named(rest, name) {
                Some(class) => {
                    let i = choose|i: int|
                        0 <= i < rest.len() && (#[trigger] rest[i]).name@ == name && rest[i].class
                            == class && forall|j: int|
                            0 <= j < i ==> (#[trigger] rest[j]).name@ != name;
                    assert(classes[i + 1].name@ == name);
                    assert forall|j: int| 0 <= j < i + 1 implies (#[trigger] classes[j]).name@ != name by {
                        if j > 0 {
                            assert(rest[j - 1].name@ != name);
                        }
                    }
                },
                None => {
                    assert forall|i: int| 0 <= i < classes.len() implies (#[trigger] classes[i]).name@
                        != name by {
                        if i > 0 {
                            assert(rest[i - 1].name@ != name);
                        }
                    }
                },
            }
        }
        assert forall|class: Class| #[trigger] known_first(classes, name, class) implies class_named(
            classes,
            name,
        ) == Some(class) by {
            let i = choose|i: int|
                0 <= i < classes.len() && (#[trigger] classes[i]).name@ == name && classes[i].class
                    == class && forall|j: int| 0 <= j < i ==> (#[trigger] classes[j]).name@ != name;
            if i > 0 {
                assert(classes[0].name@ != name);
                assert(rest[i - 1].name@ == name);
                assert forall|j: int| 0 <= j < i - 1 implies (#[trigger] rest[j]).name@ != name by {
                    assert(classes[j + 1].name@ != name);
                }
                assert(known_first(rest, name, class));
            }
        }
    }
}

} // verus!
