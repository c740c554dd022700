//! What the runtime knows of objects, classes and selectors.
use crate::mem::{cstr_at, word_at, Mem};
use crate::ns_url_request::NSURLRequestHostObject;
use crate::signature::TypeInfo;
use crate::text::same_text;
use std::any::TypeId;
use std::collections::{HashMap, HashSet};
use std::marker::PhantomData;
use vstd::prelude::*;

verus! {

/// A pointer to an Objective-C object in guest memory.
#[allow(non_camel_case_types)]
#[derive(Clone, Copy, Debug, PartialEq, Eq, Hash, Structural)]
pub struct id(pub u32);

/// The pointer to no object.
#[verifier::allow_in_spec]
pub fn nil() -> id
    returns
        id(0),
{
    id(0)
}

/// A pointer to a class, which is an object too.
pub type Class = id;

/// A selector: a pointer to the unique copy of a method's name in guest memory.
#[derive(Clone, Copy, Debug, PartialEq, Eq, Structural)]
pub struct SEL(pub u32);

/// A pointer to a value of type `T` in guest memory.
pub struct ConstPtr<T> {
    pub bits: u32,
    pub pointee: PhantomData<T>,
}

impl<T> Clone for ConstPtr<T> {
    fn clone(&self) -> (result: ConstPtr<T>)
        ensures
            result.bits == self.bits,
    {
        ConstPtr { bits: self.bits, pointee: PhantomData }
    }
}

impl<T> Copy for ConstPtr<T> {

}

/// A pointer to this struct replaces the normal receiver parameter for
/// `objc_msgSendSuper2` and [`msg_send_super2`](crate::messages::msg_send_super2).
/// In guest memory it is two words, the receiver first.
#[allow(non_camel_case_types)]
#[derive(Clone, Copy, Debug, PartialEq, Eq, Structural)]
pub struct objc_super {
    pub receiver: id,
    /// If this is used with `objc_msgSendSuper2`, this is a pointer to a class
    /// and the superclass will be looked up from it.
    pub class: Class,
}

/// A method implementation in the host: the number of a host function, and the
/// type that it has.
#[derive(Clone, Copy, Debug)]
pub struct HostIMP {
    pub function: u32,
    pub type_id: TypeId,
    pub type_desc: &'static str,
}

impl HostIMP {
    /// The type that the method has.
    pub fn type_info(&self) -> (info: TypeInfo)
        ensures
            info == (self.type_id, self.type_desc),
    {
        (self.type_id, self.type_desc)
    }
}

/// A method implementation in the guest: the address of its code.
#[derive(Clone, Copy, Debug, PartialEq, Eq, Structural)]
pub struct GuestIMP {
    pub address: u32,
}

/// A method implementation.
#[derive(Clone, Copy, Debug)]
pub enum IMP {
    Host(HostIMP),
    Guest(GuestIMP),
}

/// The host's side of a class (or metaclass) that is implemented.
pub struct ClassHostObject {
    pub name: String,
    pub is_metaclass: bool,
    pub superclass: Class,
    /// By the bits of the selector.
    pub methods: HashMap<u32, IMP>,
}

/// The host's side of a class that the guest refers to and nobody implements.
pub struct UnimplementedClass {
    pub name: String,
    pub is_metaclass: bool,
}

/// The host's side of a class that is to behave as if it were `nil`.
pub struct FakeClass {
    pub name: String,
    pub is_metaclass: bool,
}

/// The host's side of an object.
pub enum HostObject {
    Class(ClassHostObject),
    Unimplemented(UnimplementedClass),
    Fake(FakeClass),
    /// An object with no state of its own.
    Trivial,
    URLRequest(NSURLRequestHostObject),
    /// An object that is none of this library's concern.
    Other,
}

/// A selector and its name.
pub struct NamedSelector {
    pub name: String,
    pub selector: SEL,
}

/// A class and the name under which it is known.
pub struct NamedClass {
    pub name: String,
    pub class: Class,
}

/// The state of the Objective-C runtime.
pub struct ObjC {
    /// By the address of the object.
    pub host_objects: HashMap<u32, HostObject>,
    /// The classes that need no `+initialize` any more.
    pub initialized_classes: HashSet<u32>,
    pub selectors: Vec<NamedSelector>,
    pub known_classes: Vec<NamedClass>,
    /// The type of the message that is about to be sent, where it is known.
    pub message_type_info: Option<TypeInfo>,
}

/// The host objects of a runtime, by the address of the object.
pub type Objects = Map<u32, HostObject>;

/// The class that an object is, if it is a class that is implemented.
pub open spec fn class_object(objects: Objects, class: Class) -> Option<ClassHostObject> {
    if objects.contains_key(class.0) {
        match objects[class.0] {
            HostObject::Class(object) => Some(object),
            _ => None,
        }
    } else {
        None
    }
}

/// The class of an object: the first word of it.
pub open spec fn isa(mem: Map<u32, u8>, object: id) -> Class {
    id(word_at(mem, object.0))
}

/// The pointer is not `nil`, and an implemented class is there.
pub open spec fn is_class(objects: Objects, class: Class) -> bool {
    class != nil() && class_object(objects, class) is Some
}

/// What follows a class in the chain of superclasses.
pub open spec fn superclass_of(objects: Objects, class: Class) -> Class {
    if is_class(objects, class) {
        class_object(objects, class)->0.superclass
    } else {
        nil()
    }
}

/// The class that is `steps` superclasses above a class.
pub open spec fn ancestor(objects: Objects, class: Class, steps: nat) -> Class
    decreases steps,
{
    if steps == 0 {
        class
    } else {
        superclass_of(objects, ancestor(objects, class, (steps - 1) as nat))
    }
}

/// The chain of superclasses of a class leads to something that is no class.
pub open spec fn chain_ends(objects: Objects, class: Class) -> bool {
    exists|steps: nat| !is_class(objects, #[trigger] ancestor(objects, class, steps))
}

/// No class is its own ancestor: every chain of superclasses ends.
pub open spec fn hierarchy_ends(objects: Objects) -> bool {
    forall|class: Class| #[trigger] chain_ends(objects, class)
}

/// The class itself has a method for the selector.
pub open spec fn implements(objects: Objects, class: Class, selector: SEL) -> bool {
    is_class(objects, class) && class_object(objects, class)->0.methods@.contains_key(selector.0)
}

/// The class or one of its ancestors has a method for the selector.
pub open spec fn responds(objects: Objects, class: Class, selector: SEL) -> bool {
    exists|steps: nat| implements(objects, #[trigger] ancestor(objects, class, steps), selector)
}

/// The search for a method stops at a class: there is no class, or it has a
/// method for the selector and is not passed over because the call is a
/// super-call from it.
pub open spec fn stops_at(
    objects: Objects,
    start: Class,
    selector: SEL,
    super_call: bool,
    class: Class,
) -> bool {
    !is_class(objects, class) || (implements(objects, class, selector) && !(super_call && class
        == start))
}

/// The search for a method, from `start` upwards, stops after this many steps.
pub open spec fn search_takes(
    objects: Objects,
    start: Class,
    selector: SEL,
    super_call: bool,
    steps: nat,
) -> bool {
    &&& stops_at(objects, start, selector, super_call, ancestor(objects, start, steps))
    &&& forall|fewer: nat|
        fewer < steps ==> !stops_at(
            objects,
            start,
            selector,
            super_call,
            #[trigger] ancestor(objects, start, fewer),
        )
}

/// Where the search for a method ends: at the nearest class that it stops at.
pub open spec fn search_end(
    objects: Objects,
    start: Class,
    selector: SEL,
    super_call: bool,
) -> Class {
    ancestor(
        objects,
        start,
        choose|steps: nat| search_takes(objects, start, selector, super_call, steps),
    )
}

/// The first selector that goes by a name.
pub open spec fn selector_named(selectors: Seq<NamedSelector>, name: Seq<char>) -> Option<SEL>
    decreases selectors.len(),
{
    if selectors.len() == 0 {
        None
    } else if selectors[0].name@ == name {
        Some(selectors[0].selector)
    } else {
        selector_named(selectors.drop_first(), name)
    }
}

/// The name of a selector: the string that it points to.
pub open spec fn name_of(mem: Map<u32, u8>, selector: SEL) -> Seq<u8> {
    cstr_at(mem, selector.0)
}

/// The first class that is known by a name.
pub open spec fn class_named(classes: Seq<NamedClass>, name: Seq<char>) -> Option<Class>
    decreases classes.len(),
{
    if classes.len() == 0 {
        None
    } else if classes[0].name@ == name {
        Some(classes[0].class)
    } else {
        class_named(classes.drop_first(), name)
    }
}

/// Whatever is true of some number is true of a smallest one.
pub(crate) proof fn lemma_smallest(p: spec_fn(nat) -> bool, some: nat) -> (smallest: nat)
    requires
        p(some),
    ensures
        p(smallest),
        forall|n: nat| n < smallest ==> !#[trigger] p(n),
    decreases some,
{
    if exists|n: nat| n < some && #[trigger] p(n) {
        lemma_smallest(p, choose|n: nat| n < some && #[trigger] p(n))
    } else {
        some
    }
}

/// Above something that is no class there is nothing.
pub(crate) proof fn lemma_no_ancestors(objects: Objects, class: Class, steps: nat, more: nat)
    requires
        !is_class(objects, ancestor(objects, class, steps)),
        steps < more,
    ensures
        ancestor(objects, class, more) == nil(),
    decreases more,
{
    if steps < more - 1 {
        lemma_no_ancestors(objects, class, steps, (more - 1) as nat);
    }
}

/// The ancestors of the superclass are the ancestors of the class, one step on.
proof fn lemma_ancestor_of_superclass(objects: Objects, class: Class, steps: nat)
    ensures
        ancestor(objects, superclass_of(objects, class), steps) == ancestor(
            objects,
            class,
            steps + 1,
        ),
    decreases steps,
{
    reveal_with_fuel(ancestor, 2);
    if steps > 0 {
        lemma_ancestor_of_superclass(objects, class, (steps - 1) as nat);
    }
}

/// A search takes some number of steps, and only one.
pub(crate) proof fn lemma_search_end(
    objects: Objects,
    start: Class,
    selector: SEL,
    super_call: bool,
    steps: nat,
)
    requires
        search_takes(objects, start, selector, super_call, steps),
    ensures
        search_end(objects, start, selector, super_call) == ancestor(objects, start, steps),
{
    let chosen = choose|n: nat| search_takes(objects, start, selector, super_call, n);
    assert(search_takes(objects, start, selector, super_call, chosen));
    if chosen < steps {
        assert(!stops_at(objects, start, selector, super_call, ancestor(objects, start, chosen)));
    }
    if steps < chosen {
        assert(!stops_at(objects, start, selector, super_call, ancestor(objects, start, steps)));
    }
}

/// The class is `from` or one of its ancestors.
pub open spec fn leads_to(objects: Objects, from: Class, class: Class) -> bool {
    exists|steps: nat| #[trigger] ancestor(objects, from, steps) == class
}

/// Two runtimes have the same classes, but for what is at one address.
spec fn same_classes_but(one: Objects, other: Objects, at: Class) -> bool {
    forall|class: Class|
        class != at ==> #[trigger] is_class(one, class) == is_class(other, class) && superclass_of(
            one,
            class,
        ) == superclass_of(other, class)
}

/// Steps up the chain of superclasses add up.
pub(crate) proof fn lemma_ancestor_of_ancestor(objects: Objects, class: Class, first: nat, second: nat)
    ensures
        ancestor(objects, ancestor(objects, class, first), second) == ancestor(
            objects,
            class,
            first + second,
        ),
    decreases second,
{
    if second > 0 {
        lemma_ancestor_of_ancestor(objects, class, first, (second - 1) as nat);
    }
}

/// A chain that does not come by the address where two runtimes differ is the
/// same chain in both.
proof fn lemma_same_ancestors(one: Objects, other: Objects, at: Class, class: Class, steps: nat)
    requires
        same_classes_but(one, other, at),
        forall|fewer: nat| fewer < steps ==> #[trigger] ancestor(one, class, fewer) != at,
    ensures
        ancestor(other, class, steps) == ancestor(one, class, steps),
    decreases steps,
{
    if steps > 0 {
        lemma_same_ancestors(one, other, at, class, (steps - 1) as nat);
        assert(ancestor(one, class, (steps - 1) as nat) != at);
        assert(is_class(one, ancestor(one, class, (steps - 1) as nat)) == is_class(
            other,
            ancestor(one, class, (steps - 1) as nat),
        ));
    }
}

/// Every chain ends after a change at one address if the chain from there does.
proof fn lemma_hierarchy_ends_after(one: Objects, other: Objects, at: Class)
    requires
        hierarchy_ends(one),
        same_classes_but(one, other, at),
        chain_ends(other, at),
    ensures
        hierarchy_ends(other),
{
    assert forall|class: Class| #[trigger] chain_ends(other, class) by {
        assert(chain_ends(one, class));
        let end = choose|steps: nat| !is_class(one, #[trigger] ancestor(one, class, steps));
        lemma_chain_ends_after(one, other, at, class, end, 0);
    }
}

/// Follows one chain, `done` steps of which do not come by the address.
proof fn lemma_chain_ends_after(
    one: Objects,
    other: Objects,
    at: Class,
    class: Class,
    end: nat,
    done: nat,
)
    requires
        same_classes_but(one, other, at),
        chain_ends(other, at),
        !is_class(one, ancestor(one, class, end)),
        done <= end,
        forall|fewer: nat| fewer < done ==> #[trigger] ancestor(one, class, fewer) != at,
    ensures
        chain_ends(other, class),
    decreases end - done,
{
    lemma_same_ancestors(one, other, at, class, done);
    let current = ancestor(other, class, done);
    if current == at {
        let more = choose|steps: nat| !is_class(other, #[trigger] ancestor(other, at, steps));
        lemma_ancestor_of_ancestor(other, class, done, more);
        assert(!is_class(other, ancestor(other, class, done + more)));
    } else if done == end {
        assert(is_class(one, current) == is_class(other, current));
        assert(!is_class(other, ancestor(other, class, done)));
    } else {
        lemma_chain_ends_after(one, other, at, class, end, done + 1);
    }
}

/// A name that no selector had is found once it is appended.
proof fn lemma_selector_appended(selectors: Seq<NamedSelector>, entry: NamedSelector)
    ensures
        selector_named(selectors.push(entry), entry.name@) == match selector_named(
            selectors,
            entry.name@,
        ) {
            Some(known) => Some(known),
            None => Some(entry.selector),
        },
    decreases selectors.len(),
{
    reveal_with_fuel(selector_named, 2);
    if selectors.len() > 0 {
        assert(selectors.push(entry).drop_first() =~= selectors.drop_first().push(entry));
        lemma_selector_appended(selectors.drop_first(), entry);
    }
}

/// A name that no class had is found once it is appended.
proof fn lemma_class_appended(classes: Seq<NamedClass>, entry: NamedClass)
    ensures
        class_named(classes.push(entry), entry.name@) == match class_named(classes, entry.name@) {
            Some(known) => Some(known),
            None => Some(entry.class),
        },
    decreases classes.len(),
{
    reveal_with_fuel(class_named, 2);
    if classes.len() > 0 {
        assert(classes.push(entry).drop_first() =~= classes.drop_first().push(entry));
        lemma_class_appended(classes.drop_first(), entry);
    }
}

/// Without classes, every chain of superclasses ends where it starts.
pub(crate) proof fn lemma_empty_hierarchy_ends()
    ensures
        hierarchy_ends(Map::empty()),
{
    assert forall|class: Class| #[trigger] chain_ends(Map::empty(), class) by {
        assert(!is_class(Map::empty(), ancestor(Map::empty(), class, 0)));
    }
}

/// A chain of superclasses that ends has no more classes than there are objects.
proof fn lemma_chain_is_short(objects: Objects, class: Class)
    requires
        objects.dom().finite(),
        chain_ends(objects, class),
    ensures
        !is_class(objects, ancestor(objects, class, objects.dom().len())),
{
    let ends = |n: nat| !is_class(objects, ancestor(objects, class, n));
    let some = choose|steps: nat| !is_class(objects, #[trigger] ancestor(objects, class, steps));
    assert(ends(some));
    let end = lemma_smallest(ends, some);
    let chain = Seq::new(end, |i: int| ancestor(objects, class, i as nat).0);
    assert forall|i: int| 0 <= i < end implies is_class(
        objects,
        #[trigger] ancestor(objects, class, i as nat),
    ) by {
        assert(!ends(i as nat));
    }
    assert forall|i: int, j: int| 0 <= i < j < end implies chain[i] != chain[j] by {
        if chain[i] == chain[j] {
            let more = (end - j) as nat;
            lemma_ancestor_of_ancestor(objects, class, i as nat, more);
            lemma_ancestor_of_ancestor(objects, class, j as nat, more);
            assert(ancestor(objects, class, i as nat) == ancestor(objects, class, j as nat));
            assert(is_class(objects, ancestor(objects, class, (i + more) as nat)));
        }
    }
    chain.unique_seq_to_set();
    assert forall|address: u32| chain.to_set().contains(address) implies objects.dom().contains(
        address,
    ) by {
        let i = choose|i: int| 0 <= i < chain.len() && chain[i] == address;
        assert(is_class(objects, ancestor(objects, class, i as nat)));
    }
    vstd::set_lib::lemma_len_subset(chain.to_set(), objects.dom());
    if end < objects.dom().len() {
        lemma_no_ancestors(objects, class, end, objects.dom().len());
    }
}

impl SEL {
    /// The name of the selector.
    pub fn name(self, mem: &Mem) -> (result: Vec<u8>)
        ensures
            result@ == name_of(mem@, self),
    {
        mem.read_cstr(self.0)
    }
}

/// The class of an object.
pub fn read_isa(object: id, mem: &Mem) -> (result: Class)
    ensures
        result == isa(mem@, object),
{
    id(mem.read_word(object.0))
}

impl ObjC {
    /// A runtime that knows nothing yet.
    pub fn new() -> (objc: ObjC)
        ensures
            objc.host_objects@ == Map::<u32, HostObject>::empty(),
            objc.initialized_classes@ == Set::<u32>::empty(),
            objc.selectors@ == Seq::<NamedSelector>::empty(),
            objc.known_classes@ == Seq::<NamedClass>::empty(),
            objc.message_type_info is None,
    {
        ObjC {
            host_objects: HashMap::new(),
            initialized_classes: HashSet::new(),
            selectors: Vec::new(),
            known_classes: Vec::new(),
            message_type_info: None,
        }
    }

    /// The host's side of an object.
    pub fn get_host_object(&self, object: id) -> (result: Option<&HostObject>)
        ensures
            match result {
                Some(host_object) => self.host_objects@.contains_key(object.0)
                    && *host_object == self.host_objects@[object.0],
                None => !self.host_objects@.contains_key(object.0),
            },
    {
        self.host_objects.get(&object.0)
    }

    /// The host's side of an object, if that object is an implemented class.
    pub fn get_class_object(&self, class: Class) -> (result: Option<&ClassHostObject>)
        ensures
            match result {
                Some(object) => class_object(self.host_objects@, class) == Some(*object),
                None => class_object(self.host_objects@, class) is None,
            },
    {
        match self.get_host_object(class) {
            Some(HostObject::Class(object)) => Some(object),
            _ => None,
        }
    }

    /// The selector of a name, if there is one.
    pub fn lookup_selector(&self, name: &str) -> (result: Option<SEL>)
        ensures
            result == selector_named(self.selectors@, name@),
    {
        let mut i: usize = 0;
        assert(self.selectors@.skip(0) =~= self.selectors@);
        while i < self.selectors.len()
            invariant
                i <= self.selectors.len(),
                selector_named(self.selectors@.skip(i as int), name@) == selector_named(
                    self.selectors@,
                    name@,
                ),
            decreases self.selectors.len() - i,
        {
            if same_text(self.selectors[i].name.as_str(), name) {
                return Some(self.selectors[i].selector);
            }
            assert(self.selectors@.skip(i as int).drop_first() =~= self.selectors@.skip(i + 1));
            i += 1;
        }
        None
    }

    /// The class that is known by a name, if there is one.
    pub fn lookup_known_class(&self, name: &str) -> (result: Option<Class>)
        ensures
            result == class_named(self.known_classes@, name@),
    {
        let mut i: usize = 0;
        assert(self.known_classes@.skip(0) =~= self.known_classes@);
        while i < self.known_classes.len()
            invariant
                i <= self.known_classes.len(),
                class_named(self.known_classes@.skip(i as int), name@) == class_named(
                    self.known_classes@,
                    name@,
                ),
            decreases self.known_classes.len() - i,
        {
            if same_text(self.known_classes[i].name.as_str(), name) {
                return Some(self.known_classes[i].class);
            }
            assert(self.known_classes@.skip(i as int).drop_first() =~= self.known_classes@.skip(
                i + 1,
            ));
            i += 1;
        }
        None
    }

    /// Whether a class or one of its ancestors has a method for a selector.
    pub fn class_has_method(&self, class: Class, selector: SEL) -> (result: bool)
        requires
            chain_ends(self.host_objects@, class),
        ensures
            result == responds(self.host_objects@, class, selector),
    {
        let ghost objects = self.host_objects@;
        let ghost end = choose|steps: nat| !is_class(objects, #[trigger] ancestor(objects, class, steps));
        let ghost mut steps: nat = 0;
        let mut current = class;
        while current != nil()
            invariant
                objects == self.host_objects@,
                current == ancestor(objects, class, steps),
                steps <= end + 1,
                !is_class(objects, ancestor(objects, class, end)),
                forall|fewer: nat|
                    fewer < steps ==> !implements(
                        objects,
                        #[trigger] ancestor(objects, class, fewer),
                        selector,
                    ),
            ensures
                current == ancestor(objects, class, steps),
                !is_class(objects, current),
            decreases end + 1 - steps,
        {
            let object = match self.get_class_object(current) {
                Some(object) => object,
                None => {
                    break ;
                },
            };
            if object.methods.contains_key(&selector.0) {
                assert(implements(objects, ancestor(objects, class, steps), selector));
                return true;
            }
            proof {
                if steps > end {
                    lemma_no_ancestors(objects, class, end, steps);
                }
                steps = steps + 1;
            }
            current = object.superclass;
        }
        assert forall|any: nat| !implements(objects, #[trigger] ancestor(objects, class, any), selector) by {
            if any > steps {
                lemma_no_ancestors(objects, class, steps, any);
            }
        }
        false
    }

    /// Walks up the chain of superclasses to where the search for a method ends.
    pub fn search(&self, start: Class, selector: SEL, super_call: bool) -> (result: Class)
        requires
            chain_ends(self.host_objects@, start),
        ensures
            result == search_end(self.host_objects@, start, selector, super_call),
            stops_at(self.host_objects@, start, selector, super_call, result),
    {
        let ghost objects = self.host_objects@;
        let ghost end = choose|steps: nat| !is_class(objects, #[trigger] ancestor(objects, start, steps));
        let ghost mut steps: nat = 0;
        let mut current = start;
        while current != nil()
            invariant
                objects == self.host_objects@,
                current == ancestor(objects, start, steps),
                steps <= end + 1,
                !is_class(objects, ancestor(objects, start, end)),
                forall|fewer: nat|
                    fewer < steps ==> !stops_at(
                        objects,
                        start,
                        selector,
                        super_call,
                        #[trigger] ancestor(objects, start, fewer),
                    ),
            ensures
                current == ancestor(objects, start, steps),
                stops_at(objects, start, selector, super_call, current),
                forall|fewer: nat|
                    fewer < steps ==> !stops_at(
                        objects,
                        start,
                        selector,
                        super_call,
                        #[trigger] ancestor(objects, start, fewer),
                    ),
            decreases end + 1 - steps,
        {
            let object = match self.get_class_object(current) {
                Some(object) => object,
                None => {
                    break ;
                },
            };
            // A super-call passes over the class that it is made from.
            if !(super_call && current == start) && object.methods.contains_key(&selector.0) {
                break ;
            }
            proof {
                if steps > end {
                    lemma_no_ancestors(objects, start, end, steps);
                }
                steps = steps + 1;
            }
            current = object.superclass;
        }
        proof {
            lemma_search_end(objects, start, selector, super_call, steps);
        }
        current
    }

    /// Whether a class is another class or one of its ancestors.
    pub fn is_above(&self, from: Class, class: Class) -> (result: bool)
        requires
            chain_ends(self.host_objects@, from),
            class != nil(),
        ensures
            result == leads_to(self.host_objects@, from, class),
    {
        let ghost objects = self.host_objects@;
        let ghost end = choose|steps: nat| !is_class(objects, #[trigger] ancestor(objects, from, steps));
        let ghost mut steps: nat = 0;
        let mut current = from;
        while current != nil()
            invariant
                objects == self.host_objects@,
                current == ancestor(objects, from, steps),
                steps <= end + 1,
                !is_class(objects, ancestor(objects, from, end)),
                class != nil(),
                forall|fewer: nat| fewer < steps ==> #[trigger] ancestor(objects, from, fewer) != class,
            ensures
                current == ancestor(objects, from, steps),
                !is_class(objects, current),
                current != class,
                forall|fewer: nat| fewer < steps ==> #[trigger] ancestor(objects, from, fewer) != class,
            decreases end + 1 - steps,
        {
            if current == class {
                assert(ancestor(objects, from, steps) == class);
                return true;
            }
            let object = match self.get_class_object(current) {
                Some(object) => object,
                None => {
                    break ;
                },
            };
            proof {
                if steps > end {
                    lemma_no_ancestors(objects, from, end, steps);
                }
                steps = steps + 1;
            }
            current = object.superclass;
        }
        assert forall|any: nat| #[trigger] ancestor(objects, from, any) != class by {
            if any > steps {
                lemma_no_ancestors(objects, from, steps, any);
            }
        }
        false
    }

    /// Whether the chain of superclasses of a class ends.
    fn check_chain(&self, class: Class) -> (result: bool)
        ensures
            result == chain_ends(self.host_objects@, class),
    {
        let ghost objects = self.host_objects@;
        let most: usize = self.host_objects.len();
        let mut steps: usize = 0;
        let mut current = class;
        while current != nil()
            invariant
                objects == self.host_objects@,
                most == objects.dom().len(),
                steps <= most,
                current == ancestor(objects, class, steps as nat),
            ensures
                current == ancestor(objects, class, steps as nat),
                !is_class(objects, current),
            decreases most - steps,
        {
            let superclass = match self.get_class_object(current) {
                Some(object) => object.superclass,
                None => {
                    break ;
                },
            };
            if steps == most {
                proof {
                    if chain_ends(objects, class) {
                        lemma_chain_is_short(objects, class);
                    }
                }
                return false;
            }
            steps += 1;
            current = superclass;
        }
        assert(!is_class(objects, ancestor(objects, class, steps as nat)));
        true
    }

    /// Whether no class is its own ancestor.
    pub fn check_hierarchy(&self) -> (result: bool)
        ensures
            result == hierarchy_ends(self.host_objects@),
    {
        let ghost objects = self.host_objects@;
        for address in it: self.host_objects.keys()
            invariant
                objects == self.host_objects@,
                it.seq().unref().to_set() == objects.dom(),
                forall|i: int|
                    0 <= i < it.index() ==> chain_ends(objects, id(*#[trigger] it.seq()[i])),
        {
            if !self.check_chain(id(*address)) {
                return false;
            }
        }
        assert forall|class: Class| #[trigger] chain_ends(objects, class) by {
            assert(is_class(objects, class) ==> objects.dom().contains(class.0));
            if !is_class(objects, class) {
                assert(!is_class(objects, ancestor(objects, class, 0)));
            }
        }
        true
    }

    /// Makes a class known to the runtime. A class that would be its own ancestor
    /// is refused, and so is one at `nil`.
    pub fn define_class(&mut self, class: Class, object: ClassHostObject) -> (accepted: bool)
        requires
            hierarchy_ends(old(self).host_objects@),
        ensures
            accepted == (class != nil() && !leads_to(
                old(self).host_objects@,
                object.superclass,
                class,
            )),
            final(self).host_objects@ == if accepted {
                old(self).host_objects@.insert(class.0, HostObject::Class(object))
            } else {
                old(self).host_objects@
            },
            final(self).initialized_classes == old(self).initialized_classes,
            final(self).selectors == old(self).selectors,
            final(self).known_classes == old(self).known_classes,
            final(self).message_type_info == old(self).message_type_info,
            hierarchy_ends(final(self).host_objects@),
    {
        proof {
            assert(chain_ends(self.host_objects@, object.superclass));
        }
        if class == nil() || self.is_above(object.superclass, class) {
            return false;
        }
        let ghost superclass = object.superclass;
        self.host_objects.insert(class.0, HostObject::Class(object));
        proof {
            let one = old(self).host_objects@;
            let other = self.host_objects@;
            let end = choose|steps: nat| !is_class(one, #[trigger] ancestor(one, superclass, steps));
            assert(forall|steps: nat| #[trigger] ancestor(one, superclass, steps) != class);
            lemma_same_ancestors(one, other, class, superclass, end);
            lemma_ancestor_of_superclass(other, class, end);
            assert(is_class(one, ancestor(one, superclass, end)) == is_class(
                other,
                ancestor(one, superclass, end),
            ));
            assert(!is_class(other, ancestor(other, class, end + 1)));
            lemma_hierarchy_ends_after(one, other, class);
        }
        true
    }

    /// Gives an object a host's side that is no class.
    pub fn set_host_object(&mut self, object: id, host_object: HostObject)
        requires
            !(host_object is Class),
        ensures
            final(self).host_objects@ == old(self).host_objects@.insert(object.0, host_object),
            final(self).initialized_classes == old(self).initialized_classes,
            final(self).selectors == old(self).selectors,
            final(self).known_classes == old(self).known_classes,
            final(self).message_type_info == old(self).message_type_info,
            hierarchy_ends(old(self).host_objects@) ==> hierarchy_ends(final(self).host_objects@),
    {
        self.host_objects.insert(object.0, host_object);
        proof {
            let one = old(self).host_objects@;
            let other = self.host_objects@;
            assert(!is_class(other, ancestor(other, object, 0)));
            if hierarchy_ends(one) {
                lemma_hierarchy_ends_after(one, other, object);
            }
        }
    }

    /// Forgets the host's side of an object.
    pub fn remove_host_object(&mut self, object: id)
        ensures
            final(self).host_objects@ == old(self).host_objects@.remove(object.0),
            final(self).initialized_classes == old(self).initialized_classes,
            final(self).selectors == old(self).selectors,
            final(self).known_classes == old(self).known_classes,
            final(self).message_type_info == old(self).message_type_info,
            hierarchy_ends(old(self).host_objects@) ==> hierarchy_ends(final(self).host_objects@),
    {
        self.host_objects.remove(&object.0);
        proof {
            let one = old(self).host_objects@;
            let other = self.host_objects@;
            assert(!is_class(other, ancestor(other, object, 0)));
            if hierarchy_ends(one) {
                lemma_hierarchy_ends_after(one, other, object);
            }
        }
    }

    /// Registers a selector under its name, unless the name has one already, and
    /// returns the selector that the name then has.
    pub fn register_selector(&mut self, name: String, selector: SEL) -> (result: SEL)
        ensures
            match selector_named(old(self).selectors@, name@) {
                Some(known) => result == known && *final(self) == *old(self),
                None => {
                    &&& result == selector
                    &&& final(self).selectors@ == old(self).selectors@.push(
                        (NamedSelector { name, selector }),
                    )
                    &&& final(self).host_objects == old(self).host_objects
                    &&& final(self).initialized_classes == old(self).initialized_classes
                    &&& final(self).known_classes == old(self).known_classes
                    &&& final(self).message_type_info == old(self).message_type_info
                },
            },
            selector_named(final(self).selectors@, name@) == Some(result),
    {
        match self.lookup_selector(name.as_str()) {
            Some(known) => known,
            None => {
                proof {
                    lemma_selector_appended(self.selectors@, NamedSelector { name, selector });
                }
                self.selectors.push(NamedSelector { name, selector });
                selector
            },
        }
    }

    /// Makes a class known by a name. The first class of a name keeps it.
    pub fn register_known_class(&mut self, name: String, class: Class)
        ensures
            final(self).known_classes@ == old(self).known_classes@.push((NamedClass { name, class })),
            final(self).host_objects == old(self).host_objects,
            final(self).initialized_classes == old(self).initialized_classes,
            final(self).selectors == old(self).selectors,
            final(self).message_type_info == old(self).message_type_info,
            class_named(final(self).known_classes@, name@) == match class_named(
                old(self).known_classes@,
                name@,
            ) {
                Some(known) => Some(known),
                None => Some(class),
            },
    {
        proof {
            lemma_class_appended(self.known_classes@, NamedClass { name, class });
        }
        self.known_classes.push(NamedClass { name, class });
    }
}

} // verus!
