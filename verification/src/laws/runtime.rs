//! What the runtime, the memory and the registers do, operation by operation.
use super::dispatch::agrees_from;
use super::paths::{
    being_above_is_being_on_a_path, is_search, known_first, leads_to_method, leads_up, lemma_search_path,
    named_first, names_lead_to_the_first_class, names_lead_to_the_first_selector, responding_is_having_or_inheriting,
};
use super::sending::{top_of_stack, words_in_place, words_on_stack};
use super::words::{
    addresses_count_bytes, byte, strings_end_at_the_first_zero, words_are_four_bytes, writing_a_string_writes_its_bytes,
    writing_a_word_writes_four_bytes,
};
use crate::abi::{
    argument, enter_host_call, leave_host_call, struct_answer, take_answer, write_next_arg, Answer, HostFrame,
};
use crate::args::{GuestArg, MessageArgs, MessageParts, Receiver, RestArgs};
use crate::env::{Counters, Environment, Model};
use crate::mem::{above, below, with_cstr, with_word, word_at, Mem};
use crate::objc::{
    chain_ends, hierarchy_ends, id, nil, read_isa, Class, ClassHostObject, HostIMP, HostObject,
    NamedClass, NamedSelector, ObjC, SEL,
};
use crate::signature::{info_of, is_id_of, MsgSendSignature, TypeInfo};
use crate::text::{characters, contains, same_bytes, same_text, starts_with};
use vstd::prelude::*;
use vstd::utf8::encode_utf8;

verus! {

/// `nil` is the pointer of zero.
pub proof fn nil_is_zero(result: id)
    requires
        call_ensures(nil, (), result),
    ensures
        result.0 == 0,
{
}

/// What the host keeps about an object is what is under its address.
pub proof fn objects_are_found_by_their_address(
    objc: &ObjC,
    object: id,
    found: Option<&HostObject>,
    class: Option<&ClassHostObject>,
)
    ensures
        call_ensures(ObjC::get_host_object, (objc, object), found) ==> match found {
            Some(host_object) => objc.host_objects@.contains_key(object.0)
                && objc.host_objects@[object.0] == *host_object,
            None => !objc.host_objects@.contains_key(object.0),
        },
        call_ensures(ObjC::get_class_object, (objc, object), class) ==> match class {
            Some(class) => objc.host_objects@.contains_key(object.0)
                && objc.host_objects@[object.0] == HostObject::Class(*class),
            None => objc.host_objects@.contains_key(object.0)
                ==> !(objc.host_objects@[object.0] is Class),
        },
{
}

/// Names lead to the first selector and to the first class that go by them.
pub proof fn names_are_looked_up(objc: &ObjC, name: &str, selector: Option<SEL>, class: Option<Class>)
    ensures
        call_ensures(ObjC::lookup_selector, (objc, name), selector) ==> match selector {
            Some(found) => named_first(objc.selectors@, name@, found),
            None => forall|i: int|
                0 <= i < objc.selectors@.len() ==> (#[trigger] objc.selectors@[i]).name@ != name@,
        },
        call_ensures(ObjC::lookup_known_class, (objc, name), class) ==> match class {
            Some(found) => known_first(objc.known_classes@, name@, found),
            None => forall|i: int|
                0 <= i < objc.known_classes@.len() ==> (#[trigger] objc.known_classes@[i]).name@
                    != name@,
        },
{
    names_lead_to_the_first_selector(objc.selectors@, name@);
    names_lead_to_the_first_class(objc.known_classes@, name@);
}

/// A class has a method exactly if superclasses lead from it to a class whose table has
/// the selector.
pub proof fn classes_have_what_their_chain_has(objc: &ObjC, class: Class, selector: SEL, result: bool)
    requires
        chain_ends(objc.host_objects@, class),
        call_ensures(ObjC::class_has_method, (objc, class, selector), result),
    ensures
        result <==> exists|path: Seq<Class>| #[trigger]
            leads_to_method(objc.host_objects@, class, selector, path),
{
    responding_is_having_or_inheriting(objc.host_objects@, class, selector);
}

/// A search comes to the end of the way that it takes.
pub proof fn searches_come_to_their_end(
    objc: &ObjC,
    start: Class,
    selector: SEL,
    super_call: bool,
    path: Seq<Class>,
    result: Class,
)
    requires
        chain_ends(objc.host_objects@, start),
        is_search(objc.host_objects@, start, selector, super_call, path),
        call_ensures(ObjC::search, (objc, start, selector, super_call), result),
    ensures
        result == path.last(),
{
    lemma_search_path(objc.host_objects@, start, selector, super_call, path);
}

/// The class of an object is its first word, and the name of a selector the string that it
/// points to: the bytes up to the first that is zero.
pub proof fn pointers_lead_to_words_and_names(
    mem: &Mem,
    object: id,
    class: Class,
    selector: SEL,
    name: Vec<u8>,
)
    ensures
        call_ensures(read_isa, (object, mem), class) ==> class.0 == byte(mem@, object.0 as int)
            + byte(mem@, object.0 + 1) * 0x100 + byte(mem@, object.0 + 2) * 0x1_0000 + byte(
            mem@,
            object.0 + 3,
        ) * 0x100_0000,
        call_ensures(SEL::name, (selector, mem), name) ==> {
            &&& forall|i: int|
                0 <= i < name@.len() ==> #[trigger] name@[i] == byte(mem@, selector.0 + i)
                    && name@[i] != 0
            &&& name@.len() < 0x1_0000_0000 ==> byte(mem@, selector.0 + name@.len()) == 0
        },
{
    words_are_four_bytes(mem@, object.0);
    strings_end_at_the_first_zero(mem@, selector.0);
}

/// A class that is defined is known afterwards, unless it would be its own ancestor or is
/// `nil`: then nothing changes.
pub proof fn classes_are_defined_unless_they_are_their_own_ancestors(
    objc: &mut ObjC,
    class: Class,
    object: ClassHostObject,
    accepted: bool,
)
    requires
        hierarchy_ends(old(objc).host_objects@),
        call_ensures(ObjC::define_class, (objc, class, object), accepted),
    ensures
        accepted <==> class.0 != 0 && !(exists|path: Seq<Class>| #[trigger]
            leads_up(old(objc).host_objects@, object.superclass, class, path)),
        final(objc).host_objects@ == if accepted {
            old(objc).host_objects@.insert(class.0, HostObject::Class(object))
        } else {
            old(objc).host_objects@
        },
        final(objc).initialized_classes@ == old(objc).initialized_classes@,
        final(objc).selectors@ == old(objc).selectors@,
        final(objc).known_classes@ == old(objc).known_classes@,
        final(objc).message_type_info == old(objc).message_type_info,
{
    if class.0 != 0 {
        being_above_is_being_on_a_path(old(objc).host_objects@, object.superclass, class);
    }
}

/// What the host keeps about an object is replaced or forgotten under its address, and
/// nothing else is.
pub proof fn objects_are_replaced_and_forgotten(objc: &mut ObjC, object: id, host_object: HostObject)
    ensures
        call_ensures(ObjC::set_host_object, (objc, object, host_object), ())
            ==> final(objc).host_objects@ == old(objc).host_objects@.insert(object.0, host_object)
            && final(objc).initialized_classes@ == old(objc).initialized_classes@ && final(objc).selectors@ == old(objc).selectors@ && final(objc).known_classes@ == old(objc).known_classes@ && final(objc).message_type_info == old(objc).message_type_info,
        call_ensures(ObjC::remove_host_object, (objc, object), ()) ==> final(objc).host_objects@
            == old(objc).host_objects@.remove(object.0) && final(objc).initialized_classes@ == old(objc).initialized_classes@ && final(objc).selectors@ == old(objc).selectors@ && final(objc).known_classes@ == old(objc).known_classes@ && final(objc).message_type_info == old(objc).message_type_info,
{
}

/// A name that has a selector keeps it; else it gets the one that is registered, behind
/// all others.
pub proof fn selectors_are_registered_once(objc: &mut ObjC, name: String, selector: SEL, result: SEL)
    requires
        call_ensures(ObjC::register_selector, (objc, name, selector), result),
    ensures
        forall|known: SEL| #[trigger]
            named_first(old(objc).selectors@, name@, known) ==> result == known && final(objc).selectors@ == old(objc).selectors@,
        (forall|i: int|
            0 <= i < old(objc).selectors@.len() ==> (#[trigger] old(objc).selectors@[i]).name@
                != name@) ==> result == selector && final(objc).selectors@ == old(objc).selectors@.push(NamedSelector { name, selector }),
        final(objc).host_objects@ == old(objc).host_objects@,
        final(objc).initialized_classes@ == old(objc).initialized_classes@,
        final(objc).known_classes@ == old(objc).known_classes@,
        final(objc).message_type_info == old(objc).message_type_info,
{
    names_lead_to_the_first_selector(old(objc).selectors@, name@);
}

/// A class that is made known by a name stands behind all that are known already.
pub proof fn classes_are_made_known_in_order(objc: &mut ObjC, name: String, class: Class)
    requires
        call_ensures(ObjC::register_known_class, (objc, name, class), ()),
    ensures
        final(objc).known_classes@ == old(objc).known_classes@.push(NamedClass { name, class }),
        final(objc).host_objects@ == old(objc).host_objects@,
        final(objc).initialized_classes@ == old(objc).initialized_classes@,
        final(objc).selectors@ == old(objc).selectors@,
        final(objc).message_type_info == old(objc).message_type_info,
{
}

/// Registering a selector for the guest writes its name to where it points, if it is new.
pub proof fn selectors_point_to_their_names(
    env: &mut Environment,
    name: String,
    selector: SEL,
    result: SEL,
)
    requires
        call_ensures(Environment::register_selector, (env, name, selector), result),
    ensures
        forall|known: SEL| #[trigger]
            named_first(old(env)@.selectors, name@, known) ==> result == known && final(env)@ == old(env)@,
        (forall|i: int|
            0 <= i < old(env)@.selectors.len() ==> (#[trigger] old(env)@.selectors[i]).name@
                != name@) ==> result == selector && final(env)@ == (Model {
            mem: with_cstr(old(env)@.mem, selector.0, encode_utf8(name@)),
            selectors: old(env)@.selectors.push(NamedSelector { name, selector }),
            ..old(env)@
        }),
{
    names_lead_to_the_first_selector(old(env)@.selectors, name@);
}

/// A guest that has done nothing yet knows nothing, and nothing is counted.
pub proof fn guests_begin_with_nothing(env: Environment, counters: Counters)
    ensures
        call_ensures(Environment::new, (), env) ==> {
            &&& env@.regs.len() == 16
            &&& forall|i: int| 0 <= i < 16 ==> #[trigger] env@.regs[i] == 0
            &&& forall|at: u32| !#[trigger] env@.mem.contains_key(at)
            &&& forall|at: u32| !#[trigger] env@.objects.contains_key(at)
            &&& forall|at: u32| !#[trigger] env@.initialized.contains(at)
            &&& env@.selectors.len() == 0
            &&& env@.known_classes.len() == 0
            &&& env@.message_type_info is None
            &&& env@.dispatch_depth == 0
            &&& env@.nil_isa_count == 0
            &&& env@.request_depth == 0
        },
        call_ensures(Counters::new, (), counters) ==> counters.dispatch_depth == 0
            && counters.nil_isa_count == 0 && counters.request_depth == 0,
{
}

/// Addresses above and below another count bytes, and wrap around.
pub proof fn addresses_above_and_below(base: u32, offset: u32, result: u32)
    ensures
        call_ensures(above, (base, offset), result) ==> result == (base + offset) % 0x1_0000_0000,
        call_ensures(below, (base, offset), result) ==> result == (base - offset) % 0x1_0000_0000,
{
    addresses_count_bytes(base, offset as int);
    addresses_count_bytes(base, -offset);
}

/// Bytes, words and strings are read as they are in memory.
pub proof fn memory_is_read(mem: &Mem, at: u32, one: u8, word: u32, text: Vec<u8>)
    ensures
        call_ensures(Mem::read_byte, (mem, at), one) ==> one == byte(mem@, at as int),
        call_ensures(Mem::read_word, (mem, at), word) ==> word == byte(mem@, at as int) + byte(
            mem@,
            at + 1,
        ) * 0x100 + byte(mem@, at + 2) * 0x1_0000 + byte(mem@, at + 3) * 0x100_0000,
        call_ensures(Mem::read_cstr, (mem, at), text) ==> {
            &&& forall|i: int|
                0 <= i < text@.len() ==> #[trigger] text@[i] == byte(mem@, at + i) && text@[i] != 0
            &&& text@.len() < 0x1_0000_0000 ==> byte(mem@, at + text@.len()) == 0
        },
{
    words_are_four_bytes(mem@, at);
    strings_end_at_the_first_zero(mem@, at);
}

/// Words and strings are written byte by byte, and no other byte is.
pub proof fn memory_is_written(mem: &mut Mem, at: u32, word: u32, text: &[u8], other: int)
    requires
        text@.len() < 0x1_0000_0000,
    ensures
        call_ensures(Mem::write_word, (mem, at, word), ()) ==> {
            &&& byte(final(mem)@, at as int) == word % 0x100
            &&& byte(final(mem)@, at + 1) == word / 0x100 % 0x100
            &&& byte(final(mem)@, at + 2) == word / 0x1_0000 % 0x100
            &&& byte(final(mem)@, at + 3) == word / 0x100_0000
            &&& (other - at) % 0x1_0000_0000 >= 4 ==> byte(final(mem)@, other) == byte(
                old(mem)@,
                other,
            )
        },
        call_ensures(Mem::write_cstr, (mem, at, text), ()) ==> {
            &&& forall|i: int| 0 <= i < text@.len() ==> byte(final(mem)@, at + i) == #[trigger] text@[i]
            &&& byte(final(mem)@, at + text@.len()) == 0
            &&& (other - at) % 0x1_0000_0000 > text@.len() ==> byte(final(mem)@, other) == byte(
                old(mem)@,
                other,
            )
        },
{
    writing_a_word_writes_four_bytes(old(mem)@, at, word, other);
    writing_a_string_writes_its_bytes(old(mem)@, at, text@, other);
}

/// Texts are compared and searched character by character.
pub proof fn texts_are_compared(one: &str, other: &str, list: Vec<char>, result: bool)
    ensures
        call_ensures(characters, (one,), list) ==> list@ == one@,
        call_ensures(same_text, (one, other), result) ==> (result <==> one@.len() == other@.len()
            && agrees_from(one@, other@, 0)),
        call_ensures(starts_with, (one, other), result) ==> (result <==> agrees_from(
            one@,
            other@,
            0,
        )),
{
    super::dispatch::texts_are_found_character_by_character(one@, other@);
    if one@.len() == other@.len() && agrees_from(one@, other@, 0) {
        assert forall|i: int| 0 <= i < one@.len() implies one@[i] == other@[i] by {
            assert(one@[0 + i] == other@[i]);
        }
        assert(one@ =~= other@);
    }
}

/// Bytes are compared and searched one by one.
pub proof fn bytes_are_compared(one: &[u8], other: &[u8], result: bool)
    ensures
        call_ensures(same_bytes, (one, other), result) ==> (result <==> one@.len() == other@.len()
            && agrees_from(one@, other@, 0)),
        call_ensures(contains, (one, other), result) ==> (result <==> exists|at: int| #[trigger]
            agrees_from(one@, other@, at)),
{
    super::dispatch::texts_are_found_character_by_character(one@, other@);
    if one@.len() == other@.len() && agrees_from(one@, other@, 0) {
        assert forall|i: int| 0 <= i < one@.len() implies one@[i] == other@[i] by {
            assert(one@[0 + i] == other@[i]);
        }
        assert(one@ =~= other@);
    }
}

/// A call from the host has its words in their places, and remembers what it will give
/// back.
pub proof fn calls_from_the_host_begin(
    env: &mut Environment,
    struct_size: Option<u32>,
    words: &Vec<u32>,
    frame: HostFrame,
    other: int,
)
    requires
        words@.len() < 0x3fff_fff0,
        call_ensures(enter_host_call, (env, struct_size, words), frame),
        old(env)@.regs.len() == 16,
    ensures
        frame.sp == old(env)@.regs[13],
        frame.lr == old(env)@.regs[14],
        words_in_place(old(env)@.regs, struct_size, words@, final(env)@.regs, final(env)@.mem),
        final(env)@ == (Model { regs: final(env)@.regs, mem: final(env)@.mem, ..old(env)@ }),
        (other - top_of_stack(old(env)@.regs[13], struct_size, words@)) % 0x1_0000_0000 >= 4
            * words_on_stack(old(env)@.regs[13], struct_size, words@) ==> byte(
            final(env)@.mem,
            other,
        ) == byte(old(env)@.mem, other),
{
    super::sending::calls_pass_their_words(old(env)@, struct_size, words@, other);
}

/// A call from the host ends with the stack pointer and the link register that it
/// remembered. Its answer is in the registers.
pub proof fn calls_from_the_host_end<R: Answer>(env: &mut Environment, frame: HostFrame, answer: R)
    requires
        old(env)@.regs.len() == 16,
    ensures
        call_ensures(leave_host_call, (env, frame), ()) ==> {
            &&& final(env)@.regs =~= old(env)@.regs.update(13, frame.sp).update(14, frame.lr)
            &&& final(env)@ == Model { regs: final(env)@.regs, ..old(env)@ }
        },
        call_ensures(take_answer::<R>, (env, frame), answer) ==> {
            &&& final(env)@.regs =~= old(env)@.regs.update(13, frame.sp).update(14, frame.lr)
            &&& final(env)@ == Model { regs: final(env)@.regs, ..old(env)@ }
            &&& answer == R::of_regs(final(env)@.regs)
        },
{
}

/// A struct that was returned in memory is read from right below the stack pointer.
pub proof fn structs_are_returned_below_the_stack_pointer(
    env: &Environment,
    frame: HostFrame,
    size: u32,
    bytes: Vec<u8>,
)
    requires
        call_ensures(struct_answer, (env, frame, size), bytes),
    ensures
        bytes@.len() == size,
        forall|i: int|
            0 <= i < size ==> #[trigger] bytes@[i] == byte(env@.mem, frame.sp - size + i),
{
    assert forall|i: int| 0 <= i < size implies #[trigger] bytes@[i] == byte(
        env@.mem,
        frame.sp - size + i,
    ) by {
        addresses_count_bytes(frame.sp, -size);
        addresses_count_bytes(crate::mem::address(frame.sp, -size), i);
        assert((frame.sp - size + i) % 0x1_0000_0000 == ((frame.sp - size) % 0x1_0000_0000 + i)
            % 0x1_0000_0000);
    }
}

/// An argument after the selector is in the third or the fourth register, or on the
/// stack.
pub proof fn arguments_are_read(env: &Environment, number: u32, word: u32)
    requires
        env@.regs.len() == 16,
        call_ensures(argument, (env, number), word),
    ensures
        word == if number == 0 {
            env@.regs[2]
        } else if number == 1 {
            env@.regs[3]
        } else {
            word_at(env@.mem, ((env@.regs[13] + 4 * (number - 2)) % 0x1_0000_0000) as u32)
        },
{
    addresses_count_bytes(env@.regs[13], 4 * (number - 2));
}

/// The words of arguments are written one after the other: four to registers, the others
/// to the stack.
pub proof fn arguments_are_written_in_order(
    number: &mut usize,
    regs: &mut [u32; 16],
    mem: &mut Mem,
    word: u32,
)
    requires
        call_ensures(write_next_arg, (number, regs, mem, word), ()),
    ensures
        *final(number) == *old(number) + 1,
        if *old(number) < 4 {
            &&& final(regs)@ == old(regs)@.update(*old(number) as int, word)
            &&& final(mem)@ == old(mem)@
        } else {
            &&& final(regs)@ == old(regs)@
            &&& final(mem)@ == with_word(
                old(mem)@,
                ((old(regs)@[13] + 4 * (*old(number) - 4)) % 0x1_0000_0000) as u32,
                word,
            )
        },
{
    addresses_count_bytes(old(regs)@[13], 4 * (*old(number) - 4));
}

/// The parts of a message are what it is made of, whatever its arguments are.
pub proof fn messages_are_taken_apart<P: MessageArgs, A: RestArgs, F: Receiver, G: GuestArg>(
    message: P,
    parts: MessageParts,
    args: A,
    list: Vec<u32>,
    receiver: F,
    word: u32,
    value: G,
    words: &mut Vec<u32>,
)
    ensures
        call_ensures(P::into_parts, (message,), parts) ==> parts.receiver == message.receiver()
            && parts.selector == message.selector() && parts.rest@ == message.rest(),
        call_ensures(A::to_words, (args,), list) ==> list@ == args.words(),
        call_ensures(F::to_word, (receiver,), word) ==> word == receiver.word(),
        call_ensures(G::push_words, (value, words), ()) ==> final(words)@ == old(words)@
            + value.words(),
{
}

/// A method of the host says of its type what it was made with.
pub proof fn methods_have_their_type(method: &HostIMP, info: TypeInfo)
    requires
        call_ensures(HostIMP::type_info, (method,), info),
    ensures
        info.0 == method.type_id,
        info.1 == method.type_desc,
{
}

/// A signature is identified by its own type, and is not described.
pub proof fn signatures_are_identified_by_their_type<S: MsgSendSignature>(info: TypeInfo)
    requires
        call_ensures(info_of::<S>, (), info),
    ensures
        is_id_of::<S>(info.0),
        info.1@ == "[description unavailable in release builds]"@,
{
}

} // verus!
