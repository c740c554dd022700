//! Words, strings, arguments and answers, byte by byte and word by word.
use crate::abi::{argument_of, Answer};
use crate::args::{GuestArg, MessageArgs, Receiver, RestArgs};
use crate::env::Model;
use crate::mem::{address, byte_at, cstr_at, cstr_from, with_bytes, with_cstr, with_word, word_at};
use crate::ns_url_request::{interval_of, NSTimeInterval};
use crate::objc::{id, objc_super, ConstPtr, SEL};
use vstd::prelude::*;

verus! {

/// The byte that memory holds at an address, where an address past the end is one from
/// the start again.
pub open spec fn byte(mem: Map<u32, u8>, at: int) -> int {
    let wrapped = (at % 0x1_0000_0000) as u32;
    if mem.contains_key(wrapped) {
        mem[wrapped] as int
    } else {
        0
    }
}

/// Addresses count bytes, and wrap around.
pub proof fn addresses_count_bytes(base: u32, offset: int)
    ensures
        address(base, offset) == (base + offset) % 0x1_0000_0000,
{
    reveal(address);
}

/// A word is four bytes, of which the first counts least.
pub proof fn words_are_four_bytes(mem: Map<u32, u8>, at: u32)
    ensures
        word_at(mem, at) == byte(mem, at as int) + byte(mem, at + 1) * 0x100 + byte(mem, at + 2)
            * 0x1_0000 + byte(mem, at + 3) * 0x100_0000,
{
    reveal(word_at);
    reveal(address);
    assert((at as int % 0x1_0000_0000) as u32 == at);
}

/// Writing a word writes its four bytes, the one that counts least first, and no other.
pub proof fn writing_a_word_writes_four_bytes(mem: Map<u32, u8>, at: u32, word: u32, other: int)
    ensures
        ({
            let after = with_word(mem, at, word);
            &&& byte(after, at as int) == word % 0x100
            &&& byte(after, at + 1) == word / 0x100 % 0x100
            &&& byte(after, at + 2) == word / 0x1_0000 % 0x100
            &&& byte(after, at + 3) == word / 0x100_0000
            &&& (other - at) % 0x1_0000_0000 >= 4 ==> byte(after, other) == byte(mem, other)
        }),
{
    reveal(with_word);
    reveal(address);
    assert((at as int % 0x1_0000_0000) as u32 == at);
}

/// A string is made of the bytes from an address on that are not zero, up to one that is.
pub proof fn strings_end_at_the_first_zero(mem: Map<u32, u8>, at: u32)
    ensures
        ({
            let text = cstr_at(mem, at);
            &&& forall|i: int|
                0 <= i < text.len() ==> #[trigger] text[i] == byte(mem, at + i) && text[i] != 0
            &&& text.len() <= 0x1_0000_0000
            &&& text.len() < 0x1_0000_0000 ==> byte(mem, at + text.len()) == 0
        }),
{
    lemma_string_from(mem, at, 0x1_0000_0000);
}

/// The same of a string of bounded length.
proof fn lemma_string_from(mem: Map<u32, u8>, at: u32, most: nat)
    ensures
        ({
            let text = cstr_from(mem, at, most);
            &&& forall|i: int|
                0 <= i < text.len() ==> #[trigger] text[i] == byte(mem, at + i) && text[i] != 0
            &&& text.len() <= most
            &&& text.len() < most ==> byte(mem, at + text.len()) == 0
        }),
    decreases most,
{
    reveal(address);
    assert((at as int % 0x1_0000_0000) as u32 == at);
    if most > 0 && byte_at(mem, at) != 0 {
        let next = address(at, 1);
        let rest = cstr_from(mem, next, (most - 1) as nat);
        let text = cstr_from(mem, at, most);
        lemma_string_from(mem, next, (most - 1) as nat);
        assert forall|i: int| byte(mem, next + i) == #[trigger] byte(mem, at + 1 + i) by {
            assert((next + i) % 0x1_0000_0000 == (at + 1 + i) % 0x1_0000_0000);
        }
        assert forall|i: int| 0 <= i < text.len() implies #[trigger] text[i] == byte(mem, at + i)
            && text[i] != 0 by {
            if i > 0 {
                assert(text[i] == rest[i - 1]);
                assert(byte(mem, next + (i - 1)) == byte(mem, at + 1 + (i - 1)));
            }
        }
        assert(text.len() == rest.len() + 1);
        assert(byte(mem, next + rest.len()) == byte(mem, at + 1 + rest.len()));
    }
}

/// Writing a string writes its bytes and a zero behind them, and nothing else.
pub proof fn writing_a_string_writes_its_bytes(mem: Map<u32, u8>, at: u32, text: Seq<u8>, other: int)
    requires
        text.len() < 0x1_0000_0000,
    ensures
        ({
            let after = with_cstr(mem, at, text);
            &&& forall|i: int| 0 <= i < text.len() ==> byte(after, at + i) == #[trigger] text[i]
            &&& byte(after, at + text.len()) == 0
            &&& (other - at) % 0x1_0000_0000 > text.len() ==> byte(after, other) == byte(mem, other)
        }),
{
    let bytes = text.push(0);
    assert forall|i: int| 0 <= i < text.len() implies byte(with_cstr(mem, at, text), at + i)
        == #[trigger] text[i] by {
        lemma_bytes_written(mem, at, bytes, i, other);
        assert(bytes[i] == text[i]);
    }
    lemma_bytes_written(mem, at, bytes, text.len() as int, other);
}

/// The same of bytes without a zero.
proof fn lemma_bytes_written(mem: Map<u32, u8>, at: u32, bytes: Seq<u8>, number: int, other: int)
    requires
        0 <= number < bytes.len() <= 0x1_0000_0000,
    ensures
        byte(with_bytes(mem, at, bytes), at + number) == bytes[number],
        (other - at) % 0x1_0000_0000 >= bytes.len() ==> byte(with_bytes(mem, at, bytes), other)
            == byte(mem, other),
    decreases bytes.len(),
{
    reveal(address);
    let last = bytes.len() - 1;
    let most = bytes.drop_last();
    if last > 0 {
        lemma_bytes_written(
            mem,
            at,
            most,
            if number < last {
                number
            } else {
                0
            },
            other,
        );
    } else {
        assert(with_bytes(mem, at, most) == mem);
    }
    if number < last {
        assert((at + number) % 0x1_0000_0000 != (at + last) % 0x1_0000_0000);
    }
    if (other - at) % 0x1_0000_0000 >= bytes.len() {
        assert(other % 0x1_0000_0000 != (at + last) % 0x1_0000_0000);
    }
}

/// The answer in the registers: the first one, and for wide values the second one as the
/// upper half. Of a truth value only the lowest byte counts.
pub proof fn answers_are_in_the_first_registers(regs: Seq<u32>)
    requires
        regs.len() == 16,
    ensures
        u32::of_regs(regs) == regs[0],
        u64::of_regs(regs) == regs[0] + regs[1] * 0x1_0000_0000,
        bool::of_regs(regs) == (regs[0] % 0x100 != 0),
        id::of_regs(regs).0 == regs[0],
        SEL::of_regs(regs).0 == regs[0],
        ConstPtr::<objc_super>::of_regs(regs).bits == regs[0],
        NSTimeInterval::of_regs(regs).0 == regs[0] + regs[1] * 0x1_0000_0000,
{
}

/// The words of an argument: the value itself, or for wide values the lower half and then
/// the upper half. A truth value is passed as one or zero.
pub proof fn arguments_are_passed_in_their_words<T>(
    word: u32,
    wide: u64,
    flag: bool,
    object: id,
    selector: SEL,
    pointer: ConstPtr<T>,
    interval: NSTimeInterval,
)
    ensures
        word.words() == seq![word],
        wide.words().len() == 2,
        wide == wide.words()[0] + wide.words()[1] * 0x1_0000_0000,
        flag.words() == seq![
            if flag {
                1u32
            } else {
                0u32
            },
        ],
        object.words() == seq![object.0],
        selector.words() == seq![selector.0],
        pointer.words() == seq![pointer.bits],
        interval.words().len() == 2,
        interval.0 == interval.words()[0] + interval.words()[1] * 0x1_0000_0000,
        Receiver::word(object) == object.0,
        interval_of(interval.words()[0], interval.words()[1]) == interval,
{
}

/// Two words of an interval make up its bits, the lower one first.
pub proof fn intervals_have_two_words(low: u32, high: u32)
    ensures
        interval_of(low, high).0 == low + high * 0x1_0000_0000,
{
}

/// The pointer of a super-call is passed as its address.
pub proof fn super_pointers_are_passed_as_addresses(pointer: ConstPtr<objc_super>)
    ensures
        Receiver::word(pointer) == pointer.bits,
{
}

/// The arguments of a message are the receiver, the selector, and the words of the others
/// one after the other, up to nine of them.
pub proof fn arguments_follow_each_other<
    F: Receiver,
    P1: GuestArg,
    P2: GuestArg,
    P3: GuestArg,
    P4: GuestArg,
    P5: GuestArg,
    P6: GuestArg,
    P7: GuestArg,
    P8: GuestArg,
    P9: GuestArg,
>(f: F, s: SEL, p1: P1, p2: P2, p3: P3, p4: P4, p5: P5, p6: P6, p7: P7, p8: P8, p9: P9)
    ensures
        ({
            let w1 = p1.words();
            let w2 = w1 + p2.words();
            let w3 = w2 + p3.words();
            let w4 = w3 + p4.words();
            let w5 = w4 + p5.words();
            let w6 = w5 + p6.words();
            let w7 = w6 + p7.words();
            let w8 = w7 + p8.words();
            let w9 = w8 + p9.words();
            &&& (f, s).rest() =~= Seq::<u32>::empty()
            &&& (f, s, p1).rest() =~= w1
            &&& (f, s, p1, p2).rest() =~= w2
            &&& (f, s, p1, p2, p3).rest() =~= w3
            &&& (f, s, p1, p2, p3, p4).rest() =~= w4
            &&& (f, s, p1, p2, p3, p4, p5).rest() =~= w5
            &&& (f, s, p1, p2, p3, p4, p5, p6).rest() =~= w6
            &&& (f, s, p1, p2, p3, p4, p5, p6, p7).rest() =~= w7
            &&& (f, s, p1, p2, p3, p4, p5, p6, p7, p8).rest() =~= w8
            &&& (f, s, p1, p2, p3, p4, p5, p6, p7, p8, p9).rest() =~= w9
            &&& ().words() =~= Seq::<u32>::empty()
            &&& (p1,).words() =~= w1
            &&& (p1, p2).words() =~= w2
            &&& (p1, p2, p3).words() =~= w3
            &&& (p1, p2, p3, p4).words() =~= w4
            &&& (p1, p2, p3, p4, p5).words() =~= w5
            &&& (p1, p2, p3, p4, p5, p6).words() =~= w6
            &&& (p1, p2, p3, p4, p5, p6, p7).words() =~= w7
            &&& (p1, p2, p3, p4, p5, p6, p7, p8).words() =~= w8
            &&& (p1, p2, p3, p4, p5, p6, p7, p8, p9).words() =~= w9
        }),
        (f, s).receiver() == f.word(),
        (f, s, p1).receiver() == f.word(),
        (f, s, p1, p2).receiver() == f.word(),
        (f, s, p1, p2, p3).receiver() == f.word(),
        (f, s, p1, p2, p3, p4).receiver() == f.word(),
        (f, s, p1, p2, p3, p4, p5).receiver() == f.word(),
        (f, s, p1, p2, p3, p4, p5, p6).receiver() == f.word(),
        (f, s, p1, p2, p3, p4, p5, p6, p7).receiver() == f.word(),
        (f, s, p1, p2, p3, p4, p5, p6, p7, p8).receiver() == f.word(),
        (f, s, p1, p2, p3, p4, p5, p6, p7, p8, p9).receiver() == f.word(),
        (f, s).selector() == s,
        (f, s, p1).selector() == s,
        (f, s, p1, p2).selector() == s,
        (f, s, p1, p2, p3).selector() == s,
        (f, s, p1, p2, p3, p4).selector() == s,
        (f, s, p1, p2, p3, p4, p5).selector() == s,
        (f, s, p1, p2, p3, p4, p5, p6).selector() == s,
        (f, s, p1, p2, p3, p4, p5, p6, p7).selector() == s,
        (f, s, p1, p2, p3, p4, p5, p6, p7, p8).selector() == s,
        (f, s, p1, p2, p3, p4, p5, p6, p7, p8, p9).selector() == s,
{
}

/// A method finds the words after the selector in the third and the fourth register, and
/// the others on the stack from its top on.
pub proof fn arguments_are_found_after_the_selector(model: Model, number: int)
    requires
        0 <= number,
        model.regs.len() == 16,
    ensures
        number == 0 ==> argument_of(model, number) == model.regs[2],
        number == 1 ==> argument_of(model, number) == model.regs[3],
        number >= 2 ==> argument_of(model, number) == word_at(
            model.mem,
            ((model.regs[13] + 4 * (number - 2)) % 0x1_0000_0000) as u32,
        ),
{
    reveal(address);
}

} // verus!
