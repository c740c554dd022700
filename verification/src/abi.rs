//! How the host passes arguments to code that follows the guest's calling
//! convention: the first four words in registers, the others on the stack.
use crate::env::{Environment, Model, LR, SP};
use crate::mem::{
    above, address, below, byte_at, offsets_add_up, offsets_differ, other_words_stay, with_word, word_at, word_is_read_back, Mem,
};
use crate::objc::{id, ConstPtr, SEL};
use std::marker::PhantomData;
use vstd::prelude::*;

verus! {

/// A type that a method may return.
pub trait GuestRet {
    /// The size of a value in bytes, if it is a struct that is returned in memory
    /// that the caller provides. Other values are returned in registers.
    const SIZE_IN_MEM: Option<u32>;
}

impl GuestRet for () {
    const SIZE_IN_MEM: Option<u32> = None;
}

impl GuestRet for u32 {
    const SIZE_IN_MEM: Option<u32> = None;
}

impl GuestRet for u64 {
    const SIZE_IN_MEM: Option<u32> = None;
}

impl GuestRet for bool {
    const SIZE_IN_MEM: Option<u32> = None;
}

impl GuestRet for id {
    const SIZE_IN_MEM: Option<u32> = None;
}

impl GuestRet for SEL {
    const SIZE_IN_MEM: Option<u32> = None;
}

impl<T> GuestRet for ConstPtr<T> {
    const SIZE_IN_MEM: Option<u32> = None;
}

/// Neither nothing nor a number, a truth value, an object, a selector or a pointer is
/// returned in memory.
pub proof fn plain_values_are_returned_in_registers()
    ensures
        <() as GuestRet>::SIZE_IN_MEM is None,
        <id as GuestRet>::SIZE_IN_MEM is None,
        <u32 as GuestRet>::SIZE_IN_MEM is None,
        <u64 as GuestRet>::SIZE_IN_MEM is None,
        <bool as GuestRet>::SIZE_IN_MEM is None,
        <SEL as GuestRet>::SIZE_IN_MEM is None,
        <ConstPtr<id> as GuestRet>::SIZE_IN_MEM is None,
{
}

/// An answer that is returned in registers.
pub trait Answer: GuestRet + Sized {
    /// The value that is in the registers.
    spec fn of_regs(regs: Seq<u32>) -> Self;

    /// Reads the value.
    fn read(env: &Environment) -> (value: Self)
        ensures
            value == Self::of_regs(env@.regs),
    ;
}

impl Answer for () {
    open spec fn of_regs(regs: Seq<u32>) -> () {
        ()
    }

    fn read(env: &Environment) -> (value: ()) {
    }
}

impl Answer for u32 {
    open spec fn of_regs(regs: Seq<u32>) -> u32 {
        regs[0]
    }

    fn read(env: &Environment) -> (value: u32) {
        env.cpu.regs[0]
    }
}

/// The lower word is in the first register.
impl Answer for u64 {
    open spec fn of_regs(regs: Seq<u32>) -> u64 {
        (regs[0] + regs[1] * 0x1_0000_0000) as u64
    }

    fn read(env: &Environment) -> (value: u64) {
        env.cpu.regs[0] as u64 + env.cpu.regs[1] as u64 * 0x1_0000_0000
    }
}

/// The lowest byte counts.
impl Answer for bool {
    open spec fn of_regs(regs: Seq<u32>) -> bool {
        regs[0] % 0x100 != 0
    }

    fn read(env: &Environment) -> (value: bool) {
        env.cpu.regs[0] % 0x100 != 0
    }
}

impl Answer for id {
    open spec fn of_regs(regs: Seq<u32>) -> id {
        id(regs[0])
    }

    fn read(env: &Environment) -> (value: id) {
        id(env.cpu.regs[0])
    }
}

impl Answer for SEL {
    open spec fn of_regs(regs: Seq<u32>) -> SEL {
        SEL(regs[0])
    }

    fn read(env: &Environment) -> (value: SEL) {
        SEL(env.cpu.regs[0])
    }
}

impl<T> Answer for ConstPtr<T> {
    open spec fn of_regs(regs: Seq<u32>) -> ConstPtr<T> {
        ConstPtr { bits: regs[0], pointee: PhantomData }
    }

    fn read(env: &Environment) -> (value: ConstPtr<T>) {
        ConstPtr { bits: env.cpu.regs[0], pointee: PhantomData }
    }
}

/// What a call from the host preserves for the guest.
#[derive(Clone, Copy, Debug, PartialEq, Eq, Structural)]
pub struct HostFrame {
    pub sp: u32,
    pub lr: u32,
}

/// The words of the arguments that are passed on the stack.
pub open spec fn stack_words(words: Seq<u32>) -> Seq<u32> {
    if words.len() <= 4 {
        Seq::empty()
    } else {
        words.skip(4)
    }
}

/// The registers with the first words of the arguments in them.
pub open spec fn regs_with_args(regs: Seq<u32>, words: Seq<u32>) -> Seq<u32> {
    Seq::new(
        regs.len(),
        |i: int|
            if i < 4 && i < words.len() {
                words[i]
            } else {
                regs[i]
            },
    )
}

/// Memory with words on the stack, from `sp` upwards.
pub open spec fn mem_with_stack(mem: Map<u32, u8>, sp: u32, stack: Seq<u32>) -> Map<u32, u8>
    decreases stack.len(),
{
    if stack.len() == 0 {
        mem
    } else {
        with_word(
            mem_with_stack(mem, sp, stack.drop_last()),
            address(sp, 4 * (stack.len() - 1)),
            stack.last(),
        )
    }
}

/// All words that are passed: a pointer to the memory for a struct to return, right
/// below `sp`, if there is one, then the arguments.
pub open spec fn passed_words(sp: u32, struct_size: Option<u32>, words: Seq<u32>) -> Seq<u32> {
    match struct_size {
        Some(size) => seq![address(sp, -size)] + words,
        None => words,
    }
}

/// The stack pointer once there is room for everything.
pub open spec fn pushed_sp(sp: u32, struct_size: Option<u32>, words: Seq<u32>) -> u32 {
    let below_struct = match struct_size {
        Some(size) => address(sp, -size),
        None => sp,
    };
    address(below_struct, -4 * stack_words(passed_words(sp, struct_size, words)).len())
}

/// The environment when a call from the host begins.
pub open spec fn host_call(before: Model, struct_size: Option<u32>, words: Seq<u32>) -> Model {
    let sp = before.regs[SP as int];
    let passed = passed_words(sp, struct_size, words);
    let bottom = pushed_sp(sp, struct_size, words);
    Model {
        regs: regs_with_args(before.regs, passed).update(SP as int, bottom),
        mem: mem_with_stack(before.mem, bottom, stack_words(passed)),
        ..before
    }
}

/// The environment when a call from the host has ended.
pub open spec fn host_call_ended(meanwhile: Model, frame: HostFrame) -> Model {
    Model {
        regs: meanwhile.regs.update(SP as int, frame.sp).update(LR as int, frame.lr),
        ..meanwhile
    }
}

/// Writes one word of the arguments to where it is expected, the word of number
/// `reg_offset`, which becomes that of the next.
pub fn write_next_arg(reg_offset: &mut usize, regs: &mut [u32; 16], mem: &mut Mem, word: u32)
    requires
        *old(reg_offset) < 0x4000_0000,
    ensures
        *final(reg_offset) == *old(reg_offset) + 1,
        *old(reg_offset) < 4 ==> {
            &&& final(regs)@ == old(regs)@.update(*old(reg_offset) as int, word)
            &&& final(mem)@ == old(mem)@
        },
        *old(reg_offset) >= 4 ==> {
            &&& final(regs)@ == old(regs)@
            &&& final(mem)@ == with_word(
                old(mem)@,
                address(old(regs)@[SP as int], 4 * (*old(reg_offset) - 4)),
                word,
            )
        },
{
    let number = *reg_offset;
    if number < 4 {
        regs[number] = word;
    } else {
        mem.write_word(above(regs[SP], (number - 4) as u32 * 4), word);
    }
    *reg_offset = number + 1;
}

/// Writes all words of the arguments to where they are expected.
fn write_args(env: &mut Environment, passed: &Vec<u32>)
    requires
        passed@.len() <= 0x3fff_ffff,
    ensures
        final(env)@ == (Model {
            regs: regs_with_args(old(env)@.regs, passed@),
            mem: mem_with_stack(old(env)@.mem, old(env)@.regs[SP as int], stack_words(passed@)),
            ..old(env)@
        }),
{
    let ghost start = env@;
    let ghost sp = start.regs[SP as int];
    let mut number: usize = 0;
    assert(stack_words(passed@.take(0)) =~= Seq::<u32>::empty());
    assert(env@.regs =~= regs_with_args(start.regs, passed@.take(0)));
    while number < passed.len()
        invariant
            number <= passed.len() <= 0x3fff_ffff,
            start.regs.len() == 16,
            start.regs[SP as int] == sp,
            env@ == (Model {
                regs: regs_with_args(start.regs, passed@.take(number as int)),
                mem: mem_with_stack(start.mem, sp, stack_words(passed@.take(number as int))),
                ..start
            }),
        decreases passed.len() - number,
    {
        let word = passed[number];
        let ghost so_far = passed@.take(number as int);
        let ghost with_next = passed@.take(number + 1);
        write_next_arg(&mut number, &mut env.cpu.regs, &mut env.mem, word);
        proof {
            assert(with_next =~= so_far.push(word));
            if so_far.len() < 4 {
                assert(stack_words(with_next) =~= stack_words(so_far));
            } else {
                assert(stack_words(with_next) =~= stack_words(so_far).push(word));
                assert(stack_words(with_next).drop_last() =~= stack_words(so_far));
            }
            assert(env@.regs =~= regs_with_args(start.regs, with_next));
        }
    }
    assert(passed@.take(passed@.len() as int) =~= passed@);
}

/// Finds out what to pass, and how far down the stack will reach.
fn plan_host_call(sp: u32, struct_size: Option<u32>, words: &Vec<u32>) -> (plan: (Vec<u32>, u32))
    requires
        words@.len() < 0x3fff_ffff,
    ensures
        plan.0@ == passed_words(sp, struct_size, words@),
        plan.1 == pushed_sp(sp, struct_size, words@),
{
    let mut passed: Vec<u32> = Vec::new();
    let mut bottom: u32 = sp;
    if let Some(size) = struct_size {
        bottom = below(sp, size);
        passed.push(bottom);
    }
    let ghost first = passed@;
    let mut i: usize = 0;
    while i < words.len()
        invariant
            i <= words.len(),
            passed@ == first + words@.take(i as int),
        decreases words.len() - i,
    {
        passed.push(words[i]);
        assert(words@.take(i + 1) =~= words@.take(i as int).push(words@[i as int]));
        i += 1;
    }
    assert(words@.take(words@.len() as int) =~= words@);
    assert(passed@ =~= passed_words(sp, struct_size, words@));
    let on_stack: u32 = if passed.len() > 4 {
        (passed.len() - 4) as u32
    } else {
        0
    };
    (passed, below(bottom, on_stack * 4))
}

/// Begins a call from the host: passes the words, and makes room on the stack for
/// those that do not fit into registers and for a struct to return.
pub fn enter_host_call(env: &mut Environment, struct_size: Option<u32>, words: &Vec<u32>) -> (frame:
    HostFrame)
    requires
        words@.len() < 0x3fff_ffff,
    ensures
        final(env)@ == host_call(old(env)@, struct_size, words@),
        frame == (HostFrame { sp: old(env)@.regs[SP as int], lr: old(env)@.regs[LR as int] }),
{
    let frame = HostFrame { sp: env.cpu.regs[SP], lr: env.cpu.regs[LR] };
    let (passed, bottom) = plan_host_call(frame.sp, struct_size, words);
    env.cpu.regs[SP] = bottom;
    write_args(env, &passed);
    assert(env@.regs =~= host_call(old(env)@, struct_size, words@).regs);
    frame
}

/// Ends a call from the host.
pub fn leave_host_call(env: &mut Environment, frame: HostFrame)
    ensures
        final(env)@ == host_call_ended(old(env)@, frame),
{
    env.cpu.regs[SP] = frame.sp;
    env.cpu.regs[LR] = frame.lr;
    assert(env@.regs =~= host_call_ended(old(env)@, frame).regs);
}

/// Ends a call from the host, and reads its answer.
pub fn take_answer<R: Answer>(env: &mut Environment, frame: HostFrame) -> (answer: R)
    ensures
        final(env)@ == host_call_ended(old(env)@, frame),
        answer == R::of_regs(final(env)@.regs),
{
    leave_host_call(env, frame);
    R::read(env)
}

/// Reads the bytes of a struct that was returned in memory, of which the frame says
/// where it is: right below the stack pointer.
pub fn struct_answer(env: &Environment, frame: HostFrame, size: u32) -> (bytes: Vec<u8>)
    ensures
        bytes@ == Seq::new(
            size as nat,
            |i: int| byte_at(env@.mem, address(address(frame.sp, -size), i)),
        ),
{
    let start = below(frame.sp, size);
    let mut bytes: Vec<u8> = Vec::new();
    let mut i: u32 = 0;
    while i < size
        invariant
            i <= size,
            bytes@ == Seq::new(i as nat, |j: int| byte_at(env@.mem, address(start, j))),
        decreases size - i,
    {
        bytes.push(env.mem.read_byte(above(start, i)));
        i += 1;
        assert(bytes@ =~= Seq::new(i as nat, |j: int| byte_at(env@.mem, address(start, j))));
    }
    bytes
}

/// The word of an argument after the selector, as the method of a message finds it when
/// it returns no struct in memory.
pub open spec fn argument_of(model: Model, number: int) -> u32 {
    if number < 2 {
        model.regs[number + 2]
    } else {
        word_at(model.mem, address(model.regs[SP as int], 4 * (number - 2)))
    }
}

/// Reads the word of an argument after the selector.
pub fn argument(env: &Environment, number: u32) -> (word: u32)
    requires
        number < 0x3fff_fff0,
    ensures
        word == argument_of(env@, number as int),
{
    if number < 2 {
        env.cpu.regs[number as usize + 2]
    } else {
        env.mem.read_word(above(env.cpu.regs[SP], (number - 2) * 4))
    }
}

/// Words pushed below an address leave all words from there upwards alone.
pub(crate) proof fn lemma_pushed_below(mem: Map<u32, u8>, top: u32, stack: Seq<u32>, full: nat, offset: int)
    requires
        stack.len() <= full,
        0 <= offset <= 0xffff_fffc - 4 * full,
    ensures
        word_at(mem_with_stack(mem, address(top, -4 * full), stack), address(top, offset))
            == word_at(mem, address(top, offset)),
    decreases stack.len(),
{
    if stack.len() > 0 {
        let sp = address(top, -4 * full);
        lemma_pushed_below(mem, top, stack.drop_last(), full, offset);
        offsets_add_up(top, -4 * full, 4 * (stack.len() - 1));
        offsets_differ(top, -4 * full + 4 * (stack.len() - 1), offset);
        other_words_stay(
            mem_with_stack(mem, sp, stack.drop_last()),
            address(sp, 4 * (stack.len() - 1)),
            stack.last(),
            address(top, offset),
        );
    }
}

/// Each word that was pushed is read back from its place.
proof fn lemma_pushed_words_read_back(mem: Map<u32, u8>, sp: u32, stack: Seq<u32>, number: int)
    requires
        0 <= number < stack.len() <= 0x3fff_ffff,
    ensures
        word_at(mem_with_stack(mem, sp, stack), address(sp, 4 * number)) == stack[number],
    decreases stack.len(),
{
    let last = stack.len() - 1;
    let below = mem_with_stack(mem, sp, stack.drop_last());
    if number == last {
        word_is_read_back(below, address(sp, 4 * last), stack.last());
    } else {
        lemma_pushed_words_read_back(mem, sp, stack.drop_last(), number);
        offsets_differ(sp, 4 * last, 4 * number);
        other_words_stay(below, address(sp, 4 * last), stack.last(), address(sp, 4 * number));
    }
}

/// Every word that is passed arrives: the first four in the registers, the others on
/// the stack.
pub proof fn arguments_arrive(before: Model, struct_size: Option<u32>, words: Seq<u32>, number: int)
    requires
        before.regs.len() == 16,
        words.len() < 0x3fff_ffff,
        0 <= number < passed_words(before.regs[SP as int], struct_size, words).len(),
    ensures
        ({
            let passed = passed_words(before.regs[SP as int], struct_size, words);
            let called = host_call(before, struct_size, words);
            if number < 4 {
                called.regs[number] == passed[number]
            } else {
                word_at(called.mem, address(called.regs[SP as int], 4 * (number - 4)))
                    == passed[number]
            }
        }),
{
    let sp = before.regs[SP as int];
    let passed = passed_words(sp, struct_size, words);
    if number >= 4 {
        lemma_pushed_words_read_back(
            before.mem,
            pushed_sp(sp, struct_size, words),
            stack_words(passed),
            number - 4,
        );
    }
}

/// What the guest has on its stack stays as it is when the host calls it, and so does
/// everything further up, as long as that is not below the stack again.
pub proof fn callers_stack_is_kept(before: Model, struct_size: Option<u32>, words: Seq<u32>, offset: int)
    requires
        before.regs.len() == 16,
        0 <= offset,
        offset + 4 * words.len() + (match struct_size {
            Some(size) => size + 4,
            None => 0,
        }) <= 0xffff_fffc,
    ensures
        ({
            let at = address(before.regs[SP as int], offset);
            word_at(host_call(before, struct_size, words).mem, at) == word_at(before.mem, at)
        }),
{
    let sp = before.regs[SP as int];
    let passed = passed_words(sp, struct_size, words);
    let stack = stack_words(passed);
    match struct_size {
        Some(size) => {
            offsets_add_up(sp, -size, offset + size);
            lemma_pushed_below(before.mem, address(sp, -size), stack, stack.len(), offset + size);
        },
        None => {
            lemma_pushed_below(before.mem, sp, stack, stack.len(), offset);
        },
    }
}

/// Whatever is done meanwhile, a call from the host leaves the guest's stack pointer
/// and link register as they were, and the answer where it is.
pub proof fn stack_pointer_is_kept(before: Model, frame: HostFrame, meanwhile: Model)
    requires
        frame == (HostFrame { sp: before.regs[SP as int], lr: before.regs[LR as int] }),
        meanwhile.regs.len() == 16,
    ensures
        ({
            let after = host_call_ended(meanwhile, frame);
            &&& after.regs[SP as int] == before.regs[SP as int]
            &&& after.regs[LR as int] == before.regs[LR as int]
            &&& after.regs.take(4) == meanwhile.regs.take(4)
            &&& after.mem == meanwhile.mem
        }),
{
}

} // verus!
