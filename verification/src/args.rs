//! The arguments of messages, as the words that they are passed in.
use crate::objc::{id, objc_super, ConstPtr, SEL};
use vstd::prelude::*;

verus! {

/// How many words the arguments of a message after the selector may have: more of
/// them would not fit into the memory of the guest.
pub const MAX_REST_WORDS: usize = 0x3fff_ffe0;

/// A value that can be an argument of a message.
pub trait GuestArg: Sized {
    /// The words that the value is passed in.
    spec fn words(self) -> Seq<u32>;

    /// Appends the words that the value is passed in.
    fn push_words(self, words: &mut Vec<u32>)
        ensures
            final(words)@ == old(words)@ + self.words(),
    ;
}

impl GuestArg for u32 {
    open spec fn words(self) -> Seq<u32> {
        seq![self]
    }

    fn push_words(self, words: &mut Vec<u32>) {
        words.push(self);
        assert(words@ =~= old(words)@ + self.words());
    }
}

/// The lower word comes first.
impl GuestArg for u64 {
    open spec fn words(self) -> Seq<u32> {
        seq![(self % 0x1_0000_0000) as u32, (self / 0x1_0000_0000) as u32]
    }

    fn push_words(self, words: &mut Vec<u32>) {
        words.push((self % 0x1_0000_0000) as u32);
        words.push((self / 0x1_0000_0000) as u32);
        assert(words@ =~= old(words)@ + self.words());
    }
}

impl GuestArg for bool {
    open spec fn words(self) -> Seq<u32> {
        seq![
            if self {
                1u32
            } else {
                0u32
            },
        ]
    }

    fn push_words(self, words: &mut Vec<u32>) {
        words.push(
            if self {
                1
            } else {
                0
            },
        );
        assert(words@ =~= old(words)@ + self.words());
    }
}

impl GuestArg for id {
    open spec fn words(self) -> Seq<u32> {
        seq![self.0]
    }

    fn push_words(self, words: &mut Vec<u32>) {
        words.push(self.0);
        assert(words@ =~= old(words)@ + self.words());
    }
}

impl GuestArg for SEL {
    open spec fn words(self) -> Seq<u32> {
        seq![self.0]
    }

    fn push_words(self, words: &mut Vec<u32>) {
        words.push(self.0);
        assert(words@ =~= old(words)@ + self.words());
    }
}

impl<T> GuestArg for ConstPtr<T> {
    open spec fn words(self) -> Seq<u32> {
        seq![self.bits]
    }

    fn push_words(self, words: &mut Vec<u32>) {
        words.push(self.bits);
        assert(words@ =~= old(words)@ + self.words());
    }
}

/// What a message is sent to: an object, or for a super-call a pointer to an
/// [`objc_super`].
pub trait Receiver: Sized {
    /// The word that it is passed in.
    spec fn word(self) -> u32;

    /// The word that it is passed in.
    fn to_word(self) -> (word: u32)
        ensures
            word == self.word(),
    ;
}

impl Receiver for id {
    open spec fn word(self) -> u32 {
        self.0
    }

    fn to_word(self) -> (word: u32) {
        self.0
    }
}

impl Receiver for ConstPtr<objc_super> {
    open spec fn word(self) -> u32 {
        self.bits
    }

    fn to_word(self) -> (word: u32) {
        self.bits
    }
}

/// The parts of a message.
pub struct MessageParts {
    pub receiver: u32,
    pub selector: SEL,
    /// The words of the arguments after the selector.
    pub rest: Vec<u32>,
}

/// All arguments of a message: the receiver, the selector, and those after it.
pub trait MessageArgs: Sized {
    /// The word of the receiver.
    spec fn receiver(self) -> u32;

    spec fn selector(self) -> SEL;

    /// The words of the arguments after the selector.
    spec fn rest(self) -> Seq<u32>;

    /// Takes the arguments apart.
    fn into_parts(self) -> (parts: MessageParts)
        ensures
            parts.receiver == self.receiver(),
            parts.selector == self.selector(),
            parts.rest@ == self.rest(),
    ;
}

/// The arguments of a message after the selector.
pub trait RestArgs: Sized {
    /// All arguments of the message.
    type Message;

    /// All arguments of a super-call.
    type SuperCall;

    /// The words of the arguments.
    spec fn words(self) -> Seq<u32>;

    /// The words of the arguments.
    fn to_words(self) -> (words: Vec<u32>)
        ensures
            words@ == self.words(),
    ;
}

impl<F: Receiver> MessageArgs for (F, SEL) {
    open spec fn receiver(self) -> u32 {
        self.0.word()
    }

    open spec fn selector(self) -> SEL {
        self.1
    }

    open spec fn rest(self) -> Seq<u32> {
        Seq::empty()
    }

    fn into_parts(self) -> (parts: MessageParts) {
        let rest: Vec<u32> = Vec::new();
        MessageParts { receiver: self.0.to_word(), selector: self.1, rest }
    }
}

impl<F: Receiver, P1: GuestArg> MessageArgs for (F, SEL, P1) {
    open spec fn receiver(self) -> u32 {
        self.0.word()
    }

    open spec fn selector(self) -> SEL {
        self.1
    }

    open spec fn rest(self) -> Seq<u32> {
        Seq::empty() + self.2.words()
    }

    fn into_parts(self) -> (parts: MessageParts) {
        let mut rest: Vec<u32> = Vec::new();
        self.2.push_words(&mut rest);
        MessageParts { receiver: self.0.to_word(), selector: self.1, rest }
    }
}

impl<F: Receiver, P1: GuestArg, P2: GuestArg> MessageArgs for (F, SEL, P1, P2) {
    open spec fn receiver(self) -> u32 {
        self.0.word()
    }

    open spec fn selector(self) -> SEL {
        self.1
    }

    open spec fn rest(self) -> Seq<u32> {
        Seq::empty() + self.2.words() + self.3.words()
    }

    fn into_parts(self) -> (parts: MessageParts) {
        let mut rest: Vec<u32> = Vec::new();
        self.2.push_words(&mut rest);
        self.3.push_words(&mut rest);
        MessageParts { receiver: self.0.to_word(), selector: self.1, rest }
    }
}

impl<F: Receiver, P1: GuestArg, P2: GuestArg, P3: GuestArg> MessageArgs for (F, SEL, P1, P2, P3) {
    open spec fn receiver(self) -> u32 {
        self.0.word()
    }

    open spec fn selector(self) -> SEL {
        self.1
    }

    open spec fn rest(self) -> Seq<u32> {
        Seq::empty() + self.2.words() + self.3.words() + self.4.words()
    }

    fn into_parts(self) -> (parts: MessageParts) {
        let mut rest: Vec<u32> = Vec::new();
        self.2.push_words(&mut rest);
        self.3.push_words(&mut rest);
        self.4.push_words(&mut rest);
        MessageParts { receiver: self.0.to_word(), selector: self.1, rest }
    }
}

impl<
    F: Receiver,
    P1: GuestArg,
    P2: GuestArg,
    P3: GuestArg,
    P4: GuestArg,
> MessageArgs for (F, SEL, P1, P2, P3, P4) {
    open spec fn receiver(self) -> u32 {
        self.0.word()
    }

    open spec fn selector(self) -> SEL {
        self.1
    }

    open spec fn rest(self) -> Seq<u32> {
        Seq::empty() + self.2.words() + self.3.words() + self.4.words() + self.5.words()
    }

    fn into_parts(self) -> (parts: MessageParts) {
        let mut rest: Vec<u32> = Vec::new();
        self.2.push_words(&mut rest);
        self.3.push_words(&mut rest);
        self.4.push_words(&mut rest);
        self.5.push_words(&mut rest);
        MessageParts { receiver: self.0.to_word(), selector: self.1, rest }
    }
}

impl<
    F: Receiver,
    P1: GuestArg,
    P2: GuestArg,
    P3: GuestArg,
    P4: GuestArg,
    P5: GuestArg,
> MessageArgs for (F, SEL, P1, P2, P3, P4, P5) {
    open spec fn receiver(self) -> u32 {
        self.0.word()
    }

    open spec fn selector(self) -> SEL {
        self.1
    }

    open spec fn rest(self) -> Seq<u32> {
        Seq::empty() + self.2.words() + self.3.words() + self.4.words() + self.5.words()
            + self.6.words()
    }

    fn into_parts(self) -> (parts: MessageParts) {
        let mut rest: Vec<u32> = Vec::new();
        self.2.push_words(&mut rest);
        self.3.push_words(&mut rest);
        self.4.push_words(&mut rest);
        self.5.push_words(&mut rest);
        self.6.push_words(&mut rest);
        MessageParts { receiver: self.0.to_word(), selector: self.1, rest }
    }
}

impl<
    F: Receiver,
    P1: GuestArg,
    P2: GuestArg,
    P3: GuestArg,
    P4: GuestArg,
    P5: GuestArg,
    P6: GuestArg,
> MessageArgs for (F, SEL, P1, P2, P3, P4, P5, P6) {
    open spec fn receiver(self) -> u32 {
        self.0.word()
    }

    open spec fn selector(self) -> SEL {
        self.1
    }

    open spec fn rest(self) -> Seq<u32> {
        Seq::empty() + self.2.words() + self.3.words() + self.4.words() + self.5.words()
            + self.6.words() + self.7.words()
    }

    fn into_parts(self) -> (parts: MessageParts) {
        let mut rest: Vec<u32> = Vec::new();
        self.2.push_words(&mut rest);
        self.3.push_words(&mut rest);
        self.4.push_words(&mut rest);
        self.5.push_words(&mut rest);
        self.6.push_words(&mut rest);
        self.7.push_words(&mut rest);
        MessageParts { receiver: self.0.to_word(), selector: self.1, rest }
    }
}

impl<
    F: Receiver,
    P1: GuestArg,
    P2: GuestArg,
    P3: GuestArg,
    P4: GuestArg,
    P5: GuestArg,
    P6: GuestArg,
    P7: GuestArg,
> MessageArgs for (F, SEL, P1, P2, P3, P4, P5, P6, P7) {
    open spec fn receiver(self) -> u32 {
        self.0.word()
    }

    open spec fn selector(self) -> SEL {
        self.1
    }

    open spec fn rest(self) -> Seq<u32> {
        Seq::empty() + self.2.words() + self.3.words() + self.4.words() + self.5.words()
            + self.6.words() + self.7.words() + self.8.words()
    }

    fn into_parts(self) -> (parts: MessageParts) {
        let mut rest: Vec<u32> = Vec::new();
        self.2.push_words(&mut rest);
        self.3.push_words(&mut rest);
        self.4.push_words(&mut rest);
        self.5.push_words(&mut rest);
        self.6.push_words(&mut rest);
        self.7.push_words(&mut rest);
        self.8.push_words(&mut rest);
        MessageParts { receiver: self.0.to_word(), selector: self.1, rest }
    }
}

impl<
    F: Receiver,
    P1: GuestArg,
    P2: GuestArg,
    P3: GuestArg,
    P4: GuestArg,
    P5: GuestArg,
    P6: GuestArg,
    P7: GuestArg,
    P8: GuestArg,
> MessageArgs for (F, SEL, P1, P2, P3, P4, P5, P6, P7, P8) {
    open spec fn receiver(self) -> u32 {
        self.0.word()
    }

    open spec fn selector(self) -> SEL {
        self.1
    }

    open spec fn rest(self) -> Seq<u32> {
        Seq::empty() + self.2.words() + self.3.words() + self.4.words() + self.5.words()
            + self.6.words() + self.7.words() + self.8.words() + self.9.words()
    }

    fn into_parts(self) -> (parts: MessageParts) {
        let mut rest: Vec<u32> = Vec::new();
        self.2.push_words(&mut rest);
        self.3.push_words(&mut rest);
        self.4.push_words(&mut rest);
        self.5.push_words(&mut rest);
        self.6.push_words(&mut rest);
        self.7.push_words(&mut rest);
        self.8.push_words(&mut rest);
        self.9.push_words(&mut rest);
        MessageParts { receiver: self.0.to_word(), selector: self.1, rest }
    }
}

impl<
    F: Receiver,
    P1: GuestArg,
    P2: GuestArg,
    P3: GuestArg,
    P4: GuestArg,
    P5: GuestArg,
    P6: GuestArg,
    P7: GuestArg,
    P8: GuestArg,
    P9: GuestArg,
> MessageArgs for (F, SEL, P1, P2, P3, P4, P5, P6, P7, P8, P9) {
    open spec fn receiver(self) -> u32 {
        self.0.word()
    }

    open spec fn selector(self) -> SEL {
        self.1
    }

    open spec fn rest(self) -> Seq<u32> {
        Seq::empty() + self.2.words() + self.3.words() + self.4.words() + self.5.words()
            + self.6.words() + self.7.words() + self.8.words() + self.9.words()
            + self.10.words()
    }

    fn into_parts(self) -> (parts: MessageParts) {
        let mut rest: Vec<u32> = Vec::new();
        self.2.push_words(&mut rest);
        self.3.push_words(&mut rest);
        self.4.push_words(&mut rest);
        self.5.push_words(&mut rest);
        self.6.push_words(&mut rest);
        self.7.push_words(&mut rest);
        self.8.push_words(&mut rest);
        self.9.push_words(&mut rest);
        self.10.push_words(&mut rest);
        MessageParts { receiver: self.0.to_word(), selector: self.1, rest }
    }
}

impl RestArgs for () {
    type Message = (id, SEL);

    type SuperCall = (ConstPtr<objc_super>, SEL);

    open spec fn words(self) -> Seq<u32> {
        Seq::empty()
    }

    fn to_words(self) -> (words: Vec<u32>) {
        let words: Vec<u32> = Vec::new();
        words
    }
}

impl<P1: GuestArg> RestArgs for (P1,) {
    type Message = (id, SEL, P1);

    type SuperCall = (ConstPtr<objc_super>, SEL, P1);

    open spec fn words(self) -> Seq<u32> {
        Seq::empty() + self.0.words()
    }

    fn to_words(self) -> (words: Vec<u32>) {
        let mut words: Vec<u32> = Vec::new();
        self.0.push_words(&mut words);
        words
    }
}

impl<P1: GuestArg, P2: GuestArg> RestArgs for (P1, P2) {
    type Message = (id, SEL, P1, P2);

    type SuperCall = (ConstPtr<objc_super>, SEL, P1, P2);

    open spec fn words(self) -> Seq<u32> {
        Seq::empty() + self.0.words() + self.1.words()
    }

    fn to_words(self) -> (words: Vec<u32>) {
        let mut words: Vec<u32> = Vec::new();
        self.0.push_words(&mut words);
        self.1.push_words(&mut words);
        words
    }
}

impl<P1: GuestArg, P2: GuestArg, P3: GuestArg> RestArgs for (P1, P2, P3) {
    type Message = (id, SEL, P1, P2, P3);

    type SuperCall = (ConstPtr<objc_super>, SEL, P1, P2, P3);

    open spec fn words(self) -> Seq<u32> {
        Seq::empty() + self.0.words() + self.1.words() + self.2.words()
    }

    fn to_words(self) -> (words: Vec<u32>) {
        let mut words: Vec<u32> = Vec::new();
        self.0.push_words(&mut words);
        self.1.push_words(&mut words);
        self.2.push_words(&mut words);
        words
    }
}

impl<P1: GuestArg, P2: GuestArg, P3: GuestArg, P4: GuestArg> RestArgs for (P1, P2, P3, P4) {
    type Message = (id, SEL, P1, P2, P3, P4);

    type SuperCall = (ConstPtr<objc_super>, SEL, P1, P2, P3, P4);

    open spec fn words(self) -> Seq<u32> {
        Seq::empty() + self.0.words() + self.1.words() + self.2.words() + self.3.words()
    }

    fn to_words(self) -> (words: Vec<u32>) {
        let mut words: Vec<u32> = Vec::new();
        self.0.push_words(&mut words);
        self.1.push_words(&mut words);
        self.2.push_words(&mut words);
        self.3.push_words(&mut words);
        words
    }
}

impl<
    P1: GuestArg,
    P2: GuestArg,
    P3: GuestArg,
    P4: GuestArg,
    P5: GuestArg,
> RestArgs for (P1, P2, P3, P4, P5) {
    type Message = (id, SEL, P1, P2, P3, P4, P5);

    type SuperCall = (ConstPtr<objc_super>, SEL, P1, P2, P3, P4, P5);

    open spec fn words(self) -> Seq<u32> {
        Seq::empty() + self.0.words() + self.1.words() + self.2.words() + self.3.words()
            + self.4.words()
    }

    fn to_words(self) -> (words: Vec<u32>) {
        let mut words: Vec<u32> = Vec::new();
        self.0.push_words(&mut words);
        self.1.push_words(&mut words);
        self.2.push_words(&mut words);
        self.3.push_words(&mut words);
        self.4.push_words(&mut words);
        words
    }
}

impl<
    P1: GuestArg,
    P2: GuestArg,
    P3: GuestArg,
    P4: GuestArg,
    P5: GuestArg,
    P6: GuestArg,
> RestArgs for (P1, P2, P3, P4, P5, P6) {
    type Message = (id, SEL, P1, P2, P3, P4, P5, P6);

    type SuperCall = (ConstPtr<objc_super>, SEL, P1, P2, P3, P4, P5, P6);

    open spec fn words(self) -> Seq<u32> {
        Seq::empty() + self.0.words() + self.1.words() + self.2.words() + self.3.words()
            + self.4.words() + self.5.words()
    }

    fn to_words(self) -> (words: Vec<u32>) {
        let mut words: Vec<u32> = Vec::new();
        self.0.push_words(&mut words);
        self.1.push_words(&mut words);
        self.2.push_words(&mut words);
        self.3.push_words(&mut words);
        self.4.push_words(&mut words);
        self.5.push_words(&mut words);
        words
    }
}

impl<
    P1: GuestArg,
    P2: GuestArg,
    P3: GuestArg,
    P4: GuestArg,
    P5: GuestArg,
    P6: GuestArg,
    P7: GuestArg,
> RestArgs for (P1, P2, P3, P4, P5, P6, P7) {
    type Message = (id, SEL, P1, P2, P3, P4, P5, P6, P7);

    type SuperCall = (ConstPtr<objc_super>, SEL, P1, P2, P3, P4, P5, P6, P7);

    open spec fn words(self) -> Seq<u32> {
        Seq::empty() + self.0.words() + self.1.words() + self.2.words() + self.3.words()
            + self.4.words() + self.5.words() + self.6.words()
    }

    fn to_words(self) -> (words: Vec<u32>) {
        let mut words: Vec<u32> = Vec::new();
        self.0.push_words(&mut words);
        self.1.push_words(&mut words);
        self.2.push_words(&mut words);
        self.3.push_words(&mut words);
        self.4.push_words(&mut words);
        self.5.push_words(&mut words);
        self.6.push_words(&mut words);
        words
    }
}

impl<
    P1: GuestArg,
    P2: GuestArg,
    P3: GuestArg,
    P4: GuestArg,
    P5: GuestArg,
    P6: GuestArg,
    P7: GuestArg,
    P8: GuestArg,
> RestArgs for (P1, P2, P3, P4, P5, P6, P7, P8) {
    type Message = (id, SEL, P1, P2, P3, P4, P5, P6, P7, P8);

    type SuperCall = (ConstPtr<objc_super>, SEL, P1, P2, P3, P4, P5, P6, P7, P8);

    open spec fn words(self) -> Seq<u32> {
        Seq::empty() + self.0.words() + self.1.words() + self.2.words() + self.3.words()
            + self.4.words() + self.5.words() + self.6.words() + self.7.words()
    }

    fn to_words(self) -> (words: Vec<u32>) {
        let mut words: Vec<u32> = Vec::new();
        self.0.push_words(&mut words);
        self.1.push_words(&mut words);
        self.2.push_words(&mut words);
        self.3.push_words(&mut words);
        self.4.push_words(&mut words);
        self.5.push_words(&mut words);
        self.6.push_words(&mut words);
        self.7.push_words(&mut words);
        words
    }
}

impl<
    P1: GuestArg,
    P2: GuestArg,
    P3: GuestArg,
    P4: GuestArg,
    P5: GuestArg,
    P6: GuestArg,
    P7: GuestArg,
    P8: GuestArg,
    P9: GuestArg,
> RestArgs for (P1, P2, P3, P4, P5, P6, P7, P8, P9) {
    type Message = (id, SEL, P1, P2, P3, P4, P5, P6, P7, P8, P9);

    type SuperCall = (ConstPtr<objc_super>, SEL, P1, P2, P3, P4, P5, P6, P7, P8, P9);

    open spec fn words(self) -> Seq<u32> {
        Seq::empty() + self.0.words() + self.1.words() + self.2.words() + self.3.words()
            + self.4.words() + self.5.words() + self.6.words() + self.7.words() + self.8.words()
    }

    fn to_words(self) -> (words: Vec<u32>) {
        let mut words: Vec<u32> = Vec::new();
        self.0.push_words(&mut words);
        self.1.push_words(&mut words);
        self.2.push_words(&mut words);
        self.3.push_words(&mut words);
        self.4.push_words(&mut words);
        self.5.push_words(&mut words);
        self.6.push_words(&mut words);
        self.7.push_words(&mut words);
        self.8.push_words(&mut words);
        words
    }
}

} // verus!
