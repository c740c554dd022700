//! The state that messages act on.
use crate::mem::{with_cstr, Mem};
use crate::objc::{hierarchy_ends, selector_named, NamedClass, NamedSelector, ObjC, Objects, SEL};
use crate::signature::TypeInfo;
use vstd::prelude::*;
use vstd::utf8::encode_utf8;

verus! {

/// The number of the stack pointer among the registers.
pub const SP: usize = 13;

/// The number of the link register among the registers.
pub const LR: usize = 14;

/// How deep messages may nest. Real view hierarchies rarely need more than some
/// fifty levels, and a small limit keeps well clear of the end of a small native
/// stack.
pub const MAX_DISPATCH_DEPTH: usize = 128;

/// How deep requests for URLs may nest before new ones are refused.
pub const MAX_REQUEST_DEPTH: usize = 32;

/// The processor of the guest.
pub struct Cpu {
    pub regs: [u32; 16],
}

/// What is counted across environments: how deep things nest is a matter of the
/// thread that they run on, and reports are counted for the whole process. A program
/// with several environments gives each the counts before it lets it run, and takes
/// them from it afterwards.
#[derive(Clone, Copy, Debug, PartialEq, Eq, Structural)]
pub struct Counters {
    /// How many messages are being dispatched, each from within the one before.
    pub dispatch_depth: usize,
    /// How many messages went to objects without a class.
    pub nil_isa_count: usize,
    /// How many requests for URLs are being set up, each from within the one before.
    pub request_depth: usize,
}

impl Counters {
    /// Neither depth is past its limit.
    pub open spec fn wf(self) -> bool {
        &&& self.dispatch_depth <= MAX_DISPATCH_DEPTH
        &&& self.request_depth <= MAX_REQUEST_DEPTH + 1
    }

    /// The counts when nothing has run yet.
    pub fn new() -> (counters: Counters)
        ensures
            counters == (Counters { dispatch_depth: 0, nil_isa_count: 0, request_depth: 0 }),
            counters.wf(),
    {
        Counters { dispatch_depth: 0, nil_isa_count: 0, request_depth: 0 }
    }
}

/// The guest, and what the host keeps about it.
pub struct Environment {
    pub cpu: Cpu,
    pub mem: Mem,
    pub objc: ObjC,
    /// The counts of the thread and the process, while this environment runs.
    pub counters: Counters,
}

/// What an [`Environment`] holds.
#[verifier::ext_equal]
pub struct Model {
    pub regs: Seq<u32>,
    pub mem: Map<u32, u8>,
    pub objects: Objects,
    pub initialized: Set<u32>,
    pub selectors: Seq<NamedSelector>,
    pub known_classes: Seq<NamedClass>,
    pub message_type_info: Option<TypeInfo>,
    pub dispatch_depth: usize,
    pub nil_isa_count: usize,
    pub request_depth: usize,
}

impl View for Environment {
    type V = Model;

    open spec fn view(&self) -> Model {
        Model {
            regs: self.cpu.regs@,
            mem: self.mem@,
            objects: self.objc.host_objects@,
            initialized: self.objc.initialized_classes@,
            selectors: self.objc.selectors@,
            known_classes: self.objc.known_classes@,
            message_type_info: self.objc.message_type_info,
            dispatch_depth: self.counters.dispatch_depth,
            nil_isa_count: self.counters.nil_isa_count,
            request_depth: self.counters.request_depth,
        }
    }
}

impl Model {
    /// What holds of an environment whenever nothing is halfway done: no class is
    /// its own ancestor, and neither counter of depths is past its limit.
    pub open spec fn wf(self) -> bool {
        &&& self.regs.len() == 16
        &&& hierarchy_ends(self.objects)
        &&& self.dispatch_depth <= MAX_DISPATCH_DEPTH
        &&& self.request_depth <= MAX_REQUEST_DEPTH + 1
    }
}

impl Environment {
    /// A guest that has done nothing yet.
    pub fn new() -> (env: Environment)
        ensures
            env@.wf(),
            env@ == (Model {
                regs: Seq::new(16, |i: int| 0u32),
                mem: Map::empty(),
                objects: Map::empty(),
                initialized: Set::empty(),
                selectors: Seq::empty(),
                known_classes: Seq::empty(),
                message_type_info: None,
                dispatch_depth: 0,
                nil_isa_count: 0,
                request_depth: 0,
            }),
    {
        let env = Environment {
            cpu: Cpu { regs: [0u32; 16] },
            mem: Mem::new(),
            objc: ObjC::new(),
            counters: Counters::new(),
        };
        proof {
            crate::objc::lemma_empty_hierarchy_ends();
        }
        env
    }

    /// Whether all that must hold of an environment holds.
    pub fn check(&self) -> (result: bool)
        ensures
            result == self@.wf(),
    {
        self.counters.dispatch_depth <= MAX_DISPATCH_DEPTH && self.counters.request_depth
            <= MAX_REQUEST_DEPTH + 1 && self.objc.check_hierarchy()
    }

    /// Registers a selector under its name, unless the name has one already, and
    /// returns the selector that the name then has. The name is written to where the
    /// selector points.
    pub fn register_selector(&mut self, name: String, selector: SEL) -> (result: SEL)
        requires
            encode_utf8(name@).len() < 0x1_0000_0000,
        ensures
            match selector_named(old(self)@.selectors, name@) {
                Some(known) => result == known && final(self)@ == old(self)@,
                None => {
                    &&& result == selector
                    &&& final(self)@ == (Model {
                        mem: with_cstr(old(self)@.mem, selector.0, encode_utf8(name@)),
                        selectors: old(self)@.selectors.push((NamedSelector { name, selector })),
                        ..old(self)@
                    })
                },
            },
            selector_named(final(self)@.selectors, name@) == Some(result),
            old(self)@.wf() ==> final(self)@.wf(),
    {
        if let Some(known) = self.objc.lookup_selector(name.as_str()) {
            return known;
        }
        self.mem.write_cstr(selector.0, name.as_str().as_bytes());
        self.objc.register_selector(name, selector)
    }
}

} // verus!
