# objc_messaging

Objective-C messaging for a guest program that runs under emulation: `objc_msgSend`
and its variants, lazy `+initialize`, the functions by which the host sends messages,
and `NSURLRequest` with `NSMutableURLRequest` on top of them. The library is written
in Verus, and every function of it is proved to do what its contract says, but for
two wrappers around `std::any::TypeId`, whose contracts are trusted
(`src/signature.rs`).

The code of methods, the allocator and the strings belong to the program around the
library. A message, and a method that sends messages, therefore comes in steps: a
library function goes as far as it can and returns what has to be done next (`Step`,
`InitializeStep`, `Next`), and another one takes the result and goes on.

- `src/env.rs`: the state of the guest, and the model that all contracts speak of
- `src/mem.rs`, `src/text.rs`, `src/objc.rs`: memory, names, and the runtime's classes
- `src/signature.rs`, `src/args.rs`, `src/abi.rs`: types of messages, their arguments,
  and the calling convention
- `src/initialize.rs`, `src/dispatch.rs`, `src/messages.rs`: the messaging itself
- `src/laws.rs`: what holds of messages as a whole
- `src/ns_url_request.rs` and `src/ns_url_request/`: requests, and what holds of them
- `app/`: takes the steps, with the code of the methods
