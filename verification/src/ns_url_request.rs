//! `NSURLRequest` and `NSMutableURLRequest`: what a request holds.
use crate::abi::{argument, argument_of, Answer, GuestRet};
use crate::args::GuestArg;
use crate::env::{Environment, Model};
use crate::objc::{id, nil, HostObject};
use vstd::prelude::*;

pub mod copy;
pub mod create;
pub mod describe;
pub mod headers;
pub mod laws;
pub mod messages;
pub mod methods;
pub mod set;
pub mod steps;

verus! {

pub type NSUInteger = u32;

pub type NSURLRequestCachePolicy = NSUInteger;

#[allow(non_upper_case_globals)]
pub const NSURLRequestUseProtocolCachePolicy: NSURLRequestCachePolicy = 0;

#[allow(non_upper_case_globals)]
pub const NSURLRequestReloadIgnoringLocalCache: NSURLRequestCachePolicy = 1;

/// Another name for [`NSURLRequestReloadIgnoringLocalCache`].
#[allow(non_upper_case_globals)]
pub const NSURLRequestReloadIgnoringCacheData: NSURLRequestCachePolicy = 1;

#[allow(non_upper_case_globals)]
pub const NSURLRequestReturnCacheDataElseLoad: NSURLRequestCachePolicy = 2;

#[allow(non_upper_case_globals)]
pub const NSURLRequestReturnCacheDataDontLoad: NSURLRequestCachePolicy = 3;

#[allow(non_upper_case_globals)]
pub const NSURLRequestReloadRevalidatingCacheData: NSURLRequestCachePolicy = 4;

pub type NSURLRequestNetworkServiceType = NSUInteger;

#[allow(non_upper_case_globals)]
pub const NSURLNetworkServiceTypeDefault: NSURLRequestNetworkServiceType = 0;

#[allow(non_upper_case_globals)]
pub const NSURLNetworkServiceTypeVoIP: NSURLRequestNetworkServiceType = 1;

#[allow(non_upper_case_globals)]
pub const NSURLNetworkServiceTypeVideo: NSURLRequestNetworkServiceType = 2;

#[allow(non_upper_case_globals)]
pub const NSURLNetworkServiceTypeBackground: NSURLRequestNetworkServiceType = 3;

#[allow(non_upper_case_globals)]
pub const NSURLNetworkServiceTypeVoice: NSURLRequestNetworkServiceType = 4;

/// A number of seconds: the bits of a double-precision number.
#[derive(Clone, Copy, Debug, PartialEq, Eq, Structural)]
pub struct NSTimeInterval(pub u64);

impl GuestRet for NSTimeInterval {
    const SIZE_IN_MEM: Option<u32> = None;
}

impl GuestArg for NSTimeInterval {
    open spec fn words(self) -> Seq<u32> {
        self.0.words()
    }

    fn push_words(self, words: &mut Vec<u32>) {
        self.0.push_words(words);
    }
}

impl Answer for NSTimeInterval {
    open spec fn of_regs(regs: Seq<u32>) -> NSTimeInterval {
        NSTimeInterval(u64::of_regs(regs))
    }

    fn read(env: &Environment) -> (value: NSTimeInterval) {
        NSTimeInterval(u64::read(env))
    }
}

/// The interval that is passed in two words.
pub open spec fn interval_of(low: u32, high: u32) -> NSTimeInterval {
    NSTimeInterval((low + high * 0x1_0000_0000) as u64)
}

/// Reads an interval among the arguments, from the word of a number on.
pub fn interval_argument(env: &Environment, number: u32) -> (result: NSTimeInterval)
    requires
        number < 0x3fff_ffe0,
    ensures
        result == interval_of(
            argument_of(env@, number as int),
            argument_of(env@, number + 1),
        ),
{
    let low = argument(env, number);
    let high = argument(env, number + 1);
    NSTimeInterval(low as u64 + high as u64 * 0x1_0000_0000)
}

/// The words that an interval is passed in make up the interval.
pub proof fn intervals_are_read_back(interval: NSTimeInterval)
    ensures
        interval_of(interval.words()[0], interval.words()[1]) == interval,
{
}

/// An interval is returned in registers.
pub proof fn intervals_are_returned_in_registers()
    ensures
        <NSTimeInterval as GuestRet>::SIZE_IN_MEM is None,
{
}

/// One minute, the time that a request has unless it is given another.
#[verifier::allow_in_spec]
pub fn default_timeout_interval() -> NSTimeInterval
    returns
        NSTimeInterval(0x404e_0000_0000_0000),
{
    NSTimeInterval(0x404e_0000_0000_0000)
}

/// The host's side of a request.
#[derive(Clone, Copy, Debug, PartialEq, Eq, Structural)]
pub struct NSURLRequestHostObject {
    pub url: id,
    pub main_document_url: id,
    pub cache_policy: NSURLRequestCachePolicy,
    pub timeout_interval: NSTimeInterval,
    pub network_service_type: NSURLRequestNetworkServiceType,
    pub allows_cellular_access: bool,
    pub handles_cookies: bool,
    pub http_method: id,
    /// The method is the request's own, and not a static string.
    pub http_method_is_owned: bool,
    pub http_body: id,
    pub http_body_stream: id,
    pub http_should_handle_cookies: bool,
    pub http_should_use_pipelining: bool,
    pub http_header_fields: id,
}

/// A request as it is when it was allocated.
pub open spec fn new_request(http_method: id, http_header_fields: id) -> NSURLRequestHostObject {
    NSURLRequestHostObject {
        url: nil(),
        main_document_url: nil(),
        cache_policy: NSURLRequestUseProtocolCachePolicy,
        timeout_interval: default_timeout_interval(),
        network_service_type: NSURLNetworkServiceTypeDefault,
        allows_cellular_access: true,
        handles_cookies: true,
        http_method,
        http_method_is_owned: false,
        http_body: nil(),
        http_body_stream: nil(),
        http_should_handle_cookies: true,
        http_should_use_pipelining: false,
        http_header_fields,
    }
}

/// The object is a request.
pub open spec fn is_request(model: Model, object: id) -> bool {
    model.objects.contains_key(object.0) && model.objects[object.0] is URLRequest
}

/// What a request holds.
pub open spec fn request(model: Model, object: id) -> NSURLRequestHostObject {
    model.objects[object.0]->URLRequest_0
}

/// The environment with a request changed.
pub open spec fn with_request(model: Model, object: id, host: NSURLRequestHostObject) -> Model {
    Model { objects: model.objects.insert(object.0, HostObject::URLRequest(host)), ..model }
}

impl NSURLRequestHostObject {
    /// A request as it is when it was allocated.
    pub fn new(http_method: id, http_header_fields: id) -> (host: NSURLRequestHostObject)
        ensures
            host == new_request(http_method, http_header_fields),
    {
        NSURLRequestHostObject {
            url: nil(),
            main_document_url: nil(),
            cache_policy: NSURLRequestUseProtocolCachePolicy,
            timeout_interval: default_timeout_interval(),
            network_service_type: NSURLNetworkServiceTypeDefault,
            allows_cellular_access: true,
            handles_cookies: true,
            http_method,
            http_method_is_owned: false,
            http_body: nil(),
            http_body_stream: nil(),
            http_should_handle_cookies: true,
            http_should_use_pipelining: false,
            http_header_fields,
        }
    }
}

/// Whether an object is a request.
pub fn check_request(env: &Environment, object: id) -> (result: bool)
    ensures
        result == is_request(env@, object),
{
    match env.objc.get_host_object(object) {
        Some(HostObject::URLRequest(_)) => true,
        _ => false,
    }
}

/// What a request holds.
pub(crate) fn borrow(env: &Environment, this: id) -> (host: NSURLRequestHostObject)
    requires
        is_request(env@, this),
    ensures
        host == request(env@, this),
{
    match env.objc.get_host_object(this) {
        Some(HostObject::URLRequest(host)) => *host,
        _ => NSURLRequestHostObject::new(nil(), nil()),
    }
}

/// Changes what a request holds.
pub(crate) fn store(env: &mut Environment, this: id, host: NSURLRequestHostObject)
    ensures
        final(env)@ == with_request(old(env)@, this, host),
        old(env)@.wf() ==> final(env)@.wf(),
{
    env.objc.set_host_object(this, HostObject::URLRequest(host));
}

/// `-URL`
pub fn url(env: &Environment, this: id) -> (result: id)
    requires
        is_request(env@, this),
    ensures
        result == request(env@, this).url,
{
    borrow(env, this).url
}

/// `-mainDocumentURL`
pub fn main_document_url(env: &Environment, this: id) -> (result: id)
    requires
        is_request(env@, this),
    ensures
        result == request(env@, this).main_document_url,
{
    borrow(env, this).main_document_url
}

/// `-cachePolicy`
pub fn cache_policy(env: &Environment, this: id) -> (result: NSURLRequestCachePolicy)
    requires
        is_request(env@, this),
    ensures
        result == request(env@, this).cache_policy,
{
    borrow(env, this).cache_policy
}

/// `-timeoutInterval`
pub fn timeout_interval(env: &Environment, this: id) -> (result: NSTimeInterval)
    requires
        is_request(env@, this),
    ensures
        result == request(env@, this).timeout_interval,
{
    borrow(env, this).timeout_interval
}

/// `-networkServiceType`
pub fn network_service_type(env: &Environment, this: id) -> (result: NSURLRequestNetworkServiceType)
    requires
        is_request(env@, this),
    ensures
        result == request(env@, this).network_service_type,
{
    borrow(env, this).network_service_type
}

/// `-allowsCellularAccess`
pub fn allows_cellular_access(env: &Environment, this: id) -> (result: bool)
    requires
        is_request(env@, this),
    ensures
        result == request(env@, this).allows_cellular_access,
{
    borrow(env, this).allows_cellular_access
}

/// `-HTTPShouldHandleCookies`
pub fn http_should_handle_cookies(env: &Environment, this: id) -> (result: bool)
    requires
        is_request(env@, this),
    ensures
        result == request(env@, this).http_should_handle_cookies,
{
    borrow(env, this).http_should_handle_cookies
}

/// `-HTTPShouldUsePipelining`
pub fn http_should_use_pipelining(env: &Environment, this: id) -> (result: bool)
    requires
        is_request(env@, this),
    ensures
        result == request(env@, this).http_should_use_pipelining,
{
    borrow(env, this).http_should_use_pipelining
}

/// `-HTTPMethod`
pub fn http_method(env: &Environment, this: id) -> (result: id)
    requires
        is_request(env@, this),
    ensures
        result == request(env@, this).http_method,
{
    borrow(env, this).http_method
}

/// `-HTTPBody`
pub fn http_body(env: &Environment, this: id) -> (result: id)
    requires
        is_request(env@, this),
    ensures
        result == request(env@, this).http_body,
{
    borrow(env, this).http_body
}

/// `-HTTPBodyStream`
pub fn http_body_stream(env: &Environment, this: id) -> (result: id)
    requires
        is_request(env@, this),
    ensures
        result == request(env@, this).http_body_stream,
{
    borrow(env, this).http_body_stream
}

/// `-allHTTPHeaderFields`
pub fn all_http_header_fields(env: &Environment, this: id) -> (result: id)
    requires
        is_request(env@, this),
    ensures
        result == request(env@, this).http_header_fields,
{
    borrow(env, this).http_header_fields
}

/// `-setCachePolicy:` of a mutable request.
pub fn set_cache_policy(env: &mut Environment, this: id, policy: NSURLRequestCachePolicy)
    requires
        is_request(old(env)@, this),
    ensures
        final(env)@ == with_request(
            old(env)@,
            this,
            NSURLRequestHostObject { cache_policy: policy, ..request(old(env)@, this) },
        ),
        old(env)@.wf() ==> final(env)@.wf(),
{
    let host = borrow(env, this);
    store(env, this, NSURLRequestHostObject { cache_policy: policy, ..host });
}

/// `-setTimeoutInterval:` of a mutable request.
pub fn set_timeout_interval(env: &mut Environment, this: id, interval: NSTimeInterval)
    requires
        is_request(old(env)@, this),
    ensures
        final(env)@ == with_request(
            old(env)@,
            this,
            NSURLRequestHostObject { timeout_interval: interval, ..request(old(env)@, this) },
        ),
        old(env)@.wf() ==> final(env)@.wf(),
{
    let host = borrow(env, this);
    store(env, this, NSURLRequestHostObject { timeout_interval: interval, ..host });
}

/// `-setNetworkServiceType:` of a mutable request.
pub fn set_network_service_type(env: &mut Environment, this: id, service_type: NSURLRequestNetworkServiceType)
    requires
        is_request(old(env)@, this),
    ensures
        final(env)@ == with_request(
            old(env)@,
            this,
            NSURLRequestHostObject { network_service_type: service_type, ..request(old(env)@, this) },
        ),
        old(env)@.wf() ==> final(env)@.wf(),
{
    let host = borrow(env, this);
    store(env, this, NSURLRequestHostObject { network_service_type: service_type, ..host });
}

/// `-setAllowsCellularAccess:` of a mutable request.
pub fn set_allows_cellular_access(env: &mut Environment, this: id, allows: bool)
    requires
        is_request(old(env)@, this),
    ensures
        final(env)@ == with_request(
            old(env)@,
            this,
            NSURLRequestHostObject { allows_cellular_access: allows, ..request(old(env)@, this) },
        ),
        old(env)@.wf() ==> final(env)@.wf(),
{
    let host = borrow(env, this);
    store(env, this, NSURLRequestHostObject { allows_cellular_access: allows, ..host });
}

/// `-setHTTPShouldHandleCookies:` of a mutable request.
pub fn set_http_should_handle_cookies(env: &mut Environment, this: id, should: bool)
    requires
        is_request(old(env)@, this),
    ensures
        final(env)@ == with_request(
            old(env)@,
            this,
            NSURLRequestHostObject { http_should_handle_cookies: should, ..request(old(env)@, this) },
        ),
        old(env)@.wf() ==> final(env)@.wf(),
{
    let host = borrow(env, this);
    store(env, this, NSURLRequestHostObject { http_should_handle_cookies: should, ..host });
}

/// `-setHTTPShouldUsePipelining:` of a mutable request.
pub fn set_http_should_use_pipelining(env: &mut Environment, this: id, should: bool)
    requires
        is_request(old(env)@, this),
    ensures
        final(env)@ == with_request(
            old(env)@,
            this,
            NSURLRequestHostObject { http_should_use_pipelining: should, ..request(old(env)@, this) },
        ),
        old(env)@.wf() ==> final(env)@.wf(),
{
    let host = borrow(env, this);
    store(env, this, NSURLRequestHostObject { http_should_use_pipelining: should, ..host });
}

} // verus!
