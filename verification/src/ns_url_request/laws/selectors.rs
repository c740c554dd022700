//! Which selectors lead to which methods of requests.
use super::super::methods::{method_named, RequestMethod};
use vstd::prelude::*;

verus! {

/// Who has a method.
pub enum Owner {
    /// The class of requests, mutable or not.
    EveryClass,
    /// A request, mutable or not.
    EveryRequest,
    /// A mutable request.
    MutableRequest,
}

/// The selector of a method, and who has the method.
pub open spec fn entry(method: RequestMethod) -> (Seq<char>, Owner) {
    match method {
        RequestMethod::AllocWithZone => ("allocWithZone:"@, Owner::EveryClass),
        RequestMethod::RequestWithUrl => ("requestWithURL:"@, Owner::EveryClass),
        RequestMethod::RequestWithUrlCachePolicyTimeoutInterval => ("requestWithURL:cachePolicy:timeoutInterval:"@, Owner::EveryClass),
        RequestMethod::InitWithUrl => ("initWithURL:"@, Owner::EveryRequest),
        RequestMethod::InitWithUrlCachePolicyTimeoutInterval => ("initWithURL:cachePolicy:timeoutInterval:"@, Owner::EveryRequest),
        RequestMethod::Dealloc => ("dealloc"@, Owner::EveryRequest),
        RequestMethod::Copy => ("copy"@, Owner::EveryRequest),
        RequestMethod::MutableCopy => ("mutableCopy"@, Owner::EveryRequest),
        RequestMethod::Url => ("URL"@, Owner::EveryRequest),
        RequestMethod::MainDocumentUrl => ("mainDocumentURL"@, Owner::EveryRequest),
        RequestMethod::CachePolicy => ("cachePolicy"@, Owner::EveryRequest),
        RequestMethod::TimeoutInterval => ("timeoutInterval"@, Owner::EveryRequest),
        RequestMethod::NetworkServiceType => ("networkServiceType"@, Owner::EveryRequest),
        RequestMethod::AllowsCellularAccess => ("allowsCellularAccess"@, Owner::EveryRequest),
        RequestMethod::HttpShouldHandleCookies => ("HTTPShouldHandleCookies"@, Owner::EveryRequest),
        RequestMethod::HttpShouldUsePipelining => ("HTTPShouldUsePipelining"@, Owner::EveryRequest),
        RequestMethod::HttpMethod => ("HTTPMethod"@, Owner::EveryRequest),
        RequestMethod::HttpBody => ("HTTPBody"@, Owner::EveryRequest),
        RequestMethod::HttpBodyStream => ("HTTPBodyStream"@, Owner::EveryRequest),
        RequestMethod::AllHttpHeaderFields => ("allHTTPHeaderFields"@, Owner::EveryRequest),
        RequestMethod::ValueForHttpHeaderField => ("valueForHTTPHeaderField:"@, Owner::EveryRequest),
        RequestMethod::Description => ("description"@, Owner::EveryRequest),
        RequestMethod::SetUrl => ("setURL:"@, Owner::MutableRequest),
        RequestMethod::SetMainDocumentUrl => ("setMainDocumentURL:"@, Owner::MutableRequest),
        RequestMethod::SetCachePolicy => ("setCachePolicy:"@, Owner::MutableRequest),
        RequestMethod::SetTimeoutInterval => ("setTimeoutInterval:"@, Owner::MutableRequest),
        RequestMethod::SetNetworkServiceType => ("setNetworkServiceType:"@, Owner::MutableRequest),
        RequestMethod::SetAllowsCellularAccess => ("setAllowsCellularAccess:"@, Owner::MutableRequest),
        RequestMethod::SetHttpShouldHandleCookies => ("setHTTPShouldHandleCookies:"@, Owner::MutableRequest),
        RequestMethod::SetHttpShouldUsePipelining => ("setHTTPShouldUsePipelining:"@, Owner::MutableRequest),
        RequestMethod::SetHttpMethod => ("setHTTPMethod:"@, Owner::MutableRequest),
        RequestMethod::SetHttpBody => ("setHTTPBody:"@, Owner::MutableRequest),
        RequestMethod::SetHttpBodyStream => ("setHTTPBodyStream:"@, Owner::MutableRequest),
        RequestMethod::SetValueForHttpHeaderField => ("setValue:forHTTPHeaderField:"@, Owner::MutableRequest),
        RequestMethod::AddValueForHttpHeaderField => ("addValue:forHTTPHeaderField:"@, Owner::MutableRequest),
        RequestMethod::SetAllHttpHeaderFields => ("setAllHTTPHeaderFields:"@, Owner::MutableRequest),
    }
}

/// A class, or a request, has the methods of this owner.
pub open spec fn is_owner(owner: Owner, mutable: bool, class_method: bool) -> bool {
    match owner {
        Owner::EveryClass => class_method,
        Owner::EveryRequest => !class_method,
        Owner::MutableRequest => !class_method && mutable,
    }
}

/// The selector leads to this method.
pub open spec fn leads_to(mutable: bool, class_method: bool, name: Seq<char>, method: RequestMethod) -> bool {
    entry(method).0 == name && is_owner(entry(method).1, mutable, class_method)
}

/// The names of methods are of different lengths, or else differ in a character.
proof fn lemma_names_differ()
    ensures
        "allocWithZone:"@.len() == 14,
        "requestWithURL:"@.len() == 15,
        "requestWithURL:cachePolicy:timeoutInterval:"@.len() == 43,
        "initWithURL:"@.len() == 12,
        "initWithURL:cachePolicy:timeoutInterval:"@.len() == 40,
        "dealloc"@.len() == 7,
        "copy"@.len() == 4,
        "mutableCopy"@.len() == 11,
        "URL"@.len() == 3,
        "mainDocumentURL"@.len() == 15,
        "cachePolicy"@.len() == 11,
        "timeoutInterval"@.len() == 15,
        "networkServiceType"@.len() == 18,
        "allowsCellularAccess"@.len() == 20,
        "HTTPShouldHandleCookies"@.len() == 23,
        "HTTPShouldUsePipelining"@.len() == 23,
        "HTTPMethod"@.len() == 10,
        "HTTPBody"@.len() == 8,
        "HTTPBodyStream"@.len() == 14,
        "allHTTPHeaderFields"@.len() == 19,
        "valueForHTTPHeaderField:"@.len() == 24,
        "description"@.len() == 11,
        "setURL:"@.len() == 7,
        "setMainDocumentURL:"@.len() == 19,
        "setCachePolicy:"@.len() == 15,
        "setTimeoutInterval:"@.len() == 19,
        "setNetworkServiceType:"@.len() == 22,
        "setAllowsCellularAccess:"@.len() == 24,
        "setHTTPShouldHandleCookies:"@.len() == 27,
        "setHTTPShouldUsePipelining:"@.len() == 27,
        "setHTTPMethod:"@.len() == 14,
        "setHTTPBody:"@.len() == 12,
        "setHTTPBodyStream:"@.len() == 18,
        "setValue:forHTTPHeaderField:"@.len() == 28,
        "addValue:forHTTPHeaderField:"@.len() == 28,
        "setAllHTTPHeaderFields:"@.len() == 23,
        "HTTPBodyStream"@[0] == 'H',
        "HTTPShouldHandleCookies"@[0] == 'H',
        "HTTPShouldHandleCookies"@[10] == 'H',
        "HTTPShouldUsePipelining"@[0] == 'H',
        "HTTPShouldUsePipelining"@[10] == 'U',
        "addValue:forHTTPHeaderField:"@[0] == 'a',
        "allHTTPHeaderFields"@[0] == 'a',
        "cachePolicy"@[0] == 'c',
        "dealloc"@[0] == 'd',
        "description"@[0] == 'd',
        "initWithURL:"@[0] == 'i',
        "mainDocumentURL"@[0] == 'm',
        "mutableCopy"@[0] == 'm',
        "networkServiceType"@[0] == 'n',
        "setAllHTTPHeaderFields:"@[0] == 's',
        "setAllowsCellularAccess:"@[0] == 's',
        "setCachePolicy:"@[0] == 's',
        "setHTTPBody:"@[0] == 's',
        "setHTTPBodyStream:"@[0] == 's',
        "setHTTPMethod:"@[0] == 's',
        "setHTTPShouldHandleCookies:"@[13] == 'H',
        "setHTTPShouldUsePipelining:"@[13] == 'U',
        "setMainDocumentURL:"@[0] == 's',
        "setMainDocumentURL:"@[3] == 'M',
        "setTimeoutInterval:"@[0] == 's',
        "setTimeoutInterval:"@[3] == 'T',
        "setURL:"@[0] == 's',
        "setValue:forHTTPHeaderField:"@[0] == 's',
        "timeoutInterval"@[0] == 't',
        "valueForHTTPHeaderField:"@[0] == 'v',
{
    reveal_strlit("allocWithZone:");
    reveal_strlit("requestWithURL:");
    reveal_strlit("requestWithURL:cachePolicy:timeoutInterval:");
    reveal_strlit("initWithURL:");
    reveal_strlit("initWithURL:cachePolicy:timeoutInterval:");
    reveal_strlit("dealloc");
    reveal_strlit("copy");
    reveal_strlit("mutableCopy");
    reveal_strlit("URL");
    reveal_strlit("mainDocumentURL");
    reveal_strlit("cachePolicy");
    reveal_strlit("timeoutInterval");
    reveal_strlit("networkServiceType");
    reveal_strlit("allowsCellularAccess");
    reveal_strlit("HTTPShouldHandleCookies");
    reveal_strlit("HTTPShouldUsePipelining");
    reveal_strlit("HTTPMethod");
    reveal_strlit("HTTPBody");
    reveal_strlit("HTTPBodyStream");
    reveal_strlit("allHTTPHeaderFields");
    reveal_strlit("valueForHTTPHeaderField:");
    reveal_strlit("description");
    reveal_strlit("setURL:");
    reveal_strlit("setMainDocumentURL:");
    reveal_strlit("setCachePolicy:");
    reveal_strlit("setTimeoutInterval:");
    reveal_strlit("setNetworkServiceType:");
    reveal_strlit("setAllowsCellularAccess:");
    reveal_strlit("setHTTPShouldHandleCookies:");
    reveal_strlit("setHTTPShouldUsePipelining:");
    reveal_strlit("setHTTPMethod:");
    reveal_strlit("setHTTPBody:");
    reveal_strlit("setHTTPBodyStream:");
    reveal_strlit("setValue:forHTTPHeaderField:");
    reveal_strlit("addValue:forHTTPHeaderField:");
    reveal_strlit("setAllHTTPHeaderFields:");
}

/// Each method is found by its own selector, by all that have it and by no others, and no
/// other selector leads to a method.
pub proof fn selectors_lead_to_their_methods(
    mutable: bool,
    class_method: bool,
    name: &str,
    method: RequestMethod,
    result: Option<RequestMethod>,
)
    requires
        call_ensures(method_named, (mutable, class_method, name), result),
    ensures
        result == Some(method) <==> leads_to(mutable, class_method, name@, method),
{
    lemma_names_differ();
}

} // verus!
