//! Choosing the proxy through which the release is fetched.
//!
//! A proxy is configured through one of six environment variables. They are
//! consulted in a fixed order, and the first one that is set to an address
//! the HTTP client accepts wins. Reading the environment is the caller's
//! part: the functions here take the values that were found.

use vstd::prelude::*;

verus! {

/// `ureq::Proxy`, the HTTP client's description of a proxy. Nothing is known
/// of what is inside: a proxy is only carried from where it is made to the
/// caller.
#[verifier::external_type_specification]
#[verifier::external_body]
pub struct ExProxy(ureq::Proxy);

/// `ureq::Error`, with which the HTTP client rejects a proxy address. It is
/// never looked into: a rejected address counts as none.
#[verifier::external_type_specification]
#[verifier::external_body]
pub struct ExError(ureq::Error);

/// What `ureq::Proxy::new` makes of `setting`: the proxy, or `None` where it
/// rejects the string.
pub uninterp spec fn proxy_from_setting(setting: Seq<char>) -> Option<ureq::Proxy>;

/// Calls `ureq::Proxy::new` on `setting`.
///
/// Trusted, not proved: the call returns for every string, and what it
/// yields, a proxy or an error, depends on the characters of `setting` alone.
/// Which strings are accepted and what proxy they give is left to the client;
/// the outcome is only given a name, `proxy_from_setting`.
#[verifier::external_body]
fn parse_proxy(setting: &str) -> (parsed: Result<ureq::Proxy, ureq::Error>)
    ensures
        parsed.ok() == proxy_from_setting(setting@),
{
    ureq::Proxy::new(setting)
}

/// The environment variables that may name a proxy, the one that is
/// consulted first in front.
pub open spec fn proxy_variables() -> Seq<Seq<char>> {
    seq![
        "ALL_PROXY"@,
        "all_proxy"@,
        "HTTPS_PROXY"@,
        "https_proxy"@,
        "HTTP_PROXY"@,
        "http_proxy"@,
    ]
}

/// The names of the environment variables that may name a proxy, in the
/// order in which they are consulted.
pub fn proxy_variable_names() -> (names: Vec<&'static str>)
    ensures
        names@.len() == proxy_variables().len(),
        forall|i: int| 0 <= i < names@.len() ==> (#[trigger] names@[i])@ == proxy_variables()[i],
{
    let mut names: Vec<&'static str> = Vec::new();
    names.push("ALL_PROXY");
    names.push("all_proxy");
    names.push("HTTPS_PROXY");
    names.push("https_proxy");
    names.push("HTTP_PROXY");
    names.push("http_proxy");
    names
}

/// `found` is the first filled slot of `items`, with its position; or it is
/// `None` and no slot is filled.
pub open spec fn is_first_some<T>(items: Seq<Option<T>>, found: Option<(usize, T)>) -> bool {
    match found {
        Some((at, item)) => {
            &&& at < items.len()
            &&& items[at as int] == Some(item)
            &&& forall|j: int| 0 <= j < at ==> items[j] is None
        },
        None => forall|j: int| 0 <= j < items.len() ==> items[j] is None,
    }
}

/// The first filled slot of `items` and its position, if any slot is filled.
pub fn first_some<T>(items: Vec<Option<T>>) -> (found: Option<(usize, T)>)
    ensures
        is_first_some(items@, found),
{
    let ghost all = items@;
    let mut rest = items;
    let mut found: Option<(usize, T)> = None;
    while rest.len() > 0
        invariant
            rest@ == all.subrange(0, rest@.len() as int),
            rest@.len() <= all.len(),
            match found {
                Some((at, item)) => {
                    &&& rest@.len() <= at < all.len()
                    &&& all[at as int] == Some(item)
                    &&& forall|j: int| rest@.len() <= j < at ==> all[j] is None
                },
                None => forall|j: int| rest@.len() <= j < all.len() ==> all[j] is None,
            },
        decreases rest@.len(),
    {
        let at: usize = rest.len() - 1;
        let slot = rest.pop();
        assert(slot == Some(all[at as int]));
        assert(rest@ =~= all.subrange(0, at as int));
        match slot {
            Some(Some(item)) => {
                found = Some((at, item));
            },
            _ => {},
        }
    }
    found
}

/// What a variable contributes: the proxy made from its value, or `None`
/// where the variable is not set or the HTTP client rejects its value.
pub open spec fn candidate(value: Option<String>) -> Option<ureq::Proxy> {
    match value {
        Some(setting) => proxy_from_setting(setting@),
        None => None,
    }
}

/// The contribution of each variable, in the order of `values`.
pub open spec fn candidates(values: Seq<Option<String>>) -> Seq<Option<ureq::Proxy>> {
    Seq::new(values.len(), |i: int| candidate(values[i]))
}

/// Parses each value that is set, keeping a proxy where the client accepts
/// the value.
fn parse_settings(values: &Vec<Option<String>>) -> (parsed: Vec<Option<ureq::Proxy>>)
    ensures
        parsed@ == candidates(values@),
{
    let mut parsed: Vec<Option<ureq::Proxy>> = Vec::new();
    let mut i: usize = 0;
    while i < values.len()
        invariant
            i <= values@.len(),
            parsed@ == candidates(values@).subrange(0, i as int),
        decreases values@.len() - i,
    {
        let slot = match &values[i] {
            Some(setting) => match parse_proxy(setting.as_str()) {
                Ok(proxy) => Some(proxy),
                Err(_) => None,
            },
            None => None,
        };
        parsed.push(slot);
        i = i + 1;
        assert(parsed@ =~= candidates(values@).subrange(0, i as int));
    }
    assert(parsed@ =~= candidates(values@));
    parsed
}

/// Chooses the proxy from the values of the proxy variables.
///
/// `values` holds, in the order of `proxy_variables`, what each variable is
/// set to, or `None` where it is not set. The first value that the HTTP
/// client accepts wins: the result is its position and the proxy made from
/// it, and later values are not merged in. Where no value is accepted there
/// is no proxy.
pub fn select_proxy(values: &Vec<Option<String>>) -> (chosen: Option<(usize, ureq::Proxy)>)
    ensures
        is_first_some(candidates(values@), chosen),
{
    first_some(parse_settings(values))
}

} // verus!
