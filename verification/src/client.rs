//! The shared HTTP-client configuration: set up once at startup, read by
//! everything that talks to the network. An explicit slot stands in place
//! of hidden global state.

use vstd::prelude::*;

verus! {

/// What the HTTP client is built from: the proxy to route through, if one
/// is configured.
#[derive(Clone, PartialEq, Eq, Debug)]
pub struct ClientConfig {
    pub proxy: Option<String>,
}

/// The slot the one client configuration lives in.
pub struct ClientSlot {
    inner: Option<ClientConfig>,
}

/// The proxy setting that an initialization records: a given, non-empty
/// proxy address is kept; an empty or absent one is ignored.
pub open spec fn spec_normalize_proxy(proxy: Option<String>) -> Option<String> {
    match proxy {
        Some(p) => if p@.len() == 0 {
            None
        } else {
            Some(p)
        },
        None => None,
    }
}

impl ClientSlot {
    /// The held configuration, if initialization has happened.
    pub closed spec fn spec_inner(&self) -> Option<ClientConfig> {
        self.inner
    }

    /// An empty slot.
    pub fn new() -> (r: ClientSlot)
        ensures
            r.spec_inner() is None,
    {
        ClientSlot { inner: None }
    }
}

/// Set up the shared client configuration once. The first call records the
/// normalized proxy setting and returns it; any later call leaves the slot
/// as it is and returns the configuration already held.
pub fn init_client(slot: &mut ClientSlot, proxy: Option<String>) -> (r: ClientConfig)
    ensures
        old(slot).spec_inner() is Some ==> *final(slot) == *old(slot) && Some(r) == old(slot).spec_inner(),
        old(slot).spec_inner() is None ==> r.proxy == spec_normalize_proxy(proxy)
            && final(slot).spec_inner() == Some(r),
{
    match &slot.inner {
        Some(c) => ClientConfig { proxy: match &c.proxy {
            Some(p) => Some(p.clone()),
            None => None,
        } },
        None => {
            let normalized: Option<String> = match proxy {
                Some(p) => if p.as_str().is_empty() {
                    None
                } else {
                    Some(p)
                },
                None => None,
            };
            let config = ClientConfig { proxy: match &normalized {
                Some(p) => Some(p.clone()),
                None => None,
            } };
            slot.inner = Some(ClientConfig { proxy: normalized });
            config
        },
    }
}

/// The configuration held by the slot; initialization must have happened.
pub fn client(slot: &ClientSlot) -> (r: &ClientConfig)
    requires
        slot.spec_inner() is Some,
    ensures
        Some(*r) == slot.spec_inner(),
{
    match &slot.inner {
        Some(c) => c,
        None => unreached(),
    }
}

} // verus!
