//! Capabilities a plugin can be granted.
use vstd::prelude::*;

verus! {

/// One permission granted to a plugin. Each `host_*` import checks for the
/// capability it needs before doing anything.
#[derive(Debug, Clone, PartialEq, Eq)]
pub enum Capability {
    /// Read price history.
    MarketRead,
    /// Read the logged-in user's synced inventory.
    InventoryRead,
    /// Send a notification through the user's configured sink.
    NotifySend,
    /// Fetch URLs whose host is exactly one of these domains.
    Http(Vec<String>),
}

/// Whether `host` is exactly one of `domains`.
pub open spec fn lists_host(domains: Seq<String>, host: Seq<char>) -> bool {
    exists|i: int| 0 <= i < domains.len() && (#[trigger] domains[i])@ == host
}

impl Capability {
    /// Whether this capability lets a plugin fetch from `host`.
    pub open spec fn spec_allows_http_host(self, host: Seq<char>) -> bool {
        match self {
            Capability::Http(domains) => lists_host(domains@, host),
            _ => false,
        }
    }

    pub fn allows_http_host(&self, host: &str) -> (r: bool)
        ensures
            r == self.spec_allows_http_host(host@),
    {
        match self {
            Capability::Http(domains) => {
                let mut i: usize = 0;
                while i < domains.len()
                    invariant
                        *self == Capability::Http(*domains),
                        i <= domains.len(),
                        forall|j: int| 0 <= j < i ==> (#[trigger] domains@[j])@ != host@,
                    decreases domains.len() - i,
                {
                    if crate::text::str_eq(domains[i].as_str(), host) {
                        assert(domains@[i as int]@ == host@);
                        return true;
                    }
                    i = i + 1;
                }
                false
            },
            _ => false,
        }
    }
}

} // verus!
