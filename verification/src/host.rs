//! The handle the shell keeps to the running worker's HTTP side: the
//! hostname it reported, and the URLs built against it.

use vstd::prelude::*;
use vstd::string::StringExecFns;

use crate::text::strip_prefix_or_self;

verus! {

/// Failure to build a URL against the worker.
#[derive(Clone, Copy, Debug, PartialEq, Eq, Structural)]
pub enum HostError {
    /// The worker has not reported its hostname yet.
    HostnameNotSet,
}

/// The worker's HTTP endpoint, once it has reported where it listens.
pub struct McpHost {
    hostname: Option<String>,
}

/// A hostname as stored: the scheme prefix, when the report carried
/// one, is stripped.
pub open spec fn stored_hostname(reported: Seq<char>) -> Seq<char> {
    if ("http://"@).is_prefix_of(reported) {
        reported.skip(7)
    } else {
        reported
    }
}

impl McpHost {
    /// The hostname the worker reported, if any, scheme stripped.
    pub closed spec fn spec_hostname(&self) -> Option<Seq<char>> {
        match self.hostname {
            Some(h) => Some(h@),
            None => None,
        }
    }

    /// A handle with no hostname reported yet.
    pub fn new() -> (r: McpHost)
        ensures
            r.spec_hostname() is None,
    {
        McpHost { hostname: None }
    }

    /// Record the hostname the worker reported, stripping the scheme
    /// prefix when the report carries one.
    pub fn set_hostname(&mut self, hostname: String)
        ensures
            final(self).spec_hostname() == Some(stored_hostname(hostname@)),
    {
        let stored = strip_prefix_or_self(hostname.as_str(), "http://");
        proof {
            if ("http://"@).is_prefix_of(hostname@) {
                reveal_strlit("http://");
                assert(("http://"@).len() == 7);
            }
        }
        self.hostname = Some(stored);
    }

    /// The URL of `path` on the worker: its hostname under the plain
    /// scheme. Fails exactly while no hostname has been reported.
    pub fn build_url(&self, path: &str) -> (r: Result<String, HostError>)
        ensures
            match self.spec_hostname() {
                Some(h) => (r matches Ok(u) && u@ == "http://"@ + h + path@),
                None => (r matches Err(e) && e is HostnameNotSet),
            },
    {
        match &self.hostname {
            Some(h) => {
                let mut u = "http://".to_owned();
                u.append(h.as_str());
                u.append(path);
                proof {
                    assert(u@ =~= "http://"@ + h@ + path@);
                }
                Ok(u)
            },
            None => Err(HostError::HostnameNotSet),
        }
    }
}

impl Default for McpHost {
    /// A handle with no hostname reported yet.
    fn default() -> (r: McpHost)
        ensures
            r.spec_hostname() is None,
    {
        McpHost::new()
    }
}

} // verus!
