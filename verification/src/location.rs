//! Local or remote addressing of the LXD host, and name qualification.

use vstd::prelude::*;
use vstd::string::*;

verus! {

/// LXD host location: the local host, or a named remote.
///
/// The external tool's addressing is textual: a resource on a remote host is
/// reached as `<host>:<name>`, one on the local host by its bare name.
#[derive(Clone, Debug)]
pub enum Location {
    /// Local host
    Local,
    /// Remote host
    Remote(String),
}

/// The qualified form of `name` under location `l`: unchanged when local,
/// prefixed with `<host>:` when remote.
pub open spec fn qualify_spec(l: Location, name: Seq<char>) -> Seq<char> {
    match l {
        Location::Local => name,
        Location::Remote(host) => host@ + ":"@ + name,
    }
}

impl Location {
    /// Compute the qualified name under which the external tool addresses a
    /// resource named `name` at this location.
    pub fn qualify(&self, name: &str) -> (r: String)
        ensures
            r@ == qualify_spec(*self, name@),
            self is Local ==> r@ == name@,
            *self matches Location::Remote(host) ==> r@ == host@ + ":"@ + name@,
    {
        match self {
            Location::Local => name.to_owned(),
            Location::Remote(host) => {
                let mut s = host.clone();
                s.append(":");
                s.append(name);
                s
            },
        }
    }
}

} // verus!
