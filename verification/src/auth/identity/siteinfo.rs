use vstd::prelude::*;

verus! {

/// The remote a request came from: its address and its user agent.
#[derive(Debug)]
pub struct SiteInfo {
    pub remote: String,
    pub agent: String,
}

impl Clone for SiteInfo {
    fn clone(&self) -> (r: Self)
        ensures
            r.remote@ == self.remote@,
            r.agent@ == self.agent@,
    {
        SiteInfo { remote: self.remote.clone(), agent: self.agent.clone() }
    }
}

impl SiteInfo {
    pub fn new(remote: String, agent: String) -> (r: SiteInfo)
        ensures
            r.remote@ == remote@,
            r.agent@ == agent@,
    {
        SiteInfo { remote, agent }
    }

    pub fn remote(&self) -> (r: &str)
        ensures
            r@ == self.remote@,
    {
        self.remote.as_str()
    }

    pub fn agent(&self) -> (r: &str)
        ensures
            r@ == self.agent@,
    {
        self.agent.as_str()
    }
}

} // verus!
