use vstd::prelude::*;

verus! {

/// Where an ip address is located.
#[derive(Debug)]
pub struct IpLocation {
    pub continent: String,
    pub country: String,
}

impl Clone for IpLocation {
    fn clone(&self) -> (r: Self)
        ensures
            r.continent@ == self.continent@,
            r.country@ == self.country@,
    {
        IpLocation { continent: self.continent.clone(), country: self.country.clone() }
    }
}

/// The first step of fingerprinting a remote.
#[derive(Debug)]
pub enum FingerprintLookup {
    /// Ask the location service where `remote` is, then finish with
    /// `Fingerprint::locate`.
    Locate { agent: String, remote: String },
    /// The fingerprint of a remote without a known address.
    Ready(Fingerprint),
}

/// Some very basic fingerprint of the remote to detect
/// session abuse.
#[derive(Debug)]
pub struct Fingerprint {
    agent: String,
    /// The remote address in its textual form.
    remote: Option<String>,
    location: Option<IpLocation>,
}

impl Fingerprint {
    /// The fingerprint of a remote: its user agent, its address and where the
    /// address is located, when the location service knows it.
    pub fn new(agent: &str, remote: Option<String>, location: Option<IpLocation>) -> (r: Fingerprint)
        ensures
            r.spec_agent() == agent@,
            r.spec_remote() == match remote {
                Some(ip) => Some(ip@),
                None => None::<Seq<char>>,
            },
            r.spec_location() == match location {
                Some(l) => Some((l.continent@, l.country@)),
                None => None::<(Seq<char>, Seq<char>)>,
            },
    {
        Fingerprint { agent: agent.to_owned(), remote, location }
    }

    /// Starts the fingerprint of a remote: with a known address, the
    /// location service is to be asked about it (`locate` then finishes);
    /// without one, the fingerprint has no location.
    pub fn start(agent: &str, remote: Option<String>) -> (r: FingerprintLookup)
        ensures
            match remote {
                Some(ip) => r matches FingerprintLookup::Locate { agent: a, remote: x } && a@ == agent@ && x@ == ip@,
                None => r matches FingerprintLookup::Ready(f) && f.spec_agent() == agent@ && f.spec_remote() is None
                    && f.spec_location() is None,
            },
    {
        match remote {
            Some(ip) => FingerprintLookup::Locate { agent: agent.to_owned(), remote: ip },
            None => FingerprintLookup::Ready(Fingerprint::new(agent, None, None)),
        }
    }

    /// The fingerprint of a remote with a known address, from what the
    /// location service answered about the address: a failed lookup is no
    /// error, the fingerprint then has no location.
    pub fn locate<E>(agent: &str, remote: String, lookup: Result<IpLocation, E>) -> (f: Fingerprint)
        ensures
            f.spec_agent() == agent@,
            f.spec_remote() == Some(remote@),
            f.spec_location() == match lookup {
                Ok(l) => Some((l.continent@, l.country@)),
                Err(_) => None::<(Seq<char>, Seq<char>)>,
            },
    {
        let location = match lookup {
            Ok(l) => Some(l),
            Err(_) => None,
        };
        Fingerprint::new(agent, Some(remote), location)
    }

    /// The user agent of the remote.
    pub closed spec fn spec_agent(&self) -> Seq<char> {
        self.agent@
    }

    /// The textual address of the remote, when known.
    pub closed spec fn spec_remote(&self) -> Option<Seq<char>> {
        match self.remote {
            Some(ip) => Some(ip@),
            None => None,
        }
    }

    /// The continent and country of the remote, when known.
    pub closed spec fn spec_location(&self) -> Option<(Seq<char>, Seq<char>)> {
        match self.location {
            Some(l) => Some((l.continent@, l.country@)),
            None => None,
        }
    }

    /// Two fingerprints that describe the same remote.
    pub open spec fn same_as(&self, other: Fingerprint) -> bool {
        &&& self.spec_agent() == other.spec_agent()
        &&& self.spec_remote() == other.spec_remote()
        &&& self.spec_location() == other.spec_location()
    }

    pub fn agent(&self) -> (r: &str)
        ensures
            r@ == self.spec_agent(),
    {
        self.agent.as_str()
    }

    pub fn remote(&self) -> (r: Option<&String>)
        ensures
            match r {
                Some(s) => self.spec_remote() == Some(s@),
                None => self.spec_remote() is None,
            },
    {
        self.remote.as_ref()
    }

    pub fn location(&self) -> (r: Option<&IpLocation>)
        ensures
            match r {
                Some(l) => self.spec_location() == Some((l.continent@, l.country@)),
                None => self.spec_location() is None,
            },
    {
        self.location.as_ref()
    }
}

impl Clone for Fingerprint {
    fn clone(&self) -> (r: Self)
        ensures
            r.same_as(*self),
    {
        let remote = match &self.remote {
            Some(ip) => Some(ip.clone()),
            None => None,
        };
        let location = match &self.location {
            Some(l) => Some(l.clone()),
            None => None,
        };
        Fingerprint { agent: self.agent.clone(), remote, location }
    }
}

} // verus!
