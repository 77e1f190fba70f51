//! Server discovery for INDIGO servers: what is known of a discovered server, the
//! events of a discovery and the announcement of a service.
//!
//! The discovery itself runs over mDNS, outside this library; a build without mDNS
//! support answers every discovery request with `NotSupported`.
use vstd::prelude::*;
use std::collections::HashMap;
use std::time::SystemTime;
use crate::error::IndigoError;
use crate::text::{decimal_string, decimal_text};

pub mod error;

pub use error::DiscoveryError;

verus! {

#[verifier::external_type_specification]
#[verifier::external_body]
pub struct ExSystemTime(SystemTime);

/// `SystemTime` is `Copy`: std documents that its clone is the value itself.
pub assume_specification[ <SystemTime as Clone>::clone ](t: &SystemTime) -> (r: SystemTime)
    ensures
        r == *t,
;

/// Information about a discovered INDIGO server.
#[derive(Debug, Clone)]
pub struct DiscoveredServer {
    /// Unique identifier for this server instance.
    pub id: String,
    /// Service name (e.g., "INDIGO Server @ hostname").
    pub name: String,
    /// Hostname or primary IP address.
    pub host: String,
    /// TCP port number.
    pub port: u16,
    /// All IP addresses associated with this server, as text.
    pub addresses: Vec<String>,
    /// TXT record metadata from mDNS.
    pub txt_records: HashMap<String, String>,
    /// Timestamp when this server was discovered.
    pub discovered_at: SystemTime,
}

impl DiscoveredServer {
    /// Returns the connection URL for this server: `host:port`.
    pub fn url(&self) -> (r: String)
        ensures
            r@ == self.host@ + ":"@ + decimal_text(self.port as nat),
    {
        let mut u = self.host.clone();
        u.append(":");
        let p = decimal_string(self.port as u64);
        u.append(p.as_str());
        u
    }

    /// Returns the full service identifier.
    pub fn service_id(&self) -> (r: String)
        ensures
            r@ == self.id@,
    {
        self.id.clone()
    }
}

/// Discovery mode configuration.
#[derive(Debug, Clone, Copy, PartialEq, Eq)]
pub enum DiscoveryMode {
    /// One-shot discovery: collect servers for a duration, then stop.
    OneShot,
    /// Continuous discovery: keep monitoring for server changes.
    Continuous,
}

/// Events emitted during continuous discovery.
#[derive(Debug, Clone)]
pub enum DiscoveryEvent {
    /// A new server was discovered.
    ServerAdded(DiscoveredServer),
    /// A server was removed (went offline).
    ServerRemoved(String),
    /// A server's information was updated.
    ServerUpdated(DiscoveredServer),
    /// Initial discovery phase completed.
    DiscoveryComplete,
    /// An error occurred during discovery.
    Error(String),
}

/// Configuration for announcing an INDIGO service.
///
/// Its TXT record properties form a map: each key occurs at most once
/// (`well_formed`).
#[derive(Debug, Clone)]
pub struct ServiceAnnouncement {
    /// Service name (advertised as "{name}._indigo._tcp.local.")
    pub name: String,
    /// TCP port number where the INDIGO server is listening
    pub port: u16,
    /// TXT record properties (e.g., version, capabilities), as key and value
    pub properties: Vec<(String, String)>,
}

/// The keys of a list of properties.
pub open spec fn property_keys(p: Seq<(String, String)>) -> Seq<Seq<char>> {
    p.map_values(|kv: (String, String)| kv.0@)
}

/// The map that a list of properties, each key at most once, stands for.
pub open spec fn property_map(p: Seq<(String, String)>) -> Map<Seq<char>, Seq<char>>
    decreases p.len(),
{
    if p.len() == 0 {
        Map::empty()
    } else {
        property_map(p.drop_last()).insert(p.last().0@, p.last().1@)
    }
}

impl ServiceAnnouncement {
    /// Each key occurs at most once.
    pub open spec fn well_formed(&self) -> bool {
        property_keys(self.properties@).no_duplicates()
    }

    /// The TXT record properties, as a map from key to value.
    pub open spec fn property_view(&self) -> Map<Seq<char>, Seq<char>> {
        property_map(self.properties@)
    }

    /// Creates a new service announcement with the given name and port, and no
    /// properties.
    pub fn new(name: &str, port: u16) -> (r: ServiceAnnouncement)
        ensures
            r.name@ == name@,
            r.port == port,
            r.properties@.len() == 0,
            r.well_formed(),
            r.property_view() == Map::<Seq<char>, Seq<char>>::empty(),
    {
        let r = ServiceAnnouncement { name: name.to_owned(), port, properties: Vec::new() };
        assert(property_keys(r.properties@) =~= Seq::<Seq<char>>::empty());
        r
    }

    /// The value of the property `key`, if any.
    pub fn property(&self, key: &str) -> (r: Option<String>)
        requires
            self.well_formed(),
        ensures
            match r {
                Some(v) => self.property_view().contains_key(key@) && v@ == self.property_view()[key@],
                None => !self.property_view().contains_key(key@),
            },
    {
        let mut i: usize = 0;
        while i < self.properties.len()
            invariant
                i <= self.properties@.len(),
                property_keys(self.properties@).no_duplicates(),
                forall|j: int| 0 <= j < i ==> self.properties@[j].0@ != key@,
            decreases self.properties.len() - i,
        {
            let (k, v) = &self.properties[i];
            if crate::text::str_equals(k.as_str(), key) {
                proof {
                    lemma_property_map_at(self.properties@, i as int);
                }
                return Some(v.clone());
            }
            i = i + 1;
        }
        proof {
            lemma_property_map_keys(self.properties@);
        }
        None
    }

    /// Adds a TXT record property to the announcement, replacing the value of a
    /// property with the same key.
    pub fn with_property(self, key: &str, value: &str) -> (r: ServiceAnnouncement)
        requires
            self.well_formed(),
        ensures
            r.name == self.name,
            r.port == self.port,
            r.well_formed(),
            r.property_view() == self.property_view().insert(key@, value@),
    {
        let mut s = self;
        let ghost before = s.properties@;
        let mut i: usize = 0;
        while i < s.properties.len()
            invariant
                s.properties@ == before,
                before == self.properties@,
                s.name == self.name,
                s.port == self.port,
                property_keys(before).no_duplicates(),
                i <= before.len(),
                forall|j: int| 0 <= j < i ==> before[j].0@ != key@,
            decreases s.properties.len() - i,
        {
            if crate::text::str_equals(s.properties[i].0.as_str(), key) {
                let entry = (s.properties[i].0.clone(), value.to_owned());
                let ghost v = entry.1;
                s.properties.set(i, entry);
                proof {
                    assert(s.properties@ == before.update(i as int, (before[i as int].0, v)));
                    lemma_property_map_update(before, i as int, value@);
                    assert(property_map(s.properties@) == property_map(before).insert(key@, value@));
                    assert(property_keys(s.properties@) =~= property_keys(before));
                }
                return s;
            }
            i = i + 1;
        }
        s.properties.push((key.to_owned(), value.to_owned()));
        proof {
            assert(s.properties@.drop_last() =~= before);
            assert(property_keys(s.properties@) =~= property_keys(before).push(key@));
            lemma_property_map_keys(before);
            assert forall|a: int, b: int|
                0 <= a < b < property_keys(s.properties@).len() implies property_keys(s.properties@)[a]
                != property_keys(s.properties@)[b] by {
                if b == before.len() {
                    assert(property_keys(s.properties@)[a] == before[a].0@);
                }
            }
        }
        s
    }
}

/// The keys of the map of a list of properties are those of its entries.
proof fn lemma_property_map_keys(p: Seq<(String, String)>)
    ensures
        forall|k: Seq<char>| #[trigger] property_map(p).contains_key(k) <==> exists|j: int| 0 <= j < p.len() && p[j].0@ == k,
    decreases p.len(),
{
    if p.len() > 0 {
        let q = p.drop_last();
        lemma_property_map_keys(q);
        assert forall|k: Seq<char>| #[trigger] property_map(p).contains_key(k) <==> exists|j: int| 0 <= j < p.len() && p[j].0@ == k by {
            if k == p.last().0@ {
                assert(p[p.len() - 1].0@ == k);
            } else {
                if property_map(p).contains_key(k) {
                    assert(property_map(q).contains_key(k));
                    let j = choose|j: int| 0 <= j < q.len() && q[j].0@ == k;
                    assert(q[j] == p[j]);
                }
                if exists|j: int| 0 <= j < p.len() && p[j].0@ == k {
                    let j = choose|j: int| 0 <= j < p.len() && p[j].0@ == k;
                    assert(j < p.len() - 1);
                    assert(q[j] == p[j]);
                    assert(property_map(q).contains_key(k));
                }
            }
        }
    }
}

/// In a list of properties with distinct keys, the map gives each entry's value to
/// its key.
proof fn lemma_property_map_at(p: Seq<(String, String)>, i: int)
    requires
        0 <= i < p.len(),
        property_keys(p).no_duplicates(),
    ensures
        property_map(p).contains_key(p[i].0@),
        property_map(p)[p[i].0@] == p[i].1@,
    decreases p.len(),
{
    if i < p.len() - 1 {
        let q = p.drop_last();
        assert(property_keys(q).no_duplicates()) by {
            assert forall|a: int, b: int| 0 <= a < b < property_keys(q).len() implies property_keys(q)[a]
                != property_keys(q)[b] by {
                assert(property_keys(q)[a] == property_keys(p)[a]);
                assert(property_keys(q)[b] == property_keys(p)[b]);
            }
        }
        lemma_property_map_at(q, i);
        assert(property_keys(p)[i] != property_keys(p)[p.len() - 1]);
    }
}

/// Replacing the value of the entry at `i` of a list with distinct keys replaces
/// the value of its key in the map.
proof fn lemma_property_map_update(p: Seq<(String, String)>, i: int, v: Seq<char>)
    requires
        0 <= i < p.len(),
        property_keys(p).no_duplicates(),
    ensures
        forall|s: String| s@ == v ==> property_map(#[trigger] p.update(i, (p[i].0, s))) == property_map(p).insert(p[i].0@, v),
    decreases p.len(),
{
    assert forall|s: String| s@ == v implies property_map(#[trigger] p.update(i, (p[i].0, s))) == property_map(p).insert(p[i].0@, v) by {
        let q = p.update(i, (p[i].0, s));
        if i == p.len() - 1 {
            assert(q.drop_last() =~= p.drop_last());
            assert(property_map(q) =~= property_map(p).insert(p[i].0@, v));
        } else {
            let pd = p.drop_last();
            assert(property_keys(pd).no_duplicates()) by {
                assert forall|a: int, b: int| 0 <= a < b < property_keys(pd).len() implies property_keys(pd)[a]
                    != property_keys(pd)[b] by {
                    assert(property_keys(pd)[a] == property_keys(p)[a]);
                    assert(property_keys(pd)[b] == property_keys(p)[b]);
                }
            }
            lemma_property_map_update(pd, i, v);
            assert(q.drop_last() =~= pd.update(i, (pd[i].0, s)));
            assert(property_keys(p)[i] != property_keys(p)[p.len() - 1]);
            assert(property_map(q) =~= property_map(p).insert(p[i].0@, v));
        }
    }
}

/// A property added to an announcement is there with its value, and the other
/// properties keep theirs.
pub proof fn lemma_with_property_then_property(
    before: Map<Seq<char>, Seq<char>>,
    after: Map<Seq<char>, Seq<char>>,
    key: Seq<char>,
    value: Seq<char>,
    other: Seq<char>,
)
    requires
        after == before.insert(key, value),
        other != key,
    ensures
        after.contains_key(key) && after[key] == value,
        after.contains_key(other) == before.contains_key(other),
        before.contains_key(other) ==> after[other] == before[other],
{
}

/// The discovery API of a build without mDNS support.
pub struct ServerDiscoveryApi;

impl ServerDiscoveryApi {
    pub open spec fn spec_unsupported_message() -> Seq<char> {
        "Server discovery requires the 'auto' feature flag. Enable it in Cargo.toml: features = [\"auto\"]"@
    }

    /// The error with which every discovery request is answered.
    pub fn unsupported() -> (r: IndigoError)
        ensures
            r matches IndigoError::NotSupported(m) && m@ == Self::spec_unsupported_message(),
    {
        IndigoError::NotSupported(
            "Server discovery requires the 'auto' feature flag. Enable it in Cargo.toml: features = [\"auto\"]".to_owned(),
        )
    }
}

/// A continuous discovery of a build without mDNS support: it knows no servers.
pub struct ServerDiscovery {}

impl ServerDiscovery {
    /// The servers known so far.
    pub fn servers(&self) -> (r: Vec<DiscoveredServer>)
        ensures
            r@.len() == 0,
    {
        Vec::new()
    }
}

} // verus!
