//! The handshake between network nodes: the transactions a node has opened,
//! the local addresses it offers, and the manifest it answers a request with.
use vstd::prelude::*;
use crate::events::StringTable;
use crate::networking::{candidate_port, is_endpoint_interface, pending_transaction, spec_is_endpoint_interface, TransactionStatus};
use crate::outside::random_alphanumeric;
use crate::text::{is_ascii_alphanumeric_char, str_equal};

verus! {

/// What a transaction status says: the machine it is with, and its state.
pub open spec fn status_view(s: TransactionStatus) -> (Seq<char>, Seq<char>) {
    match s {
        TransactionStatus::TxnState { machine_id, state } => (machine_id@, state@),
    }
}

/// The map that a list of entries stands for: each key to the status of its
/// entry, a later entry standing over an earlier one.
pub open spec fn entries_map(entries: Seq<(String, TransactionStatus)>) -> Map<Seq<char>, (Seq<char>, Seq<char>)>
    decreases entries.len(),
{
    if entries.len() == 0 {
        Map::empty()
    } else {
        entries_map(entries.drop_last()).insert(entries.last().0@, status_view(entries.last().1))
    }
}

/// No key occurs twice.
pub open spec fn distinct_keys(entries: Seq<(String, TransactionStatus)>) -> bool {
    forall|i: int, j: int| 0 <= i < j < entries.len() ==> entries[i].0@ != entries[j].0@
}

proof fn lemma_map_holds_entry(entries: Seq<(String, TransactionStatus)>, i: int)
    requires
        distinct_keys(entries),
        0 <= i < entries.len(),
    ensures
        entries_map(entries).contains_key(entries[i].0@),
        entries_map(entries)[entries[i].0@] == status_view(entries[i].1),
    decreases entries.len(),
{
    if i < entries.len() - 1 {
        let shorter = entries.drop_last();
        assert(shorter[i] == entries[i]);
        assert(entries[i].0@ != entries[entries.len() - 1].0@);
        lemma_map_holds_entry(shorter, i);
    }
}

proof fn lemma_map_lacks_key(entries: Seq<(String, TransactionStatus)>, key: Seq<char>)
    requires
        forall|i: int| 0 <= i < entries.len() ==> (#[trigger] entries[i]).0@ != key,
    ensures
        !entries_map(entries).contains_key(key),
    decreases entries.len(),
{
    if entries.len() > 0 {
        let shorter = entries.drop_last();
        assert forall|i: int| 0 <= i < shorter.len() implies (#[trigger] shorter[i]).0@ != key by {
            assert(shorter[i] == entries[i]);
        }
        assert(entries.last() == entries[entries.len() - 1]);
        lemma_map_lacks_key(shorter, key);
    }
}

proof fn lemma_map_replace(entries: Seq<(String, TransactionStatus)>, i: int, e: (String, TransactionStatus))
    requires
        distinct_keys(entries),
        0 <= i < entries.len(),
        e.0@ == entries[i].0@,
    ensures
        entries_map(entries.update(i, e)) == entries_map(entries).insert(e.0@, status_view(e.1)),
    decreases entries.len(),
{
    let updated = entries.update(i, e);
    let n = entries.len();
    if i == n - 1 {
        assert(updated.drop_last() =~= entries.drop_last());
        assert(updated.last() == e);
        assert(entries_map(updated) =~= entries_map(entries).insert(e.0@, status_view(e.1)));
    } else {
        let shorter = entries.drop_last();
        assert(shorter[i] == entries[i]);
        lemma_map_replace(shorter, i, e);
        assert(updated.drop_last() =~= shorter.update(i, e));
        assert(updated.last() == entries.last());
        assert(entries.last() == entries[n - 1]);
        assert(entries[n - 1].0@ != entries[i].0@);
        assert(entries_map(updated) =~= entries_map(entries).insert(e.0@, status_view(e.1)));
    }
}

/// The handshake transactions a node has opened, by transaction id.
pub struct TransactionTable {
    entries: Vec<(String, TransactionStatus)>,
}

impl View for TransactionTable {
    type V = Map<Seq<char>, (Seq<char>, Seq<char>)>;

    closed spec fn view(&self) -> Self::V {
        entries_map(self.entries@)
    }
}

impl TransactionTable {
    #[verifier::type_invariant]
    spec fn keys_distinct(self) -> bool {
        distinct_keys(self.entries@)
    }

    /// A table with no transaction.
    pub fn new() -> (r: Self)
        ensures
            r@ == Map::<Seq<char>, (Seq<char>, Seq<char>)>::empty(),
    {
        TransactionTable { entries: Vec::new() }
    }

    /// Where the entry of `txn_id` stands, if it has one.
    fn position(&self, txn_id: &str) -> (r: Option<usize>)
        ensures
            match r {
                Some(i) => i < self.entries@.len() && self.entries@[i as int].0@ == txn_id@,
                None => forall|j: int| 0 <= j < self.entries@.len() ==> (#[trigger] self.entries@[j]).0@ != txn_id@,
            },
    {
        let n = self.entries.len();
        let mut i: usize = 0;
        while i < n
            invariant
                n == self.entries@.len(),
                i <= n,
                forall|j: int| 0 <= j < i ==> (#[trigger] self.entries@[j]).0@ != txn_id@,
            decreases n - i,
        {
            if str_equal(self.entries[i].0.as_str(), txn_id) {
                return Some(i);
            }
            i = i + 1;
        }
        None
    }

    /// Records `status` for `txn_id`, in place of what it held.
    pub fn insert(&mut self, txn_id: String, status: TransactionStatus)
        ensures
            final(self)@ == old(self)@.insert(txn_id@, status_view(status)),
    {
        proof {
            use_type_invariant(&*self);
        }
        let ghost before = self.entries@;
        let found = self.position(txn_id.as_str());
        let mut entries: Vec<(String, TransactionStatus)> = Vec::new();
        std::mem::swap(&mut entries, &mut self.entries);
        assert(entries@ == before);
        match found {
            Some(i) => {
                proof {
                    lemma_map_replace(before, i as int, (txn_id, status));
                    assert forall|a: int, b: int| 0 <= a < b < before.len() implies before.update(
                        i as int,
                        (txn_id, status),
                    )[a].0@ != before.update(i as int, (txn_id, status))[b].0@ by {
                        assert(before[a].0@ != before[b].0@);
                    }
                }
                entries.set(i, (txn_id, status));
            },
            None => {
                proof {
                    let pushed = before.push((txn_id, status));
                    assert(pushed.drop_last() =~= before);
                    assert forall|a: int, b: int| 0 <= a < b < pushed.len() implies pushed[a].0@ != pushed[b].0@ by {
                        if b < before.len() {
                            assert(before[a].0@ != before[b].0@);
                        } else {
                            assert(pushed[a] == before[a]);
                        }
                    }
                }
                entries.push((txn_id, status));
            },
        }
        self.entries = entries;
    }

    /// The status recorded for `txn_id`, if any.
    pub fn get(&self, txn_id: &str) -> (r: Option<&TransactionStatus>)
        ensures
            match r {
                Some(s) => self@.contains_key(txn_id@) && self@[txn_id@] == status_view(*s),
                None => !self@.contains_key(txn_id@),
            },
    {
        proof {
            use_type_invariant(self);
        }
        match self.position(txn_id) {
            Some(i) => {
                proof {
                    lemma_map_holds_entry(self.entries@, i as int);
                }
                Some(&self.entries[i].1)
            },
            None => {
                proof {
                    lemma_map_lacks_key(self.entries@, txn_id@);
                }
                None
            },
        }
    }
}

/// An address at which a node can be reached: IPv4 octets and a port.
pub struct Candidate {
    pub ip: [u8; 4],
    pub port: u16,
}

/// The addresses a node offers: those of its own interfaces, and the one a
/// STUN server saw, when known.
pub struct Candidates {
    pub local: Vec<Candidate>,
    pub stun: Option<Candidate>,
}

/// What a node answers a handshake request with.
pub struct Manifest {
    pub txn_id: String,
    pub candidates: Option<Candidates>,
}

/// The IPv4 addresses offered as local candidates, in interface order: the
/// IPv4 address of each interface whose name marks it as an endpoint.
pub open spec fn spec_endpoints(interfaces: Seq<(String, Option<[u8; 4]>)>) -> Seq<[u8; 4]>
    decreases interfaces.len(),
{
    if interfaces.len() == 0 {
        Seq::empty()
    } else {
        let last = interfaces.last();
        let earlier = spec_endpoints(interfaces.drop_last());
        match last.1 {
            Some(ip) => if spec_is_endpoint_interface(last.0@) {
                earlier.push(ip)
            } else {
                earlier
            },
            None => earlier,
        }
    }
}

/// Every offered address is the IPv4 address of an endpoint interface, and
/// no interface gives more than one.
pub proof fn lemma_endpoints_come_from_endpoint_interfaces(interfaces: Seq<(String, Option<[u8; 4]>)>)
    ensures
        spec_endpoints(interfaces).len() <= interfaces.len(),
        forall|i: int|
            #![trigger spec_endpoints(interfaces)[i]]
            0 <= i < spec_endpoints(interfaces).len() ==> exists|j: int|
                0 <= j < interfaces.len() && (#[trigger] interfaces[j]).1 == Some(spec_endpoints(interfaces)[i])
                    && spec_is_endpoint_interface(interfaces[j].0@),
    decreases interfaces.len(),
{
    if interfaces.len() > 0 {
        let earlier = interfaces.drop_last();
        lemma_endpoints_come_from_endpoint_interfaces(earlier);
        let all = spec_endpoints(interfaces);
        let prev = spec_endpoints(earlier);
        let n = interfaces.len();
        assert(interfaces.last() == interfaces[n - 1]);
        assert forall|i: int| #![trigger all[i]] 0 <= i < all.len() implies exists|j: int|
            0 <= j < interfaces.len() && (#[trigger] interfaces[j]).1 == Some(all[i])
                && spec_is_endpoint_interface(interfaces[j].0@) by {
            if i < prev.len() {
                assert(all[i] == prev[i]);
                let j = choose|j: int|
                    0 <= j < earlier.len() && (#[trigger] earlier[j]).1 == Some(prev[i])
                        && spec_is_endpoint_interface(earlier[j].0@);
                assert(earlier[j] == interfaces[j]);
            } else {
                assert(interfaces[n - 1].1 == Some(all[i]));
            }
        }
    }
}

/// Picks the local candidate addresses from the machine's interfaces, each
/// given by its name and its IPv4 address (`None` for an IPv6 one).
pub fn select_endpoints(interfaces: &Vec<(String, Option<[u8; 4]>)>) -> (r: Vec<[u8; 4]>)
    ensures
        r@ == spec_endpoints(interfaces@),
        r@.len() <= interfaces@.len(),
        forall|i: int|
            #![trigger r@[i]]
            0 <= i < r@.len() ==> exists|j: int|
                0 <= j < interfaces@.len() && (#[trigger] interfaces@[j]).1 == Some(r@[i])
                    && spec_is_endpoint_interface(interfaces@[j].0@),
{
    proof {
        lemma_endpoints_come_from_endpoint_interfaces(interfaces@);
    }
    let n = interfaces.len();
    let mut r: Vec<[u8; 4]> = Vec::new();
    let mut i: usize = 0;
    assert(interfaces@.take(0) =~= Seq::<(String, Option<[u8; 4]>)>::empty());
    while i < n
        invariant
            n == interfaces@.len(),
            i <= n,
            r@ == spec_endpoints(interfaces@.take(i as int)),
        decreases n - i,
    {
        assert(interfaces@.take(i + 1).drop_last() =~= interfaces@.take(i as int));
        assert(interfaces@.take(i + 1).last() == interfaces@[i as int]);
        let name = &interfaces[i].0;
        match interfaces[i].1 {
            Some(ip) => {
                if is_endpoint_interface(name.as_str()) {
                    r.push(ip);
                }
            },
            None => {},
        }
        i = i + 1;
    }
    assert(interfaces@.take(n as int) =~= interfaces@);
    r
}

/// The manifest of transaction `txn_id`: each endpoint with `port`, and no
/// STUN address.
pub fn handshake_manifest(txn_id: String, endpoints: &Vec<[u8; 4]>, port: u16) -> (r: Manifest)
    ensures
        r.txn_id@ == txn_id@,
        r.candidates matches Some(c) && c.stun is None && c.local@.len() == endpoints@.len() && forall|i: int|
            0 <= i < endpoints@.len() ==> (#[trigger] c.local@[i]).ip == endpoints@[i] && c.local@[i].port == port,
{
    let mut local: Vec<Candidate> = Vec::new();
    let n = endpoints.len();
    let mut i: usize = 0;
    while i < n
        invariant
            n == endpoints@.len(),
            i <= n,
            local@.len() == i,
            forall|j: int| 0 <= j < i ==> (#[trigger] local@[j]).ip == endpoints@[j] && local@[j].port == port,
        decreases n - i,
    {
        local.push(Candidate { ip: endpoints[i], port });
        i = i + 1;
    }
    Manifest { txn_id, candidates: Some(Candidates { local, stun: None }) }
}

/// The headers of a handshake answer: `Message-Type: REPLY`.
pub fn reply_headers() -> (r: StringTable)
    ensures
        r.entries@.len() == 1,
        r.entries@[0].0@ == "Message-Type"@,
        r.entries@[0].1@ == "REPLY"@,
{
    let mut entries: Vec<(String, String)> = Vec::new();
    entries.push((String::from_str("Message-Type"), String::from_str("REPLY")));
    StringTable { entries }
}

/// Thirty-two ASCII letters and digits.
pub open spec fn is_random_id(id: Seq<char>) -> bool {
    id.len() == 32 && forall|i: int| 0 <= i < id.len() ==> is_ascii_alphanumeric_char(#[trigger] id[i])
}

/// The handshake side of a node: its channel and its open transactions.
pub struct HandshakeChannelHandler {
    pub channel_id: String,
    pub txns: TransactionTable,
}

impl HandshakeChannelHandler {
    /// The transactions opened so far, by id.
    pub open spec fn transactions(&self) -> Map<Seq<char>, (Seq<char>, Seq<char>)> {
        self.txns@
    }

    /// A handler on a fresh random channel, with no transaction.
    pub fn new() -> (r: Self)
        ensures
            is_random_id(r.channel_id@),
            r.transactions() == Map::<Seq<char>, (Seq<char>, Seq<char>)>::empty(),
    {
        HandshakeChannelHandler { channel_id: random_alphanumeric(32), txns: TransactionTable::new() }
    }

    /// Opens a transaction with `machine_id` under a fresh random id, in the
    /// `PENDING` state.
    pub fn open_transaction(&mut self, machine_id: String) -> (txn_id: String)
        ensures
            is_random_id(txn_id@),
            final(self).transactions() == old(self).transactions().insert(txn_id@, (machine_id@, "PENDING"@)),
            final(self).channel_id == old(self).channel_id,
    {
        let txn_id = random_alphanumeric(32);
        let id = txn_id.clone();
        self.txns.insert(id, pending_transaction(machine_id));
        txn_id
    }

    /// Answers a handshake request of `machine_id`: opens a transaction and
    /// offers the endpoints at the disco port (8080 when the configured
    /// address gave none), with the headers of an answer.
    pub fn answer_request(&mut self, machine_id: String, endpoints: &Vec<[u8; 4]>, disco_port: Option<u16>) -> (r: (
        Manifest,
        StringTable,
    ))
        ensures
            is_random_id(r.0.txn_id@),
            final(self).transactions() == old(self).transactions().insert(r.0.txn_id@, (machine_id@, "PENDING"@)),
            final(self).channel_id == old(self).channel_id,
            r.0.candidates matches Some(c) && c.stun is None && c.local@.len() == endpoints@.len() && forall|i: int|
                0 <= i < endpoints@.len() ==> (#[trigger] c.local@[i]).ip == endpoints@[i] && c.local@[i].port
                    == match disco_port {
                    Some(p) => p,
                    None => 8080u16,
                },
            r.1.entries@.len() == 1,
            r.1.entries@[0].0@ == "Message-Type"@,
            r.1.entries@[0].1@ == "REPLY"@,
    {
        let txn_id = self.open_transaction(machine_id);
        let port = candidate_port(disco_port);
        (handshake_manifest(txn_id, endpoints, port), reply_headers())
    }
}

} // verus!
