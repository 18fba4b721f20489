//! Socket records.
//!
//! A record is one TCP or UDP endpoint seen on the host. A UDP endpoint has
//! no peer and no state: its remote address, remote port and state hold
//! the sentinel `*`.

use crate::text::{contains, decimal, decimal_digits, is_substring};
use vstd::prelude::*;
use vstd::string::*;

verus! {

/// The transport protocol of a socket.
#[derive(Clone, Copy, Debug, PartialEq, Eq, Structural)]
pub enum Protocol {
    Tcp,
    Udp,
}

/// One TCP or UDP endpoint.
#[derive(Debug)]
pub struct Socket {
    pub process_id: u32,
    pub protocol: Protocol,
    pub local_address: String,
    pub local_port: String,
    pub remote_address: String,
    pub remote_port: String,
    pub state: String,
}

/// The text that stands for "none" in a record: `*`.
pub open spec fn sentinel() -> Seq<char> {
    seq!['*']
}

impl Protocol {
    /// The name of the protocol as the table shows it.
    pub open spec fn name(self) -> Seq<char> {
        match self {
            Protocol::Tcp => seq!['T', 'C', 'P'],
            Protocol::Udp => seq!['U', 'D', 'P'],
        }
    }

    /// The name of the protocol as the table shows it.
    pub fn label(self) -> (t: &'static str)
        ensures
            t@ == self.name(),
    {
        proof {
            reveal_strlit("TCP");
            reveal_strlit("UDP");
        }
        let t: &'static str = match self {
            Protocol::Tcp => "TCP",
            Protocol::Udp => "UDP",
        };
        assert(t@ =~= self.name());
        t
    }
}

/// The sentinel `*`.
pub fn sentinel_text() -> (t: &'static str)
    ensures
        t@ == sentinel(),
{
    proof {
        reveal_strlit("*");
    }
    let t: &'static str = "*";
    assert(t@ =~= sentinel());
    t
}

/// Whether `t` is the sentinel.
fn is_sentinel(t: &str) -> (b: bool)
    ensures
        b == (t@ == sentinel()),
{
    let len: usize = t.unicode_len();
    if len != 1 {
        return false;
    }
    let c: char = t.get_char(0);
    if c == '*' {
        assert(t@ =~= sentinel());
        true
    } else {
        false
    }
}

impl Socket {
    /// The remote address and port are both the sentinel exactly where the
    /// protocol is UDP.
    pub open spec fn wf(&self) -> bool {
        (self.remote_address@ == sentinel() && self.remote_port@ == sentinel()) <==> self.protocol
            == Protocol::Udp
    }

    /// The foreign address as the table shows it: address, colon, port.
    pub open spec fn foreign_address(&self) -> Seq<char> {
        self.remote_address@ + seq![':'] + self.remote_port@
    }

    /// The five fields of the record that the table shows, in the order
    /// of its columns: process, protocol, local address, foreign address,
    /// state.
    pub open spec fn display_fields(&self) -> Seq<Seq<char>> {
        seq![
            decimal_digits(self.process_id as nat),
            self.protocol.name(),
            self.local_address@,
            self.foreign_address(),
            self.state@,
        ]
    }

    /// `token` is part of one of the shown fields.
    pub open spec fn matches(&self, token: Seq<char>) -> bool {
        exists|i: int| 0 <= i < 5 && is_substring(token, #[trigger] self.display_fields()[i])
    }

    /// Every one of `filters` is part of one of the shown fields. A record
    /// passes an empty list of filters.
    pub open spec fn passes(&self, filters: Seq<Seq<char>>) -> bool {
        forall|k: int| 0 <= k < filters.len() ==> self.matches(#[trigger] filters[k])
    }

    /// A TCP endpoint. There is none whose remote address and remote port
    /// are both the sentinel.
    pub fn tcp(
        process_id: u32,
        local_address: String,
        local_port: String,
        remote_address: String,
        remote_port: String,
        state: String,
    ) -> (r: Option<Socket>)
        ensures
            r is Some <==> !(remote_address@ == sentinel() && remote_port@ == sentinel()),
            r is Some ==> r->0.wf() && r->0 == (Socket {
                process_id,
                protocol: Protocol::Tcp,
                local_address,
                local_port,
                remote_address,
                remote_port,
                state,
            }),
    {
        if is_sentinel(remote_address.as_str()) && is_sentinel(remote_port.as_str()) {
            None
        } else {
            Some(
                Socket {
                    process_id,
                    protocol: Protocol::Tcp,
                    local_address,
                    local_port,
                    remote_address,
                    remote_port,
                    state,
                },
            )
        }
    }

    /// A UDP endpoint: remote address, remote port and state are the
    /// sentinel.
    pub fn udp(process_id: u32, local_address: String, local_port: String) -> (r: Socket)
        ensures
            r.wf(),
            r.process_id == process_id,
            r.protocol == Protocol::Udp,
            r.local_address == local_address,
            r.local_port == local_port,
            r.remote_address@ == sentinel(),
            r.remote_port@ == sentinel(),
            r.state@ == sentinel(),
    {
        Socket {
            process_id,
            protocol: Protocol::Udp,
            local_address,
            local_port,
            remote_address: String::from_str(sentinel_text()),
            remote_port: String::from_str(sentinel_text()),
            state: String::from_str(sentinel_text()),
        }
    }

    /// Whether the record is well formed.
    pub fn is_valid(&self) -> (b: bool)
        ensures
            b == self.wf(),
    {
        let no_peer: bool = is_sentinel(self.remote_address.as_str()) && is_sentinel(
            self.remote_port.as_str(),
        );
        match self.protocol {
            Protocol::Udp => no_peer,
            Protocol::Tcp => !no_peer,
        }
    }

    /// The five fields of the record that the table shows.
    pub fn fields(&self) -> (f: Vec<String>)
        ensures
            f.deep_view() == self.display_fields(),
    {
        let mut foreign: String = self.remote_address.clone();
        proof {
            reveal_strlit(":");
        }
        foreign.append(":");
        foreign.append(self.remote_port.as_str());
        assert(foreign@ =~= self.foreign_address());
        let mut f: Vec<String> = Vec::new();
        f.push(decimal(self.process_id as u64));
        f.push(String::from_str(self.protocol.label()));
        f.push(self.local_address.clone());
        f.push(foreign);
        f.push(self.state.clone());
        assert(f.deep_view() =~= self.display_fields());
        f
    }

    /// Whether `token` is part of one of the shown fields.
    pub fn matches_filter(&self, token: &str) -> (b: bool)
        ensures
            b == self.matches(token@),
    {
        let f: Vec<String> = self.fields();
        assert(f@.len() == f.deep_view().len());
        let mut i: usize = 0;
        while i < f.len()
            invariant
                f.deep_view() == self.display_fields(),
                f@.len() == 5,
                i <= 5,
                forall|k: int|
                    0 <= k < i ==> !is_substring(token@, #[trigger] self.display_fields()[k]),
            decreases f.len() - i,
        {
            assert(f.deep_view()[i as int] == f@[i as int]@);
            if contains(f[i].as_str(), token) {
                return true;
            }
            i += 1;
        }
        false
    }

    /// Whether the record passes every one of `filters`.
    pub fn passes_filters(&self, filters: &Vec<String>) -> (b: bool)
        ensures
            b == self.passes(filters.deep_view()),
    {
        let mut k: usize = 0;
        while k < filters.len()
            invariant
                k <= filters.len(),
                forall|j: int|
                    0 <= j < k ==> self.matches(#[trigger] filters.deep_view()[j]),
            decreases filters.len() - k,
        {
            assert(filters.deep_view()[k as int] == filters@[k as int]@);
            if !self.matches_filter(filters[k].as_str()) {
                return false;
            }
            k += 1;
        }
        true
    }
}

/// One more filter never lets a record pass that did not pass before: a
/// record passes the longer list exactly where it passes the shorter one
/// and matches the new filter.
pub proof fn lemma_filters_conjoin(s: Socket, filters: Seq<Seq<char>>, token: Seq<char>)
    ensures
        s.passes(filters.push(token)) <==> s.passes(filters) && s.matches(token),
        s.passes(filters.push(token)) ==> s.passes(filters),
{
    let longer = filters.push(token);
    if s.passes(longer) {
        assert forall|k: int| 0 <= k < filters.len() implies s.matches(#[trigger] filters[k]) by {
            assert(longer[k] == filters[k]);
        }
        assert(longer[filters.len() as int] == token);
    }
    if s.passes(filters) && s.matches(token) {
        assert forall|k: int| 0 <= k < longer.len() implies s.matches(#[trigger] longer[k]) by {
            if k < filters.len() {
                assert(longer[k] == filters[k]);
            }
        }
    }
}

/// The same filter committed twice lets pass what it lets pass once.
pub proof fn lemma_filter_twice(s: Socket, token: Seq<char>)
    ensures
        s.passes(seq![token, token]) <==> s.passes(seq![token]),
        s.passes(seq![token]) <==> s.matches(token),
{
    let once = seq![token];
    let twice = seq![token, token];
    assert(once[0] == token);
    assert(twice[0] == token && twice[1] == token);
}

} // verus!
