//! From the rows of the host's connection tables to socket records.
//!
//! The host lists its TCP connections and its UDP listeners as rows of
//! numbers. Whoever asks the host hands the rows over; the records hold
//! each number as its decimal numeral.

use crate::socket::{sentinel, sentinel_text, Protocol, Socket};
use crate::text::{decimal, decimal_digits, digit};
use vstd::prelude::*;
use vstd::string::*;

verus! {

/// One row of the host's table of TCP connections.
#[derive(Clone, Copy, Debug, PartialEq, Eq, Structural)]
pub struct TcpRow {
    pub owning_pid: u32,
    pub local_addr: u32,
    pub local_port: u32,
    pub remote_addr: u32,
    pub remote_port: u32,
    pub state: u32,
}

/// One row of the host's table of UDP listeners.
#[derive(Clone, Copy, Debug, PartialEq, Eq, Structural)]
pub struct UdpRow {
    pub owning_pid: u32,
    pub local_addr: u32,
    pub local_port: u32,
}

/// `socket` is the record of the TCP connection `row`.
pub open spec fn records_tcp(socket: Socket, row: TcpRow) -> bool {
    &&& socket.process_id == row.owning_pid
    &&& socket.protocol == Protocol::Tcp
    &&& socket.local_address@ == decimal_digits(row.local_addr as nat)
    &&& socket.local_port@ == decimal_digits(row.local_port as nat)
    &&& socket.remote_address@ == decimal_digits(row.remote_addr as nat)
    &&& socket.remote_port@ == decimal_digits(row.remote_port as nat)
    &&& socket.state@ == decimal_digits(row.state as nat)
}

/// `socket` is the record of the UDP listener `row`.
pub open spec fn records_udp(socket: Socket, row: UdpRow) -> bool {
    &&& socket.process_id == row.owning_pid
    &&& socket.protocol == Protocol::Udp
    &&& socket.local_address@ == decimal_digits(row.local_addr as nat)
    &&& socket.local_port@ == decimal_digits(row.local_port as nat)
    &&& socket.remote_address@ == sentinel()
    &&& socket.remote_port@ == sentinel()
    &&& socket.state@ == sentinel()
}

/// The status with which the host answers a query for the size of a
/// table: that the buffer it was given is too small.
pub const INSUFFICIENT_BUFFER: u32 = 122;

/// The status with which the host says that a table was read.
pub const NO_ERROR: u32 = 0;

/// Whether the host answered a query for the size of a table. Any other
/// status is a failure, and no table may be read after it.
pub fn size_query_answered(status: u32) -> (b: bool)
    ensures
        b == (status == 122),
{
    status == INSUFFICIENT_BUFFER
}

/// Whether the host read a table into the buffer that it was given. Any
/// other status is a failure, and the buffer must not be looked at.
pub fn table_was_read(status: u32) -> (b: bool)
    ensures
        b == (status == 0),
{
    status == NO_ERROR
}

/// Whether a table of `size` bytes can hold `entries` rows of `row` bytes
/// each, the first of them `offset` bytes into the table. A table that
/// claims more rows than it can hold must not be read.
pub fn table_holds(size: u32, entries: u32, offset: u32, row: u32) -> (b: bool)
    ensures
        b == (offset + entries * row <= size),
{
    assert(entries * row <= 0xffff_ffff * 0xffff_ffff) by (nonlinear_arith)
        requires
            0 <= entries <= 0xffff_ffff,
            0 <= row <= 0xffff_ffff,
    ;
    let rows: u128 = (entries as u128) * (row as u128);
    let needed: u128 = offset as u128 + rows;
    needed <= size as u128
}

/// A numeral is never the sentinel: it ends in a digit.
pub proof fn lemma_numeral_is_no_sentinel(n: nat)
    ensures
        decimal_digits(n) != sentinel(),
{
    let d = if n < 10 {
        n
    } else {
        n % 10
    };
    assert(decimal_digits(n).last() == digit(d));
    assert(sentinel().last() == '*');
}

/// The record of one TCP connection.
pub fn tcp_socket(row: TcpRow) -> (socket: Socket)
    ensures
        records_tcp(socket, row),
        socket.wf(),
{
    proof {
        lemma_numeral_is_no_sentinel(row.remote_addr as nat);
    }
    Socket {
        process_id: row.owning_pid,
        protocol: Protocol::Tcp,
        local_address: decimal(row.local_addr as u64),
        local_port: decimal(row.local_port as u64),
        remote_address: decimal(row.remote_addr as u64),
        remote_port: decimal(row.remote_port as u64),
        state: decimal(row.state as u64),
    }
}

/// The record of one UDP listener.
pub fn udp_socket(row: UdpRow) -> (socket: Socket)
    ensures
        records_udp(socket, row),
        socket.wf(),
{
    Socket {
        process_id: row.owning_pid,
        protocol: Protocol::Udp,
        local_address: decimal(row.local_addr as u64),
        local_port: decimal(row.local_port as u64),
        remote_address: String::from_str(sentinel_text()),
        remote_port: String::from_str(sentinel_text()),
        state: String::from_str(sentinel_text()),
    }
}

/// The records of a snapshot of the host's tables: the TCP connections
/// first, then the UDP listeners, each table in its own order.
pub fn read_sockets(tcp: &Vec<TcpRow>, udp: &Vec<UdpRow>) -> (sockets: Vec<Socket>)
    ensures
        sockets@.len() == tcp@.len() + udp@.len(),
        forall|i: int| 0 <= i < tcp@.len() ==> records_tcp(#[trigger] sockets@[i], tcp@[i]),
        forall|i: int|
            0 <= i < udp@.len() ==> records_udp(#[trigger] sockets@[tcp@.len() + i], udp@[i]),
        forall|i: int| 0 <= i < sockets@.len() ==> (#[trigger] sockets@[i]).wf(),
{
    let mut sockets: Vec<Socket> = Vec::new();
    let mut i: usize = 0;
    while i < tcp.len()
        invariant
            i <= tcp@.len(),
            sockets@.len() == i,
            forall|k: int| 0 <= k < i ==> records_tcp(#[trigger] sockets@[k], tcp@[k]),
            forall|k: int| 0 <= k < i ==> (#[trigger] sockets@[k]).wf(),
        decreases tcp.len() - i,
    {
        sockets.push(tcp_socket(tcp[i]));
        i += 1;
    }
    let mut j: usize = 0;
    while j < udp.len()
        invariant
            i == tcp@.len(),
            j <= udp@.len(),
            sockets@.len() == i + j,
            forall|k: int| 0 <= k < i ==> records_tcp(#[trigger] sockets@[k], tcp@[k]),
            forall|k: int| 0 <= k < j ==> records_udp(#[trigger] sockets@[i + k], udp@[k]),
            forall|k: int| 0 <= k < i + j ==> (#[trigger] sockets@[k]).wf(),
        decreases udp.len() - j,
    {
        sockets.push(udp_socket(udp[j]));
        j += 1;
    }
    sockets
}

} // verus!
