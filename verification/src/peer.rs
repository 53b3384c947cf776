//! Devices found on the network.

use vstd::prelude::*;
use crate::message::PeerAddress;

verus! {

/// Whether a peer is reachable.
#[derive(Clone, Copy, Debug, PartialEq, Eq)]
pub enum PeerStatus {
    Online,
    Away,
    Offline,
}

/// A device found on the network. `last_seen` is the time it was last
/// heard from, in microseconds since the Unix epoch (UTC).
#[derive(Clone, Debug, PartialEq, Eq)]
pub struct Peer {
    pub device_id: u128,
    pub display_name: String,
    pub hostname: String,
    pub socket_addr: PeerAddress,
    pub transfer_port: u16,
    pub last_seen: i64,
    pub status: PeerStatus,
}

/// `chrono::Utc::now().timestamp_micros()`: the current time in
/// microseconds since the Unix epoch. Which time it is, is the clock's;
/// chrono's `now` only returns for a clock at or after the epoch (it panics
/// before it), so the value is not negative.
#[verifier::external_body]
fn now_micros() -> (t: i64)
    ensures
        t >= 0,
{
    chrono::Utc::now().timestamp_micros()
}

/// Whether `p` is the peer described by the other arguments, online.
pub open spec fn describes(
    p: Peer,
    device_id: u128,
    display_name: String,
    hostname: String,
    socket_addr: PeerAddress,
    transfer_port: u16,
) -> bool {
    &&& p.device_id == device_id
    &&& p.display_name == display_name
    &&& p.hostname == hostname
    &&& p.socket_addr == socket_addr
    &&& p.transfer_port == transfer_port
    &&& p.status == PeerStatus::Online
}

impl Peer {
    /// A peer heard from at `last_seen`.
    pub fn seen_at(
        device_id: u128,
        display_name: String,
        hostname: String,
        socket_addr: PeerAddress,
        transfer_port: u16,
        last_seen: i64,
    ) -> (p: Peer)
        ensures
            describes(p, device_id, display_name, hostname, socket_addr, transfer_port),
            p.last_seen == last_seen,
    {
        Peer {
            device_id,
            display_name,
            hostname,
            socket_addr,
            transfer_port,
            last_seen,
            status: PeerStatus::Online,
        }
    }

    /// A peer heard from now (a time at or after the epoch).
    pub fn new(
        device_id: u128,
        display_name: String,
        hostname: String,
        socket_addr: PeerAddress,
        transfer_port: u16,
    ) -> (p: Peer)
        ensures
            describes(p, device_id, display_name, hostname, socket_addr, transfer_port),
            p.last_seen >= 0,
    {
        let now = now_micros();
        Peer::seen_at(device_id, display_name, hostname, socket_addr, transfer_port, now)
    }
}

impl Peer {
    /// Where transfers to this peer go: its address, on the transfer port
    /// it announced, or on `default_port` where it announced none.
    pub fn transfer_address(&self, default_port: u16) -> (a: PeerAddress)
        ensures
            a.ip == self.socket_addr.ip,
            a.port == (if self.transfer_port != 0 {
                self.transfer_port
            } else {
                default_port
            }),
    {
        let port = if self.transfer_port != 0 {
            self.transfer_port
        } else {
            default_port
        };
        PeerAddress { ip: self.socket_addr.ip, port }
    }
}

} // verus!
