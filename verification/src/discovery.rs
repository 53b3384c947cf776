//! Finding devices: the announcement a device broadcasts, the answer it
//! gives to another's announcement, and what it learns from what it hears.

use vstd::prelude::*;
use crate::auth::group_code_admits;
use crate::auth::verify_group_code;
use crate::config::Config;
use crate::message::DiscoveryMessage;
use crate::message::DiscoveryResponse;
use crate::message::IpAddress;
use crate::message::PeerAddress;
use crate::message::ProtocolMessage;
use crate::peer::describes;
use crate::peer::Peer;
use crate::message::TransferRequest;
use crate::message::TransferResponse;
use crate::receiver::is_answer;

verus! {

/// The message a device broadcasts to announce itself.
pub fn announcement(device_id: u128, display_name: String, hostname: String, config: &Config) -> (m:
    ProtocolMessage)
    ensures
        m == ProtocolMessage::Discovery(
            DiscoveryMessage {
                device_id,
                display_name,
                hostname,
                group_code: config.group_code,
                transfer_port: config.transfer_port,
            },
        ),
{
    ProtocolMessage::Discovery(
        DiscoveryMessage {
            device_id,
            display_name,
            hostname,
            group_code: config.group_code.clone(),
            transfer_port: config.transfer_port,
        },
    )
}

/// The answer a device sends to an announcement it heard.
pub fn discovery_response(
    local_device_id: u128,
    local_display_name: &str,
    local_hostname: &str,
    group_code: &str,
    local_addr: PeerAddress,
) -> (m: ProtocolMessage)
    ensures
        m matches ProtocolMessage::DiscoveryResponse(r) && r.device_id == local_device_id
            && r.display_name@ == local_display_name@ && r.hostname@ == local_hostname@
            && r.group_code@ == group_code@ && r.socket_addr == local_addr,
{
    ProtocolMessage::DiscoveryResponse(
        DiscoveryResponse {
            device_id: local_device_id,
            display_name: local_display_name.to_owned(),
            hostname: local_hostname.to_owned(),
            group_code: group_code.to_owned(),
            socket_addr: local_addr,
        },
    )
}

/// Whether an address is the unspecified one (`0.0.0.0` or `::`), which a
/// device reports when it answers from a socket bound to every interface.
pub open spec fn is_unspecified(a: PeerAddress) -> bool {
    match a.ip {
        IpAddress::V4(o) => o@ == seq![0u8, 0u8, 0u8, 0u8],
        IpAddress::V6(o) => forall|i: int| 0 <= i < 16 ==> #[trigger] o@[i] == 0u8,
    }
}

/// Where an answering device is reached: the address it reports, or, where
/// it reports the unspecified address, the address its answer came from
/// with the reported port.
pub open spec fn answer_address(reported: PeerAddress, sender: PeerAddress) -> PeerAddress {
    if is_unspecified(reported) {
        PeerAddress { ip: sender.ip, port: reported.port }
    } else {
        reported
    }
}

/// Where an answering device is reached.
pub fn resolve_answer_address(reported: PeerAddress, sender: PeerAddress) -> (a: PeerAddress)
    ensures
        a == answer_address(reported, sender),
{
    let unspecified = match reported.ip {
        IpAddress::V4(o) => o[0] == 0 && o[1] == 0 && o[2] == 0 && o[3] == 0,
        IpAddress::V6(o) => {
            let mut all_zero = true;
            let mut i: usize = 0;
            while i < 16
                invariant
                    0 <= i <= 16,
                    all_zero <==> forall|j: int| 0 <= j < i ==> #[trigger] o@[j] == 0u8,
                decreases 16 - i,
            {
                if o[i] != 0 {
                    all_zero = false;
                }
                i += 1;
            }
            all_zero
        },
    };
    proof {
        if let IpAddress::V4(o) = reported.ip {
            if unspecified {
                assert(o@ =~= seq![0u8, 0u8, 0u8, 0u8]);
            } else {
                assert(o@ != seq![0u8, 0u8, 0u8, 0u8]) by {
                    if o@ == seq![0u8, 0u8, 0u8, 0u8] {
                        assert(o@[0] == 0 && o@[1] == 0 && o@[2] == 0 && o@[3] == 0);
                    }
                }
            }
        }
    }
    if unspecified {
        PeerAddress { ip: sender.ip, port: reported.port }
    } else {
        reported
    }
}

/// Whether a message is a device's own announcement or answer, heard back.
pub open spec fn is_echo(msg: ProtocolMessage, local_device_id: u128) -> bool {
    match msg {
        ProtocolMessage::Discovery(d) => d.device_id == local_device_id,
        ProtocolMessage::DiscoveryResponse(r) => r.device_id == local_device_id,
        _ => false,
    }
}

/// Whether a message is this device's own announcement or answer.
pub fn is_own_message(msg: &ProtocolMessage, local_device_id: u128) -> (r: bool)
    ensures
        r == is_echo(*msg, local_device_id),
{
    match msg {
        ProtocolMessage::Discovery(d) => d.device_id == local_device_id,
        ProtocolMessage::DiscoveryResponse(r) => r.device_id == local_device_id,
        _ => false,
    }
}

/// What a device does with a discovery message it heard.
#[derive(Debug, PartialEq, Eq)]
pub enum DiscoveryReaction {
    /// Nothing: the message is of another group, or not about discovery.
    Ignore,
    /// Record `peer` (replacing any record of the same device); where
    /// `reply` is set, answer the sender with a discovery response.
    Learn { peer: Peer, reply: bool },
}

/// The reaction of a device with group code `local_group_code` to `msg`,
/// heard from `sender`: announcements and answers of the device's group
/// (any group, where the device has no code) make the sender a peer, and
/// announcements are answered. An answering device is recorded at the
/// address it reports (see `answer_address`), with no transfer port known.
pub open spec fn is_reaction(
    msg: ProtocolMessage,
    local_group_code: Seq<char>,
    sender: PeerAddress,
    reaction: DiscoveryReaction,
) -> bool {
    match msg {
        ProtocolMessage::Discovery(d) => if !group_code_admits(d.group_code@, local_group_code) {
            reaction == DiscoveryReaction::Ignore
        } else {
            reaction matches DiscoveryReaction::Learn { peer, reply } && reply && describes(
                peer,
                d.device_id,
                d.display_name,
                d.hostname,
                sender,
                d.transfer_port,
            )
        },
        ProtocolMessage::DiscoveryResponse(r) => if !group_code_admits(
            r.group_code@,
            local_group_code,
        ) {
            reaction == DiscoveryReaction::Ignore
        } else {
            reaction matches DiscoveryReaction::Learn { peer, reply } && !reply && describes(
                peer,
                r.device_id,
                r.display_name,
                r.hostname,
                answer_address(r.socket_addr, sender),
                0,
            )
        },
        _ => reaction == DiscoveryReaction::Ignore,
    }
}

/// Reacts to a discovery message heard from `sender`.
pub fn handle_message(msg: &ProtocolMessage, local_group_code: &str, sender: PeerAddress) -> (r:
    DiscoveryReaction)
    ensures
        is_reaction(*msg, local_group_code@, sender, r),
{
    match msg {
        ProtocolMessage::Discovery(d) => {
            if !verify_group_code(d.group_code.as_str(), local_group_code) {
                return DiscoveryReaction::Ignore;
            }
            let peer = Peer::new(
                d.device_id,
                d.display_name.clone(),
                d.hostname.clone(),
                sender,
                d.transfer_port,
            );
            DiscoveryReaction::Learn { peer, reply: true }
        },
        ProtocolMessage::DiscoveryResponse(r) => {
            if !verify_group_code(r.group_code.as_str(), local_group_code) {
                return DiscoveryReaction::Ignore;
            }
            let peer = Peer::new(
                r.device_id,
                r.display_name.clone(),
                r.hostname.clone(),
                resolve_answer_address(r.socket_addr, sender),
                0,
            );
            DiscoveryReaction::Learn { peer, reply: false }
        },
        _ => DiscoveryReaction::Ignore,
    }
}

/// Group isolation: a device whose group code is set learns nothing of a
/// device that announces or answers with another code, and refuses its
/// transfer requests.
pub proof fn lemma_group_isolation(
    local_group_code: Seq<char>,
    msg: ProtocolMessage,
    sender: PeerAddress,
    reaction: DiscoveryReaction,
    req: TransferRequest,
    resp: TransferResponse,
)
    requires
        local_group_code.len() > 0,
        msg matches ProtocolMessage::Discovery(d) ==> d.group_code@ != local_group_code,
        msg matches ProtocolMessage::DiscoveryResponse(r) ==> r.group_code@ != local_group_code,
        req.group_code@ != local_group_code,
        is_reaction(msg, local_group_code, sender, reaction),
        is_answer(req, local_group_code, resp),
    ensures
        reaction == DiscoveryReaction::Ignore,
        resp is Rejected,
{
}

} // verus!
