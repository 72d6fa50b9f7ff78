//! The way out of the interface: what builds an announcement for a group and
//! carries it to the link. The membership logic decides what to announce and
//! when; everything below that is the device's.

use vstd::prelude::*;
use crate::address::{Ipv4Address, Ipv6Address};
use crate::time::Instant;

verus! {

/// What the membership logic needs from the packet path below it. Nothing is
/// assumed of an implementation: each answer is taken as it comes.
pub trait Device {
    /// A packet ready to be dispatched.
    type Packet;

    /// The right to hand one packet to the link.
    type TxToken;

    /// The membership report that announces `group_addr`, unless there is
    /// nothing to announce.
    fn igmp_report_packet(&self, group_addr: Ipv4Address) -> Option<Self::Packet>;

    /// The packet that announces the departure from `group_addr`, unless
    /// there is nothing to announce.
    fn igmp_leave_packet(&self, group_addr: Ipv4Address) -> Option<Self::Packet>;

    /// The listener report that answers a query for `group_addr`, unless
    /// there is nothing to announce.
    fn mldv2_listener_join_packet(&self, group_addr: Ipv6Address) -> Option<Self::Packet>;

    /// A transmit token, unless the link cannot take a packet right now.
    /// Never blocks.
    fn transmit(&mut self, timestamp: Instant) -> Option<Self::TxToken>;

    /// Hands `packet` to the link, which uses up `tx_token`.
    fn dispatch_ip(&mut self, tx_token: Self::TxToken, packet: Self::Packet);
}

/// How an attempt to announce ended.
#[derive(Clone, Copy, Debug, PartialEq, Eq, Structural)]
pub enum Delivery {
    /// The packet was handed to the link.
    Sent,
    /// No packet was built, so there was nothing to hand over.
    NothingToSend,
    /// A packet was built, but the link could not take it.
    Exhausted,
}

/// Carries `packet` to the link, if there is one: asks `device` for a
/// transmit token and dispatches the packet with it. Without a packet the
/// device is not touched. Whether a token is to be had is the device's to
/// say, so with a packet the attempt ends as sent or as exhausted.
pub fn announce<D: Device>(device: &mut D, packet: Option<D::Packet>, timestamp: Instant) -> (delivery: Delivery)
    ensures
        packet is None ==> delivery == Delivery::NothingToSend && *final(device) == *old(device),
        packet is Some ==> delivery != Delivery::NothingToSend,
{
    match packet {
        None => Delivery::NothingToSend,
        Some(packet) => match device.transmit(timestamp) {
            None => Delivery::Exhausted,
            Some(tx_token) => {
                device.dispatch_ip(tx_token, packet);
                Delivery::Sent
            },
        },
    }
}

} // verus!
