//! Joining and leaving IPv4 multicast groups: the table is changed first,
//! then the change is announced to the link, as far as the link allows.

use vstd::prelude::*;
use crate::address::{IpAddress, Ipv4Address, Ipv6Address};
use crate::device::{announce, Delivery, Device};
use crate::interface::{Interface, InterfaceInner};
use crate::table::{
    lemma_leave_undoes_join, lemma_with_group, lemma_without_group, valid_groups, with_group, without_group,
};
use crate::time::Instant;

verus! {

/// Why joining or leaving a multicast group failed.
#[derive(Debug, Clone, Copy, PartialEq, Eq, Structural)]
pub enum MulticastError {
    /// The link could not take the announcement. The table holds the change
    /// all the same.
    Exhausted,
    /// The table of joined multicast groups is already full.
    GroupTableFull,
    /// Groups of this family cannot be joined or left by hand.
    Ipv6NotSupported,
}

impl MulticastError {
    /// The error's name, letter for letter as the variant is written.
    pub open spec fn name(self) -> Seq<char> {
        match self {
            MulticastError::Exhausted => "Exhausted"@,
            MulticastError::GroupTableFull => "GroupTableFull"@,
            MulticastError::Ipv6NotSupported => "Ipv6NotSupported"@,
        }
    }

    /// The error's name as text, for a message to the user.
    pub fn as_str(&self) -> (text: &'static str)
        ensures
            text@ == self.name(),
    {
        match self {
            MulticastError::Exhausted => "Exhausted",
            MulticastError::GroupTableFull => "GroupTableFull",
            MulticastError::Ipv6NotSupported => "Ipv6NotSupported",
        }
    }
}

/// What the caller hears of an announcement that ended as `delivery`:
/// whether one was sent, or that the link was exhausted.
pub open spec fn announced(delivery: Delivery) -> Result<bool, MulticastError> {
    match delivery {
        Delivery::Sent => Ok(true),
        Delivery::NothingToSend => Ok(false),
        Delivery::Exhausted => Err(MulticastError::Exhausted),
    }
}

/// Whether joining `addr` brings a new group into the table, which is then
/// announced: `addr` is an IPv4 address, no member yet, and there is room.
pub open spec fn join_is_news(groups: Seq<Ipv4Address>, capacity: nat, addr: IpAddress) -> bool {
    match addr {
        IpAddress::Ipv4(group) => !groups.contains(group) && groups.len() < capacity,
        IpAddress::Ipv6(_) => false,
    }
}

/// The IPv4 groups after `addr` has been asked to join.
pub open spec fn groups_after_join(groups: Seq<Ipv4Address>, capacity: nat, addr: IpAddress) -> Seq<Ipv4Address> {
    match addr {
        IpAddress::Ipv4(group) => with_group(groups, capacity, group),
        IpAddress::Ipv6(_) => groups,
    }
}

/// What joining `addr` returns, where `delivery` says how the announcement
/// ended if there was one to make.
pub open spec fn join_result(groups: Seq<Ipv4Address>, capacity: nat, addr: IpAddress, delivery: Delivery) -> Result<
    bool,
    MulticastError,
> {
    match addr {
        IpAddress::Ipv4(group) => {
            if groups.contains(group) {
                Ok(false)
            } else if groups.len() >= capacity {
                Err(MulticastError::GroupTableFull)
            } else {
                announced(delivery)
            }
        },
        IpAddress::Ipv6(_) => Err(MulticastError::Ipv6NotSupported),
    }
}

/// Whether leaving `addr` takes a group out of the table, which is then
/// announced: `addr` is an IPv4 address and a member.
pub open spec fn leave_is_news(groups: Seq<Ipv4Address>, addr: IpAddress) -> bool {
    match addr {
        IpAddress::Ipv4(group) => groups.contains(group),
        IpAddress::Ipv6(_) => false,
    }
}

/// The IPv4 groups after `addr` has been asked to leave.
pub open spec fn groups_after_leave(groups: Seq<Ipv4Address>, addr: IpAddress) -> Seq<Ipv4Address> {
    match addr {
        IpAddress::Ipv4(group) => without_group(groups, group),
        IpAddress::Ipv6(_) => groups,
    }
}

/// What leaving `addr` returns, where `delivery` says how the announcement
/// ended if there was one to make.
pub open spec fn leave_result(groups: Seq<Ipv4Address>, addr: IpAddress, delivery: Delivery) -> Result<
    bool,
    MulticastError,
> {
    match addr {
        IpAddress::Ipv4(group) => {
            if groups.contains(group) {
                announced(delivery)
            } else {
                Ok(false)
            }
        },
        IpAddress::Ipv6(_) => Err(MulticastError::Ipv6NotSupported),
    }
}

/// Whether the interface listens to `addr`: whether the table of its family
/// holds it.
pub open spec fn has_group(ipv4_groups: Seq<Ipv4Address>, ipv6_groups: Seq<Ipv6Address>, addr: IpAddress) -> bool {
    match addr {
        IpAddress::Ipv4(group) => ipv4_groups.contains(group),
        IpAddress::Ipv6(group) => ipv6_groups.contains(group),
    }
}

/// Joining is idempotent: once a join of an IPv4 group has not been refused
/// for want of room, a second join of the same group returns `Ok(false)`
/// and leaves the table, and so its size, as the first join left it,
/// however the link stands at either time.
pub proof fn lemma_join_twice(
    groups: Seq<Ipv4Address>,
    capacity: nat,
    group: Ipv4Address,
    first: Delivery,
    second: Delivery,
)
    requires
        valid_groups(groups, capacity),
        join_result(groups, capacity, IpAddress::Ipv4(group), first) != Err::<bool, MulticastError>(
            MulticastError::GroupTableFull,
        ),
    ensures
        ({
            let addr = IpAddress::Ipv4(group);
            let joined = groups_after_join(groups, capacity, addr);
            &&& join_result(joined, capacity, addr, second) == Ok::<bool, MulticastError>(false)
            &&& groups_after_join(joined, capacity, addr) == joined
            &&& !join_is_news(joined, capacity, addr)
        }),
{
    lemma_with_group(groups, capacity, group);
}

/// Joining and leaving mirror each other, and membership is what the table
/// holds: an IPv4 group is listened to after a join that was not refused for
/// want of room, and is not listened to after a leave; a leave right after
/// the join of a new group restores the table; and neither changes whether
/// any other address is listened to.
pub proof fn lemma_leave_after_join(
    ipv4_groups: Seq<Ipv4Address>,
    ipv6_groups: Seq<Ipv6Address>,
    capacity: nat,
    group: Ipv4Address,
    other: IpAddress,
)
    requires
        valid_groups(ipv4_groups, capacity),
        other != IpAddress::Ipv4(group),
    ensures
        ({
            let addr = IpAddress::Ipv4(group);
            let joined = groups_after_join(ipv4_groups, capacity, addr);
            let left = groups_after_leave(joined, addr);
            &&& has_group(joined, ipv6_groups, addr) <==> ipv4_groups.contains(group) || ipv4_groups.len() < capacity
            &&& !has_group(left, ipv6_groups, addr)
            &&& !has_group(groups_after_leave(ipv4_groups, addr), ipv6_groups, addr)
            &&& join_is_news(ipv4_groups, capacity, addr) ==> left == ipv4_groups
            &&& has_group(joined, ipv6_groups, other) == has_group(ipv4_groups, ipv6_groups, other)
            &&& has_group(left, ipv6_groups, other) == has_group(ipv4_groups, ipv6_groups, other)
            &&& valid_groups(joined, capacity) && valid_groups(left, capacity)
        }),
{
    let joined = with_group(ipv4_groups, capacity, group);
    lemma_with_group(ipv4_groups, capacity, group);
    lemma_without_group(joined, capacity, group);
    lemma_without_group(ipv4_groups, capacity, group);
    if !ipv4_groups.contains(group) && ipv4_groups.len() < capacity {
        lemma_leave_undoes_join(ipv4_groups, capacity, group);
    }
}

/// A full table refuses a new group: the join fails with `GroupTableFull`
/// whatever the link would have done, is no news to announce, and leaves
/// the groups as they were.
pub proof fn lemma_full_table_refuses(groups: Seq<Ipv4Address>, capacity: nat, group: Ipv4Address, delivery: Delivery)
    requires
        groups.len() >= capacity,
        !groups.contains(group),
    ensures
        join_result(groups, capacity, IpAddress::Ipv4(group), delivery) == Err::<bool, MulticastError>(
            MulticastError::GroupTableFull,
        ),
        groups_after_join(groups, capacity, IpAddress::Ipv4(group)) == groups,
        !join_is_news(groups, capacity, IpAddress::Ipv4(group)),
{
}

/// An address that is not IPv4 can be neither joined nor left: both fail
/// with `Ipv6NotSupported` whatever the link would have done, are no news
/// to announce, and leave the groups as they were.
pub proof fn lemma_other_family_refused(
    groups: Seq<Ipv4Address>,
    capacity: nat,
    addr: IpAddress,
    delivery: Delivery,
)
    requires
        addr !is Ipv4,
    ensures
        join_result(groups, capacity, addr, delivery) == Err::<bool, MulticastError>(
            MulticastError::Ipv6NotSupported,
        ),
        leave_result(groups, addr, delivery) == Err::<bool, MulticastError>(MulticastError::Ipv6NotSupported),
        groups_after_join(groups, capacity, addr) == groups,
        groups_after_leave(groups, addr) == groups,
        !join_is_news(groups, capacity, addr),
        !leave_is_news(groups, addr),
{
}

/// What the caller hears of an announcement that ended as `delivery`.
pub fn announcement_result(delivery: Delivery) -> (result: Result<bool, MulticastError>)
    ensures
        result == announced(delivery),
{
    match delivery {
        Delivery::Sent => Ok(true),
        Delivery::NothingToSend => Ok(false),
        Delivery::Exhausted => Err(MulticastError::Exhausted),
    }
}

impl Interface {
    /// Adds `addr` to the multicast groups that the interface has joined, at
    /// the time `timestamp`, which becomes the interface's current time.
    ///
    /// Returns `Ok(announce_sent)` if the group is a member afterwards, where
    /// `announce_sent` says whether a membership report went out at once: none
    /// does for a group that was a member already, nor where `device` builds
    /// none. A new group stays in the table even if the report could not be
    /// sent, which is `Err(Exhausted)`. A full table refuses a new group, and
    /// an address that is not IPv4 is refused; neither changes a table nor
    /// touches the device.
    ///
    /// Whether a new group's report is built and a token is to be had is the
    /// device's to say: the result is that of [`join_result`] for one of the
    /// three ways in which the announcement can end.
    pub fn join_multicast_group<D: Device>(&mut self, device: &mut D, addr: IpAddress, timestamp: Instant) -> (result:
        Result<bool, MulticastError>)
        ensures
            final(self).inner == (InterfaceInner {
                now: timestamp,
                ipv4_multicast_groups: final(self).inner.ipv4_multicast_groups,
                ..old(self).inner
            }),
            final(self).inner.ipv4_multicast_groups@ == groups_after_join(
                old(self).inner.ipv4_multicast_groups@,
                old(self).inner.ipv4_multicast_groups.spec_capacity(),
                addr,
            ),
            final(self).inner.ipv4_multicast_groups.spec_capacity() == old(
                self,
            ).inner.ipv4_multicast_groups.spec_capacity(),
            result == join_result(
                old(self).inner.ipv4_multicast_groups@,
                old(self).inner.ipv4_multicast_groups.spec_capacity(),
                addr,
                Delivery::Sent,
            ) || result == join_result(
                old(self).inner.ipv4_multicast_groups@,
                old(self).inner.ipv4_multicast_groups.spec_capacity(),
                addr,
                Delivery::NothingToSend,
            ) || result == join_result(
                old(self).inner.ipv4_multicast_groups@,
                old(self).inner.ipv4_multicast_groups.spec_capacity(),
                addr,
                Delivery::Exhausted,
            ),
            !join_is_news(
                old(self).inner.ipv4_multicast_groups@,
                old(self).inner.ipv4_multicast_groups.spec_capacity(),
                addr,
            ) ==> *final(device) == *old(device),
    {
        self.inner.now = timestamp;

        match addr {
            IpAddress::Ipv4(group) => {
                match self.inner.ipv4_multicast_groups.insert(group) {
                    Err(_) => Err(MulticastError::GroupTableFull),
                    Ok(true) => Ok(false),
                    Ok(false) => {
                        // Send the initial membership report.
                        let packet = device.igmp_report_packet(group);
                        announcement_result(announce(device, packet, timestamp))
                    },
                }
            },
            // Groups of the other family come and go without being asked.
            IpAddress::Ipv6(_) => Err(MulticastError::Ipv6NotSupported),
        }
    }

    /// Removes `addr` from the multicast groups that the interface has
    /// joined, at the time `timestamp`, which becomes the interface's current
    /// time.
    ///
    /// Returns `Ok(leave_sent)` if the group is no member afterwards, where
    /// `leave_sent` says whether a leave packet went out at once: none does
    /// for a group that was no member, nor where `device` builds none. A
    /// member is out of the table even if the packet could not be sent, which
    /// is `Err(Exhausted)`. An address that is not IPv4 is refused, which
    /// changes no table and does not touch the device.
    ///
    /// Whether a leave packet is built and a token is to be had is the
    /// device's to say: the result is that of [`leave_result`] for one of
    /// the three ways in which the announcement can end.
    pub fn leave_multicast_group<D: Device>(&mut self, device: &mut D, addr: IpAddress, timestamp: Instant) -> (result:
        Result<bool, MulticastError>)
        ensures
            final(self).inner == (InterfaceInner {
                now: timestamp,
                ipv4_multicast_groups: final(self).inner.ipv4_multicast_groups,
                ..old(self).inner
            }),
            final(self).inner.ipv4_multicast_groups@ == groups_after_leave(
                old(self).inner.ipv4_multicast_groups@,
                addr,
            ),
            final(self).inner.ipv4_multicast_groups.spec_capacity() == old(
                self,
            ).inner.ipv4_multicast_groups.spec_capacity(),
            result == leave_result(old(self).inner.ipv4_multicast_groups@, addr, Delivery::Sent) || result
                == leave_result(old(self).inner.ipv4_multicast_groups@, addr, Delivery::NothingToSend) || result
                == leave_result(old(self).inner.ipv4_multicast_groups@, addr, Delivery::Exhausted),
            !leave_is_news(old(self).inner.ipv4_multicast_groups@, addr) ==> *final(device) == *old(device),
    {
        self.inner.now = timestamp;

        match addr {
            IpAddress::Ipv4(group) => {
                if self.inner.ipv4_multicast_groups.remove(&group) {
                    // Send the leave packet.
                    let packet = device.igmp_leave_packet(group);
                    announcement_result(announce(device, packet, timestamp))
                } else {
                    Ok(false)
                }
            },
            // Groups of the other family come and go without being asked.
            IpAddress::Ipv6(_) => Err(MulticastError::Ipv6NotSupported),
        }
    }

    /// Whether the interface listens to the multicast address `addr`.
    pub fn has_multicast_group(&self, addr: IpAddress) -> (listening: bool)
        ensures
            listening == has_group(
                self.inner.ipv4_multicast_groups@,
                self.inner.ipv6_multicast_groups@,
                addr,
            ),
    {
        self.inner.has_multicast_group(addr)
    }
}

impl InterfaceInner {
    /// Whether the interface listens to the multicast address `addr`.
    pub fn has_multicast_group(&self, addr: IpAddress) -> (listening: bool)
        ensures
            listening == has_group(self.ipv4_multicast_groups@, self.ipv6_multicast_groups@, addr),
    {
        match addr {
            IpAddress::Ipv4(group) => self.ipv4_multicast_groups.contains(&group),
            IpAddress::Ipv6(group) => self.ipv6_multicast_groups.contains(&group),
        }
    }
}

} // verus!
