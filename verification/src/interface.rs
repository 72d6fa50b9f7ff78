//! The interface: its clock, its two membership tables and its report
//! schedule.

use vstd::prelude::*;
use crate::address::{Ipv4Address, Ipv6Address};
use crate::schedule::MldReportState;
use crate::table::GroupTable;
use crate::time::Instant;

verus! {

/// The state that group membership keeps for an interface. It belongs to the
/// interface alone; whoever drives the interface sets `now` before a tick and
/// keeps the IPv6 table, whose groups come and go with the interface's own
/// addresses.
pub struct InterfaceInner {
    /// The current time, as the interface was last told.
    pub now: Instant,
    /// The IPv4 groups that were joined and not left.
    pub ipv4_multicast_groups: GroupTable<Ipv4Address>,
    /// The IPv6 groups that the interface listens to.
    pub ipv6_multicast_groups: GroupTable<Ipv6Address>,
    /// The answer that the interface owes to the latest listener query.
    pub mld_report_state: MldReportState,
}

/// A network interface, as far as multicast group membership goes.
pub struct Interface {
    pub inner: InterfaceInner,
}

impl InterfaceInner {
    /// The state of an interface at `now` that has joined no group, owes no
    /// report, and takes up to `max_group_count` groups of each family.
    pub fn new(max_group_count: usize, now: Instant) -> (inner: InterfaceInner)
        ensures
            inner.now == now,
            inner.ipv4_multicast_groups@ == Seq::<Ipv4Address>::empty(),
            inner.ipv4_multicast_groups.spec_capacity() == max_group_count,
            inner.ipv6_multicast_groups@ == Seq::<Ipv6Address>::empty(),
            inner.ipv6_multicast_groups.spec_capacity() == max_group_count,
            inner.mld_report_state == MldReportState::Inactive,
    {
        InterfaceInner {
            now,
            ipv4_multicast_groups: GroupTable::new(max_group_count),
            ipv6_multicast_groups: GroupTable::new(max_group_count),
            mld_report_state: MldReportState::Inactive,
        }
    }
}

impl Interface {
    /// An interface at `now` that has joined no group, owes no report, and
    /// takes up to `max_group_count` groups of each family.
    pub fn new(max_group_count: usize, now: Instant) -> (iface: Interface)
        ensures
            iface.inner.now == now,
            iface.inner.ipv4_multicast_groups@ == Seq::<Ipv4Address>::empty(),
            iface.inner.ipv4_multicast_groups.spec_capacity() == max_group_count,
            iface.inner.ipv6_multicast_groups@ == Seq::<Ipv6Address>::empty(),
            iface.inner.ipv6_multicast_groups.spec_capacity() == max_group_count,
            iface.inner.mld_report_state == MldReportState::Inactive,
    {
        Interface { inner: InterfaceInner::new(max_group_count, now) }
    }
}

} // verus!
