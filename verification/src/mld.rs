//! Multicast listener discovery on an interface: taking in a query, and
//! sending the reports that answer it, one per tick.

use vstd::prelude::*;
use crate::device::{announce, Delivery, Device};
use crate::interface::{Interface, InterfaceInner};
use crate::schedule::{after_tick, report_due, schedule_after, timeout_in_range, MldRepr, MldReportState};
use crate::time::Duration;

verus! {

impl Interface {
    /// One tick of the report schedule at the interface's current time.
    /// Returns whether work was done, that is whether a report was made.
    ///
    /// Where a report is due, `device` is asked to build it and to carry it
    /// to the link. How that ends is the device's to say; the schedule after
    /// the tick is the one that [`after_tick`] gives for the way it ended.
    /// Where none is due, the device is not touched. Nothing but the
    /// schedule changes.
    ///
    /// The timeout to which a report would move the walk of a general query
    /// must be one that the clock can hold.
    pub fn mld_egress<D: Device>(&mut self, device: &mut D) -> (work_done: bool)
        requires
            timeout_in_range(
                after_tick(
                    old(self).inner.mld_report_state@,
                    old(self).inner.now@,
                    old(self).inner.ipv6_multicast_groups@,
                    Delivery::Sent,
                ).0,
            ),
        ensures
            tick_outcome(old(self).inner, Delivery::Sent, final(self).inner, work_done) || tick_outcome(
                old(self).inner,
                Delivery::NothingToSend,
                final(self).inner,
                work_done,
            ) || tick_outcome(old(self).inner, Delivery::Exhausted, final(self).inner, work_done),
            report_due(
                old(self).inner.mld_report_state@,
                old(self).inner.now@,
                old(self).inner.ipv6_multicast_groups@,
            ) is None ==> *final(device) == *old(device) && tick_outcome(
                old(self).inner,
                Delivery::NothingToSend,
                final(self).inner,
                work_done,
            ),
    {
        let now = self.inner.now;
        let delivery = match self.inner.mld_report_state.due(now, &self.inner.ipv6_multicast_groups) {
            Some(address) => {
                let packet = device.mldv2_listener_join_packet(address);
                announce(device, packet, now)
            },
            None => Delivery::NothingToSend,
        };
        let (next, work_done) = self.inner.mld_report_state.after_delivery(
            now,
            &self.inner.ipv6_multicast_groups,
            delivery,
        );
        self.inner.mld_report_state = next;
        work_done
    }
}

/// Whether `after` and `work_done` are what a tick makes of `before` when
/// the attempt to send the due report ends as `delivery`: the schedule and
/// the answer are those of [`after_tick`], and the rest is as it was.
pub open spec fn tick_outcome(
    before: InterfaceInner,
    delivery: Delivery,
    after: InterfaceInner,
    work_done: bool,
) -> bool {
    let step = after_tick(before.mld_report_state@, before.now@, before.ipv6_multicast_groups@, delivery);
    &&& after.mld_report_state@ == step.0
    &&& work_done == step.1
    &&& after == (InterfaceInner { mld_report_state: after.mld_report_state, ..before })
}

impl InterfaceInner {
    /// Takes in the listener message `mld_repr`, received at the interface's
    /// current time: the schedule becomes what [`schedule_after`] gives for
    /// it, and nothing else changes.
    ///
    /// The timeout that the message sets must be one that the clock can
    /// hold.
    pub fn process_mld(&mut self, mld_repr: MldRepr)
        requires
            timeout_in_range(
                schedule_after(
                    mld_repr,
                    old(self).mld_report_state@,
                    old(self).now@,
                    old(self).ipv6_multicast_groups@.len(),
                ),
            ),
        ensures
            final(self).mld_report_state@ == schedule_after(
                mld_repr,
                old(self).mld_report_state@,
                old(self).now@,
                old(self).ipv6_multicast_groups@.len(),
            ),
            *final(self) == (InterfaceInner { mld_report_state: final(self).mld_report_state, ..*old(self) }),
    {
        match mld_repr {
            MldRepr::Query { max_response_delay, mcast_addr, num_srcs } => {
                if num_srcs != 0 {
                    // A query for a group and some of its sources.
                } else if mcast_addr.is_unspecified() {
                    // A general query.
                    let shares: u128 = self.ipv6_multicast_groups.len() as u128 + 1;
                    let share: u128 = max_response_delay.micros as u128 / shares;
                    let interval = Duration::from_micros(share as u64);
                    self.mld_report_state = MldReportState::ToGeneralQuery {
                        timeout: self.now.plus(interval),
                        interval,
                        next_index: 0,
                    };
                } else {
                    // A query for one group.
                    let delay = max_response_delay.divided_by(4);
                    self.mld_report_state = MldReportState::ToSpecificQuery {
                        timeout: self.now.plus(delay),
                        address: mcast_addr,
                    };
                }
            },
            MldRepr::Report => {},
        }
    }
}

} // verus!
