//! The schedule by which an interface answers multicast listener queries.
//!
//! A query never gets its answer at once. A general query has every joined
//! group answer, one report per tick of the interface, the reports spread
//! evenly over the delay that the query allows; a query for one group has that
//! group answer after a quarter of the delay. There is one schedule per
//! interface, and the latest query owns it.

use vstd::prelude::*;
use crate::address::Ipv6Address;
use crate::device::Delivery;
use crate::table::GroupTable;
use crate::time::{later, Duration, Instant};

verus! {

/// A multicast listener message, as far as the schedule reads it.
#[derive(Clone, Copy, Debug, PartialEq, Eq, Structural)]
pub enum MldRepr {
    /// A query: the longest delay it allows for an answer, the group it asks
    /// about (the unspecified address asks about all), and the number of
    /// sources it names.
    Query { max_response_delay: Duration, mcast_addr: Ipv6Address, num_srcs: u16 },
    /// A listener's report, which asks for no answer.
    Report,
}

/// The report that an interface owes, if any.
#[derive(Clone, Copy, Debug, PartialEq, Eq, Structural)]
pub enum MldReportState {
    /// Nothing is owed.
    Inactive,
    /// Every joined group is owed a report: the group at `next_index` once
    /// the clock reaches `timeout`, the one after it `interval` later.
    ToGeneralQuery { timeout: Instant, interval: Duration, next_index: usize },
    /// One report for `address` is owed once the clock reaches `timeout`.
    ToSpecificQuery { timeout: Instant, address: Ipv6Address },
}

/// The mathematical form of [`MldReportState`]: times are integers of
/// microseconds without an upper end, positions are natural numbers.
pub enum Schedule {
    Inactive,
    ToGeneralQuery { timeout: int, interval: int, next_index: nat },
    ToSpecificQuery { timeout: int, address: Ipv6Address },
}

impl View for MldReportState {
    type V = Schedule;

    open spec fn view(&self) -> Schedule {
        match *self {
            MldReportState::Inactive => Schedule::Inactive,
            MldReportState::ToGeneralQuery { timeout, interval, next_index } => Schedule::ToGeneralQuery {
                timeout: timeout@,
                interval: interval@,
                next_index: next_index as nat,
            },
            MldReportState::ToSpecificQuery { timeout, address } => Schedule::ToSpecificQuery {
                timeout: timeout@,
                address,
            },
        }
    }
}

/// The schedule after `message` has arrived at `now` on an interface with
/// `group_count` joined groups and the schedule `current`.
///
/// A query that names no source replaces the schedule, whatever it was. One
/// for the unspecified address is a general query: the delay is cut into one
/// share per joined group and one more, and the walk over the groups starts
/// one share from now. One for a group is answered a quarter of the delay
/// from now. A query that names sources, and a message that is no query,
/// leave the schedule alone.
pub open spec fn schedule_after(message: MldRepr, current: Schedule, now: int, group_count: nat) -> Schedule {
    match message {
        MldRepr::Query { max_response_delay, mcast_addr, num_srcs } => {
            if num_srcs != 0 {
                current
            } else if mcast_addr.is_unspecified() {
                let interval = max_response_delay@ / (group_count as int + 1);
                Schedule::ToGeneralQuery { timeout: now + interval, interval, next_index: 0 }
            } else {
                Schedule::ToSpecificQuery { timeout: now + max_response_delay@ / 4, address: mcast_addr }
            }
        },
        MldRepr::Report => current,
    }
}

/// The group whose report is due at `now`, if one is: the group of a query
/// for one group, or the group at which the walk of a general query stands,
/// once the timeout has been reached.
pub open spec fn report_due(schedule: Schedule, now: int, groups: Seq<Ipv6Address>) -> Option<Ipv6Address> {
    match schedule {
        Schedule::Inactive => None,
        Schedule::ToGeneralQuery { timeout, interval, next_index } => {
            if now >= timeout && next_index < groups.len() {
                Some(groups[next_index as int])
            } else {
                None
            }
        },
        Schedule::ToSpecificQuery { timeout, address } => {
            if now >= timeout {
                Some(address)
            } else {
                None
            }
        },
    }
}

/// The schedule after a tick at `now`, and whether the tick did any work,
/// where `delivery` says how the attempt to send the due report ended.
///
/// Before the timeout nothing happens. A due report that the link could not
/// take leaves the schedule as it was, to be tried again. Otherwise the
/// report counts as made, whether or not there was anything to send: the
/// answer to a query for one group is then complete, and the walk of a
/// general query moves to the next group, due one interval after the last
/// timeout but not before `now`. A walk that finds no group at its position
/// has come to its end: the schedule falls back to inactive, with no work
/// done.
pub open spec fn after_tick(schedule: Schedule, now: int, groups: Seq<Ipv6Address>, delivery: Delivery) -> (
    Schedule,
    bool,
) {
    match schedule {
        Schedule::Inactive => (schedule, false),
        Schedule::ToGeneralQuery { timeout, interval, next_index } => {
            if now < timeout {
                (schedule, false)
            } else if next_index >= groups.len() {
                (Schedule::Inactive, false)
            } else if delivery == Delivery::Exhausted {
                (schedule, false)
            } else {
                (
                    Schedule::ToGeneralQuery {
                        timeout: later(timeout + interval, now),
                        interval,
                        next_index: next_index + 1,
                    },
                    true,
                )
            }
        },
        Schedule::ToSpecificQuery { timeout, address } => {
            if now < timeout || delivery == Delivery::Exhausted {
                (schedule, false)
            } else {
                (Schedule::Inactive, true)
            }
        },
    }
}

/// Whether the clock can hold the timeout of `schedule`.
pub open spec fn timeout_in_range(schedule: Schedule) -> bool {
    match schedule {
        Schedule::Inactive => true,
        Schedule::ToGeneralQuery { timeout, .. } => timeout <= u64::MAX,
        Schedule::ToSpecificQuery { timeout, .. } => timeout <= u64::MAX,
    }
}

/// The schedule after the ticks `ticks`, taken in order, each given by its
/// time and by how the attempt to send the due report ended.
pub open spec fn after_ticks(schedule: Schedule, groups: Seq<Ipv6Address>, ticks: Seq<(int, Delivery)>) -> Schedule
    decreases ticks.len(),
{
    if ticks.len() == 0 {
        schedule
    } else {
        after_tick(after_ticks(schedule, groups, ticks.drop_last()), ticks.last().0, groups, ticks.last().1).0
    }
}

/// Whether the ticks `ticks` come at least `interval` apart, the first of
/// them no earlier than `first_due`, and none of them finds the link
/// exhausted.
pub open spec fn ticks_keep_pace(ticks: Seq<(int, Delivery)>, first_due: int, interval: int) -> bool {
    forall|i: int|
        0 <= i < ticks.len() ==> {
            &&& (#[trigger] ticks[i]).0 >= (if i == 0 {
                first_due
            } else {
                ticks[i - 1].0 + interval
            })
            &&& ticks[i].1 != Delivery::Exhausted
        }
}

/// The earliest time that keeps pace after the ticks `ticks`.
pub open spec fn next_due(ticks: Seq<(int, Delivery)>, first_due: int, interval: int) -> int {
    if ticks.len() == 0 {
        first_due
    } else {
        ticks.last().0 + interval
    }
}

/// The latest query owns the schedule: what a query that names no source
/// leaves behind does not depend on the schedule that it found, be it
/// inactive, waiting or in the middle of a walk.
pub proof fn lemma_query_replaces_schedule(
    query: MldRepr,
    found: Schedule,
    other: Schedule,
    now: int,
    group_count: nat,
)
    requires
        query matches MldRepr::Query { num_srcs, .. } && num_srcs == 0,
    ensures
        schedule_after(query, found, now, group_count) == schedule_after(query, other, now, group_count),
        schedule_after(query, found, now, group_count) !is Inactive,
{
}

/// A query that names sources, and a message that is no query, leave the
/// schedule as they found it.
pub proof fn lemma_other_messages_keep_schedule(message: MldRepr, found: Schedule, now: int, group_count: nat)
    requires
        message matches MldRepr::Query { num_srcs, .. } ==> num_srcs != 0,
    ensures
        schedule_after(message, found, now, group_count) == found,
{
}

/// A query for one group is answered a quarter of its delay after it
/// arrived: a tick before that time finds no report due and changes
/// nothing, however the link stands.
pub proof fn lemma_specific_query_timing(
    found: Schedule,
    max_response_delay: Duration,
    address: Ipv6Address,
    now: int,
    group_count: nat,
    groups: Seq<Ipv6Address>,
    tick: int,
    delivery: Delivery,
)
    requires
        !address.is_unspecified(),
    ensures
        ({
            let query = MldRepr::Query { max_response_delay, mcast_addr: address, num_srcs: 0 };
            let schedule = schedule_after(query, found, now, group_count);
            &&& schedule == Schedule::ToSpecificQuery { timeout: now + max_response_delay@ / 4, address }
            &&& tick < now + max_response_delay@ / 4 ==> report_due(schedule, tick, groups) is None && after_tick(
                schedule,
                tick,
                groups,
                delivery,
            ) == (schedule, false)
            &&& tick >= now + max_response_delay@ / 4 ==> report_due(schedule, tick, groups) == Some(address)
        }),
{
}

/// No tick changes anything before the timeout, and none does on an
/// inactive schedule.
pub proof fn lemma_early_tick_is_idle(schedule: Schedule, now: int, groups: Seq<Ipv6Address>, delivery: Delivery)
    requires
        match schedule {
            Schedule::Inactive => true,
            Schedule::ToGeneralQuery { timeout, .. } => now < timeout,
            Schedule::ToSpecificQuery { timeout, .. } => now < timeout,
        },
    ensures
        report_due(schedule, now, groups) is None,
        after_tick(schedule, now, groups, delivery) == (schedule, false),
{
}

/// A due report that the link cannot take is tried again: the tick leaves
/// the schedule as it was and reports no work, and a tick at the same time
/// that finds the link ready completes the report, which ends the answer to
/// a query for one group and moves the walk of a general query on by one
/// group.
pub proof fn lemma_exhausted_tick_is_retried(
    schedule: Schedule,
    now: int,
    groups: Seq<Ipv6Address>,
    retry: Delivery,
)
    requires
        report_due(schedule, now, groups) is Some,
        retry != Delivery::Exhausted,
    ensures
        after_tick(schedule, now, groups, Delivery::Exhausted) == (schedule, false),
        ({
            let retried = after_tick(after_tick(schedule, now, groups, Delivery::Exhausted).0, now, groups, retry);
            &&& retried.1
            &&& retried.0 == (match schedule {
                Schedule::ToGeneralQuery { timeout, interval, next_index } => Schedule::ToGeneralQuery {
                    timeout: later(timeout + interval, now),
                    interval,
                    next_index: next_index + 1,
                },
                _ => Schedule::Inactive,
            })
        }),
{
}

/// The timeout of a walk never falls behind the tick that moved it.
pub proof fn lemma_walk_timeout_keeps_up(schedule: Schedule, now: int, groups: Seq<Ipv6Address>, delivery: Delivery)
    requires
        after_tick(schedule, now, groups, delivery).1,
    ensures
        after_tick(schedule, now, groups, delivery).0 matches Schedule::ToGeneralQuery { timeout, .. } ==> timeout
            >= now,
{
}

/// Where a general walk stands after ticks that keep pace: at the group
/// after the last one reported, with a timeout that the next tick in pace
/// has reached.
proof fn lemma_walk_position(
    start: int,
    interval: int,
    groups: Seq<Ipv6Address>,
    ticks: Seq<(int, Delivery)>,
)
    requires
        0 <= interval,
        ticks.len() <= groups.len(),
        ticks_keep_pace(ticks, start + interval, interval),
    ensures
        ({
            let first = Schedule::ToGeneralQuery { timeout: start + interval, interval, next_index: 0 };
            &&& after_ticks(first, groups, ticks) matches Schedule::ToGeneralQuery {
                timeout,
                interval: pace,
                next_index,
            }
            &&& pace == interval
            &&& next_index == ticks.len()
            &&& timeout <= next_due(ticks, start + interval, interval)
        }),
    decreases ticks.len(),
{
    if ticks.len() > 0 {
        let earlier = ticks.drop_last();
        assert forall|i: int| 0 <= i < earlier.len() implies {
            &&& (#[trigger] earlier[i]).0 >= (if i == 0 {
                start + interval
            } else {
                earlier[i - 1].0 + interval
            })
            &&& earlier[i].1 != Delivery::Exhausted
        } by {
            assert(earlier[i] == ticks[i]);
            if i > 0 {
                assert(earlier[i - 1] == ticks[i - 1]);
            }
        }
        lemma_walk_position(start, interval, groups, earlier);
        let last = ticks.len() - 1;
        assert(ticks.last() == ticks[last]);
        if last > 0 {
            assert(earlier.last() == ticks[last - 1]);
        }
    }
}

/// A general query is answered by one report per joined group, in the
/// order of the table.
///
/// On an interface with the groups `groups`, a general query that arrives
/// at `now` and allows the delay `max_response_delay` cuts the delay into
/// one share per group and one more, and sets the first report one share
/// from `now`. If the ticks that follow come at least one share apart, the
/// first of them no earlier than that first timeout, and none finds the
/// link exhausted, then the tick at position `k` finds the report of the
/// group at position `k` due and does work, so that after as many ticks as
/// there are groups each group has had its report exactly once. The tick
/// after those, if it keeps pace too, finds no group left: it returns the
/// schedule to inactive and does no work.
pub proof fn lemma_general_query_walk(
    found: Schedule,
    max_response_delay: Duration,
    now: int,
    groups: Seq<Ipv6Address>,
    ticks: Seq<(int, Delivery)>,
)
    requires
        ticks.len() <= groups.len(),
        ticks_keep_pace(
            ticks,
            now + max_response_delay@ / (groups.len() as int + 1),
            max_response_delay@ / (groups.len() as int + 1),
        ),
    ensures
        ({
            let interval = max_response_delay@ / (groups.len() as int + 1);
            let query = MldRepr::Query {
                max_response_delay,
                mcast_addr: Ipv6Address { bits: 0 },
                num_srcs: 0,
            };
            let first = schedule_after(query, found, now, groups.len());
            &&& first == Schedule::ToGeneralQuery { timeout: now + interval, interval, next_index: 0 }
            &&& forall|k: int|
                #![trigger ticks[k]]
                0 <= k < ticks.len() ==> {
                    let before = after_ticks(first, groups, ticks.take(k));
                    &&& report_due(before, ticks[k].0, groups) == Some(groups[k])
                    &&& after_tick(before, ticks[k].0, groups, ticks[k].1).1
                }
            &&& after_ticks(first, groups, ticks) matches Schedule::ToGeneralQuery { next_index, .. }
            &&& next_index == ticks.len()
            &&& ticks.len() == groups.len() ==> forall|tick: int, delivery: Delivery|
                tick >= next_due(ticks, now + interval, interval) ==> #[trigger] after_tick(
                    after_ticks(first, groups, ticks),
                    tick,
                    groups,
                    delivery,
                ) == (Schedule::Inactive, false)
        }),
{
    let interval = max_response_delay@ / (groups.len() as int + 1);
    assert(0 <= interval) by (nonlinear_arith)
        requires
            0 <= max_response_delay@,
            interval == max_response_delay@ / (groups.len() as int + 1),
            0 < groups.len() + 1,
    ;
    let first = Schedule::ToGeneralQuery { timeout: now + interval, interval, next_index: 0 };
    assert forall|k: int| 0 <= k < ticks.len() implies {
        let before = after_ticks(first, groups, ticks.take(k));
        &&& report_due(before, (#[trigger] ticks[k]).0, groups) == Some(groups[k])
        &&& after_tick(before, ticks[k].0, groups, ticks[k].1).1
    } by {
        let earlier = ticks.take(k);
        assert forall|i: int| 0 <= i < earlier.len() implies {
            &&& (#[trigger] earlier[i]).0 >= (if i == 0 {
                now + interval
            } else {
                earlier[i - 1].0 + interval
            })
            &&& earlier[i].1 != Delivery::Exhausted
        } by {
            assert(earlier[i] == ticks[i]);
            if i > 0 {
                assert(earlier[i - 1] == ticks[i - 1]);
            }
        }
        lemma_walk_position(now, interval, groups, earlier);
        if k > 0 {
            assert(earlier.last() == ticks[k - 1]);
        }
    }
    lemma_walk_position(now, interval, groups, ticks);
}

impl MldReportState {
    /// The group whose report is due at `now`, if one is.
    pub fn due(&self, now: Instant, groups: &GroupTable<Ipv6Address>) -> (group: Option<Ipv6Address>)
        ensures
            group == report_due(self@, now@, groups@),
    {
        match *self {
            MldReportState::Inactive => None,
            MldReportState::ToGeneralQuery { timeout, interval, next_index } => {
                if now.has_reached(timeout) {
                    groups.nth(next_index)
                } else {
                    None
                }
            },
            MldReportState::ToSpecificQuery { timeout, address } => {
                if now.has_reached(timeout) {
                    Some(address)
                } else {
                    None
                }
            },
        }
    }

    /// The report state after a tick at `now`, and whether the tick did any
    /// work, where `delivery` says how the attempt to send the due report
    /// ended. Where no report was due, `delivery` has no say. The timeout
    /// that results must be one that the clock can hold.
    pub fn after_delivery(self, now: Instant, groups: &GroupTable<Ipv6Address>, delivery: Delivery) -> (next: (
        MldReportState,
        bool,
    ))
        requires
            timeout_in_range(after_tick(self@, now@, groups@, delivery).0),
        ensures
            next.0@ == after_tick(self@, now@, groups@, delivery).0,
            next.1 == after_tick(self@, now@, groups@, delivery).1,
    {
        match self {
            MldReportState::Inactive => (self, false),
            MldReportState::ToGeneralQuery { timeout, interval, next_index } => {
                if !now.has_reached(timeout) {
                    (self, false)
                } else if next_index >= groups.len() {
                    // The walk has run past the last group.
                    (MldReportState::Inactive, false)
                } else {
                    match delivery {
                        Delivery::Exhausted => (self, false),
                        _ => {
                            let next_timeout = timeout.plus(interval).later_of(now);
                            (
                                MldReportState::ToGeneralQuery {
                                    timeout: next_timeout,
                                    interval,
                                    next_index: next_index + 1,
                                },
                                true,
                            )
                        },
                    }
                }
            },
            MldReportState::ToSpecificQuery { timeout, address } => {
                if !now.has_reached(timeout) {
                    (self, false)
                } else {
                    match delivery {
                        Delivery::Exhausted => (self, false),
                        _ => (MldReportState::Inactive, true),
                    }
                }
            },
        }
    }
}

} // verus!
