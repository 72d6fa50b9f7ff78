use multicast_membership::address::{Ipv4Address, Ipv6Address};
use multicast_membership::device::{Delivery, Device};
use multicast_membership::interface::Interface;
use multicast_membership::schedule::{MldRepr, MldReportState};
use multicast_membership::table::GroupTable;
use multicast_membership::time::{Duration, Instant};

struct Token;

/// A link that records the listener reports it carries.
struct Link {
    builds: bool,
    ready: bool,
    transmit_calls: Vec<Instant>,
    sent: Vec<Ipv6Address>,
}

impl Link {
    fn new() -> Link {
        Link { builds: true, ready: true, transmit_calls: Vec::new(), sent: Vec::new() }
    }

    fn exhausted() -> Link {
        Link { ready: false, ..Link::new() }
    }

    fn silent() -> Link {
        Link { builds: false, ..Link::new() }
    }
}

impl Device for Link {
    type Packet = Ipv6Address;
    type TxToken = Token;

    fn igmp_report_packet(&self, _group_addr: Ipv4Address) -> Option<Ipv6Address> {
        None
    }

    fn igmp_leave_packet(&self, _group_addr: Ipv4Address) -> Option<Ipv6Address> {
        None
    }

    fn mldv2_listener_join_packet(&self, group_addr: Ipv6Address) -> Option<Ipv6Address> {
        if self.builds { Some(group_addr) } else { None }
    }

    fn transmit(&mut self, timestamp: Instant) -> Option<Token> {
        self.transmit_calls.push(timestamp);
        if self.ready { Some(Token) } else { None }
    }

    fn dispatch_ip(&mut self, _tx_token: Token, packet: Ipv6Address) {
        self.sent.push(packet);
    }
}

fn ms(millis: u64) -> Instant {
    Instant::from_millis(millis)
}

fn span(millis: u64) -> Duration {
    Duration::from_millis(millis)
}

fn group(last: u16) -> Ipv6Address {
    Ipv6Address::from_bits(0xff02 << 112 | last as u128)
}

fn unspecified() -> Ipv6Address {
    Ipv6Address::from_bits(0)
}

fn general_query(delay: u64) -> MldRepr {
    MldRepr::Query { max_response_delay: span(delay), mcast_addr: unspecified(), num_srcs: 0 }
}

fn specific_query(delay: u64, addr: Ipv6Address) -> MldRepr {
    MldRepr::Query { max_response_delay: span(delay), mcast_addr: addr, num_srcs: 0 }
}

fn general(timeout: u64, interval: u64, next_index: usize) -> MldReportState {
    MldReportState::ToGeneralQuery { timeout: ms(timeout), interval: span(interval), next_index }
}

fn specific(timeout: u64, address: Ipv6Address) -> MldReportState {
    MldReportState::ToSpecificQuery { timeout: ms(timeout), address }
}

fn interface_with(capacity: usize, groups: &[Ipv6Address]) -> Interface {
    let mut iface = Interface::new(capacity, ms(0));
    for addr in groups {
        iface.inner.ipv6_multicast_groups.insert(*addr).unwrap();
    }
    iface
}

fn tick(iface: &mut Interface, link: &mut Link, now: Instant) -> bool {
    iface.inner.now = now;
    iface.mld_egress(link)
}

#[test]
fn general_query_cuts_delay_into_shares() {
    let mut iface = interface_with(4, &[group(1), group(2)]);
    iface.inner.now = ms(500);
    iface.inner.process_mld(general_query(3000));
    assert_eq!(iface.inner.mld_report_state, general(1500, 1000, 0));
    assert_eq!(iface.inner.now, ms(500));
    assert_eq!(iface.inner.ipv6_multicast_groups.addresses(), vec![group(1), group(2)]);
}

#[test]
fn general_query_without_groups_takes_whole_delay() {
    let mut iface = interface_with(4, &[]);
    iface.inner.now = ms(10);
    iface.inner.process_mld(general_query(3000));
    assert_eq!(iface.inner.mld_report_state, general(3010, 3000, 0));
}

#[test]
fn general_query_share_rounds_down() {
    let mut iface = interface_with(4, &[group(1), group(2)]);
    iface.inner.process_mld(MldRepr::Query {
        max_response_delay: Duration::from_micros(1000),
        mcast_addr: unspecified(),
        num_srcs: 0,
    });
    assert_eq!(
        iface.inner.mld_report_state,
        MldReportState::ToGeneralQuery {
            timeout: Instant::from_micros(333),
            interval: Duration::from_micros(333),
            next_index: 0,
        }
    );
}

#[test]
fn specific_query_waits_a_quarter_of_the_delay() {
    let mut iface = interface_with(4, &[group(1)]);
    iface.inner.now = ms(100);
    iface.inner.process_mld(specific_query(1000, group(1)));
    assert_eq!(iface.inner.mld_report_state, specific(350, group(1)));
}

#[test]
fn specific_query_quarter_rounds_down() {
    let mut iface = interface_with(4, &[]);
    iface.inner.process_mld(MldRepr::Query {
        max_response_delay: Duration::from_micros(1003),
        mcast_addr: group(1),
        num_srcs: 0,
    });
    assert_eq!(
        iface.inner.mld_report_state,
        MldReportState::ToSpecificQuery { timeout: Instant::from_micros(250), address: group(1) }
    );
}

#[test]
fn query_with_sources_is_ignored() {
    let mut iface = interface_with(4, &[group(1)]);
    iface.inner.process_mld(MldRepr::Query { max_response_delay: span(1000), mcast_addr: group(1), num_srcs: 1 });
    assert_eq!(iface.inner.mld_report_state, MldReportState::Inactive);
    iface.inner.process_mld(MldRepr::Query { max_response_delay: span(1000), mcast_addr: unspecified(), num_srcs: 3 });
    assert_eq!(iface.inner.mld_report_state, MldReportState::Inactive);
    iface.inner.mld_report_state = general(700, 100, 1);
    iface.inner.process_mld(MldRepr::Query { max_response_delay: span(1000), mcast_addr: group(1), num_srcs: 2 });
    assert_eq!(iface.inner.mld_report_state, general(700, 100, 1));
}

#[test]
fn report_is_ignored() {
    let mut iface = interface_with(4, &[group(1)]);
    iface.inner.process_mld(MldRepr::Report);
    assert_eq!(iface.inner.mld_report_state, MldReportState::Inactive);
    iface.inner.mld_report_state = specific(700, group(1));
    iface.inner.process_mld(MldRepr::Report);
    assert_eq!(iface.inner.mld_report_state, specific(700, group(1)));
}

#[test]
fn later_query_replaces_schedule() {
    let mut iface = interface_with(4, &[group(1), group(2), group(3)]);
    let mut link = Link::new();
    iface.inner.process_mld(general_query(4000));
    assert!(tick(&mut iface, &mut link, ms(1000)));
    assert_eq!(iface.inner.mld_report_state, general(2000, 1000, 1));
    iface.inner.process_mld(specific_query(400, group(3)));
    assert_eq!(iface.inner.mld_report_state, specific(1100, group(3)));
    iface.inner.process_mld(general_query(8000));
    assert_eq!(iface.inner.mld_report_state, general(3000, 2000, 0));
    iface.inner.process_mld(specific_query(800, group(2)));
    iface.inner.process_mld(specific_query(400, group(1)));
    assert_eq!(iface.inner.mld_report_state, specific(1100, group(1)));
}

#[test]
fn tick_on_inactive_schedule_does_nothing() {
    let mut iface = interface_with(4, &[group(1)]);
    let mut link = Link::new();
    assert!(!tick(&mut iface, &mut link, ms(1000)));
    assert_eq!(iface.inner.mld_report_state, MldReportState::Inactive);
    assert!(link.transmit_calls.is_empty());
    assert!(link.sent.is_empty());
}

#[test]
fn tick_before_timeout_does_nothing() {
    let mut iface = interface_with(4, &[group(1)]);
    let mut link = Link::new();
    iface.inner.process_mld(specific_query(1000, group(1)));
    assert!(!tick(&mut iface, &mut link, ms(0)));
    assert!(!tick(&mut iface, &mut link, Instant::from_micros(249_999)));
    assert_eq!(iface.inner.mld_report_state, specific(250, group(1)));
    assert!(link.transmit_calls.is_empty());
    assert!(link.sent.is_empty());
    iface.inner.process_mld(general_query(1000));
    assert!(!tick(&mut iface, &mut link, Instant::from_micros(249_999 + 499_999)));
    assert_eq!(
        iface.inner.mld_report_state,
        MldReportState::ToGeneralQuery {
            timeout: Instant::from_micros(749_999),
            interval: span(500),
            next_index: 0,
        }
    );
    assert!(link.transmit_calls.is_empty());
}

#[test]
fn specific_report_is_sent_at_timeout() {
    let mut iface = interface_with(4, &[group(1)]);
    let mut link = Link::new();
    iface.inner.process_mld(specific_query(1000, group(1)));
    assert!(tick(&mut iface, &mut link, ms(250)));
    assert_eq!(iface.inner.mld_report_state, MldReportState::Inactive);
    assert_eq!(link.sent, vec![group(1)]);
    assert_eq!(link.transmit_calls, vec![ms(250)]);
    assert!(!tick(&mut iface, &mut link, ms(251)));
    assert_eq!(link.sent, vec![group(1)]);
}

#[test]
fn specific_report_for_a_group_not_joined_is_the_builders_to_decline() {
    let mut iface = interface_with(4, &[group(1)]);
    let mut link = Link::silent();
    iface.inner.process_mld(specific_query(1000, group(9)));
    assert!(tick(&mut iface, &mut link, ms(300)));
    assert_eq!(iface.inner.mld_report_state, MldReportState::Inactive);
    assert!(link.sent.is_empty());
    assert!(link.transmit_calls.is_empty());
}

#[test]
fn exhausted_specific_report_is_retried() {
    let mut iface = interface_with(4, &[group(1)]);
    iface.inner.process_mld(specific_query(1000, group(1)));
    let mut busy = Link::exhausted();
    assert!(!tick(&mut iface, &mut busy, ms(250)));
    assert_eq!(iface.inner.mld_report_state, specific(250, group(1)));
    assert_eq!(busy.transmit_calls, vec![ms(250)]);
    assert!(busy.sent.is_empty());
    let mut link = Link::new();
    assert!(tick(&mut iface, &mut link, ms(250)));
    assert_eq!(iface.inner.mld_report_state, MldReportState::Inactive);
    assert_eq!(link.sent, vec![group(1)]);
}

#[test]
fn exhausted_general_report_is_retried_at_the_same_position() {
    let mut iface = interface_with(4, &[group(1), group(2)]);
    iface.inner.process_mld(general_query(3000));
    let mut link = Link::new();
    assert!(tick(&mut iface, &mut link, ms(1000)));
    let mut busy = Link::exhausted();
    assert!(!tick(&mut iface, &mut busy, ms(2000)));
    assert!(!tick(&mut iface, &mut busy, ms(2000)));
    assert_eq!(iface.inner.mld_report_state, general(2000, 1000, 1));
    assert_eq!(busy.transmit_calls, vec![ms(2000), ms(2000)]);
    assert!(busy.sent.is_empty());
    assert!(tick(&mut iface, &mut link, ms(2000)));
    assert_eq!(iface.inner.mld_report_state, general(3000, 1000, 2));
    assert_eq!(link.sent, vec![group(1), group(2)]);
}

#[test]
fn general_query_walks_the_table_in_order() {
    let groups = [group(5), group(3), group(8)];
    let mut iface = interface_with(4, &groups);
    let mut link = Link::new();
    iface.inner.now = ms(100);
    iface.inner.process_mld(general_query(4000));
    assert_eq!(iface.inner.mld_report_state, general(1100, 1000, 0));
    assert!(tick(&mut iface, &mut link, ms(1100)));
    assert_eq!(iface.inner.mld_report_state, general(2100, 1000, 1));
    assert!(tick(&mut iface, &mut link, ms(2100)));
    assert_eq!(iface.inner.mld_report_state, general(3100, 1000, 2));
    assert!(tick(&mut iface, &mut link, ms(3100)));
    assert_eq!(iface.inner.mld_report_state, general(4100, 1000, 3));
    assert_eq!(link.sent, groups.to_vec());
    assert_eq!(link.transmit_calls, vec![ms(1100), ms(2100), ms(3100)]);
    assert!(!tick(&mut iface, &mut link, ms(4100)));
    assert_eq!(iface.inner.mld_report_state, MldReportState::Inactive);
    assert_eq!(link.sent, groups.to_vec());
    assert_eq!(link.transmit_calls.len(), 3);
}

#[test]
fn general_walk_for_two_groups() {
    let a = group(1);
    let b = group(2);
    let mut iface = interface_with(2, &[a, b]);
    let mut link = Link::new();
    iface.inner.process_mld(general_query(3000));
    assert_eq!(iface.inner.mld_report_state, general(1000, 1000, 0));
    assert!(tick(&mut iface, &mut link, ms(1000)));
    assert_eq!(link.sent, vec![a]);
    assert_eq!(iface.inner.mld_report_state, general(2000, 1000, 1));
    assert!(tick(&mut iface, &mut link, ms(2000)));
    assert_eq!(link.sent, vec![a, b]);
    assert_eq!(iface.inner.mld_report_state, general(3000, 1000, 2));
    assert!(!tick(&mut iface, &mut link, ms(2000)));
    assert_eq!(iface.inner.mld_report_state, general(3000, 1000, 2));
    assert_eq!(link.sent, vec![a, b]);
    assert!(!tick(&mut iface, &mut link, ms(3000)));
    assert_eq!(iface.inner.mld_report_state, MldReportState::Inactive);
    assert!(!tick(&mut iface, &mut link, ms(3000)));
    assert_eq!(link.sent, vec![a, b]);
    assert_eq!(link.transmit_calls, vec![ms(1000), ms(2000)]);
}

#[test]
fn general_walk_counts_a_declined_report_as_made() {
    let mut iface = interface_with(4, &[group(1), group(2)]);
    iface.inner.process_mld(general_query(3000));
    let mut silent = Link::silent();
    assert!(tick(&mut iface, &mut silent, ms(1000)));
    assert_eq!(iface.inner.mld_report_state, general(2000, 1000, 1));
    assert!(silent.transmit_calls.is_empty());
    let mut link = Link::new();
    assert!(tick(&mut iface, &mut link, ms(2000)));
    assert_eq!(link.sent, vec![group(2)]);
}

#[test]
fn general_walk_timeout_never_falls_behind_the_clock() {
    let mut iface = interface_with(4, &[group(1), group(2), group(3)]);
    let mut link = Link::new();
    iface.inner.process_mld(general_query(4000));
    assert!(tick(&mut iface, &mut link, ms(5500)));
    assert_eq!(iface.inner.mld_report_state, general(5500, 1000, 1));
    assert!(tick(&mut iface, &mut link, ms(5500)));
    assert_eq!(iface.inner.mld_report_state, general(6500, 1000, 2));
    assert!(!tick(&mut iface, &mut link, ms(5500)));
    assert!(tick(&mut iface, &mut link, ms(6500)));
    assert_eq!(iface.inner.mld_report_state, general(7500, 1000, 3));
    assert_eq!(link.sent, vec![group(1), group(2), group(3)]);
}

#[test]
fn general_walk_over_an_empty_table_ends_at_once() {
    let mut iface = interface_with(4, &[]);
    let mut link = Link::exhausted();
    iface.inner.process_mld(general_query(1000));
    assert!(!tick(&mut iface, &mut link, ms(999)));
    assert_eq!(iface.inner.mld_report_state, general(1000, 1000, 0));
    assert!(!tick(&mut iface, &mut link, ms(1000)));
    assert_eq!(iface.inner.mld_report_state, MldReportState::Inactive);
    assert!(link.transmit_calls.is_empty());
}

#[test]
fn general_walk_goes_by_position_when_the_table_changes() {
    let mut iface = interface_with(4, &[group(1), group(2), group(3)]);
    let mut link = Link::new();
    iface.inner.process_mld(general_query(4000));
    assert!(tick(&mut iface, &mut link, ms(1000)));
    assert!(iface.inner.ipv6_multicast_groups.remove(&group(1)));
    assert!(tick(&mut iface, &mut link, ms(2000)));
    assert_eq!(link.sent, vec![group(1), group(3)]);
    assert_eq!(iface.inner.mld_report_state, general(3000, 1000, 2));
    assert!(!tick(&mut iface, &mut link, ms(3000)));
    assert_eq!(iface.inner.mld_report_state, MldReportState::Inactive);
}

#[test]
fn tick_changes_nothing_but_the_schedule() {
    let mut iface = interface_with(4, &[group(1)]);
    let mut link = Link::new();
    iface.inner.ipv4_multicast_groups.insert(Ipv4Address::new(224, 0, 0, 1)).unwrap();
    iface.inner.process_mld(general_query(1000));
    assert!(tick(&mut iface, &mut link, ms(500)));
    assert_eq!(iface.inner.now, ms(500));
    assert_eq!(iface.inner.ipv6_multicast_groups.addresses(), vec![group(1)]);
    assert_eq!(iface.inner.ipv4_multicast_groups.addresses(), vec![Ipv4Address::new(224, 0, 0, 1)]);
}

#[test]
fn due_report_of_each_state() {
    let mut table: GroupTable<Ipv6Address> = GroupTable::new(2);
    table.insert(group(1)).unwrap();
    table.insert(group(2)).unwrap();
    assert_eq!(MldReportState::Inactive.due(ms(5), &table), None);
    assert_eq!(specific(5, group(7)).due(ms(4), &table), None);
    assert_eq!(specific(5, group(7)).due(ms(5), &table), Some(group(7)));
    assert_eq!(general(5, 1, 0).due(ms(4), &table), None);
    assert_eq!(general(5, 1, 0).due(ms(5), &table), Some(group(1)));
    assert_eq!(general(5, 1, 1).due(ms(6), &table), Some(group(2)));
    assert_eq!(general(5, 1, 2).due(ms(6), &table), None);
}

#[test]
fn after_delivery_of_each_state() {
    let mut table: GroupTable<Ipv6Address> = GroupTable::new(2);
    table.insert(group(1)).unwrap();
    let idle = MldReportState::Inactive;
    assert_eq!(idle.after_delivery(ms(5), &table, Delivery::Sent), (idle, false));
    let one = specific(5, group(7));
    assert_eq!(one.after_delivery(ms(4), &table, Delivery::Sent), (one, false));
    assert_eq!(one.after_delivery(ms(5), &table, Delivery::Sent), (idle, true));
    assert_eq!(one.after_delivery(ms(5), &table, Delivery::NothingToSend), (idle, true));
    assert_eq!(one.after_delivery(ms(5), &table, Delivery::Exhausted), (one, false));
    let walk = general(5, 2, 0);
    assert_eq!(walk.after_delivery(ms(4), &table, Delivery::Sent), (walk, false));
    assert_eq!(walk.after_delivery(ms(5), &table, Delivery::Sent), (general(7, 2, 1), true));
    assert_eq!(walk.after_delivery(ms(6), &table, Delivery::NothingToSend), (general(7, 2, 1), true));
    assert_eq!(walk.after_delivery(ms(9), &table, Delivery::Sent), (general(9, 2, 1), true));
    assert_eq!(walk.after_delivery(ms(5), &table, Delivery::Exhausted), (walk, false));
    let done = general(5, 2, 1);
    assert_eq!(done.after_delivery(ms(5), &table, Delivery::Sent), (idle, false));
    assert_eq!(done.after_delivery(ms(5), &table, Delivery::Exhausted), (idle, false));
    assert_eq!(done.after_delivery(ms(4), &table, Delivery::Sent), (done, false));
}
