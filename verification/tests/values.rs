use multicast_membership::address::{GroupAddress, IpAddress, Ipv4Address, Ipv6Address};
use multicast_membership::time::{Duration, Instant};

#[test]
fn ipv4_address_from_octets() {
    assert_eq!(Ipv4Address::new(224, 0, 0, 251).bits, 0xe000_00fb);
    assert_eq!(Ipv4Address::new(0, 0, 0, 0).bits, 0);
    assert_eq!(Ipv4Address::new(255, 255, 255, 255).bits, u32::MAX);
    assert_eq!(Ipv4Address::new(1, 2, 3, 4), Ipv4Address::from_bits(0x0102_0304));
}

#[test]
fn ipv6_unspecified_address() {
    assert!(Ipv6Address::from_bits(0).is_unspecified());
    assert!(!Ipv6Address::from_bits(1).is_unspecified());
    assert!(!Ipv6Address::from_bits(1 << 127).is_unspecified());
    assert_eq!(Ipv6Address::from_bits(77).bits, 77);
}

#[test]
fn addresses_are_told_apart() {
    assert!(Ipv4Address::new(224, 0, 0, 1).same_as(&Ipv4Address::new(224, 0, 0, 1)));
    assert!(!Ipv4Address::new(224, 0, 0, 1).same_as(&Ipv4Address::new(224, 0, 0, 2)));
    assert!(Ipv6Address::from_bits(5).same_as(&Ipv6Address::from_bits(5)));
    assert!(!Ipv6Address::from_bits(5).same_as(&Ipv6Address::from_bits(1 << 64 | 5)));
}

#[test]
fn ip_address_from_either_family() {
    let v4 = Ipv4Address::new(224, 0, 0, 1);
    let v6 = Ipv6Address::from_bits(9);
    assert_eq!(IpAddress::from(v4), IpAddress::Ipv4(v4));
    assert_eq!(IpAddress::from(v6), IpAddress::Ipv6(v6));
    let converted: IpAddress = v4.into();
    assert_eq!(converted, IpAddress::Ipv4(v4));
}

#[test]
fn instants_count_microseconds() {
    assert_eq!(Instant::from_micros(1500).micros, 1500);
    assert_eq!(Instant::from_millis(3).micros, 3000);
    assert_eq!(Instant::from_millis(0).micros, 0);
    assert_eq!(Instant::from_millis(u64::MAX / 1000).micros, u64::MAX / 1000 * 1000);
}

#[test]
fn durations_count_microseconds() {
    assert_eq!(Duration::from_micros(7).micros, 7);
    assert_eq!(Duration::from_millis(3000).micros, 3_000_000);
}

#[test]
fn instant_plus_duration() {
    let t = Instant::from_micros(10).plus(Duration::from_micros(32));
    assert_eq!(t, Instant::from_micros(42));
    let end = Instant::from_micros(u64::MAX - 1).plus(Duration::from_micros(1));
    assert_eq!(end.micros, u64::MAX);
}

#[test]
fn instant_reaches_deadline() {
    let deadline = Instant::from_micros(100);
    assert!(!Instant::from_micros(99).has_reached(deadline));
    assert!(Instant::from_micros(100).has_reached(deadline));
    assert!(Instant::from_micros(101).has_reached(deadline));
}

#[test]
fn later_of_two_instants() {
    let early = Instant::from_micros(5);
    let late = Instant::from_micros(6);
    assert_eq!(early.later_of(late), late);
    assert_eq!(late.later_of(early), late);
    assert_eq!(late.later_of(late), late);
}

#[test]
fn duration_divided_rounds_down() {
    assert_eq!(Duration::from_micros(3000).divided_by(3), Duration::from_micros(1000));
    assert_eq!(Duration::from_micros(10).divided_by(4), Duration::from_micros(2));
    assert_eq!(Duration::from_micros(3).divided_by(4), Duration::from_micros(0));
    assert_eq!(Duration::from_micros(9).divided_by(1), Duration::from_micros(9));
}
