//! Multicast group membership for a network interface: the IPv4 membership
//! table with its join and leave announcements, and the timer-driven schedule
//! by which an interface answers IPv6 multicast listener queries.

pub mod address;
pub mod device;
pub mod interface;
pub mod mld;
pub mod multicast;
pub mod schedule;
pub mod table;
pub mod time;
