//! A minimal packet-inspection library: a bounds-checked accessor over a
//! packet's byte range, a header walker for Ethernet/IPv4/TCP/UDP prefixes,
//! a two-read payload probe, and the verdict mapping for two kernel hook
//! points (a traffic-classifier hook and an early-receive hook).

pub mod access;
pub mod walk;
pub mod verdict;
pub mod laws;
