//! The two hook adapters and their verdict vocabularies.
//!
//! Both hook points run the same walk over the packet's byte range and
//! differ only in the pair of integer verdict codes they answer with: the
//! traffic-classifier hook continues or shoots, the early-receive hook
//! passes or aborts. Success of the walk maps to continue/pass, any
//! failure to shoot/abort; no other branching exists at this layer.

use vstd::prelude::*;

use crate::walk::{spec_walk_log, spec_walk_ok, try_verifier_err};

verus! {

/// Code with which the traffic-classifier hook hands the packet on
/// to the next classifier.
pub const TC_ACT_PIPE: i32 = 3;

/// Code with which the traffic-classifier hook shoots (drops) the packet.
pub const TC_ACT_SHOT: i32 = 2;

/// Code with which the early-receive hook passes the packet up the stack.
pub const XDP_PASS: u32 = 2;

/// Code with which the early-receive hook aborts processing of the packet.
pub const XDP_ABORTED: u32 = 0;

/// The traffic-classifier verdict for the byte range: continue when the
/// walk succeeds, shoot when it fails.
pub open spec fn spec_tc_verdict(pkt: Seq<u8>) -> i32 {
    if spec_walk_ok(pkt) {
        TC_ACT_PIPE
    } else {
        TC_ACT_SHOT
    }
}

/// The early-receive verdict for the byte range: pass when the walk
/// succeeds, abort when it fails.
pub open spec fn spec_xdp_verdict(pkt: Seq<u8>) -> u32 {
    if spec_walk_ok(pkt) {
        XDP_PASS
    } else {
        XDP_ABORTED
    }
}

/// Traffic-classifier adapter: walk the packet's byte range and translate
/// the outcome into this hook's verdict pair.
pub fn tc_verifier_err(pkt: &[u8], log: &mut Vec<u64>) -> (verdict: i32)
    ensures
        verdict == spec_tc_verdict(pkt@),
        final(log)@ == old(log)@ + spec_walk_log(pkt@),
{
    match try_verifier_err(pkt, log) {
        Ok(_) => TC_ACT_PIPE,
        Err(_) => TC_ACT_SHOT,
    }
}

/// Early-receive adapter: walk the packet's byte range and translate the
/// outcome into this hook's verdict pair.
pub fn xdp_verifier_err(pkt: &[u8], log: &mut Vec<u64>) -> (verdict: u32)
    ensures
        verdict == spec_xdp_verdict(pkt@),
        final(log)@ == old(log)@ + spec_walk_log(pkt@),
{
    match try_verifier_err(pkt, log) {
        Ok(_) => XDP_PASS,
        Err(_) => XDP_ABORTED,
    }
}

} // verus!
