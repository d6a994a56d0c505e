//! Choosing the port on which the backend is to listen.
//!
//! The allocator walks a fixed range of local ports in ascending order. For
//! each candidate the caller tries to bind a listening socket on the loopback
//! address and releases it at once; the first candidate that binds is the
//! port. Between that release and the backend's own bind another process may
//! take the port: the allocator does not guard against that.

use vstd::prelude::*;
use crate::text::{decimal, push_decimal};

verus! {

/// The lowest port of the range.
pub const FIRST_PORT: u16 = 8100;

/// The number of ports in the range.
pub const PORT_COUNT: u16 = 100;

/// `port` belongs to the range that the allocator walks.
pub open spec fn in_port_range(port: int) -> bool {
    FIRST_PORT <= port < FIRST_PORT + PORT_COUNT
}

/// Where the scan stands after the bind of one candidate.
#[derive(Clone, Copy, Debug, PartialEq, Eq, Structural)]
pub enum PortStep {
    /// The candidate bound: it is the port.
    Allocated(u16),
    /// The candidate was occupied: this one is next.
    Try(u16),
    /// The candidate was occupied and it was the last.
    Exhausted,
}

/// The step that follows the bind of `candidate`.
pub open spec fn port_step(candidate: u16, bound: bool) -> PortStep {
    if bound {
        PortStep::Allocated(candidate)
    } else if in_port_range(candidate + 1) {
        PortStep::Try((candidate + 1) as u16)
    } else {
        PortStep::Exhausted
    }
}

/// The outcome of a whole scan that stands at `candidate`, where `bindable`
/// tells of each port whether a bind on it succeeds.
pub open spec fn scan_from(candidate: int, bindable: spec_fn(u16) -> bool) -> Option<u16>
    decreases FIRST_PORT + PORT_COUNT - candidate,
{
    if !in_port_range(candidate) {
        None
    } else {
        match port_step(candidate as u16, bindable(candidate as u16)) {
            PortStep::Allocated(port) => Some(port),
            PortStep::Try(next) => scan_from(next as int, bindable),
            PortStep::Exhausted => None,
        }
    }
}

/// The outcome of a scan from the start of the range.
pub open spec fn allocation(bindable: spec_fn(u16) -> bool) -> Option<u16> {
    scan_from(FIRST_PORT as int, bindable)
}

/// The first candidate of a scan.
pub fn first_candidate() -> (port: u16)
    ensures
        port == FIRST_PORT,
{
    FIRST_PORT
}

/// Decides how the scan goes on once the bind of `candidate` has been tried.
///
/// A candidate that bound is the port. After an occupied one the next higher
/// port of the range is tried; after the last one the scan is exhausted, and
/// the caller must give the start up instead of going on with a port it does
/// not have.
pub fn on_bind_result(candidate: u16, bound: bool) -> (step: PortStep)
    ensures
        step == port_step(candidate, bound),
{
    if bound {
        PortStep::Allocated(candidate)
    } else if candidate >= FIRST_PORT - 1 && candidate < FIRST_PORT + PORT_COUNT - 1 {
        PortStep::Try(candidate + 1)
    } else {
        PortStep::Exhausted
    }
}

/// The text of the loopback socket address of `port`.
pub open spec fn bind_address_text(port: u16) -> Seq<char> {
    "127.0.0.1:"@ + decimal(port as nat)
}

/// The loopback socket address on which a candidate is tried.
pub fn bind_address(port: u16) -> (address: String)
    ensures
        address@ == bind_address_text(port),
{
    let mut address = String::from_str("127.0.0.1:");
    push_decimal(&mut address, port as u64);
    address
}

/// A scan that stands inside the range allocates the lowest bindable port from
/// its candidate upwards, and fails exactly when there is none.
pub proof fn lemma_scan_from(candidate: int, bindable: spec_fn(u16) -> bool)
    requires
        in_port_range(candidate),
    ensures
        match scan_from(candidate, bindable) {
            Some(port) => candidate <= port && in_port_range(port as int) && bindable(port)
                && forall|q: u16| candidate <= q < port ==> !#[trigger] bindable(q),
            None => forall|q: u16|
                candidate <= q && in_port_range(q as int) ==> !#[trigger] bindable(q),
        },
    decreases FIRST_PORT + PORT_COUNT - candidate,
{
    if !bindable(candidate as u16) && in_port_range(candidate + 1) {
        lemma_scan_from(candidate + 1, bindable);
    }
}

/// The allocator never leaves its range: an allocated port is one of the
/// hundred ports from 8100 to 8199, a bind on it succeeded, and every lower
/// port of the range was occupied. It reports that no port is available
/// exactly when all hundred are occupied.
pub proof fn lemma_allocation_in_range(bindable: spec_fn(u16) -> bool)
    ensures
        match allocation(bindable) {
            Some(port) => 8100 <= port <= 8199 && bindable(port) && forall|q: u16|
                8100 <= q < port ==> !#[trigger] bindable(q),
            None => forall|q: u16| 8100 <= q <= 8199 ==> !#[trigger] bindable(q),
        },
{
    lemma_scan_from(FIRST_PORT as int, bindable);
}

/// Where some port below the last one of the range can be bound, the
/// allocated port lies below the last one too.
pub proof fn lemma_allocation_below_last(bindable: spec_fn(u16) -> bool)
    requires
        exists|q: u16| 8100 <= q < 8199 && #[trigger] bindable(q),
    ensures
        allocation(bindable) is Some,
        8100 <= allocation(bindable)->0 < 8199,
{
    lemma_scan_from(FIRST_PORT as int, bindable);
    let q = choose|q: u16| 8100 <= q < 8199 && #[trigger] bindable(q);
    assert(bindable(q));
}

/// Each occupied candidate moves the scan to a strictly higher port of the
/// range or ends it, so a scan tries at most a hundred binds.
pub proof fn lemma_scan_advances(candidate: u16)
    ensures
        match port_step(candidate, false) {
            PortStep::Try(next) => next == candidate + 1 && in_port_range(next as int),
            PortStep::Exhausted => true,
            PortStep::Allocated(_) => false,
        },
{
}

} // verus!
