//! The choice of the network interface that is in use.

use crate::search::{first, first_from, lemma_first_from};
use crate::text::{chars_of, lemma_find, matches_at, occurs_at, slice_find};
use vstd::prelude::*;

verus! {

/// What the choice reads of one network interface.
#[derive(Clone, Debug, PartialEq, Eq)]
pub struct Interface {
    /// The interface's name.
    pub name: String,
    /// Whether one of its addresses is an IPv4 address.
    pub has_ipv4: bool,
    /// Bytes received since the counters were last refreshed.
    pub received: u64,
    /// Bytes transmitted since the counters were last refreshed.
    pub transmitted: u64,
}

/// Whether `pat` occurs somewhere in `s`.
pub open spec fn contains(s: Seq<char>, pat: Seq<char>) -> bool {
    exists|i: int| occurs_at(s, pat, i)
}

/// Whether a name is that of a loopback interface: whether it starts with
/// `lo` or with `Loopback`, or holds `loopback`.
pub open spec fn is_loopback_name(name: Seq<char>) -> bool {
    occurs_at(name, "lo"@, 0) || occurs_at(name, "Loopback"@, 0) || contains(name, "loopback"@)
}

/// Tests whether a name is that of a loopback interface.
pub fn is_loopback(name: &str) -> (b: bool)
    ensures
        b == is_loopback_name(name@),
{
    let chars = chars_of(name);
    let lo = chars_of("lo");
    let upper = chars_of("Loopback");
    let lower = chars_of("loopback");
    if lo.len() <= chars.len() && matches_at(chars.as_slice(), lo.as_slice(), 0) {
        return true;
    }
    if upper.len() <= chars.len() && matches_at(chars.as_slice(), upper.as_slice(), 0) {
        return true;
    }
    proof {
        lemma_find(name@, "loopback"@, 0);
    }
    slice_find(chars.as_slice(), lower.as_slice(), 0).is_some()
}

impl Interface {
    /// Whether the interface has moved any bytes of late.
    pub open spec fn has_traffic(self) -> bool {
        self.received > 0 || self.transmitted > 0
    }

    /// Whether the interface can be the one in use: it is no loopback
    /// interface, it has an IPv4 address, and it has traffic where traffic is
    /// asked for.
    pub open spec fn eligible(self, require_traffic: bool) -> bool {
        &&& !is_loopback_name(self.name@)
        &&& self.has_ipv4
        &&& require_traffic ==> self.has_traffic()
    }

    /// Tests whether the interface can be the one in use.
    pub fn is_eligible(&self, require_traffic: bool) -> (b: bool)
        ensures
            b == self.eligible(require_traffic),
    {
        if is_loopback(self.name.as_str()) {
            return false;
        }
        if !self.has_ipv4 {
            return false;
        }
        !require_traffic || self.received > 0 || self.transmitted > 0
    }
}

/// The condition of being eligible.
pub open spec fn eligible_with(require_traffic: bool) -> spec_fn(Interface) -> bool {
    |interface: Interface| interface.eligible(require_traffic)
}

/// The place of the interface that is taken as the one in use: the first
/// eligible one, and nothing where none is eligible.
pub open spec fn active_index(interfaces: Seq<Interface>, require_traffic: bool) -> Option<int> {
    let k = first(interfaces, eligible_with(require_traffic));
    if k < interfaces.len() {
        Some(k)
    } else {
        None
    }
}

/// Finds the first eligible interface.
pub fn find_active_network(interfaces: &Vec<Interface>, require_traffic: bool) -> (found: Option<
    usize,
>)
    ensures
        match found {
            Some(i) => active_index(interfaces@, require_traffic) == Some(i as int),
            None => active_index(interfaces@, require_traffic) is None,
        },
{
    let n: usize = interfaces.len();
    let mut i: usize = 0;
    while i < n
        invariant
            n == interfaces@.len(),
            i <= n,
            first(interfaces@, eligible_with(require_traffic)) == first_from(
                interfaces@,
                eligible_with(require_traffic),
                i as int,
            ),
        decreases n - i,
    {
        let eligible = interfaces[i].is_eligible(require_traffic);
        if eligible {
            return Some(i);
        }
        i += 1;
    }
    None
}

/// Which interface is in use.
#[derive(Clone, Copy, Debug, PartialEq, Eq, Structural)]
pub enum ActiveNetwork {
    /// The interface at this place: it is eligible and has traffic.
    Busy(usize),
    /// The interface at this place: no eligible interface has traffic, and
    /// this is the first that is eligible without.
    Idle(usize),
    /// No interface is eligible.
    Unknown,
}

/// The interface in use among `interfaces`: the first eligible one that has
/// traffic; where there is none, the first eligible one; and where there is
/// none either, none.
pub open spec fn active_among(interfaces: Seq<Interface>) -> ActiveNetwork {
    match active_index(interfaces, true) {
        Some(i) => ActiveNetwork::Busy(i as usize),
        None => match active_index(interfaces, false) {
            Some(i) => ActiveNetwork::Idle(i as usize),
            None => ActiveNetwork::Unknown,
        },
    }
}

/// Chooses the interface in use.
pub fn active_network(interfaces: &Vec<Interface>) -> (active: ActiveNetwork)
    ensures
        active == active_among(interfaces@),
{
    match find_active_network(interfaces, true) {
        Some(i) => ActiveNetwork::Busy(i),
        None => match find_active_network(interfaces, false) {
            Some(i) => ActiveNetwork::Idle(i),
            None => ActiveNetwork::Unknown,
        },
    }
}

/// The choice names an interface of the list that is no loopback interface
/// and has an IPv4 address. A busy one has traffic, and an idle one has none.
/// No interface is named only where none is eligible.
pub proof fn lemma_active_is_eligible(interfaces: Seq<Interface>)
    requires
        interfaces.len() <= usize::MAX,
    ensures
        match active_among(interfaces) {
            ActiveNetwork::Busy(i) => i < interfaces.len() && interfaces[i as int].eligible(true),
            ActiveNetwork::Idle(i) => i < interfaces.len() && interfaces[i as int].eligible(false)
                && !interfaces[i as int].has_traffic(),
            ActiveNetwork::Unknown => forall|k: int|
                0 <= k < interfaces.len() ==> !(#[trigger] interfaces[k]).eligible(false),
        },
{
    lemma_first_from(interfaces, eligible_with(true), 0);
    lemma_first_from(interfaces, eligible_with(false), 0);
    let busy = first(interfaces, eligible_with(true));
    let idle = first(interfaces, eligible_with(false));
    if busy < interfaces.len() {
        assert(eligible_with(true)(interfaces[busy]));
    } else if idle < interfaces.len() {
        assert(eligible_with(false)(interfaces[idle]));
        assert(!eligible_with(true)(interfaces[idle]));
    } else {
        assert forall|k: int| 0 <= k < interfaces.len() implies !(#[trigger] interfaces[k])
            .eligible(false) by {
            assert(!eligible_with(false)(interfaces[k]));
        }
    }
}

} // verus!
