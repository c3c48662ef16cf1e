//! Connectivity state of the wireless session.
//!
//! The session owns the association with the network; the control loop only
//! reads its state.  An assigned address proves connectivity; the sentinel
//! "unassigned" address is treated exactly like being disconnected.

use vstd::prelude::*;

verus! {

/// The observable state of the wireless session.
#[derive(Clone, Debug)]
pub enum ConnectivityState {
    Disconnected,
    Connecting,
    Connected(String),
}

/// The sentinel address reported while no address is assigned.
pub open spec fn spec_unassigned_address() -> Seq<char> {
    "0.0.0.0"@
}

impl ConnectivityState {
    /// Only a session with an assigned address counts as connected.
    pub open spec fn spec_is_connected(&self) -> bool {
        self is Connected
    }

    /// Non-blocking poll of the current state.
    pub fn is_connected(&self) -> (r: bool)
        ensures
            r == self.spec_is_connected(),
    {
        match self {
            ConnectivityState::Connected(_) => true,
            _ => false,
        }
    }
}

/// Character-for-character string equality.
fn str_eq(a: &str, b: &str) -> (r: bool)
    ensures
        r == (a@ == b@),
{
    let na = a.unicode_len();
    let nb = b.unicode_len();
    if na != nb {
        return false;
    }
    let mut i: usize = 0;
    while i < na
        invariant
            i <= na,
            na == a@.len(),
            na == b@.len(),
            forall|j: int| 0 <= j < i ==> a@[j] == b@[j],
        decreases na - i,
    {
        if a.get_char(i) != b.get_char(i) {
            return false;
        }
        i = i + 1;
    }
    proof {
        assert(a@ =~= b@);
    }
    true
}

/// Classifies a reported address: the sentinel address means the session is
/// not usable and is treated as disconnection.
pub fn classify_address(addr: &str) -> (r: ConnectivityState)
    ensures
        addr@ == spec_unassigned_address() ==> r is Disconnected,
        addr@ != spec_unassigned_address() ==> (r matches ConnectivityState::Connected(a) && a@
            == addr@),
{
    if str_eq(addr, "0.0.0.0") {
        ConnectivityState::Disconnected
    } else {
        ConnectivityState::Connected(String::from_str(addr))
    }
}

} // verus!
