//! Transport service definitions: the endpoints that messages are routed between.
//!
//! Each endpoint has a list of receivers; [`endpoint_list_index`] says which list. OEM endpoints
//! share one list per side, whatever their key.
use vstd::prelude::*;

verus! {

/// key type for OEM Endpoint declarations
pub type OemKey = isize;

/// Internal endpoints, by generalized name
#[derive(Copy, Clone, Debug, PartialEq, Eq, Structural)]
pub enum Internal {
    /// platform information service provider
    PlatformInfo,
    /// keyboard manager
    Keyboard,
    /// HID service provider
    Hid,
    /// Host manager and boot control
    HostBoot,
    /// Power manager for the system
    Power,
    /// USB-C service provider
    Usbc,
    /// Thermal service provider
    Thermal,
    /// Trackpad service provider
    Trackpad,
    /// Battery service provider
    Battery,
    /// NVM service provider
    Nonvol,
    /// Debug service provider
    Debug,
    /// Security service provider
    Security,
    /// OEM defined receiver
    Oem(OemKey),
}

/// External identifier for transport routing
#[derive(Copy, Clone, Debug, PartialEq, Eq, Structural)]
pub enum External {
    /// route a message to the host (typ. SoC with HLOS)
    Host,
    /// route a message to debug probe or utility
    Debug,
    /// route a message to an OEM defined target
    Oem(OemKey),
}

/// Endpoint identifier for transport routing
#[derive(Copy, Clone, Debug, PartialEq, Eq, Structural)]
pub enum Endpoint {
    /// route to/from an internal source
    Internal(Internal),
    /// route to/from an external source
    External(External),
}

impl From<Internal> for Endpoint {
    fn from(value: Internal) -> (r: Self)
        ensures
            r == Endpoint::Internal(value),
    {
        Endpoint::Internal(value)
    }
}

impl vstd::std_specs::convert::FromSpecImpl<Internal> for Endpoint {
    open spec fn obeys_from_spec() -> bool {
        true
    }

    open spec fn from_spec(value: Internal) -> Endpoint {
        Endpoint::Internal(value)
    }
}

impl From<External> for Endpoint {
    fn from(value: External) -> (r: Self)
        ensures
            r == Endpoint::External(value),
    {
        Endpoint::External(value)
    }
}

impl vstd::std_specs::convert::FromSpecImpl<External> for Endpoint {
    open spec fn obeys_from_spec() -> bool {
        true
    }

    open spec fn from_spec(value: External) -> Endpoint {
        Endpoint::External(value)
    }
}

/// Number of receiver lists: one per named endpoint and one per side for OEM endpoints.
pub const ENDPOINT_LIST_COUNT: usize = 16;

/// The receiver list of an endpoint: external endpoints first (host, debug, OEM), then internal
/// ones in declaration order, OEM last.
pub open spec fn list_index_of(target: Endpoint) -> int {
    match target {
        Endpoint::External(e) => match e {
            External::Host => 0,
            External::Debug => 1,
            External::Oem(_) => 2,
        },
        Endpoint::Internal(i) => match i {
            Internal::PlatformInfo => 3,
            Internal::Keyboard => 4,
            Internal::Hid => 5,
            Internal::HostBoot => 6,
            Internal::Power => 7,
            Internal::Usbc => 8,
            Internal::Thermal => 9,
            Internal::Trackpad => 10,
            Internal::Battery => 11,
            Internal::Nonvol => 12,
            Internal::Debug => 13,
            Internal::Security => 14,
            Internal::Oem(_) => 15,
        },
    }
}

/// Index of the receiver list that messages to `target` go through.
pub fn endpoint_list_index(target: Endpoint) -> (r: usize)
    ensures
        r == list_index_of(target),
        r < ENDPOINT_LIST_COUNT,
{
    match target {
        Endpoint::External(ext_endpoint) => match ext_endpoint {
            External::Host => 0,
            External::Debug => 1,
            External::Oem(_key) => 2,
        },
        Endpoint::Internal(int_endpoint) => match int_endpoint {
            Internal::PlatformInfo => 3,
            Internal::Keyboard => 4,
            Internal::Hid => 5,
            Internal::HostBoot => 6,
            Internal::Power => 7,
            Internal::Usbc => 8,
            Internal::Thermal => 9,
            Internal::Trackpad => 10,
            Internal::Battery => 11,
            Internal::Nonvol => 12,
            Internal::Debug => 13,
            Internal::Security => 14,
            Internal::Oem(_key) => 15,
        },
    }
}

/// Two endpoints share a receiver list exactly when they are the same endpoint, or both OEM
/// endpoints on the same side.
pub proof fn lemma_list_index_shared(a: Endpoint, b: Endpoint)
    ensures
        (list_index_of(a) == list_index_of(b)) <==> (a == b || (a matches Endpoint::Internal(Internal::Oem(_))
            && b matches Endpoint::Internal(Internal::Oem(_))) || (a matches Endpoint::External(External::Oem(_))
            && b matches Endpoint::External(External::Oem(_)))),
{
}

} // verus!
