//! PD controller related code: commands, responses and the port map of a controller
use vstd::prelude::*;

use super::ucsi::lpm;
use super::{ControllerId, GlobalPortId, LocalPortId, PdError};
use crate::power::policy;

verus! {

/// Power contract
#[derive(Copy, Clone, Debug, PartialEq, Eq, Structural)]
pub enum Contract {
    /// Contract as sink
    Sink(policy::PowerCapability),
    /// Constract as source
    Source(policy::PowerCapability),
}

/// Port-specific command data
#[derive(Copy, Clone, Debug, PartialEq, Eq, Structural)]
pub enum PortCommandData {
    /// Get port status
    PortStatus,
    /// Get and clear events
    ClearEvents,
    /// Get retimer fw update state
    RetimerFwUpdateGetState,
    /// Set retimer fw update state
    RetimerFwUpdateSetState,
    /// Clear retimer fw update state
    RetimerFwUpdateClearState,
}

/// Port-specific commands
#[derive(Copy, Clone, Debug, PartialEq, Eq, Structural)]
pub struct PortCommand {
    /// Port ID
    pub port: GlobalPortId,
    /// Command data
    pub data: PortCommandData,
}

/// PD controller command-specific data
#[derive(Copy, Clone, Debug, PartialEq, Eq, Structural)]
pub enum InternalCommandData {
    /// Reset the PD controller
    Reset,
    /// Get controller status
    Status,
}

/// PD controller command
#[derive(Copy, Clone, Debug, PartialEq, Eq, Structural)]
pub enum Command {
    /// Controller specific command
    Controller(InternalCommandData),
    /// Port command
    Port(PortCommand),
    /// UCSI command passthrough
    Lpm(lpm::Command),
}

/// Controller status
#[derive(Copy, Clone, Debug)]
pub struct ControllerStatus<'a> {
    /// Current controller mode
    pub mode: &'a str,
    /// True if we did not have to boot from a backup FW bank
    pub valid_fw_bank: bool,
    /// FW version 0
    pub fw_version0: u32,
    /// FW version 1
    pub fw_version1: u32,
}

/// Controller-specific response data
#[derive(Copy, Clone, Debug)]
pub enum InternalResponseData<'a> {
    /// Command complete
    Complete,
    /// Controller status
    Status(ControllerStatus<'a>),
}

/// Response for controller-specific commands
pub type InternalResponse<'a> = Result<InternalResponseData<'a>, PdError>;

/// The first index at or after `i` where `ports` holds `port`.
pub open spec fn index_from(ports: Seq<GlobalPortId>, port: GlobalPortId, i: int) -> Option<int>
    decreases ports.len() - i,
{
    if i < 0 || i >= ports.len() {
        None
    } else if ports[i] == port {
        Some(i)
    } else {
        index_from(ports, port, i + 1)
    }
}

/// The global ID of local port `port` on a controller with the ports `ports`.
///
/// The port count is compared as a byte, so a controller with 256 ports or more sees its count
/// modulo 256.
pub open spec fn global_port_of(ports: Seq<GlobalPortId>, port: LocalPortId) -> Result<GlobalPortId, PdError> {
    if port.0 >= (ports.len() as u8) {
        Err(PdError::InvalidParams)
    } else {
        Ok(ports[port.0 as int])
    }
}

/// The local ID of global port `port` on a controller with the ports `ports`: the index of its
/// first occurrence, as a byte.
pub open spec fn local_port_of(ports: Seq<GlobalPortId>, port: GlobalPortId) -> Result<LocalPortId, PdError> {
    match index_from(ports, port, 0) {
        Some(i) => Ok(LocalPortId(i as u8)),
        None => Err(PdError::InvalidParams),
    }
}

/// PD controller: its ID and the global IDs of its ports, in local port order
pub struct Device<'a> {
    id: ControllerId,
    ports: &'a [GlobalPortId],
    num_ports: usize,
}

impl<'a> Device<'a> {
    #[verifier::type_invariant]
    spec fn wf(self) -> bool {
        self.num_ports == self.ports@.len()
    }

    /// The controller's ID.
    pub closed spec fn spec_id(self) -> ControllerId {
        self.id
    }

    /// The global IDs of the controller's ports, in local port order.
    pub closed spec fn spec_ports(self) -> Seq<GlobalPortId> {
        self.ports@
    }

    /// Create a new PD controller struct
    pub fn new(id: ControllerId, ports: &'a [GlobalPortId]) -> (r: Self)
        ensures
            r.spec_id() == id,
            r.spec_ports() == ports@,
    {
        Self { id, ports, num_ports: ports.len() }
    }

    /// Get the controller ID
    pub fn id(&self) -> (r: ControllerId)
        ensures
            r == self.spec_id(),
    {
        self.id
    }

    /// Check if this controller has the given port
    pub fn has_port(&self, port: GlobalPortId) -> (r: bool)
        ensures
            r == self.spec_ports().contains(port),
    {
        let r = self.lookup_local_port(port).is_ok();
        proof {
            lemma_index_from_contains(self.spec_ports(), port, 0);
        }
        r
    }

    /// Covert a local port ID to a global port ID
    pub fn lookup_global_port(&self, port: LocalPortId) -> (r: Result<GlobalPortId, PdError>)
        ensures
            r == global_port_of(self.spec_ports(), port),
    {
        proof {
            use_type_invariant(self);
        }
        let n: u8 = #[verifier::truncate] (self.num_ports as u8);
        let num_ports = self.num_ports;
        assert(n as usize <= num_ports) by (bit_vector)
            requires
                n == num_ports as u8,
        ;
        if port.0 >= n {
            return Err(PdError::InvalidParams);
        }
        Ok(self.ports[port.0 as usize])
    }

    /// Convert a global port ID to a local port ID
    pub fn lookup_local_port(&self, port: GlobalPortId) -> (r: Result<LocalPortId, PdError>)
        ensures
            r == local_port_of(self.spec_ports(), port),
    {
        let mut i: usize = 0;
        while i < self.ports.len()
            invariant
                0 <= i <= self.ports@.len(),
                index_from(self.ports@, port, 0) == index_from(self.ports@, port, i as int),
            decreases self.ports@.len() - i,
        {
            if self.ports[i] == port {
                return Ok(LocalPortId(#[verifier::truncate] (i as u8)));
            }
            i = i + 1;
        }
        Err(PdError::InvalidParams)
    }

    /// Number of ports on this controller
    pub fn num_ports(&self) -> (r: usize)
        ensures
            r == self.spec_ports().len(),
    {
        proof {
            use_type_invariant(self);
        }
        self.num_ports
    }
}

/// The index of the first of the registered controllers `cs`, from `i` on, whose ID is `id`.
pub open spec fn controller_index_from(cs: Seq<&Device>, id: ControllerId, i: int) -> Option<int>
    decreases cs.len() - i,
{
    if i < 0 || i >= cs.len() {
        None
    } else if cs[i].spec_id() == id {
        Some(i)
    } else {
        controller_index_from(cs, id, i + 1)
    }
}

/// The index of the first of the registered controllers `cs`, from `i` on, that has global port
/// `port`.
pub open spec fn port_owner_index_from(cs: Seq<&Device>, port: GlobalPortId, i: int) -> Option<int>
    decreases cs.len() - i,
{
    if i < 0 || i >= cs.len() {
        None
    } else if cs[i].spec_ports().contains(port) {
        Some(i)
    } else {
        port_owner_index_from(cs, port, i + 1)
    }
}

/// Find the controller with the given ID among the registered `controllers`: the first one with
/// that ID, or `InvalidController` if there is none.
pub fn lookup_controller<'b, 'a>(controllers: &[&'b Device<'a>], controller_id: ControllerId) -> (r: Result<
    &'b Device<'a>,
    PdError,
>)
    ensures
        r == (match controller_index_from(controllers@, controller_id, 0) {
            Some(i) => Ok(controllers@[i]),
            None => Err(PdError::InvalidController),
        }),
{
    let mut i: usize = 0;
    while i < controllers.len()
        invariant
            0 <= i <= controllers@.len(),
            controller_index_from(controllers@, controller_id, 0) == controller_index_from(
                controllers@,
                controller_id,
                i as int,
            ),
        decreases controllers@.len() - i,
    {
        if controllers[i].id() == controller_id {
            return Ok(controllers[i]);
        }
        i = i + 1;
    }
    Err(PdError::InvalidController)
}

/// Find the controller that has the given global port among the registered `controllers`: the
/// first one that has it, or `InvalidPort` if none does.
pub fn find_node_by_port<'b, 'a>(controllers: &[&'b Device<'a>], port_id: GlobalPortId) -> (r: Result<
    &'b Device<'a>,
    PdError,
>)
    ensures
        r == (match port_owner_index_from(controllers@, port_id, 0) {
            Some(i) => Ok(controllers@[i]),
            None => Err(PdError::InvalidPort),
        }),
{
    let mut i: usize = 0;
    while i < controllers.len()
        invariant
            0 <= i <= controllers@.len(),
            port_owner_index_from(controllers@, port_id, 0) == port_owner_index_from(
                controllers@,
                port_id,
                i as int,
            ),
        decreases controllers@.len() - i,
    {
        if controllers[i].has_port(port_id) {
            return Ok(controllers[i]);
        }
        i = i + 1;
    }
    Err(PdError::InvalidPort)
}

/// The registry lookups find the first matching controller from `i` on, and find none exactly
/// when no controller from `i` on matches: [`lookup_controller`] by ID, [`find_node_by_port`] by
/// port.
pub proof fn lemma_controller_lookups(cs: Seq<&Device>, id: ControllerId, port: GlobalPortId, i: int)
    requires
        0 <= i <= cs.len(),
    ensures
        controller_index_from(cs, id, i) matches Some(k) ==> i <= k < cs.len() && cs[k].spec_id() == id
            && forall|j: int| i <= j < k ==> cs[j].spec_id() != id,
        controller_index_from(cs, id, i) is None <==> forall|j: int| i <= j < cs.len() ==> cs[j].spec_id() != id,
        port_owner_index_from(cs, port, i) matches Some(k) ==> i <= k < cs.len() && cs[k].spec_ports().contains(
            port,
        ) && forall|j: int| i <= j < k ==> !cs[j].spec_ports().contains(port),
        port_owner_index_from(cs, port, i) is None <==> forall|j: int|
            i <= j < cs.len() ==> !cs[j].spec_ports().contains(port),
    decreases cs.len() - i,
{
    if i < cs.len() {
        lemma_controller_lookups(cs, id, port, i + 1);
    }
}

/// A port found from `i` on is there, and is the first one there; none is found exactly when the
/// port does not occur from `i` on.
pub proof fn lemma_index_from_contains(ports: Seq<GlobalPortId>, port: GlobalPortId, i: int)
    requires
        0 <= i <= ports.len(),
    ensures
        index_from(ports, port, i) matches Some(k) ==> i <= k < ports.len() && ports[k] == port && forall|
            j: int,
        | i <= j < k ==> ports[j] != port,
        index_from(ports, port, i) is None <==> forall|j: int| i <= j < ports.len() ==> ports[j] != port,
        i == 0 ==> (index_from(ports, port, i) is Some <==> ports.contains(port)),
    decreases ports.len() - i,
{
    if i < ports.len() {
        lemma_index_from_contains(ports, port, i + 1);
    }
    if i == 0 && ports.contains(port) {
        let k = choose|k: int| 0 <= k < ports.len() && ports[k] == port;
        assert(ports[k] == port);
    }
}

/// Looking up the local ID of a port the controller has, and then the global ID of that local port,
/// gives the port back (for controllers with fewer than 256 ports).
pub proof fn lemma_local_then_global(ports: Seq<GlobalPortId>, port: GlobalPortId)
    requires
        ports.contains(port),
        ports.len() < 256,
    ensures
        local_port_of(ports, port) matches Ok(l) && global_port_of(ports, l) == Ok::<GlobalPortId, PdError>(port),
{
    lemma_index_from_contains(ports, port, 0);
    let k = index_from(ports, port, 0)->0;
    assert((k as u8) as int == k);
    assert((ports.len() as u8) as int == ports.len());
}

/// On a controller whose ports are distinct (and fewer than 256), looking up the global ID of a local
/// port and then the local ID of that global port gives the local port back.
pub proof fn lemma_global_then_local(ports: Seq<GlobalPortId>, port: LocalPortId)
    requires
        ports.no_duplicates(),
        ports.len() < 256,
        port.0 < ports.len(),
    ensures
        global_port_of(ports, port) matches Ok(g) && local_port_of(ports, g) == Ok::<LocalPortId, PdError>(port),
{
    assert((ports.len() as u8) as int == ports.len());
    let g = ports[port.0 as int];
    lemma_index_from_contains(ports, g, 0);
    let k = index_from(ports, g, 0)->0;
    assert(k == port.0);
    assert((k as u8) == port.0);
}

/// Type to provide access to the PD controller context for service implementations
pub struct ContextToken(());

impl ContextToken {
    /// Create a new context token, returning None if one was created before.
    ///
    /// `created` records whether a token exists; it is set by the first call.
    pub fn create(created: &mut bool) -> (r: Option<Self>)
        ensures
            r is Some <==> !*old(created),
            *final(created),
    {
        if *created {
            return None;
        }
        *created = true;
        Some(ContextToken(()))
    }
}

} // verus!
