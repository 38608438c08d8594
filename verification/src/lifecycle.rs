//! The lifecycle of a device handle as a state machine.
//!
//! Bringing a tunnel device up is a fixed sequence of privileged operations,
//! each of which may fail. [`Lifecycle`] is the mathematical model of a
//! handle that is going through that sequence: which operation it waits for,
//! which descriptors it holds, and what it has learned from the kernel so
//! far. The handle itself, [`crate::tun::Tun`], is proved to follow it.

use vstd::prelude::*;
use crate::error::{Error, ErrorKind};
use crate::ffi::{spec_up_running, IFF_TAP, IFF_TUN};
use crate::layout::{
    spec_ifreq_bytes,
    spec_in6_ifreq_bytes,
    spec_response_index,
    spec_response_name,
    spec_sockaddr_in_bytes,
    spec_u16_le,
    spec_u32_le,
    spec_zeros,
    Payload,
    IFNAMSIZ,
};

verus! {

/// What kind of interface the device-creation call asks for.
#[derive(Clone, Copy, Debug, PartialEq, Eq, Structural)]
pub enum DeviceKind {
    /// A tunnel, which carries network-layer packets.
    Tun,
    /// A tap, which carries link-layer frames.
    Tap,
}

impl DeviceKind {
    /// The device type that stands for this kind in the creation request.
    #[verifier::allow_in_spec]
    pub fn flag(self) -> i16
        returns
            (match self {
                DeviceKind::Tun => IFF_TUN,
                DeviceKind::Tap => IFF_TAP,
            }),
    {
        match self {
            DeviceKind::Tun => IFF_TUN,
            DeviceKind::Tap => IFF_TAP,
        }
    }
}

/// Address family of a control socket.
#[derive(Clone, Copy, Debug, PartialEq, Eq, Structural)]
pub enum Family {
    Inet,
    Inet6,
}

/// The control calls that the construction of a device issues.
#[derive(Clone, Copy, Debug, PartialEq, Eq, Structural)]
pub enum ControlOp {
    /// Create the interface, or attach to it.
    Create,
    /// Set the IPv4 address.
    SetAddress,
    /// Set the IPv4 netmask.
    SetNetmask,
    /// Look the interface index up.
    GetIndex,
    /// Add an IPv6 address with its prefix length.
    SetAddress6,
    /// Set the administrative flags.
    SetFlags,
}

/// An IPv4 address and netmask to assign, as their octets.
#[derive(Clone, Copy, Debug, PartialEq, Eq)]
pub struct Ipv4Config {
    pub address: [u8; 4],
    pub netmask: [u8; 4],
}

/// An IPv6 address and prefix length to assign.
#[derive(Clone, Copy, Debug, PartialEq, Eq)]
pub struct Ipv6Config {
    pub address: [u8; 16],
    pub prefix_len: u32,
}

/// The addresses a new device is given. Nothing is assigned unless the
/// caller asks for it.
#[derive(Clone, Copy, Debug, PartialEq, Eq)]
pub struct Addressing {
    pub v4: Option<Ipv4Config>,
    pub v6: Option<Ipv6Config>,
}

impl Addressing {
    /// The octets of the IPv4 address asked for; zeros where none is.
    pub open spec fn spec_address4(self) -> Seq<u8> {
        match self.v4 {
            Some(config) => config.address@,
            None => spec_zeros(4),
        }
    }

    /// The octets of the IPv4 netmask asked for; zeros where none is.
    pub open spec fn spec_netmask4(self) -> Seq<u8> {
        match self.v4 {
            Some(config) => config.netmask@,
            None => spec_zeros(4),
        }
    }

    /// The bytes of the IPv6 address asked for; zeros where none is.
    pub open spec fn spec_address6(self) -> Seq<u8> {
        match self.v6 {
            Some(config) => config.address@,
            None => spec_zeros(16),
        }
    }

    /// The prefix length of the IPv6 address asked for; zero where none is.
    pub open spec fn spec_prefix6(self) -> u32 {
        match self.v6 {
            Some(config) => config.prefix_len,
            None => 0,
        }
    }

    /// Whether any address is asked for.
    #[verifier::allow_in_spec]
    pub fn any(self) -> bool
        returns
            (self.v4 is Some || self.v6 is Some),
    {
        self.v4.is_some() || self.v6.is_some()
    }

    /// No address at all: the interface is created and brought up, and the
    /// caller assigns what it wants afterwards.
    pub fn none() -> (addressing: Addressing)
        ensures
            addressing.v4 is None,
            addressing.v6 is None,
    {
        Addressing { v4: None, v6: None }
    }

    /// One IPv4 address with its netmask.
    pub fn ipv4(address: [u8; 4], netmask: [u8; 4]) -> (addressing: Addressing)
        ensures
            addressing.v4 == Some(Ipv4Config { address, netmask }),
            addressing.v6 is None,
    {
        Addressing { v4: Some(Ipv4Config { address, netmask }), v6: None }
    }

    /// One IPv6 address with its prefix length.
    pub fn ipv6(address: [u8; 16], prefix_len: u32) -> (addressing: Addressing)
        ensures
            addressing.v4 is None,
            addressing.v6 == Some(Ipv6Config { address, prefix_len }),
    {
        Addressing { v4: None, v6: Some(Ipv6Config { address, prefix_len }) }
    }
}

/// The coarse states of a device handle, in the order a handle passes
/// through them.
#[derive(Clone, Copy, Debug, PartialEq, Eq, Structural)]
pub enum State {
    /// Nothing has been opened yet.
    Unopened,
    /// The control file is open; no interface exists yet.
    Opened,
    /// The kernel has allocated or matched the interface.
    Named,
    /// The configured addresses, if any, are assigned.
    Addressed,
    /// The interface is administratively up and running.
    Active,
    /// The descriptor has been switched to non-blocking mode.
    NonBlocking,
    /// The descriptor is bound into the reactor.
    Registered,
    /// The handle is giving back what it holds.
    Closing,
    /// Every descriptor has been released.
    Closed,
}

impl State {
    /// Position of the state in the order of the lifecycle.
    pub open spec fn rank(self) -> nat {
        match self {
            State::Unopened => 0,
            State::Opened => 1,
            State::Named => 2,
            State::Addressed => 3,
            State::Active => 4,
            State::NonBlocking => 5,
            State::Registered => 6,
            State::Closing => 7,
            State::Closed => 8,
        }
    }
}

/// The operation a handle waits for. Each stage but the two idle ones,
/// `Ready` and `Finished`, has one operation outstanding.
#[derive(Clone, Copy, Debug, PartialEq, Eq, Structural)]
pub enum Stage {
    /// Open the control device file.
    OpenDevice,
    /// Create the interface.
    CreateDevice,
    /// Open the control socket for the IPv4 assignment.
    OpenSocket4,
    /// Set the IPv4 address.
    SetAddress4,
    /// Set the IPv4 netmask.
    SetNetmask4,
    /// Close the control socket of the IPv4 assignment.
    CloseSocket4,
    /// Open the control socket for the IPv6 assignment.
    OpenSocket6,
    /// Look the interface index up.
    QueryIndex6,
    /// Add the IPv6 address.
    SetAddress6,
    /// Close the control socket of the IPv6 assignment.
    CloseSocket6,
    /// Open the control socket for the flags.
    OpenSocketFlags,
    /// Set the administrative flags.
    SetFlags,
    /// Close the control socket of the flags.
    CloseSocketFlags,
    /// Switch the device descriptor to non-blocking mode.
    SetNonBlocking,
    /// Register the device descriptor with the reactor.
    Register,
    /// The device is ready for packets.
    Ready,
    /// Remove the device descriptor from the reactor.
    Deregister,
    /// Close the control socket of an abandoned configuration call.
    ReleaseSocket,
    /// Close the device descriptor.
    ReleaseDevice,
    /// Nothing is held any more.
    Finished,
}

impl Stage {
    /// Position of the stage in the order of the lifecycle.
    pub open spec fn rank(self) -> nat {
        match self {
            Stage::OpenDevice => 0,
            Stage::CreateDevice => 1,
            Stage::OpenSocket4 => 2,
            Stage::SetAddress4 => 3,
            Stage::SetNetmask4 => 4,
            Stage::CloseSocket4 => 5,
            Stage::OpenSocket6 => 6,
            Stage::QueryIndex6 => 7,
            Stage::SetAddress6 => 8,
            Stage::CloseSocket6 => 9,
            Stage::OpenSocketFlags => 10,
            Stage::SetFlags => 11,
            Stage::CloseSocketFlags => 12,
            Stage::SetNonBlocking => 13,
            Stage::Register => 14,
            Stage::Ready => 15,
            Stage::Deregister => 16,
            Stage::ReleaseSocket => 17,
            Stage::ReleaseDevice => 18,
            Stage::Finished => 19,
        }
    }

    /// Whether no operation is outstanding.
    #[verifier::allow_in_spec]
    pub fn is_idle(self) -> bool
        returns
            (self is Ready || self is Finished),
    {
        match self {
            Stage::Ready | Stage::Finished => true,
            _ => false,
        }
    }

    /// Whether the outstanding operation gives something back. Such an
    /// operation cannot fail the handle: nobody could act on its failure.
    #[verifier::allow_in_spec]
    pub fn is_release(self) -> bool
        returns
            (self is CloseSocket4 || self is CloseSocket6 || self is CloseSocketFlags
                || self is Deregister || self is ReleaseSocket || self is ReleaseDevice),
    {
        match self {
            Stage::CloseSocket4
            | Stage::CloseSocket6
            | Stage::CloseSocketFlags
            | Stage::Deregister
            | Stage::ReleaseSocket
            | Stage::ReleaseDevice => true,
            _ => false,
        }
    }

    /// Whether the outstanding operation opens a descriptor.
    #[verifier::allow_in_spec]
    pub fn is_open(self) -> bool
        returns
            (self is OpenDevice || self is OpenSocket4 || self is OpenSocket6
                || self is OpenSocketFlags),
    {
        match self {
            Stage::OpenDevice
            | Stage::OpenSocket4
            | Stage::OpenSocket6
            | Stage::OpenSocketFlags => true,
            _ => false,
        }
    }

    /// Whether a handle at this stage owns the device descriptor.
    pub open spec fn holds_device(self) -> bool {
        !(self is OpenDevice || self is Finished)
    }

    /// Whether a handle at this stage owns a control socket.
    pub open spec fn holds_socket(self) -> bool {
        self is SetAddress4 || self is SetNetmask4 || self is CloseSocket4 || self is QueryIndex6
            || self is SetAddress6 || self is CloseSocket6 || self is SetFlags
            || self is CloseSocketFlags || self is ReleaseSocket
    }

    /// Whether the stage belongs to the assignment of the IPv4 address.
    pub open spec fn assigns_v4(self) -> bool {
        self is OpenSocket4 || self is SetAddress4 || self is SetNetmask4 || self is CloseSocket4
    }

    /// Whether the stage belongs to the assignment of the IPv6 address.
    pub open spec fn assigns_v6(self) -> bool {
        self is OpenSocket6 || self is QueryIndex6 || self is SetAddress6 || self is CloseSocket6
    }

    /// The error that a failure of the outstanding operation raises.
    #[verifier::allow_in_spec]
    pub fn failure_kind(self) -> ErrorKind
        returns
            (match self {
                Stage::OpenDevice => ErrorKind::Open,
                Stage::CreateDevice | Stage::SetNonBlocking | Stage::Register => ErrorKind::Create,
                _ => ErrorKind::AddIp,
            }),
    {
        match self {
            Stage::OpenDevice => ErrorKind::Open,
            Stage::CreateDevice | Stage::SetNonBlocking | Stage::Register => ErrorKind::Create,
            _ => ErrorKind::AddIp,
        }
    }

    /// Whether a handle at this stage is giving back what it holds.
    #[verifier::allow_in_spec]
    pub fn is_closing(self) -> bool
        returns
            (self is Deregister || self is ReleaseSocket || self is ReleaseDevice),
    {
        match self {
            Stage::Deregister | Stage::ReleaseSocket | Stage::ReleaseDevice => true,
            _ => false,
        }
    }
}

/// What the driver reports of the operation it was asked to carry out.
#[derive(Debug)]
pub enum Event {
    /// The operation succeeded. `value` is the descriptor where one was
    /// opened; `data` is the request as the kernel left it where a control
    /// call was made.
    Completed { value: i32, data: Vec<u8> },
    /// The operation failed, with this operating-system error code if one is
    /// known.
    Failed { cause: Option<i32> },
}

/// What the driver is asked to do next.
#[derive(Debug, PartialEq, Eq)]
pub enum Action {
    /// Open the control device file for reading and writing.
    OpenDevice,
    /// Open an unnamed datagram socket of this family.
    OpenSocket { family: Family },
    /// Issue a control call on `fd` with `request` as its argument.
    Control { fd: i32, op: ControlOp, request: Vec<u8> },
    /// Switch `fd` to non-blocking mode.
    SetNonBlocking { fd: i32 },
    /// Bind `fd` into the reactor.
    Register { fd: i32 },
    /// Remove `fd` from the reactor.
    Deregister { fd: i32 },
    /// Close `fd`. A failure to do so is not reported to anyone.
    Close { fd: i32 },
    /// Nothing: the device is ready.
    Ready,
    /// Nothing: the construction has failed and nothing is held any more.
    Failed { error: Error },
    /// Nothing: the handle is closed.
    Closed,
}

/// The mathematical form of an [`Action`].
pub enum ActionView {
    OpenDevice,
    OpenSocket { family: Family },
    Control { fd: i32, op: ControlOp, request: Seq<u8> },
    SetNonBlocking { fd: i32 },
    Register { fd: i32 },
    Deregister { fd: i32 },
    Close { fd: i32 },
    Ready,
    Failed { error: Error },
    Closed,
}

impl View for Action {
    type V = ActionView;

    open spec fn view(&self) -> ActionView {
        match *self {
            Action::OpenDevice => ActionView::OpenDevice,
            Action::OpenSocket { family } => ActionView::OpenSocket { family },
            Action::Control { fd, op, request } => ActionView::Control { fd, op, request: request@ },
            Action::SetNonBlocking { fd } => ActionView::SetNonBlocking { fd },
            Action::Register { fd } => ActionView::Register { fd },
            Action::Deregister { fd } => ActionView::Deregister { fd },
            Action::Close { fd } => ActionView::Close { fd },
            Action::Ready => ActionView::Ready,
            Action::Failed { error } => ActionView::Failed { error },
            Action::Closed => ActionView::Closed,
        }
    }
}

/// What happens to a handle: the driver reports on the outstanding
/// operation, or the owner gives the handle up.
pub enum Input {
    Outcome(Event),
    Close,
}

/// The descriptor in `slot`, or the value that stands for none.
pub open spec fn spec_fd(slot: Option<i32>) -> i32 {
    match slot {
        Some(fd) => fd,
        None => -1i32,
    }
}

/// The model of a device handle.
pub struct Lifecycle {
    /// The operation the handle waits for.
    pub stage: Stage,
    /// The kind of interface asked for.
    pub kind: DeviceKind,
    /// The addresses to assign.
    pub addressing: Addressing,
    /// The name field: the requested name until the kernel has confirmed
    /// one, the confirmed name from then on.
    pub ifname: Seq<i8>,
    /// The interface index, once it has been looked up.
    pub ifindex: i32,
    /// The descriptor of the control device file, while it is owned.
    pub device: Option<i32>,
    /// The descriptor of the control socket, while one is open.
    pub socket: Option<i32>,
    /// The failure that ended the construction.
    pub failure: Option<Error>,
}

impl Lifecycle {
    /// A handle for which nothing has been done yet.
    pub open spec fn fresh(ifname: Seq<i8>, kind: DeviceKind, addressing: Addressing) -> Lifecycle {
        Lifecycle {
            stage: Stage::OpenDevice,
            kind,
            addressing,
            ifname,
            ifindex: 0,
            device: None,
            socket: None,
            failure: None,
        }
    }

    /// What a handle holds goes with the stage it is at.
    pub open spec fn wf(self) -> bool {
        &&& self.ifname.len() == IFNAMSIZ
        &&& self.device is Some <==> self.stage.holds_device()
        &&& self.socket is Some <==> self.stage.holds_socket()
        &&& self.failure is Some ==> self.stage.is_closing() || self.stage is Finished
        &&& self.stage.assigns_v4() ==> self.addressing.v4 is Some
        &&& self.stage.assigns_v6() ==> self.addressing.v6 is Some
    }

    /// The coarse state of the handle. The state `Addressed` is passed
    /// through only where an address is configured.
    pub open spec fn state(self) -> State {
        match self.stage {
            Stage::OpenDevice => State::Unopened,
            Stage::CreateDevice => State::Opened,
            Stage::OpenSocket4
            | Stage::SetAddress4
            | Stage::SetNetmask4
            | Stage::CloseSocket4
            | Stage::OpenSocket6
            | Stage::QueryIndex6
            | Stage::SetAddress6
            | Stage::CloseSocket6 => State::Named,
            Stage::OpenSocketFlags | Stage::SetFlags => if self.addressing.any() {
                State::Addressed
            } else {
                State::Named
            },
            Stage::CloseSocketFlags | Stage::SetNonBlocking => State::Active,
            Stage::Register => State::NonBlocking,
            Stage::Ready => State::Registered,
            Stage::Deregister | Stage::ReleaseSocket | Stage::ReleaseDevice => State::Closing,
            Stage::Finished => State::Closed,
        }
    }

    /// Number of descriptors the handle owns.
    pub open spec fn held(self) -> nat {
        (if self.device is Some {
            1nat
        } else {
            0nat
        }) + (if self.socket is Some {
            1nat
        } else {
            0nat
        })
    }

    /// The stage that follows the assignment of the IPv4 address.
    pub open spec fn after_v4(self) -> Stage {
        if self.addressing.v6 is Some {
            Stage::OpenSocket6
        } else {
            Stage::OpenSocketFlags
        }
    }

    /// The stage that follows the creation of the interface.
    pub open spec fn after_create(self) -> Stage {
        if self.addressing.v4 is Some {
            Stage::OpenSocket4
        } else {
            self.after_v4()
        }
    }

    /// The stage at which a handle starts to give back what it holds.
    pub open spec fn release_stage(self) -> Stage {
        if self.socket is Some {
            Stage::ReleaseSocket
        } else if self.device is Some {
            Stage::ReleaseDevice
        } else {
            Stage::Finished
        }
    }

    /// The handle after the construction has failed: the failure is kept and
    /// everything held is given back; nothing that was configured is undone.
    pub open spec fn fail(self, kind: ErrorKind, cause: Option<i32>) -> Lifecycle {
        Lifecycle {
            failure: Some(Error { kind, cause }),
            stage: self.release_stage(),
            ..self
        }
    }

    /// The handle after the outstanding operation, one that opens or
    /// configures, has succeeded with `value` and `data`.
    pub open spec fn completed(self, value: i32, data: Seq<u8>) -> Lifecycle {
        match self.stage {
            Stage::OpenDevice => Lifecycle {
                device: Some(value),
                stage: Stage::CreateDevice,
                ..self
            },
            Stage::CreateDevice => if data.len() >= IFNAMSIZ {
                Lifecycle {
                    ifname: spec_response_name(data),
                    stage: self.after_create(),
                    ..self
                }
            } else {
                self.fail(ErrorKind::Create, None)
            },
            Stage::OpenSocket4 => Lifecycle {
                socket: Some(value),
                stage: Stage::SetAddress4,
                ..self
            },
            Stage::SetAddress4 => Lifecycle { stage: Stage::SetNetmask4, ..self },
            Stage::SetNetmask4 => Lifecycle { stage: Stage::CloseSocket4, ..self },
            Stage::OpenSocket6 => Lifecycle {
                socket: Some(value),
                stage: Stage::QueryIndex6,
                ..self
            },
            Stage::QueryIndex6 => if data.len() >= IFNAMSIZ + 4 {
                Lifecycle {
                    ifindex: spec_response_index(data),
                    stage: Stage::SetAddress6,
                    ..self
                }
            } else {
                self.fail(ErrorKind::AddIp, None)
            },
            Stage::SetAddress6 => Lifecycle { stage: Stage::CloseSocket6, ..self },
            Stage::OpenSocketFlags => Lifecycle {
                socket: Some(value),
                stage: Stage::SetFlags,
                ..self
            },
            Stage::SetFlags => Lifecycle { stage: Stage::CloseSocketFlags, ..self },
            Stage::SetNonBlocking => Lifecycle { stage: Stage::Register, ..self },
            Stage::Register => Lifecycle { stage: Stage::Ready, ..self },
            _ => self,
        }
    }

    /// The handle after the outstanding operation, one that gives something
    /// back, has been carried out, whether it succeeded or not.
    pub open spec fn released(self) -> Lifecycle {
        match self.stage {
            Stage::CloseSocket4 => Lifecycle { socket: None, stage: self.after_v4(), ..self },
            Stage::CloseSocket6 => Lifecycle {
                socket: None,
                stage: Stage::OpenSocketFlags,
                ..self
            },
            Stage::CloseSocketFlags => Lifecycle {
                socket: None,
                stage: Stage::SetNonBlocking,
                ..self
            },
            Stage::Deregister => Lifecycle { stage: Stage::ReleaseDevice, ..self },
            Stage::ReleaseSocket => Lifecycle {
                socket: None,
                stage: Lifecycle { socket: None, ..self }.release_stage(),
                ..self
            },
            Stage::ReleaseDevice => Lifecycle { device: None, stage: Stage::Finished, ..self },
            _ => self,
        }
    }

    /// The handle after the driver has reported `event`.
    pub open spec fn step(self, event: Event) -> Lifecycle {
        if self.stage.is_idle() {
            self
        } else if self.stage.is_release() {
            self.released()
        } else {
            match event {
                Event::Completed { value, data } => self.completed(value, data@),
                Event::Failed { cause } => self.fail(self.stage.failure_kind(), cause),
            }
        }
    }

    /// The handle after its owner has given it up. A ready device leaves the
    /// reactor first; any other handle abandons the outstanding operation and
    /// gives back what it holds.
    pub open spec fn close(self) -> Lifecycle {
        if self.stage is Ready {
            Lifecycle { stage: Stage::Deregister, ..self }
        } else if self.stage.is_closing() || self.stage is Finished {
            self
        } else {
            Lifecycle { stage: self.release_stage(), ..self }
        }
    }

    /// The handle after `input`.
    pub open spec fn feed(self, input: Input) -> Lifecycle {
        match input {
            Input::Outcome(event) => self.step(event),
            Input::Close => self.close(),
        }
    }

    /// The handle after the inputs `inputs`, first to last.
    pub open spec fn run(self, inputs: Seq<Input>) -> Lifecycle
        decreases inputs.len(),
    {
        if inputs.len() == 0 {
            self
        } else {
            self.feed(inputs[0]).run(inputs.drop_first())
        }
    }

    /// Whether `input` reports that a descriptor has been opened.
    pub open spec fn acquires(self, input: Input) -> bool {
        self.stage.is_open() && input matches Input::Outcome(Event::Completed { .. })
    }

    /// Whether `input` reports that a descriptor has been closed.
    pub open spec fn releases(self, input: Input) -> bool {
        self.action() is Close && input is Outcome
    }

    /// Number of descriptors opened in the course of `inputs`.
    pub open spec fn opened(self, inputs: Seq<Input>) -> nat
        decreases inputs.len(),
    {
        if inputs.len() == 0 {
            0
        } else {
            (if self.acquires(inputs[0]) {
                1nat
            } else {
                0nat
            }) + self.feed(inputs[0]).opened(inputs.drop_first())
        }
    }

    /// Number of descriptors closed in the course of `inputs`.
    pub open spec fn closed(self, inputs: Seq<Input>) -> nat
        decreases inputs.len(),
    {
        if inputs.len() == 0 {
            0
        } else {
            (if self.releases(inputs[0]) {
                1nat
            } else {
                0nat
            }) + self.feed(inputs[0]).closed(inputs.drop_first())
        }
    }

    /// The request of the control call `op` as this handle issues it.
    pub open spec fn request(self, op: ControlOp) -> Seq<u8> {
        match op {
            ControlOp::Create => spec_ifreq_bytes(self.ifname, self.kind.flag().spec_bytes()),
            ControlOp::SetAddress => spec_ifreq_bytes(
                self.ifname,
                spec_sockaddr_in_bytes(self.addressing.spec_address4()),
            ),
            ControlOp::SetNetmask => spec_ifreq_bytes(
                self.ifname,
                spec_sockaddr_in_bytes(self.addressing.spec_netmask4()),
            ),
            ControlOp::GetIndex => spec_ifreq_bytes(self.ifname, spec_u32_le(0)),
            ControlOp::SetAddress6 => spec_ifreq_bytes(
                self.ifname,
                spec_in6_ifreq_bytes(
                    self.addressing.spec_address6(),
                    self.addressing.spec_prefix6(),
                    self.ifindex,
                ),
            ),
            ControlOp::SetFlags => spec_ifreq_bytes(self.ifname, spec_u16_le(spec_up_running())),
        }
    }

    /// The control call `op` on the descriptor in `slot`.
    pub open spec fn control(self, slot: Option<i32>, op: ControlOp) -> ActionView {
        ActionView::Control { fd: spec_fd(slot), op, request: self.request(op) }
    }

    /// What the driver has to do for a handle in this state.
    pub open spec fn action(self) -> ActionView {
        match self.stage {
            Stage::OpenDevice => ActionView::OpenDevice,
            Stage::CreateDevice => self.control(self.device, ControlOp::Create),
            Stage::OpenSocket4 => ActionView::OpenSocket { family: Family::Inet },
            Stage::SetAddress4 => self.control(self.socket, ControlOp::SetAddress),
            Stage::SetNetmask4 => self.control(self.socket, ControlOp::SetNetmask),
            Stage::OpenSocket6 => ActionView::OpenSocket { family: Family::Inet6 },
            Stage::QueryIndex6 => self.control(self.socket, ControlOp::GetIndex),
            Stage::SetAddress6 => self.control(self.socket, ControlOp::SetAddress6),
            Stage::OpenSocketFlags => ActionView::OpenSocket { family: Family::Inet },
            Stage::SetFlags => self.control(self.socket, ControlOp::SetFlags),
            Stage::CloseSocket4
            | Stage::CloseSocket6
            | Stage::CloseSocketFlags
            | Stage::ReleaseSocket => ActionView::Close { fd: spec_fd(self.socket) },
            Stage::SetNonBlocking => ActionView::SetNonBlocking { fd: spec_fd(self.device) },
            Stage::Register => ActionView::Register { fd: spec_fd(self.device) },
            Stage::Ready => ActionView::Ready,
            Stage::Deregister => ActionView::Deregister { fd: spec_fd(self.device) },
            Stage::ReleaseDevice => ActionView::Close { fd: spec_fd(self.device) },
            Stage::Finished => match self.failure {
                Some(error) => ActionView::Failed { error },
                None => ActionView::Closed,
            },
        }
    }
}

} // verus!
