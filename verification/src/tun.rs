//! The device handle.
//!
//! A [`Tun`] makes no system call. It tells its driver, one operation at a
//! time, what to do to bring the device up, and takes the outcome of each
//! operation back. Whatever happens, it asks for every descriptor that was
//! opened to be closed again.

use vstd::prelude::*;
use vstd::utf8::encode_utf8;
use crate::ffi::{
    addr4_to_raw,
    addr6_to_raw,
    ifreq,
    in6_ifreq,
    sockaddr_in,
    spec_up_running,
    up_running,
    DevConfigFlags,
    SIOCGIFINDEX,
    SIOCSIFADDR,
    SIOCSIFFLAGS,
    SIOCSIFNETMASK,
    TUNSETIFF,
};
use crate::layout::{
    lemma_sockaddr_in_bytes,
    name_field,
    response_index,
    response_name,
    spec_in6_ifreq_bytes,
    spec_name_field,
    spec_sockaddr_in_bytes,
    spec_zeros,
    Payload,
    IFNAMSIZ,
};
use crate::error::{Error, ErrorKind};
use crate::laws::lemma_feed_keeps_wf;
use crate::lifecycle::{
    Action,
    Addressing,
    ControlOp,
    DeviceKind,
    Event,
    Family,
    Input,
    Lifecycle,
    Stage,
    State,
    spec_fd,
};

verus! {

/// The bytes of the requested interface name; none where the kernel is left
/// to choose.
pub open spec fn spec_requested_name(name: Option<String>) -> Seq<u8> {
    match name {
        Some(text) => encode_utf8(text@),
        None => Seq::empty(),
    }
}

impl ControlOp {
    /// The command code of the control call.
    #[verifier::allow_in_spec]
    pub fn code(self) -> u32
        returns
            (match self {
                ControlOp::Create => TUNSETIFF,
                ControlOp::SetAddress | ControlOp::SetAddress6 => SIOCSIFADDR as u32,
                ControlOp::SetNetmask => SIOCSIFNETMASK as u32,
                ControlOp::GetIndex => SIOCGIFINDEX as u32,
                ControlOp::SetFlags => SIOCSIFFLAGS as u32,
            }),
    {
        match self {
            ControlOp::Create => TUNSETIFF,
            ControlOp::SetAddress | ControlOp::SetAddress6 => SIOCSIFADDR as u32,
            ControlOp::SetNetmask => SIOCSIFNETMASK as u32,
            ControlOp::GetIndex => SIOCGIFINDEX as u32,
            ControlOp::SetFlags => SIOCSIFFLAGS as u32,
        }
    }
}

/// A handle on a tunnel device that is being brought up, is in use, or has
/// been given back.
pub struct Tun {
    name: Option<String>,
    stage: Stage,
    kind: DeviceKind,
    addressing: Addressing,
    ifname: [i8; 16],
    ifindex: i32,
    device: Option<i32>,
    socket: Option<i32>,
    failure: Option<Error>,
}

impl View for Tun {
    type V = Lifecycle;

    closed spec fn view(&self) -> Lifecycle {
        Lifecycle {
            stage: self.stage,
            kind: self.kind,
            addressing: self.addressing,
            ifname: self.ifname@,
            ifindex: self.ifindex,
            device: self.device,
            socket: self.socket,
            failure: self.failure,
        }
    }
}

fn fd_of(slot: Option<i32>) -> (fd: i32)
    ensures
        fd == spec_fd(slot),
{
    match slot {
        Some(fd) => fd,
        None => -1,
    }
}

impl Tun {
    /// The name that was asked for.
    pub closed spec fn spec_name(&self) -> Option<String> {
        self.name
    }

    /// The name that was asked for; `None` where the kernel was left to
    /// choose.
    pub fn name(&self) -> (name: &Option<String>)
        ensures
            *name == self.spec_name(),
    {
        &self.name
    }

    /// Starts the construction of a tunnel device called `name`, or of one
    /// that the kernel names where `name` is `None`. A name of sixteen bytes
    /// or more is refused at once; nothing has been opened for it.
    pub fn new(name: Option<String>, addressing: Addressing) -> (r: Result<Tun, Error>)
        ensures
            spec_requested_name(name).len() >= IFNAMSIZ ==> r == Err::<Tun, Error>(
                Error {
                    kind: ErrorKind::NameTooLong(spec_requested_name(name).len() as usize),
                    cause: None,
                },
            ),
            spec_requested_name(name).len() < IFNAMSIZ ==> r is Ok && r.unwrap().spec_name() == name
                && r.unwrap()@ == Lifecycle::fresh(
                spec_name_field(spec_requested_name(name)),
                DeviceKind::Tun,
                addressing,
            ),
            r is Ok ==> r.unwrap()@.wf(),
    {
        Tun::with_kind(name, DeviceKind::Tun, addressing)
    }

    /// Starts the construction of a device of the given kind.
    pub fn with_kind(name: Option<String>, kind: DeviceKind, addressing: Addressing) -> (r: Result<
        Tun,
        Error,
    >)
        ensures
            spec_requested_name(name).len() >= IFNAMSIZ ==> r == Err::<Tun, Error>(
                Error {
                    kind: ErrorKind::NameTooLong(spec_requested_name(name).len() as usize),
                    cause: None,
                },
            ),
            spec_requested_name(name).len() < IFNAMSIZ ==> r is Ok && r.unwrap().spec_name() == name
                && r.unwrap()@ == Lifecycle::fresh(
                spec_name_field(spec_requested_name(name)),
                kind,
                addressing,
            ),
            r is Ok ==> r.unwrap()@.wf(),
    {
        let empty: Vec<u8> = Vec::new();
        let bytes: &[u8] = match &name {
            Some(text) => text.as_str().as_bytes(),
            None => empty.as_slice(),
        };
        match name_field(bytes) {
            Some(ifname) => Ok(
                Tun {
                    name,
                    stage: Stage::OpenDevice,
                    kind,
                    addressing,
                    ifname,
                    ifindex: 0,
                    device: None,
                    socket: None,
                    failure: None,
                },
            ),
            None => Err(Error { kind: ErrorKind::NameTooLong(bytes.len()), cause: None }),
        }
    }

    /// The request that creates the interface `name`, or has the kernel name
    /// one where `name` is empty.
    pub fn create(name: [i8; 16], kind: DeviceKind) -> (request: ifreq<i16>)
        ensures
            request.name == name,
            request.data == kind.flag(),
    {
        ifreq { name, data: kind.flag() }
    }

    /// The requests that assign the IPv4 address `ip` and the netmask `mask`
    /// to the interface `name`: first the address-set, then the netmask-set.
    /// The kernel keeps an address that was set even if the netmask is then
    /// refused.
    pub fn add_ip4(name: [i8; 16], ip: [u8; 4], mask: [u8; 4]) -> (requests: (
        ifreq<sockaddr_in>,
        ifreq<sockaddr_in>,
    ))
        ensures
            requests.0.name == name,
            requests.1.name == name,
            requests.0.data.spec_bytes() == spec_sockaddr_in_bytes(ip@),
            requests.1.data.spec_bytes() == spec_sockaddr_in_bytes(mask@),
    {
        let address = addr4_to_raw(ip);
        let netmask = addr4_to_raw(mask);
        proof {
            assert(address.sin_zero@ =~= spec_zeros(8));
            assert(netmask.sin_zero@ =~= spec_zeros(8));
            lemma_sockaddr_in_bytes(address, ip@);
            lemma_sockaddr_in_bytes(netmask, mask@);
        }
        (ifreq { name, data: address }, ifreq { name, data: netmask })
    }

    /// The request that looks up the index of the interface `name`.
    pub fn query_index(name: [i8; 16]) -> (request: ifreq<i32>)
        ensures
            request.name == name,
            request.data == 0,
    {
        ifreq { name, data: 0 }
    }

    /// The request that adds the IPv6 address `ip` with the prefix length
    /// `prefix_len` to the interface `name`, whose index is `index`.
    pub fn add_ip6(name: [i8; 16], ip: [u8; 16], prefix_len: u32, index: i32) -> (request: ifreq<
        in6_ifreq,
    >)
        ensures
            request.name == name,
            request.data.spec_bytes() == spec_in6_ifreq_bytes(ip@, prefix_len, index),
    {
        ifreq {
            name,
            data: in6_ifreq { addr: addr6_to_raw(ip), prefixlen: prefix_len, ifindex: index },
        }
    }

    /// The request that sets the administrative flags of the interface
    /// `name` to `flags`.
    pub fn set_flags(name: [i8; 16], flags: DevConfigFlags) -> (request: ifreq<DevConfigFlags>)
        ensures
            request.name == name,
            request.data == flags,
    {
        ifreq { name, data: flags }
    }

    /// The request that brings the interface `name` up: it sets the flags
    /// "up" and "running".
    pub fn set_up(name: [i8; 16]) -> (request: ifreq<DevConfigFlags>)
        ensures
            request.name == name,
            request.data.spec_bits() == spec_up_running(),
    {
        Tun::set_flags(name, up_running())
    }

    /// The stage of the construction.
    pub fn stage(&self) -> (stage: Stage)
        ensures
            stage == self@.stage,
    {
        self.stage
    }

    /// The coarse state of the handle.
    pub fn state(&self) -> (state: State)
        ensures
            state == self@.state(),
    {
        match self.stage {
            Stage::OpenDevice => State::Unopened,
            Stage::CreateDevice => State::Opened,
            Stage::OpenSocket4
            | Stage::SetAddress4
            | Stage::SetNetmask4
            | Stage::CloseSocket4
            | Stage::OpenSocket6
            | Stage::QueryIndex6
            | Stage::SetAddress6
            | Stage::CloseSocket6 => State::Named,
            Stage::OpenSocketFlags | Stage::SetFlags => if self.addressing.any() {
                State::Addressed
            } else {
                State::Named
            },
            Stage::CloseSocketFlags | Stage::SetNonBlocking => State::Active,
            Stage::Register => State::NonBlocking,
            Stage::Ready => State::Registered,
            Stage::Deregister | Stage::ReleaseSocket | Stage::ReleaseDevice => State::Closing,
            Stage::Finished => State::Closed,
        }
    }

    /// The name field: the requested name until the kernel has confirmed
    /// one, the confirmed name from then on.
    pub fn ifname(&self) -> (ifname: [i8; 16])
        ensures
            ifname@ == self@.ifname,
    {
        self.ifname
    }

    /// The descriptor of the device, while the handle owns it.
    pub fn device(&self) -> (device: Option<i32>)
        ensures
            device == self@.device,
    {
        self.device
    }

    /// The failure that ended the construction, if one did.
    pub fn error(&self) -> (failure: Option<Error>)
        ensures
            failure == self@.failure,
    {
        self.failure
    }

    fn v4(&self) -> (pair: ([u8; 4], [u8; 4]))
        ensures
            pair.0@ == self@.addressing.spec_address4(),
            pair.1@ == self@.addressing.spec_netmask4(),
    {
        match self.addressing.v4 {
            Some(config) => (config.address, config.netmask),
            None => {
                let zeros: [u8; 4] = [0; 4];
                assert(zeros@ =~= spec_zeros(4));
                (zeros, zeros)
            },
        }
    }

    fn v6(&self) -> (pair: ([u8; 16], u32))
        ensures
            pair.0@ == self@.addressing.spec_address6(),
            pair.1 == self@.addressing.spec_prefix6(),
    {
        match self.addressing.v6 {
            Some(config) => (config.address, config.prefix_len),
            None => {
                let zeros: [u8; 16] = [0; 16];
                assert(zeros@ =~= spec_zeros(16));
                (zeros, 0)
            },
        }
    }

    fn control(&self, slot: Option<i32>, op: ControlOp) -> (action: Action)
        ensures
            action@ == self@.control(slot, op),
    {
        let request: Vec<u8> = match op {
            ControlOp::Create => Tun::create(self.ifname, self.kind).to_bytes(),
            ControlOp::SetAddress => {
                let (ip, mask) = self.v4();
                Tun::add_ip4(self.ifname, ip, mask).0.to_bytes()
            },
            ControlOp::SetNetmask => {
                let (ip, mask) = self.v4();
                Tun::add_ip4(self.ifname, ip, mask).1.to_bytes()
            },
            ControlOp::GetIndex => Tun::query_index(self.ifname).to_bytes(),
            ControlOp::SetAddress6 => {
                let (ip, prefix_len) = self.v6();
                Tun::add_ip6(self.ifname, ip, prefix_len, self.ifindex).to_bytes()
            },
            ControlOp::SetFlags => Tun::set_up(self.ifname).to_bytes(),
        };
        Action::Control { fd: fd_of(slot), op, request }
    }

    /// What the driver has to do next.
    pub fn action(&self) -> (action: Action)
        ensures
            action@ == self@.action(),
    {
        match self.stage {
            Stage::OpenDevice => Action::OpenDevice,
            Stage::CreateDevice => self.control(self.device, ControlOp::Create),
            Stage::OpenSocket4 => Action::OpenSocket { family: Family::Inet },
            Stage::SetAddress4 => self.control(self.socket, ControlOp::SetAddress),
            Stage::SetNetmask4 => self.control(self.socket, ControlOp::SetNetmask),
            Stage::OpenSocket6 => Action::OpenSocket { family: Family::Inet6 },
            Stage::QueryIndex6 => self.control(self.socket, ControlOp::GetIndex),
            Stage::SetAddress6 => self.control(self.socket, ControlOp::SetAddress6),
            Stage::OpenSocketFlags => Action::OpenSocket { family: Family::Inet },
            Stage::SetFlags => self.control(self.socket, ControlOp::SetFlags),
            Stage::CloseSocket4
            | Stage::CloseSocket6
            | Stage::CloseSocketFlags
            | Stage::ReleaseSocket => Action::Close { fd: fd_of(self.socket) },
            Stage::SetNonBlocking => Action::SetNonBlocking { fd: fd_of(self.device) },
            Stage::Register => Action::Register { fd: fd_of(self.device) },
            Stage::Ready => Action::Ready,
            Stage::Deregister => Action::Deregister { fd: fd_of(self.device) },
            Stage::ReleaseDevice => Action::Close { fd: fd_of(self.device) },
            Stage::Finished => match self.failure {
                Some(error) => Action::Failed { error },
                None => Action::Closed,
            },
        }
    }

    fn after_v4(&self) -> (stage: Stage)
        ensures
            stage == self@.after_v4(),
    {
        if self.addressing.v6.is_some() {
            Stage::OpenSocket6
        } else {
            Stage::OpenSocketFlags
        }
    }

    fn after_create(&self) -> (stage: Stage)
        ensures
            stage == self@.after_create(),
    {
        if self.addressing.v4.is_some() {
            Stage::OpenSocket4
        } else {
            self.after_v4()
        }
    }

    fn release_stage(&self) -> (stage: Stage)
        ensures
            stage == self@.release_stage(),
    {
        if self.socket.is_some() {
            Stage::ReleaseSocket
        } else if self.device.is_some() {
            Stage::ReleaseDevice
        } else {
            Stage::Finished
        }
    }

    fn fail(&mut self, kind: ErrorKind, cause: Option<i32>)
        ensures
            final(self)@ == old(self)@.fail(kind, cause),
            final(self).spec_name() == old(self).spec_name(),
    {
        self.failure = Some(Error { kind, cause });
        self.stage = self.release_stage();
    }

    fn completed(&mut self, value: i32, data: &[u8])
        ensures
            final(self)@ == old(self)@.completed(value, data@),
            final(self).spec_name() == old(self).spec_name(),
    {
        match self.stage {
            Stage::OpenDevice => {
                self.device = Some(value);
                self.stage = Stage::CreateDevice;
            },
            Stage::CreateDevice => match response_name(data) {
                Some(field) => {
                    self.stage = self.after_create();
                    self.ifname = field;
                },
                None => self.fail(ErrorKind::Create, None),
            },
            Stage::OpenSocket4 => {
                self.socket = Some(value);
                self.stage = Stage::SetAddress4;
            },
            Stage::SetAddress4 => {
                self.stage = Stage::SetNetmask4;
            },
            Stage::SetNetmask4 => {
                self.stage = Stage::CloseSocket4;
            },
            Stage::OpenSocket6 => {
                self.socket = Some(value);
                self.stage = Stage::QueryIndex6;
            },
            Stage::QueryIndex6 => match response_index(data) {
                Some(index) => {
                    self.ifindex = index;
                    self.stage = Stage::SetAddress6;
                },
                None => self.fail(ErrorKind::AddIp, None),
            },
            Stage::SetAddress6 => {
                self.stage = Stage::CloseSocket6;
            },
            Stage::OpenSocketFlags => {
                self.socket = Some(value);
                self.stage = Stage::SetFlags;
            },
            Stage::SetFlags => {
                self.stage = Stage::CloseSocketFlags;
            },
            Stage::SetNonBlocking => {
                self.stage = Stage::Register;
            },
            Stage::Register => {
                self.stage = Stage::Ready;
            },
            _ => {},
        }
    }

    fn released(&mut self)
        ensures
            final(self)@ == old(self)@.released(),
            final(self).spec_name() == old(self).spec_name(),
    {
        match self.stage {
            Stage::CloseSocket4 => {
                self.socket = None;
                self.stage = self.after_v4();
            },
            Stage::CloseSocket6 => {
                self.socket = None;
                self.stage = Stage::OpenSocketFlags;
            },
            Stage::CloseSocketFlags => {
                self.socket = None;
                self.stage = Stage::SetNonBlocking;
            },
            Stage::Deregister => {
                self.stage = Stage::ReleaseDevice;
            },
            Stage::ReleaseSocket => {
                self.socket = None;
                self.stage = self.release_stage();
            },
            Stage::ReleaseDevice => {
                self.device = None;
                self.stage = Stage::Finished;
            },
            _ => {},
        }
    }

    /// Takes the outcome of the operation that was asked for last and says
    /// what to do next. An outcome that arrives while no operation is
    /// outstanding changes nothing.
    pub fn step(&mut self, event: Event) -> (action: Action)
        ensures
            final(self)@ == old(self)@.step(event),
            final(self).spec_name() == old(self).spec_name(),
            action@ == final(self)@.action(),
            old(self)@.wf() ==> final(self)@.wf(),
    {
        proof {
            if self@.wf() {
                lemma_feed_keeps_wf(self@, Input::Outcome(event));
            }
        }
        if self.stage.is_idle() {
        } else if self.stage.is_release() {
            self.released();
        } else {
            match event {
                Event::Completed { value, data } => {
                    self.completed(value, data.as_slice());
                },
                Event::Failed { cause } => {
                    let kind = self.stage.failure_kind();
                    self.fail(kind, cause);
                },
            }
        }
        self.action()
    }

    /// Gives the handle up and says what to do next. The operation that was
    /// asked for last, if it has not been carried out, is abandoned.
    pub fn close(&mut self) -> (action: Action)
        ensures
            final(self)@ == old(self)@.close(),
            final(self).spec_name() == old(self).spec_name(),
            action@ == final(self)@.action(),
            old(self)@.wf() ==> final(self)@.wf(),
    {
        proof {
            if self@.wf() {
                lemma_feed_keeps_wf(self@, Input::Close);
            }
        }
        match self.stage {
            Stage::Ready => {
                self.stage = Stage::Deregister;
            },
            Stage::Deregister | Stage::ReleaseSocket | Stage::ReleaseDevice | Stage::Finished => {},
            _ => {
                self.stage = self.release_stage();
            },
        }
        self.action()
    }
}

} // verus!
