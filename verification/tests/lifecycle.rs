use tun::ffi::{ifreq, IFF_TUN};
use tun::layout::name_field;
use tun::error::{Error, ErrorKind};
use tun::lifecycle::{
    Action, Addressing, ControlOp, DeviceKind, Event, Family, Ipv4Config, Ipv6Config, Stage,
    State,
};
use tun::tun::Tun;

const DEVICE: i32 = 3;
const SOCKET: i32 = 4;

fn done() -> Event {
    Event::Completed { value: 0, data: Vec::new() }
}

fn opened(fd: i32) -> Event {
    Event::Completed { value: fd, data: Vec::new() }
}

fn failed(code: i32) -> Event {
    Event::Failed { cause: Some(code) }
}

fn field(name: &str) -> [i8; 16] {
    name_field(name.as_bytes()).unwrap()
}

/// What the kernel hands back for a creation request: the request with the
/// name it has settled on.
fn named(name: &str) -> Event {
    Event::Completed { value: 0, data: ifreq { name: field(name), data: IFF_TUN }.to_bytes() }
}

fn indexed(name: &str, index: i32) -> Event {
    Event::Completed { value: 0, data: ifreq { name: field(name), data: index }.to_bytes() }
}

fn both() -> Addressing {
    Addressing {
        v4: Some(Ipv4Config { address: [10, 9, 3, 2], netmask: [255, 255, 255, 0] }),
        v6: Some(Ipv6Config { address: [0xfd, 0, 0, 0, 0, 0, 0, 0, 0, 0, 0, 0, 0, 0, 0, 1], prefix_len: 64 }),
    }
}

/// Answers every operation with success, the way a willing kernel would,
/// and counts the descriptors it hands out and takes back.
struct Kernel {
    name: &'static str,
    index: i32,
    next_fd: i32,
    open: Vec<i32>,
    opened: usize,
    closed: usize,
    log: Vec<Action>,
}

impl Kernel {
    fn new(name: &'static str) -> Kernel {
        Kernel { name, index: 5, next_fd: DEVICE, open: Vec::new(), opened: 0, closed: 0, log: Vec::new() }
    }

    fn open_fd(&mut self) -> Event {
        let fd = self.next_fd;
        self.next_fd += 1;
        self.open.push(fd);
        self.opened += 1;
        opened(fd)
    }

    /// Carries `action` out, or `None` where there is nothing to carry out.
    fn perform(&mut self, action: &Action) -> Option<Event> {
        let event = match action {
            Action::OpenDevice | Action::OpenSocket { .. } => self.open_fd(),
            Action::Control { fd, op, .. } => {
                assert!(self.open.contains(fd), "control call on a descriptor that is not open");
                match op {
                    ControlOp::Create => named(self.name),
                    ControlOp::GetIndex => indexed(self.name, self.index),
                    _ => done(),
                }
            },
            Action::SetNonBlocking { fd } | Action::Register { fd } | Action::Deregister { fd } => {
                assert!(self.open.contains(fd));
                done()
            },
            Action::Close { fd } => {
                let at = self.open.iter().position(|open| open == fd);
                let at = at.expect("closed a descriptor that is not open");
                self.open.remove(at);
                self.closed += 1;
                done()
            },
            Action::Ready | Action::Failed { .. } | Action::Closed => return None,
        };
        Some(event)
    }

    /// Drives `tun` until it asks for nothing more, failing the operation
    /// for which `fail` says so.
    fn drive(&mut self, tun: &mut Tun, fail: &dyn Fn(&Action) -> Option<i32>) -> Action {
        let mut action = tun.action();
        loop {
            let event = match fail(&action) {
                Some(code) => match action {
                    Action::Ready | Action::Failed { .. } | Action::Closed => None,
                    Action::Close { .. } => {
                        self.perform(&action);
                        Some(failed(code))
                    },
                    _ => Some(failed(code)),
                },
                None => self.perform(&action),
            };
            self.log.push(action);
            match event {
                Some(event) => action = tun.step(event),
                None => return self.log.pop().unwrap(),
            }
        }
    }
}

fn never(_: &Action) -> Option<i32> {
    None
}

fn ops(log: &[Action]) -> Vec<ControlOp> {
    let mut ops = Vec::new();
    for action in log {
        if let Action::Control { op, .. } = action {
            ops.push(*op);
        }
    }
    ops
}

#[test]
fn name_of_sixteen_bytes_is_refused() {
    let name = "abcdefghijklmnop".to_string();
    let err = Tun::new(Some(name), Addressing::none()).err().unwrap();
    assert_eq!(err, Error { kind: ErrorKind::NameTooLong(16), cause: None });
}

#[test]
fn longer_names_are_refused_with_their_length() {
    let name = "x".repeat(40);
    let err = Tun::new(Some(name), Addressing::none()).err().unwrap();
    assert_eq!(err.kind, ErrorKind::NameTooLong(40));
    assert_eq!(err.cause, None);
}

#[test]
fn name_length_counts_bytes_not_characters() {
    // eight characters of two bytes each
    let name = "éééééééé".to_string();
    let err = Tun::new(Some(name), Addressing::none()).err().unwrap();
    assert_eq!(err.kind, ErrorKind::NameTooLong(16));
    // seven of them and one of one byte fit
    let name = "éééééééa".to_string();
    assert!(Tun::new(Some(name), Addressing::none()).is_ok());
}

#[test]
fn name_of_fifteen_bytes_passes_the_check() {
    let name = "abcdefghijklmno".to_string();
    let tun = Tun::new(Some(name.clone()), Addressing::none()).unwrap();
    assert_eq!(tun.name(), &Some(name));
    assert_eq!(tun.action(), Action::OpenDevice);
    assert_eq!(tun.stage(), Stage::OpenDevice);
    assert_eq!(tun.state(), State::Unopened);
    assert_eq!(tun.device(), None);
    assert_eq!(tun.error(), None);
    assert_eq!(tun.ifname(), field("abcdefghijklmno"));
}

#[test]
fn short_names_pass_the_check() {
    for len in 0..16 {
        let name = "n".repeat(len);
        let tun = Tun::new(Some(name), Addressing::none()).unwrap();
        assert_eq!(tun.action(), Action::OpenDevice);
    }
}

#[test]
fn no_name_leaves_the_choice_to_the_kernel() {
    let mut tun = Tun::new(None, Addressing::none()).unwrap();
    assert_eq!(tun.name(), &None);
    assert_eq!(tun.ifname(), [0i8; 16]);
    let action = tun.step(opened(DEVICE));
    let request = ifreq { name: [0i8; 16], data: IFF_TUN }.to_bytes();
    assert_eq!(action, Action::Control { fd: DEVICE, op: ControlOp::Create, request });
    tun.step(named("tun3"));
    assert_eq!(tun.ifname(), field("tun3"));
}

#[test]
fn construction_without_addresses() {
    let mut tun = Tun::new(Some("pote".to_string()), Addressing::none()).unwrap();
    assert_eq!(tun.action(), Action::OpenDevice);

    let request = ifreq { name: field("pote"), data: IFF_TUN }.to_bytes();
    assert_eq!(tun.step(opened(DEVICE)), Action::Control { fd: DEVICE, op: ControlOp::Create, request });
    assert_eq!(tun.state(), State::Opened);
    assert_eq!(tun.device(), Some(DEVICE));

    assert_eq!(tun.step(named("pote")), Action::OpenSocket { family: Family::Inet });
    assert_eq!(tun.state(), State::Named);

    let mut request = vec![0u8; 40];
    request[..4].copy_from_slice(b"pote");
    request[16] = 0x41;
    assert_eq!(tun.step(opened(SOCKET)), Action::Control { fd: SOCKET, op: ControlOp::SetFlags, request });

    assert_eq!(tun.step(done()), Action::Close { fd: SOCKET });
    assert_eq!(tun.state(), State::Active);
    assert_eq!(tun.step(done()), Action::SetNonBlocking { fd: DEVICE });
    assert_eq!(tun.step(done()), Action::Register { fd: DEVICE });
    assert_eq!(tun.state(), State::NonBlocking);
    assert_eq!(tun.step(done()), Action::Ready);
    assert_eq!(tun.state(), State::Registered);
    assert_eq!(tun.stage(), Stage::Ready);
    assert_eq!(tun.error(), None);
    assert_eq!(tun.device(), Some(DEVICE));
}

#[test]
fn construction_with_an_ipv4_address() {
    let addressing = Addressing::ipv4([10, 9, 3, 2], [255, 255, 255, 0]);
    let mut tun = Tun::new(Some("pote".to_string()), addressing).unwrap();
    tun.step(opened(DEVICE));
    assert_eq!(tun.step(named("pote")), Action::OpenSocket { family: Family::Inet });

    let mut address = vec![0u8; 40];
    address[..4].copy_from_slice(b"pote");
    address[16] = 2;
    address[20..24].copy_from_slice(&[10, 9, 3, 2]);
    assert_eq!(
        tun.step(opened(SOCKET)),
        Action::Control { fd: SOCKET, op: ControlOp::SetAddress, request: address }
    );

    let mut netmask = vec![0u8; 40];
    netmask[..4].copy_from_slice(b"pote");
    netmask[16] = 2;
    netmask[20..24].copy_from_slice(&[255, 255, 255, 0]);
    assert_eq!(
        tun.step(done()),
        Action::Control { fd: SOCKET, op: ControlOp::SetNetmask, request: netmask }
    );
    assert_eq!(tun.state(), State::Named);

    assert_eq!(tun.step(done()), Action::Close { fd: SOCKET });
    assert_eq!(tun.step(done()), Action::OpenSocket { family: Family::Inet });
    assert_eq!(tun.state(), State::Addressed);
    assert_eq!(tun.stage(), Stage::OpenSocketFlags);
}

#[test]
fn construction_with_an_ipv6_address() {
    let address = [0x20, 0x01, 0x0d, 0xb8, 0, 0, 0, 0, 0, 0, 0, 0, 0, 0, 0, 1];
    let mut tun = Tun::new(None, Addressing::ipv6(address, 48)).unwrap();
    tun.step(opened(DEVICE));
    assert_eq!(tun.step(named("tun0")), Action::OpenSocket { family: Family::Inet6 });

    let mut query = vec![0u8; 40];
    query[..4].copy_from_slice(b"tun0");
    assert_eq!(
        tun.step(opened(SOCKET)),
        Action::Control { fd: SOCKET, op: ControlOp::GetIndex, request: query }
    );

    let mut assign = vec![0u8; 40];
    assign[..4].copy_from_slice(b"tun0");
    assign[16..32].copy_from_slice(&address);
    assign[32] = 48;
    assign[36] = 9;
    assert_eq!(
        tun.step(indexed("tun0", 9)),
        Action::Control { fd: SOCKET, op: ControlOp::SetAddress6, request: assign }
    );
    assert_eq!(tun.step(done()), Action::Close { fd: SOCKET });
    assert_eq!(tun.step(done()), Action::OpenSocket { family: Family::Inet });
    assert_eq!(tun.stage(), Stage::OpenSocketFlags);
}

#[test]
fn construction_with_both_addresses_runs_every_call_in_order() {
    let mut tun = Tun::new(Some("pote".to_string()), both()).unwrap();
    let mut kernel = Kernel::new("pote");
    let last = kernel.drive(&mut tun, &never);
    assert_eq!(last, Action::Ready);
    assert_eq!(
        ops(&kernel.log),
        vec![
            ControlOp::Create,
            ControlOp::SetAddress,
            ControlOp::SetNetmask,
            ControlOp::GetIndex,
            ControlOp::SetAddress6,
            ControlOp::SetFlags,
        ]
    );
    // the device stays open; each of the three control sockets is gone again
    assert_eq!(kernel.open, vec![DEVICE]);
    assert_eq!(kernel.opened, 4);
    assert_eq!(kernel.closed, 3);
}

#[test]
fn the_confirmed_name_is_used_from_then_on() {
    let mut tun = Tun::new(Some("tun%d".to_string()), Addressing::none()).unwrap();
    tun.step(opened(DEVICE));
    tun.step(named("tun4"));
    let action = tun.step(opened(SOCKET));
    match action {
        Action::Control { request, .. } => assert_eq!(&request[..5], b"tun4\0"),
        other => panic!("unexpected action {:?}", other),
    }
}

#[test]
fn a_tap_is_asked_for_by_its_type() {
    let mut tun = Tun::with_kind(None, DeviceKind::Tap, Addressing::none()).unwrap();
    match tun.step(opened(DEVICE)) {
        Action::Control { request, op, .. } => {
            assert_eq!(op, ControlOp::Create);
            assert_eq!(&request[16..18], &[2, 0]);
        },
        other => panic!("unexpected action {:?}", other),
    }
}

#[test]
fn open_failure_is_an_open_error_and_nothing_to_close() {
    let mut tun = Tun::new(None, Addressing::none()).unwrap();
    let error = Error { kind: ErrorKind::Open, cause: Some(13) };
    assert_eq!(tun.step(failed(13)), Action::Failed { error });
    assert_eq!(tun.error(), Some(error));
    assert_eq!(tun.state(), State::Closed);
    assert_eq!(tun.device(), None);
}

#[test]
fn creation_failure_closes_the_device() {
    let mut tun = Tun::new(None, Addressing::none()).unwrap();
    tun.step(opened(DEVICE));
    assert_eq!(tun.step(failed(1)), Action::Close { fd: DEVICE });
    assert_eq!(tun.state(), State::Closing);
    let error = Error { kind: ErrorKind::Create, cause: Some(1) };
    assert_eq!(tun.step(done()), Action::Failed { error });
    assert_eq!(tun.device(), None);
}

#[test]
fn a_malformed_creation_answer_fails_the_creation() {
    let mut tun = Tun::new(None, Addressing::none()).unwrap();
    tun.step(opened(DEVICE));
    let short = Event::Completed { value: 0, data: vec![b't'; 15] };
    assert_eq!(tun.step(short), Action::Close { fd: DEVICE });
    let error = Error { kind: ErrorKind::Create, cause: None };
    assert_eq!(tun.step(done()), Action::Failed { error });
}

#[test]
fn a_malformed_index_answer_fails_the_assignment() {
    let mut tun = Tun::new(None, Addressing::ipv6([0; 16], 64)).unwrap();
    tun.step(opened(DEVICE));
    tun.step(named("tun0"));
    tun.step(opened(SOCKET));
    let short = Event::Completed { value: 0, data: vec![0; 19] };
    assert_eq!(tun.step(short), Action::Close { fd: SOCKET });
    assert_eq!(tun.step(done()), Action::Close { fd: DEVICE });
    let error = Error { kind: ErrorKind::AddIp, cause: None };
    assert_eq!(tun.step(done()), Action::Failed { error });
}

#[test]
fn socket_failure_is_an_addip_error() {
    let mut tun = Tun::new(None, Addressing::none()).unwrap();
    tun.step(opened(DEVICE));
    tun.step(named("tun0"));
    assert_eq!(tun.step(failed(24)), Action::Close { fd: DEVICE });
    let error = Error { kind: ErrorKind::AddIp, cause: Some(24) };
    assert_eq!(tun.step(done()), Action::Failed { error });
}

#[test]
fn address_failure_closes_socket_then_device() {
    let addressing = Addressing::ipv4([10, 9, 3, 2], [255, 255, 255, 0]);
    let mut tun = Tun::new(None, addressing).unwrap();
    tun.step(opened(DEVICE));
    tun.step(named("tun0"));
    tun.step(opened(SOCKET));
    assert_eq!(tun.step(failed(1)), Action::Close { fd: SOCKET });
    assert_eq!(tun.step(done()), Action::Close { fd: DEVICE });
    let error = Error { kind: ErrorKind::AddIp, cause: Some(1) };
    assert_eq!(tun.step(done()), Action::Failed { error });
}

#[test]
fn netmask_failure_is_reported_and_the_address_is_left_alone() {
    let addressing = Addressing::ipv4([10, 9, 3, 2], [255, 255, 255, 0]);
    let mut tun = Tun::new(Some("pote".to_string()), addressing).unwrap();
    let mut kernel = Kernel::new("pote");
    let fail = |action: &Action| match action {
        Action::Control { op: ControlOp::SetNetmask, .. } => Some(22),
        _ => None,
    };
    let last = kernel.drive(&mut tun, &fail);
    assert_eq!(last, Action::Failed { error: Error { kind: ErrorKind::AddIp, cause: Some(22) } });
    // the address was set, the netmask was tried, and no call came after
    assert_eq!(
        ops(&kernel.log),
        vec![ControlOp::Create, ControlOp::SetAddress, ControlOp::SetNetmask]
    );
    let after: Vec<&Action> = kernel.log.iter().skip_while(|a| !matches!(a, Action::Control { op: ControlOp::SetNetmask, .. })).skip(1).collect();
    assert_eq!(after, vec![&Action::Close { fd: SOCKET }, &Action::Close { fd: DEVICE }]);
    assert!(kernel.open.is_empty());
    assert_eq!(kernel.opened, kernel.closed);
}

#[test]
fn flags_failure_is_an_addip_error() {
    let mut tun = Tun::new(None, Addressing::none()).unwrap();
    tun.step(opened(DEVICE));
    tun.step(named("tun0"));
    tun.step(opened(SOCKET));
    assert_eq!(tun.step(failed(1)), Action::Close { fd: SOCKET });
    assert_eq!(tun.step(done()), Action::Close { fd: DEVICE });
    let error = Error { kind: ErrorKind::AddIp, cause: Some(1) };
    assert_eq!(tun.step(done()), Action::Failed { error });
}

#[test]
fn nonblocking_failure_is_a_create_error() {
    let mut tun = Tun::new(None, Addressing::none()).unwrap();
    let mut kernel = Kernel::new("tun0");
    let fail = |action: &Action| match action {
        Action::SetNonBlocking { .. } => Some(9),
        _ => None,
    };
    let last = kernel.drive(&mut tun, &fail);
    assert_eq!(last, Action::Failed { error: Error { kind: ErrorKind::Create, cause: Some(9) } });
    assert!(kernel.open.is_empty());
}

#[test]
fn registration_failure_is_a_create_error() {
    let mut tun = Tun::new(None, Addressing::none()).unwrap();
    let mut kernel = Kernel::new("tun0");
    let fail = |action: &Action| match action {
        Action::Register { .. } => Some(17),
        _ => None,
    };
    let last = kernel.drive(&mut tun, &fail);
    assert_eq!(last, Action::Failed { error: Error { kind: ErrorKind::Create, cause: Some(17) } });
    assert!(kernel.open.is_empty());
    assert_eq!(kernel.opened, 2);
    assert_eq!(kernel.closed, 2);
}

#[test]
fn a_failure_without_a_code_has_no_cause() {
    let mut tun = Tun::new(None, Addressing::none()).unwrap();
    let error = Error { kind: ErrorKind::Open, cause: None };
    assert_eq!(tun.step(Event::Failed { cause: None }), Action::Failed { error });
}

#[test]
fn close_failures_are_swallowed() {
    let mut tun = Tun::new(None, both()).unwrap();
    let mut kernel = Kernel::new("tun0");
    let fail = |action: &Action| match action {
        Action::Close { .. } => Some(5),
        _ => None,
    };
    let last = kernel.drive(&mut tun, &fail);
    assert_eq!(last, Action::Ready);
    assert_eq!(tun.error(), None);
}

#[test]
fn closing_a_ready_device_leaves_the_reactor_then_closes() {
    let mut tun = Tun::new(None, Addressing::none()).unwrap();
    let mut kernel = Kernel::new("tun0");
    assert_eq!(kernel.drive(&mut tun, &never), Action::Ready);
    assert_eq!(tun.close(), Action::Deregister { fd: DEVICE });
    assert_eq!(tun.state(), State::Closing);
    assert_eq!(tun.step(done()), Action::Close { fd: DEVICE });
    assert_eq!(tun.step(done()), Action::Closed);
    assert_eq!(tun.state(), State::Closed);
    assert_eq!(tun.device(), None);
    assert_eq!(tun.error(), None);
}

#[test]
fn closing_twice_asks_for_one_close() {
    let mut tun = Tun::new(None, Addressing::none()).unwrap();
    let mut kernel = Kernel::new("tun0");
    kernel.drive(&mut tun, &never);
    tun.close();
    assert_eq!(tun.close(), Action::Deregister { fd: DEVICE });
    tun.step(done());
    assert_eq!(tun.close(), Action::Close { fd: DEVICE });
    assert_eq!(tun.step(failed(9)), Action::Closed);
    assert_eq!(tun.close(), Action::Closed);
    assert_eq!(tun.step(done()), Action::Closed);
}

#[test]
fn open_then_close_leaves_no_descriptor_behind() {
    let mut tun = Tun::new(Some("pote".to_string()), both()).unwrap();
    let mut kernel = Kernel::new("pote");
    assert_eq!(kernel.drive(&mut tun, &never), Action::Ready);
    tun.close();
    assert_eq!(kernel.drive(&mut tun, &never), Action::Closed);
    assert!(kernel.open.is_empty());
    assert_eq!(kernel.opened, 4);
    assert_eq!(kernel.closed, 4);
}

#[test]
fn giving_up_in_the_middle_releases_what_is_held() {
    let addressing = Addressing::ipv4([10, 9, 3, 2], [255, 255, 255, 0]);
    let mut tun = Tun::new(None, addressing).unwrap();
    tun.step(opened(DEVICE));
    tun.step(named("tun0"));
    tun.step(opened(SOCKET));
    assert_eq!(tun.stage(), Stage::SetAddress4);
    assert_eq!(tun.close(), Action::Close { fd: SOCKET });
    assert_eq!(tun.step(done()), Action::Close { fd: DEVICE });
    assert_eq!(tun.step(done()), Action::Closed);
    assert_eq!(tun.error(), None);
}

#[test]
fn giving_up_before_anything_is_open_asks_for_nothing() {
    let mut tun = Tun::new(None, Addressing::none()).unwrap();
    assert_eq!(tun.close(), Action::Closed);
    assert_eq!(tun.stage(), Stage::Finished);
}

#[test]
fn every_failure_point_leaves_no_descriptor_behind() {
    for fail_at in 0..16usize {
        let mut tun = Tun::new(Some("pote".to_string()), both()).unwrap();
        let mut kernel = Kernel::new("pote");
        let count = std::cell::Cell::new(0usize);
        let fail = |action: &Action| {
            if matches!(action, Action::Ready | Action::Failed { .. } | Action::Closed | Action::Close { .. }) {
                return None;
            }
            let at = count.get();
            count.set(at + 1);
            if at == fail_at {
                Some(5)
            } else {
                None
            }
        };
        let last = kernel.drive(&mut tun, &fail);
        if let Action::Ready = last {
            tun.close();
            assert_eq!(kernel.drive(&mut tun, &never), Action::Closed);
        } else {
            assert!(matches!(last, Action::Failed { .. }), "failure point {}", fail_at);
        }
        assert!(kernel.open.is_empty(), "failure point {}", fail_at);
        assert_eq!(kernel.opened, kernel.closed, "failure point {}", fail_at);
    }
}

#[test]
fn outcomes_that_nobody_waits_for_change_nothing() {
    let mut tun = Tun::new(None, Addressing::none()).unwrap();
    let mut kernel = Kernel::new("tun0");
    kernel.drive(&mut tun, &never);
    assert_eq!(tun.step(failed(1)), Action::Ready);
    assert_eq!(tun.step(opened(99)), Action::Ready);
    assert_eq!(tun.device(), Some(DEVICE));
    assert_eq!(tun.error(), None);
}

#[test]
fn the_flags_request_asks_for_up_and_running() {
    let request = Tun::set_up(field("pote"));
    assert_eq!(request.name, field("pote"));
    assert_eq!(request.data.bits(), 0x41);
}

#[test]
fn a_flags_request_carries_the_flags_it_is_given() {
    let flags = tun::ffi::DevConfigFlags::from_bits_truncate(0x1003);
    let request = Tun::set_flags(field("tap0"), flags);
    assert_eq!(request.name, field("tap0"));
    assert_eq!(request.data, flags);
    assert_eq!(&request.to_bytes()[16..18], &[0x03, 0x10]);
}

#[test]
fn the_ipv4_requests_carry_address_then_netmask() {
    let (address, netmask) = Tun::add_ip4(field("pote"), [10, 9, 3, 2], [255, 255, 255, 0]);
    assert_eq!(address.name, field("pote"));
    assert_eq!(netmask.name, field("pote"));
    assert_eq!(address.data.sin_addr.s_addr, (2 << 24) | (3 << 16) | (9 << 8) | 10);
    assert_eq!(netmask.data.sin_addr.s_addr, 0x00ff_ffff);
    assert_eq!(address.data.sin_family, 2);
}

#[test]
fn the_ipv6_request_carries_address_prefix_and_index() {
    let request = Tun::add_ip6(field("pote"), [1; 16], 64, 3);
    assert_eq!(request.data.addr.s6_addr, [1; 16]);
    assert_eq!(request.data.prefixlen, 64);
    assert_eq!(request.data.ifindex, 3);
    assert_eq!(Tun::query_index(field("pote")).data, 0);
    assert_eq!(Tun::create(field("pote"), DeviceKind::Tun).data, 1);
    assert_eq!(Tun::create(field("pote"), DeviceKind::Tap).data, 2);
}
