//! Kernel ABI of the interface-configuration control calls: command codes,
//! flag bits, address conversions and the checked return value.
//!
//! The byte layout of the request structures is in [`crate::layout`].

use vstd::prelude::*;

verus! {

/// Path of the control device file. It is opened for reading and writing,
/// once for each device.
pub const DEVICE_FILE: &'static str = "/dev/net/tun";

/// Command code of the address-set control call.
pub const SIOCSIFADDR: u16 = 0x8916;

/// Command code of the netmask-set control call.
pub const SIOCSIFNETMASK: u16 = 0x891c;

/// Command code of the flags-set control call.
pub const SIOCSIFFLAGS: u16 = 0x8914;

/// Command code of the interface-index query.
pub const SIOCGIFINDEX: u16 = 0x8933;

/// Command code of the device-creation control call.
pub const TUNSETIFF: u32 = 0x4004_54ca;

/// Device type of a tunnel: the interface carries network-layer packets.
pub const IFF_TUN: i16 = 0x0001;

/// Device type of a tap: the interface carries link-layer frames.
pub const IFF_TAP: i16 = 0x0002;

/// Interface is up.
pub const IFF_UP: u16 = 0x1;

/// Broadcast address valid.
pub const IFF_BROADCAST: u16 = 0x2;

/// Turn on debugging.
pub const IFF_DEBUG: u16 = 0x4;

/// Is a loopback net.
pub const IFF_LOOPBACK: u16 = 0x8;

/// Interface is point-to-point link.
pub const IFF_POINTOPOINT: u16 = 0x10;

/// Avoid use of trailers.
pub const IFF_NOTRAILERS: u16 = 0x20;

/// Resources allocated.
pub const IFF_RUNNING: u16 = 0x40;

/// No address resolution protocol.
pub const IFF_NOARP: u16 = 0x80;

/// Receive all packets.
pub const IFF_PROMISC: u16 = 0x100;

/// Receive all multicast packets.
pub const IFF_ALLMULTI: u16 = 0x200;

/// Master of a load balancer.
pub const IFF_MASTER: u16 = 0x400;

/// Slave of a load balancer.
pub const IFF_SLAVE: u16 = 0x800;

/// Supports multicast.
pub const IFF_MULTICAST: u16 = 0x1000;

/// Can set media type.
pub const IFF_PORTSEL: u16 = 0x2000;

/// Auto media select active.
pub const IFF_AUTOMEDIA: u16 = 0x4000;

/// Dialup device with changing addresses.
pub const IFF_DYNAMIC: u16 = 0x8000;

/// Administrative flags of an interface, one bit per `IFF_*` constant.
#[derive(Clone, Copy, Debug, PartialEq, Eq, Structural)]
pub struct DevConfigFlags {
    bits: u16,
}

impl DevConfigFlags {
    /// The flag word as the kernel sees it.
    pub closed spec fn spec_bits(self) -> u16 {
        self.bits
    }

    /// The set that holds no flag.
    pub fn empty() -> (flags: DevConfigFlags)
        ensures
            flags.spec_bits() == 0,
    {
        DevConfigFlags { bits: 0 }
    }

    /// The set whose flag word is `bits`. Every bit of the word names a flag,
    /// so nothing is cut off.
    pub fn from_bits_truncate(bits: u16) -> (flags: DevConfigFlags)
        ensures
            flags.spec_bits() == bits,
    {
        DevConfigFlags { bits }
    }

    #[verifier::when_used_as_spec(spec_bits)]
    pub fn bits(self) -> (bits: u16)
        ensures
            bits == self.spec_bits(),
    {
        self.bits
    }

    /// The flags of `self` together with those of `other`.
    pub fn union(self, other: DevConfigFlags) -> (flags: DevConfigFlags)
        ensures
            flags.spec_bits() == self.spec_bits() | other.spec_bits(),
    {
        DevConfigFlags { bits: self.bits | other.bits }
    }

    /// Whether every flag of `other` is set in `self`.
    pub fn contains(self, other: DevConfigFlags) -> (all: bool)
        ensures
            all == (self.spec_bits() & other.spec_bits() == other.spec_bits()),
    {
        self.bits & other.bits == other.bits
    }
}

/// The flag word that brings an interface up: `IFF_UP` and `IFF_RUNNING`.
pub open spec fn spec_up_running() -> u16 {
    0x41
}

/// The flags requested when an interface is brought up.
pub fn up_running() -> (flags: DevConfigFlags)
    ensures
        flags.spec_bits() == spec_up_running(),
        flags.spec_bits() == IFF_UP | IFF_RUNNING,
{
    assert(0x1u16 | 0x40u16 == 0x41u16) by (bit_vector);
    DevConfigFlags::from_bits_truncate(IFF_UP).union(DevConfigFlags::from_bits_truncate(IFF_RUNNING))
}

/// Command code of a control call of the "write" direction: the caller hands
/// the kernel `size` bytes. The direction stands in the two highest bits, the
/// size in the next fourteen, then the magic byte `ty` and the number `nr`.
pub open spec fn spec_iow(ty: u8, nr: u8, size: u16) -> int {
    0x4000_0000 + size * 0x1_0000 + ty * 0x100 + nr
}

/// Encodes the command code of a "write" control call.
pub fn iow(ty: u8, nr: u8, size: u16) -> (code: u32)
    requires
        size < 0x4000,
    ensures
        code == spec_iow(ty, nr, size),
{
    let dir: u32 = 1;
    let t: u32 = ty as u32;
    let n: u32 = nr as u32;
    let s: u32 = size as u32;
    assert((dir << 30) | (t << 8) | n | (s << 16) == 0x4000_0000 + s * 0x1_0000 + t * 0x100 + n)
        by (bit_vector)
        requires
            dir == 1,
            t < 0x100,
            n < 0x100,
            s < 0x4000,
    ;
    (dir << 30) | (t << 8) | n | (s << 16)
}

/// The device-creation code is the "write" code of magic byte `T`, number 202
/// and an argument the size of a C `int`.
pub proof fn lemma_tunsetiff_is_write_code()
    ensures
        TUNSETIFF == spec_iow(0x54, 202, 4),
{
}

/// IPv4 address in the form the kernel keeps it: the four octets in network
/// order, read as one native 32-bit integer.
#[allow(non_camel_case_types)]
#[derive(Clone, Copy, Debug, PartialEq, Eq, Structural)]
pub struct in_addr {
    pub s_addr: u32,
}

/// Legacy IPv4 socket address, the payload of the address-set and netmask-set
/// calls.
#[allow(non_camel_case_types)]
#[derive(Clone, Copy, Debug, PartialEq, Eq)]
pub struct sockaddr_in {
    pub sin_family: u16,
    pub sin_port: u16,
    pub sin_addr: in_addr,
    pub sin_zero: [u8; 8],
}

/// IPv6 address: sixteen raw bytes in network order.
#[allow(non_camel_case_types)]
#[derive(Clone, Copy, Debug, PartialEq, Eq)]
pub struct in6_addr {
    pub s6_addr: [u8; 16],
}

/// IPv6 address assignment: the raw address, the prefix length and the index
/// of the interface.
#[allow(non_camel_case_types)]
#[derive(Clone, Copy, Debug, PartialEq, Eq)]
pub struct in6_ifreq {
    pub addr: in6_addr,
    pub prefixlen: u32,
    pub ifindex: i32,
}

/// An interface request: the name of the interface, null-padded to sixteen
/// characters, and the payload of one control call.
#[allow(non_camel_case_types)]
#[derive(Debug, PartialEq, Eq)]
pub struct ifreq<T> {
    pub name: [i8; 16],
    pub data: T,
}

/// The integer that a little-endian machine reads from the four bytes
/// `octets`: the first octet is the least significant.
pub open spec fn spec_s_addr(octets: Seq<u8>) -> int {
    octets[0] + 0x100 * octets[1] + 0x1_0000 * octets[2] + 0x100_0000 * octets[3]
}

/// Address family of IPv4 sockets.
pub open spec fn spec_af_inet() -> u16 {
    2
}

/// `libc::AF_INET`, narrowed to the width of an address-family field. The
/// `libc` crate defines the constant as 2 on Linux and Android targets.
#[verifier::external_body]
fn af_inet() -> (family: u16)
    ensures
        family == spec_af_inet(),
{
    libc::AF_INET as libc::sa_family_t
}

/// Builds the socket address that carries the IPv4 address `addr`, given as
/// its four octets in the order they are written, to the kernel.
pub fn addr4_to_raw(addr: [u8; 4]) -> (raw: sockaddr_in)
    ensures
        raw.sin_family == spec_af_inet(),
        raw.sin_port == 0,
        raw.sin_addr.s_addr == spec_s_addr(addr@),
        raw.sin_zero@ == Seq::new(8, |i: int| 0u8),
{
    let b0: u32 = addr[0] as u32;
    let b1: u32 = addr[1] as u32;
    let b2: u32 = addr[2] as u32;
    let b3: u32 = addr[3] as u32;
    assert(b3 << 24 | b2 << 16 | b1 << 8 | b0 == b0 + 0x100 * b1 + 0x1_0000 * b2 + 0x100_0000 * b3)
        by (bit_vector)
        requires
            b0 < 0x100,
            b1 < 0x100,
            b2 < 0x100,
            b3 < 0x100,
    ;
    sockaddr_in {
        sin_family: af_inet(),
        sin_addr: in_addr { s_addr: b3 << 24 | b2 << 16 | b1 << 8 | b0 },
        sin_port: 0,
        sin_zero: [0; 8],
    }
}

/// Builds the raw form of the IPv6 address whose sixteen bytes are `addr`.
pub fn addr6_to_raw(addr: [u8; 16]) -> (raw: in6_addr)
    ensures
        raw.s6_addr@ == addr@,
{
    in6_addr { s6_addr: addr }
}

/// `std::io::Error`, carried through as it comes from the operating system.
#[verifier::external_type_specification]
#[verifier::external_body]
pub struct ExIoError(std::io::Error);

/// `std::io::Error::last_os_error`: the error that the operating system
/// reported last on this thread. Nothing is claimed of its value.
#[verifier::external_body]
fn last_os_error() -> std::io::Error {
    std::io::Error::last_os_error()
}

/// Gives the value of a system call that did not fail, and `err` for one
/// that did: a negative return is the kernel's error sentinel.
pub fn ret_or(ret: isize, err: std::io::Error) -> (r: Result<usize, std::io::Error>)
    ensures
        ret >= 0 ==> r == Ok::<usize, std::io::Error>(ret as usize),
        ret < 0 ==> r == Err::<usize, std::io::Error>(err),
{
    if ret < 0 {
        Err(err)
    } else {
        Ok(ret as usize)
    }
}

/// Checks the signed return of a system call. A negative return becomes the
/// error the operating system reported last, any other the count it stands
/// for.
pub fn check_ret(ret: isize) -> (r: Result<usize, std::io::Error>)
    ensures
        ret >= 0 ==> r == Ok::<usize, std::io::Error>(ret as usize),
        ret < 0 ==> r is Err,
{
    if ret < 0 {
        ret_or(ret, last_os_error())
    } else {
        Ok(ret as usize)
    }
}

} // verus!
