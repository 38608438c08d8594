//! Byte layout of the interface requests.
//!
//! An interface request is a fixed-size structure: sixteen bytes of
//! null-padded interface name, then a payload whose shape depends on the
//! control call, then padding up to the size the kernel copies. All integers
//! are laid out as a little-endian machine keeps them in memory.

use vstd::prelude::*;
use crate::ffi::{ifreq, in6_ifreq, sockaddr_in, spec_s_addr, DevConfigFlags};

verus! {

/// Size of the name field of an interface request.
pub const IFNAMSIZ: usize = 16;

/// Size of a whole interface request.
pub const IFREQ_SIZE: usize = 40;

/// Room that an interface request leaves for its payload.
pub const PAYLOAD_SIZE: usize = 24;

/// The byte that stands for the C character `c`.
pub open spec fn spec_char_byte(c: i8) -> u8 {
    if c >= 0 {
        c as u8
    } else {
        (c + 0x100) as u8
    }
}

/// The C character that the byte `b` stands for.
pub open spec fn spec_byte_char(b: u8) -> i8 {
    if b < 0x80 {
        b as i8
    } else {
        (b - 0x100) as i8
    }
}

/// The unsigned 16-bit integer with the bits of `x`.
pub open spec fn spec_bits16(x: i16) -> u16 {
    if x >= 0 {
        x as u16
    } else {
        (x + 0x1_0000) as u16
    }
}

/// The unsigned 32-bit integer with the bits of `x`.
pub open spec fn spec_bits32(x: i32) -> u32 {
    if x >= 0 {
        x as u32
    } else {
        (x + 0x1_0000_0000) as u32
    }
}

/// The signed 32-bit integer with the bits of `x`.
pub open spec fn spec_signed32(x: u32) -> i32 {
    if x < 0x8000_0000 {
        x as i32
    } else {
        (x - 0x1_0000_0000) as i32
    }
}

/// The two bytes of `x`, least significant first.
pub open spec fn spec_u16_le(x: u16) -> Seq<u8> {
    seq![(x % 0x100) as u8, (x / 0x100) as u8]
}

/// The four bytes of `x`, least significant first.
pub open spec fn spec_u32_le(x: u32) -> Seq<u8> {
    seq![
        (x % 0x100) as u8,
        (x / 0x100 % 0x100) as u8,
        (x / 0x1_0000 % 0x100) as u8,
        (x / 0x100_0000) as u8,
    ]
}

/// The integer whose four bytes, least significant first, start `bytes`.
pub open spec fn spec_u32_from_le(bytes: Seq<u8>) -> u32 {
    (bytes[0] + 0x100 * bytes[1] + 0x1_0000 * bytes[2] + 0x100_0000 * bytes[3]) as u32
}

/// `n` zero bytes.
pub open spec fn spec_zeros(n: int) -> Seq<u8> {
    Seq::new(n as nat, |i: int| 0u8)
}

/// The bytes of a name field.
pub open spec fn spec_name_bytes(name: Seq<i8>) -> Seq<u8> {
    Seq::new(name.len(), |i: int| spec_char_byte(name[i]))
}

/// The name field that holds the bytes of `name`, padded with null characters
/// to the field's sixteen.
pub open spec fn spec_name_field(name: Seq<u8>) -> Seq<i8> {
    Seq::new(
        IFNAMSIZ as nat,
        |i: int|
            if i < name.len() {
                spec_byte_char(name[i])
            } else {
                0i8
            },
    )
}

/// The bytes of the interface request with the name field `name` and the
/// payload bytes `payload`: name, payload, zero padding.
pub open spec fn spec_ifreq_bytes(name: Seq<i8>, payload: Seq<u8>) -> Seq<u8> {
    spec_name_bytes(name) + payload + spec_zeros(IFREQ_SIZE - IFNAMSIZ - payload.len())
}

/// The bytes of the socket address that carries the IPv4 address with the
/// octets `octets`: the family, a zero port, the octets in network order and
/// eight bytes of padding.
pub open spec fn spec_sockaddr_in_bytes(octets: Seq<u8>) -> Seq<u8> {
    seq![2u8, 0u8, 0u8, 0u8] + octets + spec_zeros(8)
}

/// The bytes of an IPv6 address assignment: the sixteen bytes of the address,
/// the prefix length and the interface index.
pub open spec fn spec_in6_ifreq_bytes(addr: Seq<u8>, prefixlen: u32, ifindex: i32) -> Seq<u8> {
    addr + spec_u32_le(prefixlen) + spec_u32_le(spec_bits32(ifindex))
}

/// The name field at the start of the request `data` as the kernel left it.
pub open spec fn spec_response_name(data: Seq<u8>) -> Seq<i8> {
    Seq::new(IFNAMSIZ as nat, |i: int| spec_byte_char(data[i]))
}

/// The interface index that follows the name field of `data`.
pub open spec fn spec_response_index(data: Seq<u8>) -> i32 {
    spec_signed32(spec_u32_from_le(data.subrange(IFNAMSIZ as int, IFNAMSIZ + 4)))
}

fn char_byte(c: i8) -> (b: u8)
    ensures
        b == spec_char_byte(c),
{
    assert(c as u8 == spec_char_byte(c)) by (bit_vector);
    c as u8
}

fn byte_char(b: u8) -> (c: i8)
    ensures
        c == spec_byte_char(b),
{
    assert(b as i8 == spec_byte_char(b)) by (bit_vector);
    b as i8
}

fn push_u16_le(out: &mut Vec<u8>, x: u16)
    ensures
        final(out)@ == old(out)@ + spec_u16_le(x),
{
    out.push((x % 0x100) as u8);
    out.push((x / 0x100) as u8);
}

fn push_u32_le(out: &mut Vec<u8>, x: u32)
    ensures
        final(out)@ == old(out)@ + spec_u32_le(x),
{
    out.push((x % 0x100) as u8);
    out.push((x / 0x100 % 0x100) as u8);
    out.push((x / 0x1_0000 % 0x100) as u8);
    out.push((x / 0x100_0000) as u8);
}

pub(crate) fn push_bytes(out: &mut Vec<u8>, bytes: &[u8])
    ensures
        final(out)@ == old(out)@ + bytes@,
{
    let mut i: usize = 0;
    while i < bytes.len()
        invariant
            i <= bytes@.len(),
            out@ == old(out)@ + bytes@.subrange(0, i as int),
        decreases bytes@.len() - i,
    {
        out.push(bytes[i]);
        i += 1;
    }
    assert(bytes@.subrange(0, i as int) == bytes@);
}

/// What a control call carries behind the name of the interface.
pub trait Payload {
    /// The payload as the kernel reads it.
    spec fn spec_bytes(&self) -> Seq<u8>;

    /// The payload fits the room an interface request has for it.
    proof fn lemma_fits(&self)
        ensures
            self.spec_bytes().len() <= PAYLOAD_SIZE,
    ;

    /// Appends the payload to `out`.
    fn append_to(&self, out: &mut Vec<u8>)
        ensures
            final(out)@ == old(out)@ + self.spec_bytes(),
    ;
}

/// A device type, as the device-creation call takes it.
impl Payload for i16 {
    open spec fn spec_bytes(&self) -> Seq<u8> {
        spec_u16_le(spec_bits16(*self))
    }

    proof fn lemma_fits(&self) {
    }

    fn append_to(&self, out: &mut Vec<u8>) {
        let x: i16 = *self;
        assert(x as u16 == spec_bits16(x)) by (bit_vector);
        push_u16_le(out, x as u16);
    }
}

/// An interface index, as the index query leaves it.
impl Payload for i32 {
    open spec fn spec_bytes(&self) -> Seq<u8> {
        spec_u32_le(spec_bits32(*self))
    }

    proof fn lemma_fits(&self) {
    }

    fn append_to(&self, out: &mut Vec<u8>) {
        let x: i32 = *self;
        assert(x as u32 == spec_bits32(x)) by (bit_vector);
        push_u32_le(out, x as u32);
    }
}

/// Administrative flags, as the flags-set call takes them.
impl Payload for DevConfigFlags {
    open spec fn spec_bytes(&self) -> Seq<u8> {
        spec_u16_le(self.spec_bits())
    }

    proof fn lemma_fits(&self) {
    }

    fn append_to(&self, out: &mut Vec<u8>) {
        push_u16_le(out, self.bits());
    }
}

/// A legacy socket address: family, port, address, eight bytes of padding.
impl Payload for sockaddr_in {
    open spec fn spec_bytes(&self) -> Seq<u8> {
        spec_u16_le(self.sin_family) + spec_u16_le(self.sin_port) + spec_u32_le(
            self.sin_addr.s_addr,
        ) + self.sin_zero@
    }

    proof fn lemma_fits(&self) {
    }

    fn append_to(&self, out: &mut Vec<u8>) {
        push_u16_le(out, self.sin_family);
        push_u16_le(out, self.sin_port);
        push_u32_le(out, self.sin_addr.s_addr);
        push_bytes(out, self.sin_zero.as_slice());
        assert(out@ == old(out)@ + self.spec_bytes());
    }
}

/// An IPv6 address assignment: the raw address, the prefix length and the
/// index of the interface.
impl Payload for in6_ifreq {
    open spec fn spec_bytes(&self) -> Seq<u8> {
        self.addr.s6_addr@ + spec_u32_le(self.prefixlen) + spec_u32_le(spec_bits32(self.ifindex))
    }

    proof fn lemma_fits(&self) {
    }

    fn append_to(&self, out: &mut Vec<u8>) {
        let index: i32 = self.ifindex;
        assert(index as u32 == spec_bits32(index)) by (bit_vector);
        push_bytes(out, self.addr.s6_addr.as_slice());
        push_u32_le(out, self.prefixlen);
        push_u32_le(out, index as u32);
        assert(out@ == old(out)@ + self.spec_bytes());
    }
}

impl<T: Payload> ifreq<T> {
    /// The request as the kernel reads it.
    pub open spec fn spec_bytes(&self) -> Seq<u8> {
        spec_ifreq_bytes(self.name@, self.data.spec_bytes())
    }

    /// Lays the request out in memory.
    pub fn to_bytes(&self) -> (out: Vec<u8>)
        ensures
            out@ == self.spec_bytes(),
            out@.len() == IFREQ_SIZE,
    {
        let mut out: Vec<u8> = Vec::new();
        let mut i: usize = 0;
        while i < IFNAMSIZ
            invariant
                i <= IFNAMSIZ,
                out@ == spec_name_bytes(self.name@).subrange(0, i as int),
            decreases IFNAMSIZ - i,
        {
            out.push(char_byte(self.name[i]));
            i += 1;
        }
        assert(out@ == spec_name_bytes(self.name@));
        self.data.append_to(&mut out);
        proof {
            self.data.lemma_fits();
        }
        let ghost filled = out@;
        while out.len() < IFREQ_SIZE
            invariant
                IFNAMSIZ <= filled.len() <= out@.len() <= IFREQ_SIZE,
                out@ == filled + spec_zeros(out@.len() - filled.len()),
            decreases IFREQ_SIZE - out@.len(),
        {
            out.push(0);
        }
        out
    }
}

/// Builds the name field for the interface name `name`, or nothing where
/// `name` does not leave room for the terminating null character.
pub fn name_field(name: &[u8]) -> (field: Option<[i8; 16]>)
    ensures
        name@.len() >= IFNAMSIZ <==> field is None,
        field matches Some(f) ==> f@ == spec_name_field(name@),
{
    if name.len() >= IFNAMSIZ {
        return None;
    }
    let mut field: [i8; 16] = [0; 16];
    let mut i: usize = 0;
    while i < name.len()
        invariant
            i <= name@.len() < IFNAMSIZ,
            forall|j: int| 0 <= j < i ==> field@[j] == spec_byte_char(name@[j]),
            forall|j: int| i <= j < IFNAMSIZ ==> field@[j] == 0i8,
        decreases name@.len() - i,
    {
        field[i] = byte_char(name[i]);
        i += 1;
    }
    assert(field@ =~= spec_name_field(name@));
    Some(field)
}

/// Reads the name field back from the request `data` that a control call
/// has returned, or nothing where `data` is too short to hold one.
pub fn response_name(data: &[u8]) -> (field: Option<[i8; 16]>)
    ensures
        data@.len() < IFNAMSIZ <==> field is None,
        field matches Some(f) ==> f@ == spec_response_name(data@),
{
    if data.len() < IFNAMSIZ {
        return None;
    }
    let mut field: [i8; 16] = [0; 16];
    let mut i: usize = 0;
    while i < IFNAMSIZ
        invariant
            i <= IFNAMSIZ <= data@.len(),
            forall|j: int| 0 <= j < i ==> field@[j] == spec_byte_char(data@[j]),
        decreases IFNAMSIZ - i,
    {
        field[i] = byte_char(data[i]);
        i += 1;
    }
    assert(field@ =~= spec_response_name(data@));
    Some(field)
}

/// Reads the interface index from the request `data` that the index query
/// has returned, or nothing where `data` is too short to hold one.
pub fn response_index(data: &[u8]) -> (index: Option<i32>)
    ensures
        data@.len() < IFNAMSIZ + 4 <==> index is None,
        index matches Some(i) ==> i == spec_response_index(data@),
{
    if data.len() < IFNAMSIZ + 4 {
        return None;
    }
    let b0: u32 = data[IFNAMSIZ] as u32;
    let b1: u32 = data[IFNAMSIZ + 1] as u32;
    let b2: u32 = data[IFNAMSIZ + 2] as u32;
    let b3: u32 = data[IFNAMSIZ + 3] as u32;
    let word: u32 = b0 + 0x100 * b1 + 0x1_0000 * b2 + 0x100_0000 * b3;
    assert(word as i32 == spec_signed32(word)) by (bit_vector);
    Some(word as i32)
}

/// In memory an IPv4 address field holds the octets of the address in the
/// order they are written: network order.
pub proof fn lemma_s_addr_network_order(octets: Seq<u8>)
    requires
        octets.len() == 4,
    ensures
        spec_u32_le(spec_s_addr(octets) as u32) == octets,
{
    let b0 = octets[0] as u32;
    let b1 = octets[1] as u32;
    let b2 = octets[2] as u32;
    let b3 = octets[3] as u32;
    let word = spec_s_addr(octets) as u32;
    assert(word % 0x100 == b0 && word / 0x100 % 0x100 == b1 && word / 0x1_0000 % 0x100 == b2
        && word / 0x100_0000 == b3) by (bit_vector)
        requires
            b0 < 0x100,
            b1 < 0x100,
            b2 < 0x100,
            b3 < 0x100,
            word == b0 + 0x100 * b1 + 0x1_0000 * b2 + 0x100_0000 * b3,
    ;
    assert(spec_u32_le(word) =~= octets);
}

/// The socket address built for an IPv4 address is laid out as the family,
/// a zero port, the octets as written and padding.
pub proof fn lemma_sockaddr_in_bytes(raw: sockaddr_in, octets: Seq<u8>)
    requires
        octets.len() == 4,
        raw.sin_family == 2,
        raw.sin_port == 0,
        raw.sin_addr.s_addr == spec_s_addr(octets),
        raw.sin_zero@ == spec_zeros(8),
    ensures
        raw.spec_bytes() == spec_sockaddr_in_bytes(octets),
{
    lemma_s_addr_network_order(octets);
    assert(spec_u16_le(2) + spec_u16_le(0) =~= seq![2u8, 0u8, 0u8, 0u8]);
}

/// A request keeps the name it was built with: reading the name field back
/// from its bytes gives the field that went in.
pub proof fn lemma_request_keeps_name(name: Seq<i8>, payload: Seq<u8>)
    requires
        name.len() == IFNAMSIZ,
    ensures
        spec_response_name(spec_ifreq_bytes(name, payload)) == name,
{
    let bytes = spec_ifreq_bytes(name, payload);
    assert forall|i: int| 0 <= i < IFNAMSIZ implies spec_byte_char(bytes[i]) == name[i] by {
        assert(bytes[i] == spec_char_byte(name[i]));
    }
    assert(spec_response_name(bytes) =~= name);
}

/// The index query's request gives back the index it carries.
pub proof fn lemma_request_keeps_index(name: Seq<i8>, index: i32)
    requires
        name.len() == IFNAMSIZ,
    ensures
        spec_response_index(spec_ifreq_bytes(name, index.spec_bytes())) == index,
{
    let bytes = spec_ifreq_bytes(name, index.spec_bytes());
    let word = spec_bits32(index);
    assert(bytes.subrange(IFNAMSIZ as int, IFNAMSIZ + 4) =~= spec_u32_le(word));
    let b0 = (word % 0x100) as u32;
    let b1 = (word / 0x100 % 0x100) as u32;
    let b2 = (word / 0x1_0000 % 0x100) as u32;
    let b3 = (word / 0x100_0000) as u32;
    assert(b0 + 0x100 * b1 + 0x1_0000 * b2 + 0x100_0000 * b3 == word) by (bit_vector)
        requires
            b0 == word % 0x100,
            b1 == word / 0x100 % 0x100,
            b2 == word / 0x1_0000 % 0x100,
            b3 == word / 0x100_0000,
    ;
    assert(spec_u32_from_le(spec_u32_le(word)) == word);
}

} // verus!
