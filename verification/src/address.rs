//! The tagged address of a SOCKS5 message and its byte representation.
//!
//! On the wire an address is a tag octet followed by a payload whose shape the
//! tag decides: four octets for IPv4, sixteen for IPv6, and for a domain name
//! one length octet followed by that many bytes of the name.

use crate::error::{AddressEncodingError, DecodeError};
use vstd::prelude::*;
use vstd::slice::slice_subrange;
use vstd::utf8::*;

verus! {

/// Tag octet of an IPv4 address.
pub const ATYP_IPV4: u8 = 0x01;

/// Tag octet of a domain name.
pub const ATYP_DOMAIN: u8 = 0x03;

/// Tag octet of an IPv6 address.
pub const ATYP_IPV6: u8 = 0x04;

/// Longest domain name, in bytes, that the length octet can announce.
pub const MAX_DOMAIN_LEN: usize = 255;

/// Destination or bound address of a SOCKS5 message.
#[derive(Debug, PartialEq, Eq)]
pub enum Address {
    /// Four octets in network order.
    IPv4([u8; 4]),
    /// A domain name; on the wire its UTF-8 bytes behind a length octet.
    Domain(String),
    /// Sixteen octets in network order.
    IPv6([u8; 16]),
}

/// Mathematical model of an [`Address`].
pub enum AddressView {
    IPv4(Seq<u8>),
    Domain(Seq<char>),
    IPv6(Seq<u8>),
}

impl View for Address {
    type V = AddressView;

    open spec fn view(&self) -> AddressView {
        match self {
            Address::IPv4(octets) => AddressView::IPv4(octets@),
            Address::Domain(name) => AddressView::Domain(name@),
            Address::IPv6(octets) => AddressView::IPv6(octets@),
        }
    }
}

impl Clone for Address {
    fn clone(&self) -> (copy: Self)
        ensures
            copy@ == self@,
    {
        match self {
            Address::IPv4(octets) => Address::IPv4(*octets),
            Address::Domain(name) => Address::Domain(name.clone()),
            Address::IPv6(octets) => Address::IPv6(*octets),
        }
    }
}

/// Text that a lossy UTF-8 decoder yields for bytes that are not valid UTF-8.
pub uninterp spec fn utf8_lossy(bytes: Seq<u8>) -> Seq<char>;

/// Text of a domain name received as `bytes`: the decoded characters where the
/// bytes are valid UTF-8, and the repaired text otherwise.
pub open spec fn spec_lossy_text(bytes: Seq<u8>) -> Seq<char> {
    if valid_utf8(bytes) {
        decode_utf8(bytes)
    } else {
        utf8_lossy(bytes)
    }
}

impl AddressView {
    /// Every value that views an [`Address`] is well formed: the octet
    /// sequences have the length of their family.
    pub open spec fn well_formed(self) -> bool {
        match self {
            AddressView::IPv4(octets) => octets.len() == 4,
            AddressView::Domain(_) => true,
            AddressView::IPv6(octets) => octets.len() == 16,
        }
    }

    /// The tag octet, fixed by the variant.
    pub open spec fn tag(self) -> u8 {
        match self {
            AddressView::IPv4(_) => ATYP_IPV4,
            AddressView::Domain(_) => ATYP_DOMAIN,
            AddressView::IPv6(_) => ATYP_IPV6,
        }
    }

    /// Whether the address has a wire form: a domain name must fit its length octet.
    pub open spec fn encodable(self) -> bool {
        match self {
            AddressView::Domain(name) => encode_utf8(name).len() <= MAX_DOMAIN_LEN,
            _ => true,
        }
    }

    /// Length in bytes of a domain name; zero for the other families.
    pub open spec fn name_len(self) -> nat {
        match self {
            AddressView::Domain(name) => encode_utf8(name).len(),
            _ => 0,
        }
    }

    /// What follows the tag octet on the wire.
    pub open spec fn payload(self) -> Seq<u8> {
        match self {
            AddressView::IPv4(octets) => octets,
            AddressView::Domain(name) => seq![encode_utf8(name).len() as u8] + encode_utf8(name),
            AddressView::IPv6(octets) => octets,
        }
    }

    /// The wire form: the tag octet, then the payload.
    pub open spec fn wire(self) -> Seq<u8> {
        seq![self.tag()] + self.payload()
    }
}

/// The address whose tag octet stands at `offset` in `buf`, with the number
/// of bytes it occupies (tag included), or the reason why there is none.
///
/// With `field` for the buffer from `offset` on: an IPv4 address is octets 1
/// to 4 of the field, an IPv6 address octets 1 to 16, and a domain name the
/// text of as many bytes behind octet 1 as octet 1 says.
pub open spec fn spec_parse_address(buf: Seq<u8>, offset: int) -> Result<
    (AddressView, int),
    DecodeError,
> {
    if offset < 0 || offset >= buf.len() {
        Err(DecodeError::InsufficientBytes)
    } else {
        let field = buf.skip(offset);
        let tag = field[0];
        if tag == ATYP_IPV4 {
            if field.len() < 5 {
                Err(DecodeError::InsufficientBytes)
            } else {
                Ok((AddressView::IPv4(field.subrange(1, 5)), 5))
            }
        } else if tag == ATYP_DOMAIN {
            if field.len() < 2 || field.len() < 2 + field[1] {
                Err(DecodeError::InsufficientBytes)
            } else {
                Ok((AddressView::Domain(spec_lossy_text(field.subrange(2, 2 + field[1]))), 2 + field[1]))
            }
        } else if tag == ATYP_IPV6 {
            if field.len() < 17 {
                Err(DecodeError::InsufficientBytes)
            } else {
                Ok((AddressView::IPv6(field.subrange(1, 17)), 17))
            }
        } else {
            Err(DecodeError::UnknownAddressType)
        }
    }
}

/// Calls `String::from_utf8_lossy`. Believed, not proved: bytes that are
/// valid UTF-8 come back as the characters they encode, and any other bytes as
/// the text that [`utf8_lossy`] names.
#[verifier::external_body]
fn text_from_utf8_lossy(bytes: &[u8]) -> (text: String)
    ensures
        valid_utf8(bytes@) ==> text@ == decode_utf8(bytes@),
        !valid_utf8(bytes@) ==> text@ == utf8_lossy(bytes@),
{
    String::from_utf8_lossy(bytes).into_owned()
}

/// Copies the `N` octets of `buf` that start at `at`.
fn copy_octets<const N: usize>(buf: &[u8], at: usize) -> (octets: [u8; N])
    requires
        at + N <= buf@.len(),
    ensures
        octets@ == buf@.subrange(at as int, at + N),
{
    let total: usize = buf.len();
    let mut octets: [u8; N] = [0u8; N];
    let mut i: usize = 0;
    while i < N
        invariant
            i <= N,
            at + N <= total == buf@.len(),
            forall|k: int| 0 <= k < i ==> octets@[k] == buf@[at + k],
        decreases N - i,
    {
        octets[i] = buf[at + i];
        i += 1;
    }
    octets
}

impl Address {
    /// The tag octet (ATYP) that announces this address on the wire.
    pub fn atyp(&self) -> (tag: u8)
        ensures
            tag == self@.tag(),
    {
        match self {
            Address::IPv4(_) => ATYP_IPV4,
            Address::Domain(_) => ATYP_DOMAIN,
            Address::IPv6(_) => ATYP_IPV6,
        }
    }

    /// Encodes the address: the tag octet, then the payload. A domain name
    /// longer than 255 bytes has no wire form and is rejected; the error
    /// carries the length of the name.
    pub fn to_bytes(&self) -> (r: Result<Vec<u8>, AddressEncodingError>)
        ensures
            match r {
                Ok(bytes) => self@.encodable() && bytes@ == self@.wire(),
                Err(e) => !self@.encodable() && e.len == self@.name_len(),
            },
    {
        match self {
            Address::IPv4(octets) => {
                let mut bytes: Vec<u8> = vec![ATYP_IPV4];
                bytes.extend_from_slice(octets.as_slice());
                Ok(bytes)
            },
            Address::Domain(name) => {
                let raw = name.as_str().as_bytes();
                let len: usize = raw.len();
                if len > MAX_DOMAIN_LEN {
                    return Err(AddressEncodingError { len });
                }
                let mut bytes: Vec<u8> = vec![ATYP_DOMAIN, len as u8];
                bytes.extend_from_slice(raw);
                Ok(bytes)
            },
            Address::IPv6(octets) => {
                let mut bytes: Vec<u8> = vec![ATYP_IPV6];
                bytes.extend_from_slice(octets.as_slice());
                Ok(bytes)
            },
        }
    }

    /// Decodes the address whose tag octet stands at `offset` in `buf`, and
    /// says how many bytes it occupies, so that the caller finds what follows.
    /// Bytes behind the address are not looked at. A name that is not valid
    /// UTF-8 is repaired, never refused.
    pub fn from_bytes(buf: &[u8], offset: usize) -> (r: Result<(Address, usize), DecodeError>)
        ensures
            match spec_parse_address(buf@, offset as int) {
                Ok((model, consumed)) => r matches Ok((address, n)) && address@ == model && n
                    == consumed,
                Err(e) => r matches Err(f) && f == e,
            },
    {
        if offset >= buf.len() {
            return Err(DecodeError::InsufficientBytes);
        }
        let tag: u8 = buf[offset];
        let body: usize = offset + 1;
        let rest: usize = buf.len() - body;
        let ghost field = buf@.skip(offset as int);
        if tag == ATYP_IPV4 {
            if rest < 4 {
                return Err(DecodeError::InsufficientBytes);
            }
            let octets: [u8; 4] = copy_octets(buf, body);
            assert(octets@ =~= field.subrange(1, 5));
            Ok((Address::IPv4(octets), 5))
        } else if tag == ATYP_DOMAIN {
            if rest < 1 {
                return Err(DecodeError::InsufficientBytes);
            }
            let len: usize = buf[body] as usize;
            if rest - 1 < len {
                return Err(DecodeError::InsufficientBytes);
            }
            let raw = slice_subrange(buf, body + 1, body + 1 + len);
            assert(raw@ =~= field.subrange(2, 2 + len));
            Ok((Address::Domain(text_from_utf8_lossy(raw)), 2 + len))
        } else if tag == ATYP_IPV6 {
            if rest < 16 {
                return Err(DecodeError::InsufficientBytes);
            }
            let octets: [u8; 16] = copy_octets(buf, body);
            assert(octets@ =~= field.subrange(1, 17));
            Ok((Address::IPv6(octets), 17))
        } else {
            Err(DecodeError::UnknownAddressType)
        }
    }
}

/// Whatever an [`Address`] holds, its model is well formed.
pub proof fn lemma_view_well_formed(address: &Address)
    ensures
        address@.well_formed(),
{
}

/// Decoding undoes encoding: an address that has a wire form is read back
/// from it unchanged, with its whole length consumed, wherever the wire form
/// stands in a buffer.
pub proof fn lemma_address_round_trip(address: AddressView, before: Seq<u8>, after: Seq<u8>)
    requires
        address.well_formed(),
        address.encodable(),
    ensures
        spec_parse_address(before + address.wire() + after, before.len() as int) == Ok::<
            (AddressView, int),
            DecodeError,
        >((address, address.wire().len() as int)),
{
    let buf = before + address.wire() + after;
    let field = buf.skip(before.len() as int);
    match address {
        AddressView::IPv4(octets) => {
            assert(field.subrange(1, 5) =~= octets);
        },
        AddressView::Domain(name) => {
            let raw = encode_utf8(name);
            assert(field.subrange(2, 2 + raw.len() as int) =~= raw);
            encode_utf8_valid_utf8(name);
            encode_utf8_decode_utf8(name);
        },
        AddressView::IPv6(octets) => {
            assert(field.subrange(1, 17) =~= octets);
        },
    }
}

/// Shape of an encoded domain name: tag 3, the length octet, then the bytes
/// of the name, `2 + length` bytes in all.
pub proof fn lemma_domain_wire_shape(name: Seq<char>)
    requires
        encode_utf8(name).len() <= MAX_DOMAIN_LEN,
    ensures
        AddressView::Domain(name).wire().len() == 2 + encode_utf8(name).len(),
        AddressView::Domain(name).wire()[0] == ATYP_DOMAIN,
        AddressView::Domain(name).wire()[1] == encode_utf8(name).len(),
        AddressView::Domain(name).wire().skip(2) == encode_utf8(name),
{
}

/// A tag octet other than 1, 3 and 4 is refused as an unknown address type,
/// whatever follows it.
pub proof fn lemma_unknown_tag_refused(buf: Seq<u8>, offset: int)
    requires
        0 <= offset < buf.len(),
        buf[offset] != ATYP_IPV4,
        buf[offset] != ATYP_DOMAIN,
        buf[offset] != ATYP_IPV6,
    ensures
        spec_parse_address(buf, offset) == Err::<(AddressView, int), DecodeError>(
            DecodeError::UnknownAddressType,
        ),
{
}

/// An address that was decoded lies within the buffer, is well formed, and
/// has the family that its tag octet announced.
pub proof fn lemma_parsed_address_in_bounds(buf: Seq<u8>, offset: int)
    requires
        spec_parse_address(buf, offset) is Ok,
    ensures
        ({
            let (address, consumed) = spec_parse_address(buf, offset)->Ok_0;
            &&& 0 <= offset
            &&& 2 <= consumed
            &&& offset + consumed <= buf.len()
            &&& address.well_formed()
            &&& address.tag() == buf[offset]
        }),
{
}

/// Encoding undoes decoding: where the address read from a buffer is not a
/// name that had to be repaired, its wire form is the bytes it was read from.
pub proof fn lemma_address_wire_of_parsed(buf: Seq<u8>, offset: int)
    requires
        spec_parse_address(buf, offset) is Ok,
        buf[offset] == ATYP_DOMAIN ==> valid_utf8(
            buf.subrange(offset + 2, offset + 2 + buf[offset + 1]),
        ),
    ensures
        ({
            let (address, consumed) = spec_parse_address(buf, offset)->Ok_0;
            &&& address.encodable()
            &&& address.wire() == buf.subrange(offset, offset + consumed)
        }),
{
    let field = buf.skip(offset);
    if buf[offset] == ATYP_DOMAIN {
        let raw = buf.subrange(offset + 2, offset + 2 + buf[offset + 1]);
        assert(raw =~= field.subrange(2, 2 + field[1]));
        decode_utf8_encode_utf8(raw);
    }
}

/// Bytes behind an address have no say: where a buffer decodes at `offset`,
/// any longer buffer that starts with it decodes to the same.
pub proof fn lemma_address_ignores_what_follows(buf: Seq<u8>, offset: int, more: Seq<u8>)
    requires
        spec_parse_address(buf, offset) is Ok,
    ensures
        spec_parse_address(buf + more, offset) == spec_parse_address(buf, offset),
{
    let field = buf.skip(offset);
    let longer = (buf + more).skip(offset);
    assert(longer =~= field + more);
    if field[0] == ATYP_IPV4 {
        assert(longer.subrange(1, 5) =~= field.subrange(1, 5));
    } else if field[0] == ATYP_DOMAIN {
        assert(longer.subrange(2, 2 + field[1]) =~= field.subrange(2, 2 + field[1]));
    } else {
        assert(longer.subrange(1, 17) =~= field.subrange(1, 17));
    }
}

} // verus!
