//! Relay request and relay response: the two messages of the CONNECT exchange.
//!
//! Both share one layout: three fixed octets, an address with its tag, and a
//! port in network byte order.

use crate::address::{
    lemma_address_ignores_what_follows, lemma_address_round_trip, spec_parse_address, Address,
    AddressView, ATYP_DOMAIN, ATYP_IPV4, ATYP_IPV6,
};
use crate::error::AddressEncodingError;
use vstd::prelude::*;

verus! {

/// Protocol version octet of every SOCKS5 message.
pub const VERSION: u8 = 0x05;

/// Command octet of a CONNECT request.
pub const CMD_CONNECT: u8 = 0x01;

/// Value of the reserved octet.
pub const RESERVED: u8 = 0x00;

/// Reply code of a relay response that grants the request.
pub const REP_SUCCEEDED: u8 = 0x00;

/// Length of the fixed part of a message that precedes the address tag.
pub const HEADER_LEN: usize = 3;

/// The two octets of a port in network byte order.
pub open spec fn spec_port_bytes(port: u16) -> Seq<u8> {
    seq![(port / 256) as u8, (port % 256) as u8]
}

/// The port that two octets in network byte order stand for.
pub open spec fn spec_port(high: u8, low: u8) -> u16 {
    (high * 256 + low) as u16
}

/// A relay request, as the client sends it.
#[derive(Debug, PartialEq, Eq)]
pub struct Request {
    /// Protocol version, 5.
    pub ver: u8,
    /// Command; 1 asks for a TCP tunnel.
    pub cmd: u8,
    /// Reserved octet, 0.
    pub rsv: u8,
    /// Address type. Encoding takes the tag from `dst_addr`, not from here.
    pub atyp: u8,
    /// Where the tunnel is to lead.
    pub dst_addr: Address,
    /// Port at the destination.
    pub dst_port: u16,
}

/// Mathematical model of a [`Request`].
pub struct RequestView {
    pub ver: u8,
    pub cmd: u8,
    pub rsv: u8,
    pub atyp: u8,
    pub dst_addr: AddressView,
    pub dst_port: u16,
}

impl View for Request {
    type V = RequestView;

    open spec fn view(&self) -> RequestView {
        RequestView {
            ver: self.ver,
            cmd: self.cmd,
            rsv: self.rsv,
            atyp: self.atyp,
            dst_addr: self.dst_addr@,
            dst_port: self.dst_port,
        }
    }
}

impl RequestView {
    /// A request as the protocol wants it: version 5, reserved octet 0, and a
    /// tag field that agrees with the address.
    pub open spec fn well_formed(self) -> bool {
        &&& self.ver == VERSION
        &&& self.rsv == RESERVED
        &&& self.atyp == self.dst_addr.tag()
        &&& self.dst_addr.well_formed()
    }

    /// The wire form: version, command, reserved octet, the address with its
    /// tag, the port. The tag on the wire is that of the address.
    pub open spec fn wire(self) -> Seq<u8> {
        seq![self.ver, self.cmd, self.rsv] + self.dst_addr.wire() + spec_port_bytes(self.dst_port)
    }
}

/// A relay response, as the server sent it.
#[derive(Debug, PartialEq, Eq)]
pub struct Response {
    /// Protocol version as received.
    pub ver: u8,
    /// Reply code; 0 grants the request.
    pub rep: u8,
    /// Reserved octet as received.
    pub rsv: u8,
    /// Address type as received; decoding makes `bnd_addr` of this family.
    pub atyp: u8,
    /// Address that the server bound for the tunnel.
    pub bnd_addr: Address,
    /// Port that the server bound for the tunnel.
    pub bnd_port: u16,
}

/// Mathematical model of a [`Response`].
pub struct ResponseView {
    pub ver: u8,
    pub rep: u8,
    pub rsv: u8,
    pub atyp: u8,
    pub bnd_addr: AddressView,
    pub bnd_port: u16,
}

impl View for Response {
    type V = ResponseView;

    open spec fn view(&self) -> ResponseView {
        ResponseView {
            ver: self.ver,
            rep: self.rep,
            rsv: self.rsv,
            atyp: self.atyp,
            bnd_addr: self.bnd_addr@,
            bnd_port: self.bnd_port,
        }
    }
}

impl ResponseView {
    /// A response as decoding yields it: the tag field agrees with the
    /// address, and the address is well formed. The version, the reply code
    /// and the reserved octet are whatever the server sent.
    pub open spec fn well_formed(self) -> bool {
        &&& self.atyp == self.bnd_addr.tag()
        &&& self.bnd_addr.well_formed()
    }
}

/// The response that `buf` starts with, if it holds a whole one: three fixed
/// octets, an address whose tag is the fourth octet, and two octets of port.
/// What follows the port is ignored.
pub open spec fn spec_parse_response(buf: Seq<u8>) -> Option<ResponseView> {
    if buf.len() < HEADER_LEN + 1 {
        None
    } else {
        match spec_parse_address(buf, HEADER_LEN as int) {
            Err(_) => None,
            Ok((address, consumed)) => {
                let port_at = HEADER_LEN + consumed;
                if buf.len() - port_at < 2 {
                    None
                } else {
                    Some(
                        ResponseView {
                            ver: buf[0],
                            rep: buf[1],
                            rsv: buf[2],
                            atyp: buf[3],
                            bnd_addr: address,
                            bnd_port: spec_port(buf[port_at], buf[port_at + 1]),
                        },
                    )
                }
            },
        }
    }
}

impl Request {
    /// The CONNECT request for `target` and `port`; its tag field is that of
    /// the target.
    pub fn connect(target: Address, port: u16) -> (request: Request)
        ensures
            request@ == (RequestView {
                ver: VERSION,
                cmd: CMD_CONNECT,
                rsv: RESERVED,
                atyp: target@.tag(),
                dst_addr: target@,
                dst_port: port,
            }),
            request@.well_formed(),
    {
        let atyp: u8 = target.atyp();
        Request { ver: VERSION, cmd: CMD_CONNECT, rsv: RESERVED, atyp, dst_addr: target, dst_port: port }
    }

    /// Encodes the request. Fails exactly when the destination is a domain
    /// name longer than 255 bytes.
    pub fn to_bytes(&self) -> (r: Result<Vec<u8>, AddressEncodingError>)
        ensures
            match r {
                Ok(bytes) => self@.dst_addr.encodable() && bytes@ == self@.wire(),
                Err(e) => !self@.dst_addr.encodable() && e.len == self@.dst_addr.name_len(),
            },
    {
        let mut address = self.dst_addr.to_bytes()?;
        let mut buf: Vec<u8> = vec![self.ver, self.cmd, self.rsv];
        buf.append(&mut address);
        buf.push((self.dst_port / 256) as u8);
        buf.push((self.dst_port % 256) as u8);
        Ok(buf)
    }
}

impl Response {
    /// Decodes a response from the bytes received. `None` where the buffer
    /// holds no whole response: fewer than four octets, an address tag that
    /// names no family, or an address or port cut short.
    pub fn from_bytes(buf: &[u8]) -> (r: Option<Self>)
        ensures
            match spec_parse_response(buf@) {
                Some(model) => r matches Some(response) && response@ == model
                    && response@.well_formed(),
                None => r is None,
            },
    {
        if buf.len() < HEADER_LEN + 1 {
            return None;
        }
        match Address::from_bytes(buf, HEADER_LEN) {
            Err(_) => None,
            Ok((bnd_addr, consumed)) => {
                let port_at: usize = HEADER_LEN + consumed;
                if buf.len() - port_at < 2 {
                    return None;
                }
                let bnd_port: u16 = (buf[port_at] as u16) * 256 + (buf[port_at + 1] as u16);
                Some(Response { ver: buf[0], rep: buf[1], rsv: buf[2], atyp: buf[3], bnd_addr, bnd_port })
            },
        }
    }
}

/// The two octets of a port give the port back.
pub proof fn lemma_port_round_trip(port: u16)
    ensures
        spec_port_bytes(port).len() == 2,
        spec_port(spec_port_bytes(port)[0], spec_port_bytes(port)[1]) == port,
{
}

/// A request and a response share one layout: the bytes of a request whose
/// destination has a wire form decode as a response with the same version,
/// the command in place of the reply code, the same reserved octet, and the
/// address and port of the request. The tag is that of the address.
pub proof fn lemma_request_round_trip(request: RequestView)
    requires
        request.dst_addr.well_formed(),
        request.dst_addr.encodable(),
    ensures
        spec_parse_response(request.wire()) == Some(
            ResponseView {
                ver: request.ver,
                rep: request.cmd,
                rsv: request.rsv,
                atyp: request.dst_addr.tag(),
                bnd_addr: request.dst_addr,
                bnd_port: request.dst_port,
            },
        ),
{
    let head = seq![request.ver, request.cmd, request.rsv];
    lemma_address_round_trip(request.dst_addr, head, spec_port_bytes(request.dst_port));
}

/// Least length of a buffer that holds the whole response that its first
/// octets announce: ten for IPv4, twenty-two for IPv6, and for a domain name
/// seven and the value of the length octet. `None` where the tag names no
/// family, or the buffer ends before the tag or the length octet.
pub open spec fn spec_response_len(buf: Seq<u8>) -> Option<int> {
    if buf.len() < HEADER_LEN + 1 {
        None
    } else if buf[3] == ATYP_IPV4 {
        Some(10)
    } else if buf[3] == ATYP_IPV6 {
        Some(22)
    } else if buf[3] == ATYP_DOMAIN && buf.len() >= HEADER_LEN + 2 {
        Some(7 + buf[4])
    } else {
        None
    }
}

/// A buffer decodes exactly when it is as long as the response that it
/// announces: a shorter one is refused, and so is one whose tag is unknown.
pub proof fn lemma_response_needs_whole_message(buf: Seq<u8>)
    ensures
        spec_parse_response(buf) is Some <==> (spec_response_len(buf) matches Some(n) && buf.len()
            >= n),
{
}

/// In a decoded response the tag field and the address never disagree, and
/// the fixed fields are the first octets of the buffer.
pub proof fn lemma_parsed_response_well_formed(buf: Seq<u8>)
    requires
        spec_parse_response(buf) is Some,
    ensures
        ({
            let response = spec_parse_response(buf)->Some_0;
            &&& response.well_formed()
            &&& response.ver == buf[0]
            &&& response.rep == buf[1]
            &&& response.rsv == buf[2]
        }),
{
}

/// Bytes behind the port have no say: a buffer that holds a whole response
/// decodes to the same response however it goes on.
pub proof fn lemma_response_ignores_what_follows(buf: Seq<u8>, more: Seq<u8>)
    requires
        spec_parse_response(buf) is Some,
    ensures
        spec_parse_response(buf + more) == spec_parse_response(buf),
{
    lemma_address_ignores_what_follows(buf, HEADER_LEN as int, more);
}

} // verus!
