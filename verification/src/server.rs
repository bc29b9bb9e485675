//! Protocol-state negotiation: decoding of the handshake, status and login
//! records, encoding of the responses, and the step function that drives one
//! connection from its first packet to closure.
//!
//! The step function is pure protocol logic: it consumes one framed packet
//! and yields the next session state and at most one response frame. The
//! surrounding program performs the socket reads and writes, handing every
//! decision to [`session_step`].

use vstd::prelude::*;

use crate::encoding::{
    be_bytes, be_val, frame_bytes, read_i64_sync, read_string_sync, read_u16_sync,
    read_uuid_sync, read_varint_sync, spec_read_string, spec_read_varint, string_enc,
    u64_from_i64, varint_enc, write_bool, write_packet_frame, write_string, write_uuid,
    write_varint_sync, ByteBuf, DecodeError,
};
use crate::handshaking::Handshake;
use crate::login::{LoginProperty, LoginStart, LoginSuccess};
use crate::status::{PingRequest, PongResponse, StatusResponse};
use crate::types::VarInt;

verus! {

/// Why the connection handler gave up on a connection. Each of these is
/// fatal: the handler surfaces it and the socket is closed.
#[derive(Debug, Clone, PartialEq, Eq)]
pub enum HandlerError {
    /// A packet payload failed to decode.
    Decode(DecodeError),
    /// A packet arrived whose identifier is not the one the current state
    /// expects.
    UnexpectedPacketId { expected: i32, actual: i32 },
    /// The handshake asked for a next state this server does not serve.
    UnsupportedNextState(i32),
}

/// Which packet a connection expects next. The session advances through
/// these states strictly in the order the protocol prescribes.
#[derive(Debug, Clone, Copy, PartialEq, Eq)]
pub enum SessionState {
    /// Nothing received yet: the first packet must be a handshake.
    AwaitHandshake,
    /// Status branch: the next packet must be a status request.
    AwaitStatusRequest,
    /// Status branch: the next packet must be a ping request.
    AwaitPingRequest,
    /// Login branch: the next packet must be a login start.
    AwaitLoginStart,
    /// The exchange is over; the connection closes.
    Closed,
}

/// What one step of the session yields: the state to continue in and at
/// most one fully framed response to write before the next read.
#[derive(Debug, PartialEq, Eq)]
pub struct StepOutcome {
    pub next: SessionState,
    pub response: Option<Vec<u8>>,
}

/// The fields of a handshake record at the head of `s`: protocol version,
/// server address, server port, and requested next state.
pub open spec fn spec_read_handshake(s: Seq<u8>) -> Result<(i32, Seq<char>, u16, i32), DecodeError> {
    match spec_read_varint(s) {
        Err(e) => Err(e),
        Ok((pv, n1)) => match spec_read_string(s.skip(n1)) {
            Err(e) => Err(e),
            Ok((addr, rest)) => if rest.len() < 2 {
                Err(DecodeError::NotEnoughBytes)
            } else {
                match spec_read_varint(rest.skip(2)) {
                    Err(e) => Err(e),
                    Ok((ns, _)) => Ok((pv, addr, be_val(rest.take(2)) as u16, ns)),
                }
            },
        },
    }
}

/// The payload of a ping request at the head of `s`: one big-endian 64-bit
/// integer.
pub open spec fn spec_read_ping(s: Seq<u8>) -> Result<i64, DecodeError> {
    if s.len() < 8 {
        Err(DecodeError::NotEnoughBytes)
    } else {
        Ok(crate::encoding::i64_from_u64(be_val(s.take(8)) as u64))
    }
}

/// The fields of a login start record at the head of `s`: the player name
/// and the sixteen bytes of the player identifier.
pub open spec fn spec_read_login_start(s: Seq<u8>) -> Result<(Seq<char>, Seq<u8>), DecodeError> {
    match spec_read_string(s) {
        Err(e) => Err(e),
        Ok((name, rest)) => if rest.len() < 16 {
            Err(DecodeError::NotEnoughBytes)
        } else {
            Ok((name, rest.take(16)))
        },
    }
}

/// Decodes a handshake record: protocol version, server address, server
/// port, and next state, in that order. Trailing payload bytes are ignored.
pub fn deserialize_handshake(buf: ByteBuf) -> (r: Result<Handshake, DecodeError>)
    requires
        buf.wf(),
    ensures
        (match spec_read_handshake(buf@) {
            Ok(t) => r matches Ok(h) && h.protocol_version.0 == t.0 && h.server_address@ == t.1
                && h.server_port == t.2 && h.next_state.0 == t.3,
            Err(e) => r == Err::<Handshake, DecodeError>(e),
        }),
{
    let mut b = buf;
    let protocol_version = match read_varint_sync(&mut b) {
        Ok(v) => v,
        Err(e) => {
            return Err(e);
        },
    };
    let server_address = match read_string_sync(&mut b) {
        Ok(s) => s,
        Err(e) => {
            return Err(e);
        },
    };
    let server_port = match read_u16_sync(&mut b) {
        Ok(p) => p,
        Err(e) => {
            return Err(e);
        },
    };
    let next_state = match read_varint_sync(&mut b) {
        Ok(v) => v,
        Err(e) => {
            return Err(e);
        },
    };
    Ok(Handshake { protocol_version, server_address, server_port, next_state })
}

/// Decodes a login start record: the player name, then the sixteen-byte
/// player identifier.
pub fn deserialize_login_start(buf: ByteBuf) -> (r: Result<LoginStart, DecodeError>)
    requires
        buf.wf(),
    ensures
        (match spec_read_login_start(buf@) {
            Ok(t) => r matches Ok(l) && l.name@ == t.0 && l.player_uuid@ == t.1
                && l.player_uuid.wf(),
            Err(e) => r == Err::<LoginStart, DecodeError>(e),
        }),
{
    let mut b = buf;
    let name = match read_string_sync(&mut b) {
        Ok(s) => s,
        Err(e) => {
            return Err(e);
        },
    };
    let player_uuid = match read_uuid_sync(&mut b) {
        Ok(u) => u,
        Err(e) => {
            return Err(e);
        },
    };
    Ok(LoginStart { name, player_uuid })
}

/// Decodes a ping request record: one big-endian 64-bit payload.
pub fn deserialize_ping_request(buf: ByteBuf) -> (r: Result<PingRequest, DecodeError>)
    requires
        buf.wf(),
    ensures
        (match spec_read_ping(buf@) {
            Ok(v) => r matches Ok(p) && p.payload == v,
            Err(e) => r == Err::<PingRequest, DecodeError>(e),
        }),
{
    let mut b = buf;
    let payload = match read_i64_sync(&mut b) {
        Ok(v) => v,
        Err(e) => {
            return Err(e);
        },
    };
    proof {
        crate::encoding::lemma_u64_i64_inverse(payload);
        crate::encoding::lemma_be_val_bound(buf@.take(8));
    }
    Ok(PingRequest { payload })
}

/// Encodes a status response: its JSON string, length-prefixed.
pub fn serialize_status_response(packet: &StatusResponse) -> (r: Vec<u8>)
    requires
        vstd::utf8::encode_utf8(packet.json_response@).len() <= i32::MAX,
    ensures
        r@ == string_enc(packet.json_response@),
{
    let mut buf: Vec<u8> = Vec::new();
    write_string(&mut buf, packet.json_response.as_str());
    buf
}

/// Encodes a pong response: its payload as a big-endian 64-bit integer.
pub fn serialize_pong_response(packet: &PongResponse) -> (r: Vec<u8>)
    ensures
        r@ == be_bytes(u64_from_i64(packet.payload) as nat, 8),
{
    let mut buf: Vec<u8> = Vec::new();
    crate::encoding::write_i64(&mut buf, packet.payload);
    buf
}

/// The wire form of one signed property of a login success.
pub open spec fn property_enc(p: LoginProperty) -> Seq<u8> {
    string_enc(p.name@) + string_enc(p.value@) + (match p.signature {
        Option::Some(sig) => seq![1u8] + string_enc(sig@),
        Option::None => seq![0u8],
    })
}

/// The wire form of a property list, in order.
pub open spec fn properties_enc(ps: Seq<LoginProperty>) -> Seq<u8>
    decreases ps.len(),
{
    if ps.len() == 0 {
        Seq::empty()
    } else {
        properties_enc(ps.drop_last()) + property_enc(ps.last())
    }
}

/// The wire form of a login success record: the identifier, the name, the
/// property count and properties, and the strict-error-handling flag.
pub open spec fn login_success_enc(p: LoginSuccess) -> Seq<u8> {
    p.uuid@ + string_enc(p.username@) + varint_enc(p.properties@.len() as u32) + properties_enc(
        p.properties@,
    ) + seq![if p.strict_error_handling {
        1u8
    } else {
        0u8
    }]
}

/// Encodes a login success record.
pub fn serialize_login_success(packet: &LoginSuccess) -> (r: Vec<u8>)
    requires
        packet.uuid.wf(),
        vstd::utf8::encode_utf8(packet.username@).len() <= i32::MAX,
        packet.properties@.len() <= i32::MAX,
        forall|i: int|
            0 <= i < packet.properties@.len() ==> vstd::utf8::encode_utf8(
                #[trigger] packet.properties@[i].name@,
            ).len() <= i32::MAX && vstd::utf8::encode_utf8(packet.properties@[i].value@).len()
                <= i32::MAX && (packet.properties@[i].signature matches Some(sig)
                ==> vstd::utf8::encode_utf8(sig@).len() <= i32::MAX),
    ensures
        r@ == login_success_enc(*packet),
{
    let mut buf: Vec<u8> = Vec::new();
    write_uuid(&mut buf, &packet.uuid);
    write_string(&mut buf, packet.username.as_str());
    write_varint_sync(&mut buf, VarInt(packet.properties.len() as i32));
    proof {
        assert(crate::encoding::u32_from_i32(packet.properties@.len() as i32)
            == packet.properties@.len() as u32);
    }
    let ghost base = buf@;
    let mut i: usize = 0;
    while i < packet.properties.len()
        invariant
            packet.uuid.wf(),
            i <= packet.properties@.len(),
            forall|j: int|
                0 <= j < packet.properties@.len() ==> vstd::utf8::encode_utf8(
                    #[trigger] packet.properties@[j].name@,
                ).len() <= i32::MAX && vstd::utf8::encode_utf8(
                    packet.properties@[j].value@,
                ).len() <= i32::MAX && (packet.properties@[j].signature matches Some(sig)
                    ==> vstd::utf8::encode_utf8(sig@).len() <= i32::MAX),
            buf@ == base + properties_enc(packet.properties@.take(i as int)),
        decreases packet.properties@.len() - i,
    {
        let prop = &packet.properties[i];
        write_string(&mut buf, prop.name.as_str());
        write_string(&mut buf, prop.value.as_str());
        match &prop.signature {
            Some(sig) => {
                write_bool(&mut buf, true);
                write_string(&mut buf, sig.as_str());
            },
            None => {
                write_bool(&mut buf, false);
            },
        }
        proof {
            let ps = packet.properties@;
            assert(ps.take(i + 1).drop_last() =~= ps.take(i as int));
            assert(ps.take(i + 1).last() == ps[i as int]);
            assert(buf@ =~= base + properties_enc(ps.take(i + 1)));
        }
        i = i + 1;
    }
    proof {
        assert(packet.properties@.take(packet.properties@.len() as int)
            =~= packet.properties@);
    }
    write_bool(&mut buf, packet.strict_error_handling);
    proof {
        assert(buf@ =~= login_success_enc(*packet));
    }
    buf
}

/// The complete response frame for a status request, given the configured
/// status document.
pub open spec fn status_response_frame(json: Seq<char>) -> Seq<u8> {
    frame_bytes(0, string_enc(json))
}

/// The complete response frame that echoes a ping payload.
pub open spec fn pong_frame(payload: i64) -> Seq<u8> {
    frame_bytes(1, be_bytes(u64_from_i64(payload) as nat, 8))
}

/// The complete response frame for a login start: a login success that
/// echoes the player identifier and name, with no properties and strict
/// error handling off.
pub open spec fn login_success_frame(uuid: Seq<u8>, name: Seq<char>) -> Seq<u8> {
    frame_bytes(2, uuid + string_enc(name) + varint_enc(0) + seq![0u8])
}

/// Drives one connection forward by one received packet.
///
/// Given the current session state, the identifier and payload of the frame
/// just read, and the configured status document, this decides everything
/// the protocol prescribes for that packet: which packet identifiers are
/// acceptable, how the payload decodes, which response frame (if any) to
/// write back, and which state the session continues in. Every failure is
/// fatal to the connection and is returned as a [`HandlerError`]; no
/// response is ever produced for a packet that fails to decode.
///
/// A handshake asking for any next state other than status or login is
/// rejected with [`HandlerError::UnsupportedNextState`]; in particular the
/// declared transfer state has no branch in this server.
pub fn session_step(state: SessionState, packet_id: VarInt, payload: ByteBuf, status_json: &str)
    -> (r: Result<StepOutcome, HandlerError>)
    requires
        !(state is Closed),
        payload.wf(),
        vstd::utf8::encode_utf8(status_json@).len() + 10 <= i32::MAX,
    ensures
        (match state {
            SessionState::AwaitHandshake => {
                if packet_id.0 != 0 {
                    r == Err::<StepOutcome, HandlerError>(
                        HandlerError::UnexpectedPacketId { expected: 0, actual: packet_id.0 },
                    )
                } else {
                    match spec_read_handshake(payload@) {
                        Err(e) => r == Err::<StepOutcome, HandlerError>(HandlerError::Decode(e)),
                        Ok(t) => {
                            if t.3 == 1 {
                                r matches Ok(o) && o.next == SessionState::AwaitStatusRequest
                                    && o.response is None
                            } else if t.3 == 2 {
                                r matches Ok(o) && o.next == SessionState::AwaitLoginStart
                                    && o.response is None
                            } else {
                                r == Err::<StepOutcome, HandlerError>(
                                    HandlerError::UnsupportedNextState(t.3),
                                )
                            }
                        },
                    }
                }
            },
            SessionState::AwaitStatusRequest => {
                if packet_id.0 != 0 {
                    r == Err::<StepOutcome, HandlerError>(
                        HandlerError::UnexpectedPacketId { expected: 0, actual: packet_id.0 },
                    )
                } else {
                    r matches Ok(o) && o.next == SessionState::AwaitPingRequest && (o.response
                        matches Some(b) && b@ == status_response_frame(status_json@))
                }
            },
            SessionState::AwaitPingRequest => {
                if packet_id.0 != 1 {
                    r == Err::<StepOutcome, HandlerError>(
                        HandlerError::UnexpectedPacketId { expected: 1, actual: packet_id.0 },
                    )
                } else {
                    match spec_read_ping(payload@) {
                        Err(e) => r == Err::<StepOutcome, HandlerError>(HandlerError::Decode(e)),
                        Ok(v) => r matches Ok(o) && o.next == SessionState::Closed && (o.response
                            matches Some(b) && b@ == pong_frame(v)),
                    }
                }
            },
            SessionState::AwaitLoginStart => {
                if packet_id.0 != 0 {
                    r == Err::<StepOutcome, HandlerError>(
                        HandlerError::UnexpectedPacketId { expected: 0, actual: packet_id.0 },
                    )
                } else {
                    match spec_read_login_start(payload@) {
                        Err(e) => r == Err::<StepOutcome, HandlerError>(HandlerError::Decode(e)),
                        Ok(t) => r matches Ok(o) && o.next == SessionState::Closed && (o.response
                            matches Some(b) && b@ == login_success_frame(t.1, t.0)),
                    }
                }
            },
            SessionState::Closed => true,
        }),
{
    match state {
        SessionState::AwaitHandshake => {
            if packet_id.0 != 0x00 {
                return Err(HandlerError::UnexpectedPacketId { expected: 0x00, actual: packet_id.0 });
            }
            let handshake = match deserialize_handshake(payload) {
                Ok(h) => h,
                Err(e) => {
                    return Err(HandlerError::Decode(e));
                },
            };
            if handshake.next_state.0 == 1 {
                Ok(StepOutcome { next: SessionState::AwaitStatusRequest, response: None })
            } else if handshake.next_state.0 == 2 {
                Ok(StepOutcome { next: SessionState::AwaitLoginStart, response: None })
            } else {
                Err(HandlerError::UnsupportedNextState(handshake.next_state.0))
            }
        },
        SessionState::AwaitStatusRequest => {
            if packet_id.0 != 0x00 {
                return Err(HandlerError::UnexpectedPacketId { expected: 0x00, actual: packet_id.0 });
            }
            let response_packet = StatusResponse { json_response: status_json.to_owned() };
            let data = serialize_status_response(&response_packet);
            proof {
                crate::encoding::lemma_varint_enc_len(0);
                crate::encoding::lemma_varint_enc_len(
                    vstd::utf8::encode_utf8(status_json@).len() as u32,
                );
            }
            let mut frame: Vec<u8> = Vec::new();
            write_packet_frame(&mut frame, VarInt(0x00), data.as_slice());
            proof {
                assert(frame@ =~= status_response_frame(status_json@));
            }
            Ok(StepOutcome { next: SessionState::AwaitPingRequest, response: Some(frame) })
        },
        SessionState::AwaitPingRequest => {
            if packet_id.0 != 0x01 {
                return Err(HandlerError::UnexpectedPacketId { expected: 0x01, actual: packet_id.0 });
            }
            let ping = match deserialize_ping_request(payload) {
                Ok(p) => p,
                Err(e) => {
                    return Err(HandlerError::Decode(e));
                },
            };
            let pong = PongResponse { payload: ping.payload };
            let data = serialize_pong_response(&pong);
            proof {
                crate::encoding::lemma_varint_enc_len(1);
                assert(crate::encoding::pow256(8) > u64_from_i64(pong.payload)) by {
                    assert(crate::encoding::pow256(0) == 1);
                    assert(crate::encoding::pow256(1) == 0x100);
                    assert(crate::encoding::pow256(2) == 0x1_0000);
                    assert(crate::encoding::pow256(3) == 0x100_0000);
                    assert(crate::encoding::pow256(4) == 0x1_0000_0000);
                    assert(crate::encoding::pow256(5) == 0x100_0000_0000);
                    assert(crate::encoding::pow256(6) == 0x1_0000_0000_0000);
                    assert(crate::encoding::pow256(7) == 0x100_0000_0000_0000);
                    assert(crate::encoding::pow256(8) == 0x1_0000_0000_0000_0000);
                }
                crate::encoding::lemma_be_round_trip(u64_from_i64(pong.payload) as nat, 8);
            }
            let mut frame: Vec<u8> = Vec::new();
            write_packet_frame(&mut frame, VarInt(0x01), data.as_slice());
            proof {
                assert(frame@ =~= pong_frame(pong.payload));
            }
            Ok(StepOutcome { next: SessionState::Closed, response: Some(frame) })
        },
        SessionState::AwaitLoginStart => {
            if packet_id.0 != 0x00 {
                return Err(HandlerError::UnexpectedPacketId { expected: 0x00, actual: packet_id.0 });
            }
            let login_start = match deserialize_login_start(payload) {
                Ok(l) => l,
                Err(e) => {
                    return Err(HandlerError::Decode(e));
                },
            };
            let ghost name_chars = login_start.name@;
            let ghost uuid_bytes = login_start.player_uuid@;
            let login_success = LoginSuccess {
                uuid: login_start.player_uuid,
                username: login_start.name,
                properties: Vec::new(),
                strict_error_handling: false,
            };
            proof {
                let s = payload@;
                match spec_read_varint(s) {
                    Ok((v, size)) => {
                        let d = crate::encoding::declared_len(v);
                        let taken = s.skip(size).take(d);
                        vstd::utf8::decode_utf8_encode_utf8(taken);
                        assert(vstd::utf8::encode_utf8(name_chars).len() <= 4 * (
                        crate::encoding::MAX_STRING_LENGTH as int));
                    },
                    Err(_) => {
                        assert(false);
                    },
                }
                crate::encoding::lemma_varint_enc_len(2);
                crate::encoding::lemma_varint_enc_len(
                    vstd::utf8::encode_utf8(name_chars).len() as u32,
                );
                crate::encoding::lemma_varint_enc_len(0);
            }
            let data = serialize_login_success(&login_success);
            proof {
                assert(properties_enc(Seq::<LoginProperty>::empty()) =~= Seq::<u8>::empty());
                assert(data@ =~= uuid_bytes + string_enc(name_chars) + varint_enc(0)
                    + seq![0u8]);
            }
            let mut frame: Vec<u8> = Vec::new();
            write_packet_frame(&mut frame, VarInt(0x02), data.as_slice());
            proof {
                assert(frame@ =~= login_success_frame(uuid_bytes, name_chars));
            }
            Ok(StepOutcome { next: SessionState::Closed, response: Some(frame) })
        },
        SessionState::Closed => {
            proof {
                assert(false);
            }
            Err(HandlerError::Decode(DecodeError::Io))
        },
    }
}

} // verus!
