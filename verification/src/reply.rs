//! Semantic reply decoders: OK and ERROR packet bodies, whose field layout
//! depends on the negotiated capability flags. Each decoder walks the body
//! with the primitive decoders, consuming fields in wire order.

use vstd::prelude::*;
use vstd::utf8::{decode_utf8, valid_utf8};
use crate::flags::{CapabilityFlags, CLIENT_PROTOCOL_41, CLIENT_TRANSACTIONS};
use crate::packet::{Packet, PacketType};
use crate::types::{
    int_fixed_len, int_len_enc, le_bytes_value, lemma_two_byte_value_bound, spec_int_len_enc,
    string_eof, string_fixed_len, DecodeError, LenEncInt,
};

verus! {

/// The SQL state of an ERROR reply: a 1-character marker and a 5-character
/// standardized error classification code.
#[derive(Debug, PartialEq)]
pub struct SQLState {
    pub state_marker: String,
    pub state: String,
}

/// One piece of session-state information a server may append to an OK
/// reply. The trigger condition for decoding it is left open by the protocol
/// documentation, so no decoder here produces one.
#[derive(Debug, PartialEq)]
pub struct SessionState {
    pub type_: u8,
    pub data: String,
}

/// A decoded ERROR reply: the error code, the SQL state when the 4.1
/// protocol is in use, and the remainder of the body as the error message.
#[derive(Debug, PartialEq)]
pub struct ErrorData {
    pub error_code: u16,
    pub sql_state: Option<SQLState>,
    pub error_message: String,
}

/// A decoded OK reply. `status_flags` and `warnings` are present only as the
/// capability flags dictate; `info` and `session_state_info` are never
/// decoded (see `SessionState`) and stay `None`.
#[derive(Debug, PartialEq)]
pub struct OkData {
    pub affected_rows: u64,
    pub last_insert_id: u64,
    pub status_flags: Option<u16>,
    pub warnings: Option<u16>,
    pub info: Option<String>,
    pub session_state_info: Option<SessionState>,
}

/// Reads the optional SQL state at `offset` of the packet body: under
/// ClientProtocol41 a 1-byte marker followed by a 5-byte state code, both
/// text; without it, nothing.
pub fn get_sql_state(packet: &Packet, flags: CapabilityFlags, offset: usize) -> (r: Result<
    Option<SQLState>,
    DecodeError,
>)
    ensures
        !flags.spec_has(CLIENT_PROTOCOL_41) ==> r == Ok::<Option<SQLState>, DecodeError>(None),
        flags.spec_has(CLIENT_PROTOCOL_41) ==> ({
            let body = packet.body@;
            if offset + 1 > body.len() {
                r == Err::<Option<SQLState>, DecodeError>(DecodeError::TruncatedField)
            } else if !valid_utf8(body.subrange(offset as int, offset + 1)) {
                r == Err::<Option<SQLState>, DecodeError>(DecodeError::InvalidEncoding)
            } else if offset + 6 > body.len() {
                r == Err::<Option<SQLState>, DecodeError>(DecodeError::TruncatedField)
            } else if !valid_utf8(body.subrange(offset + 1, offset + 6)) {
                r == Err::<Option<SQLState>, DecodeError>(DecodeError::InvalidEncoding)
            } else {
                r matches Ok(s) && s matches Some(q) && q.state_marker@ == decode_utf8(
                    body.subrange(offset as int, offset + 1),
                ) && q.state@ == decode_utf8(body.subrange(offset + 1, offset + 6))
            }
        }),
{
    if !flags.has(CLIENT_PROTOCOL_41) {
        return Ok(None);
    }
    let body = packet.body.as_slice();
    if offset >= body.len() {
        return Err(DecodeError::TruncatedField);
    }
    let state_marker = match string_fixed_len(body, offset, 1) {
        Ok((s, _)) => s,
        Err(e) => return Err(e),
    };
    let state = match string_fixed_len(body, offset + 1, 5) {
        Ok((s, _)) => s,
        Err(e) => return Err(e),
    };
    Ok(Some(SQLState { state_marker, state }))
}

impl ErrorData {
    /// Decodes an ERROR reply body: the 0xFF marker byte, a 2-byte
    /// little-endian error code, the optional SQL state (under
    /// ClientProtocol41), and the remainder of the body as the error
    /// message, which is consumed exactly to the end.
    pub fn from_packet(packet: &Packet, flags: CapabilityFlags) -> (r: Result<
        ErrorData,
        DecodeError,
    >)
        ensures
            packet.p_type != PacketType::Error ==> r == Err::<ErrorData, DecodeError>(
                DecodeError::TypeMismatch,
            ),
            packet.p_type == PacketType::Error ==> ({
                let body = packet.body@;
                let code = le_bytes_value(body.subrange(1, 3)) as u16;
                if body.len() < 3 {
                    r == Err::<ErrorData, DecodeError>(DecodeError::TruncatedField)
                } else if flags.spec_has(CLIENT_PROTOCOL_41) {
                    if body.len() < 4 {
                        r == Err::<ErrorData, DecodeError>(DecodeError::TruncatedField)
                    } else if !valid_utf8(body.subrange(3, 4)) {
                        r == Err::<ErrorData, DecodeError>(DecodeError::InvalidEncoding)
                    } else if body.len() < 9 {
                        r == Err::<ErrorData, DecodeError>(DecodeError::TruncatedField)
                    } else if !valid_utf8(body.subrange(4, 9)) {
                        r == Err::<ErrorData, DecodeError>(DecodeError::InvalidEncoding)
                    } else if !valid_utf8(body.subrange(9, body.len() as int)) {
                        r == Err::<ErrorData, DecodeError>(DecodeError::InvalidEncoding)
                    } else {
                        &&& r matches Ok(e)
                        &&& e.error_code == code
                        &&& (e.sql_state matches Some(q) && q.state_marker@ == decode_utf8(
                            body.subrange(3, 4),
                        ) && q.state@ == decode_utf8(body.subrange(4, 9)))
                        &&& e.error_message@ == decode_utf8(body.subrange(9, body.len() as int))
                    }
                } else {
                    if !valid_utf8(body.subrange(3, body.len() as int)) {
                        r == Err::<ErrorData, DecodeError>(DecodeError::InvalidEncoding)
                    } else {
                        &&& r matches Ok(e)
                        &&& e.error_code == code
                        &&& e.sql_state is None
                        &&& e.error_message@ == decode_utf8(body.subrange(3, body.len() as int))
                    }
                }
            }),
    {
        if packet.get_packet_type() != PacketType::Error {
            return Err(DecodeError::TypeMismatch);
        }
        let body = packet.body.as_slice();
        let error_code = match int_fixed_len(body, 1, 2) {
            Ok((v, _)) => {
                proof {
                    lemma_two_byte_value_bound(packet.body@.subrange(1, 3));
                }
                v as u16
            },
            Err(e) => return Err(e),
        };
        let sql_state = match get_sql_state(packet, flags, 3) {
            Ok(s) => s,
            Err(e) => return Err(e),
        };
        let offset: usize = if flags.has(CLIENT_PROTOCOL_41) {
            9
        } else {
            3
        };
        let error_message = match string_eof(body, offset) {
            Ok((s, _)) => s,
            Err(e) => return Err(e),
        };
        Ok(ErrorData { error_code, sql_state, error_message })
    }
}

/// The OK reply decoded from `body` under `flags`: after the 0x00 marker
/// come length-encoded affected-rows and last-insert-id values (the NULL
/// sentinel belongs to neither field, and makes the body malformed), then,
/// gated by the capability flags, 2-byte status flags and a 2-byte warning
/// count (ClientProtocol41), the status flags alone (ClientTransactions),
/// or neither.
pub open spec fn spec_decode_ok(body: Seq<u8>, flags: CapabilityFlags) -> Result<
    OkData,
    DecodeError,
> {
    match spec_int_len_enc(body, 1) {
        Err(e) => Err(e),
        Ok((v1, c1)) => match v1 {
            LenEncInt::Null => Err(DecodeError::MalformedPacket),
            LenEncInt::Value(affected_rows) => match spec_int_len_enc(body, 1 + c1) {
                Err(e) => Err(e),
                Ok((v2, c2)) => match v2 {
                    LenEncInt::Null => Err(DecodeError::MalformedPacket),
                    LenEncInt::Value(last_insert_id) => {
                        let off = 1 + c1 + c2;
                        if flags.spec_has(CLIENT_PROTOCOL_41) {
                            if off + 4 > body.len() {
                                Err(DecodeError::TruncatedField)
                            } else {
                                Ok(
                                    OkData {
                                        affected_rows,
                                        last_insert_id,
                                        status_flags: Some(
                                            le_bytes_value(body.subrange(off, off + 2)) as u16,
                                        ),
                                        warnings: Some(
                                            le_bytes_value(body.subrange(off + 2, off + 4)) as u16,
                                        ),
                                        info: None,
                                        session_state_info: None,
                                    },
                                )
                            }
                        } else if flags.spec_has(CLIENT_TRANSACTIONS) {
                            if off + 2 > body.len() {
                                Err(DecodeError::TruncatedField)
                            } else {
                                Ok(
                                    OkData {
                                        affected_rows,
                                        last_insert_id,
                                        status_flags: Some(
                                            le_bytes_value(body.subrange(off, off + 2)) as u16,
                                        ),
                                        warnings: None,
                                        info: None,
                                        session_state_info: None,
                                    },
                                )
                            }
                        } else {
                            Ok(
                                OkData {
                                    affected_rows,
                                    last_insert_id,
                                    status_flags: None,
                                    warnings: None,
                                    info: None,
                                    session_state_info: None,
                                },
                            )
                        }
                    },
                },
            },
        },
    }
}

impl OkData {
    /// Decodes an OK reply body, exactly as `spec_decode_ok` lays it out.
    /// Decoding stops after the capability-gated fields: under
    /// ClientSessionTrack the protocol documentation leaves the trigger for
    /// the trailing info fields open, so they are left undecoded and any
    /// trailing bytes unread.
    pub fn from_packet(packet: &Packet, flags: CapabilityFlags) -> (r: Result<OkData, DecodeError>)
        ensures
            packet.p_type != PacketType::OkReply ==> r == Err::<OkData, DecodeError>(
                DecodeError::TypeMismatch,
            ),
            packet.p_type == PacketType::OkReply ==> r == spec_decode_ok(packet.body@, flags),
    {
        if packet.get_packet_type() != PacketType::OkReply {
            return Err(DecodeError::TypeMismatch);
        }
        let body = packet.body.as_slice();
        let (v1, c1) = match int_len_enc(body, 1) {
            Ok(p) => p,
            Err(e) => return Err(e),
        };
        let affected_rows = match v1 {
            LenEncInt::Value(v) => v,
            LenEncInt::Null => return Err(DecodeError::MalformedPacket),
        };
        let (v2, c2) = match int_len_enc(body, 1 + c1) {
            Ok(p) => p,
            Err(e) => return Err(e),
        };
        let last_insert_id = match v2 {
            LenEncInt::Value(v) => v,
            LenEncInt::Null => return Err(DecodeError::MalformedPacket),
        };
        let off = 1 + c1 + c2;
        let mut status_flags: Option<u16> = None;
        let mut warnings: Option<u16> = None;
        if flags.has(CLIENT_PROTOCOL_41) {
            status_flags = match int_fixed_len(body, off, 2) {
                Ok((v, _)) => {
                    proof {
                        lemma_two_byte_value_bound(packet.body@.subrange(off as int, off + 2));
                    }
                    Some(v as u16)
                },
                Err(e) => return Err(e),
            };
            warnings = match int_fixed_len(body, off + 2, 2) {
                Ok((v, _)) => {
                    proof {
                        lemma_two_byte_value_bound(packet.body@.subrange(off + 2, off + 4));
                    }
                    Some(v as u16)
                },
                Err(e) => return Err(e),
            };
        } else if flags.has(CLIENT_TRANSACTIONS) {
            status_flags = match int_fixed_len(body, off, 2) {
                Ok((v, _)) => {
                    proof {
                        lemma_two_byte_value_bound(packet.body@.subrange(off as int, off + 2));
                    }
                    Some(v as u16)
                },
                Err(e) => return Err(e),
            };
        }
        Ok(
            OkData {
                affected_rows,
                last_insert_id,
                status_flags,
                warnings,
                info: None,
                session_state_info: None,
            },
        )
    }
}

/// Law: without ClientProtocol41 and ClientTransactions, a decoded OK reply
/// carries no status flags and no warning count.
pub proof fn lemma_ok_reply_no_optional_fields(body: Seq<u8>, flags: CapabilityFlags)
    requires
        !flags.spec_has(CLIENT_PROTOCOL_41),
        !flags.spec_has(CLIENT_TRANSACTIONS),
        spec_decode_ok(body, flags) is Ok,
    ensures
        spec_decode_ok(body, flags).unwrap().status_flags is None,
        spec_decode_ok(body, flags).unwrap().warnings is None,
{
}

} // verus!
