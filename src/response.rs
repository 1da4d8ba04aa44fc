use vstd::prelude::*;

use crate::cmd::{
    cmd_from_bytes, ctr_response_from_byte, mode_from_byte, Cmd, CtrResponse, Mode,
    TemporaryOn, CH_INDEX, CRC_INDEX, MESSAGE_LENGTH,
};
use crate::error::Error;
use crate::frame::{
    checksum, checksum_of, checksum_ok, lemma_checksum_detects_byte_change, lemma_le_round_trip,
    le_value, u32_from_le,
};
use crate::request::{encode_request, request_body, Request};

verus! {

/// A frame received from the base unit, decoded.
#[derive(Debug, Clone, Copy, PartialEq, Eq)]
pub struct Response {
    pub mode: Mode,
    pub ctr: CtrResponse,
    pub togl: u8,
    pub ch: u8,
    pub cmd: Cmd,
    pub id: u32,
    pub crc: u8,
}

/// What decoding the 17-byte frame `m` gives. The checksum is checked first and
/// nothing else is read from a frame that fails it; then mode, control byte and
/// command are checked in that order.
pub open spec fn decode_response(m: Seq<u8>) -> Result<Response, Error>
    recommends
        m.len() == 17,
{
    if m[15] != checksum(m.take(15)) {
        Err(Error::ChecksumMismatch { expected: checksum(m.take(15)), found: m[15] })
    } else {
        match mode_from_byte(m[1]) {
            Err(e) => Err(e),
            Ok(mode) => match ctr_response_from_byte(m[2]) {
                Err(e) => Err(e),
                Ok(ctr) => match cmd_from_bytes(m.subrange(5, 17)) {
                    Err(e) => Err(e),
                    Ok(cmd) => Ok(
                        Response {
                            mode,
                            ctr,
                            togl: m[3],
                            ch: m[4],
                            cmd,
                            id: le_value(m.subrange(11, 15)),
                            crc: m[15],
                        },
                    ),
                },
            },
        }
    }
}

impl TryFrom<[u8; MESSAGE_LENGTH]> for Response {
    type Error = Error;

    fn try_from(value: [u8; MESSAGE_LENGTH]) -> (r: Result<Response, Error>) {
        let expected = checksum_of(&value);
        if expected != value[CRC_INDEX] {
            return Err(Error::ChecksumMismatch { expected, found: value[CRC_INDEX] });
        }
        let mode = match Mode::try_from(value[1]) {
            Ok(mode) => mode,
            Err(e) => return Err(e),
        };
        let ctr = match CtrResponse::try_from(value[2]) {
            Ok(ctr) => ctr,
            Err(e) => return Err(e),
        };
        let cmd = match Cmd::from_bytes(&value[5..MESSAGE_LENGTH]) {
            Ok(cmd) => cmd,
            Err(e) => return Err(e),
        };
        let id = u32_from_le([value[11], value[12], value[13], value[14]]);
        assert(seq![value[11], value[12], value[13], value[14]] =~= value@.subrange(11, 15));
        Ok(
            Response {
                mode,
                ctr,
                togl: value[3],
                ch: value[CH_INDEX],
                cmd,
                id,
                crc: value[CRC_INDEX],
            },
        )
    }
}

impl vstd::std_specs::convert::TryFromSpecImpl<[u8; MESSAGE_LENGTH]> for Response {
    open spec fn obeys_try_from_spec() -> bool {
        true
    }

    open spec fn try_from_spec(v: [u8; MESSAGE_LENGTH]) -> Result<Response, Error> {
        decode_response(v@)
    }
}

/// Every request frame carries a correct checksum in byte 15.
pub proof fn lemma_request_checksum(req: Request)
    ensures
        checksum_ok(encode_request(req)),
{
    assert(encode_request(req).take(15) =~= request_body(req));
}

/// A frame that decodes carries a correct checksum in byte 15.
pub proof fn lemma_decoded_checksum(m: Seq<u8>)
    requires
        m.len() == 17,
        decode_response(m) is Ok,
    ensures
        checksum_ok(m),
{
}

/// Decoding the frame of a request gives back its mode, channel, command and id.
/// This holds for every request whose control kind is one that a response can
/// carry (code 0..=3) and whose command is not a two-byte Temporary-On: that one
/// is sent with format byte 2, which the decoder does not accept.
pub proof fn lemma_round_trip(req: Request)
    requires
        req.ctr.code() < 4,
        !(req.cmd matches Cmd::TemporaryOn(TemporaryOn::Fmt2(_))),
    ensures
        decode_response(encode_request(req)) matches Ok(r) && r.mode == req.mode && r.ch == req.ch
            && r.cmd == req.cmd && r.id == req.id,
{
    let m = encode_request(req);
    lemma_request_checksum(req);
    lemma_le_round_trip(req.id);
    assert(m.subrange(11, 15) =~= crate::frame::le_bytes(req.id));
    let b = m.subrange(5, 17);
    assert(b.drop_first().take(5) =~= req.cmd.payload());
    assert(m.take(15) =~= request_body(req));
    assert(mode_from_byte(m[1]) == Ok::<Mode, Error>(req.mode));
    assert(ctr_response_from_byte(m[2]) is Ok);
    match req.cmd {
        Cmd::SetBrightness(crate::cmd::SetBrightness::Fmt3(a)) => {
            assert([a[0], a[1], a[2]]@ =~= a@);
            assert([a[0], a[1], a[2]] == a);
        },
        _ => {},
    }
    assert(cmd_from_bytes(b) == Ok::<Cmd, Error>(req.cmd));
}

/// Flipping one bit of bytes 0..=14 of a frame with a correct checksum, without
/// recomputing byte 15, makes the frame fail to decode.
pub proof fn lemma_bit_flip_detected(m: Seq<u8>, i: int, k: u8)
    requires
        checksum_ok(m),
        0 <= i < 15,
        k < 8,
    ensures
        decode_response(m.update(i, m[i] ^ (1u8 << k))) is Err,
{
    let x = m[i];
    assert((x ^ (1u8 << k)) != x) by (bit_vector)
        requires
            k < 8,
    ;
    let f = m.update(i, x ^ (1u8 << k));
    assert(f.take(15) =~= m.take(15).update(i, x ^ (1u8 << k)));
    lemma_checksum_detects_byte_change(m.take(15), i, x ^ (1u8 << k));
}

} // verus!
