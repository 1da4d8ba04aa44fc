use mtrf::cmd::{Cmd, CtrRequest, CtrResponse, Mode, SetBrightness, TemporaryOn};
use mtrf::error::Error;
use mtrf::request::Request;
use mtrf::response::Response;

fn frame(body: [u8; 15]) -> [u8; 17] {
    let mut m = [0u8; 17];
    let mut sum: u32 = 0;
    for i in 0..15 {
        m[i] = body[i];
        sum += body[i] as u32;
    }
    m[15] = (sum % 256) as u8;
    m[16] = 174;
    m
}

#[test]
fn decodes_response_frame() {
    let m = frame([173, 3, 3, 1, 7, 6, 3, 0x10, 0x20, 0x30, 0, 0x01, 0x02, 0x03, 0x04]);
    let r = Response::try_from(m).unwrap();
    assert_eq!(r.mode, Mode::RxF);
    assert_eq!(r.ctr, CtrResponse::BindSuccess);
    assert_eq!(r.togl, 1);
    assert_eq!(r.ch, 7);
    assert_eq!(r.cmd, Cmd::SetBrightness(SetBrightness::Fmt3([0x10, 0x20, 0x30])));
    assert_eq!(r.id, 0x04030201);
    assert_eq!(r.crc, m[15]);
}

#[test]
fn round_trip_keeps_fields() {
    let cmds = [
        Cmd::Off,
        Cmd::BrightUp,
        Cmd::SetBrightness(SetBrightness::Fmt1(77)),
        Cmd::SetBrightness(SetBrightness::Fmt3([1, 2, 3])),
        Cmd::BrightReg(42),
        Cmd::Bind,
        Cmd::TemporaryOn(TemporaryOn::Fmt1(9)),
        Cmd::Service(true),
        Cmd::Service(false),
        Cmd::ClearMemory,
        Cmd::SendState,
    ];
    for cmd in cmds.iter() {
        let req = Request::new(Mode::TxF, CtrRequest::BindModeOn, 63, *cmd, 0xDEADBEEF).unwrap();
        let r = Response::try_from(req.to_message()).unwrap();
        assert_eq!(r.mode, req.mode);
        assert_eq!(r.ch, req.ch());
        assert_eq!(r.cmd, req.cmd);
        assert_eq!(r.id, req.id);
    }
}

#[test]
fn extended_temporary_on_is_sent_with_format_two() {
    let req = Request::new(
        Mode::TX,
        CtrRequest::SendCommand,
        1,
        Cmd::TemporaryOn(TemporaryOn::Fmt2([5, 6])),
        0,
    )
    .unwrap();
    assert_eq!(
        Response::try_from(req.to_message()),
        Err(Error::InvalidTemporaryOnFormat(2))
    );
    let m = frame([173, 0, 0, 0, 1, 25, 3, 5, 6, 0, 0, 0, 0, 0, 0]);
    assert_eq!(
        Response::try_from(m).unwrap().cmd,
        Cmd::TemporaryOn(TemporaryOn::Fmt2([5, 6]))
    );
}

#[test]
fn bit_flip_fails_checksum() {
    let req = Request::new(Mode::TxF, CtrRequest::SendCommand, 5, Cmd::On, 99).unwrap();
    let good = req.to_message();
    assert!(Response::try_from(good).is_ok());
    for i in 0..15 {
        for k in 0..8 {
            let mut bad = good;
            bad[i] ^= 1u8 << k;
            match Response::try_from(bad) {
                Err(Error::ChecksumMismatch { found, .. }) => assert_eq!(found, good[15]),
                other => panic!("byte {} bit {} gave {:?}", i, k, other),
            }
        }
    }
}

#[test]
fn checksum_checked_before_fields() {
    let mut m = frame([173, 9, 0, 0, 1, 14, 0, 0, 0, 0, 0, 0, 0, 0, 0]);
    m[15] = m[15].wrapping_add(1);
    assert_eq!(
        Response::try_from(m),
        Err(Error::ChecksumMismatch { expected: m[15].wrapping_sub(1), found: m[15] })
    );
}

#[test]
fn invalid_fields_are_rejected() {
    let m = frame([173, 6, 0, 0, 1, 0, 0, 0, 0, 0, 0, 0, 0, 0, 0]);
    assert_eq!(Response::try_from(m), Err(Error::InvalidMode(6)));
    let m = frame([173, 0, 4, 0, 1, 0, 0, 0, 0, 0, 0, 0, 0, 0, 0]);
    assert_eq!(Response::try_from(m), Err(Error::InvalidControl(4)));
    let m = frame([173, 0, 0, 0, 1, 14, 0, 0, 0, 0, 0, 0, 0, 0, 0]);
    assert_eq!(Response::try_from(m), Err(Error::UnknownCommand(14)));
    let m = frame([173, 0, 0, 0, 1, 6, 2, 0, 0, 0, 0, 0, 0, 0, 0]);
    assert_eq!(Response::try_from(m), Err(Error::InvalidBrightnessFormat(2)));
    let m = frame([173, 0, 0, 0, 1, 25, 2, 0, 0, 0, 0, 0, 0, 0, 0]);
    assert_eq!(Response::try_from(m), Err(Error::InvalidTemporaryOnFormat(2)));
}
