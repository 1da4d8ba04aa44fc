use mtrf::cmd::{Cmd, CtrRequest, Mode, SetBrightness, TemporaryOn};
use mtrf::error::Error;
use mtrf::request::{bind, set_mode, Request};

#[test]
pub fn test_crc() {
    let mut req = Request::default();

    req.mode = Mode::TxF;
    req.set_ch(5).unwrap();
    req.cmd = Cmd::Bind;

    assert_eq!(
        [171, 2, 0, 0, 5, 15, 0, 0, 0, 0, 0, 0, 0, 0, 0, 193, 172],
        req.to_message()
    );

    req.cmd = Cmd::Service(true);
    assert_eq!(
        [171, 2, 0, 0, 5, 131, 0, 1, 0, 0, 0, 0, 0, 0, 0, 54, 172],
        req.to_message()
    );
}

#[test]
fn channel_bound() {
    let mut req = Request::default();
    assert_eq!(req.set_ch(64), Err(Error::ChannelOutOfRange(64)));
    assert_eq!(req.ch(), 0);
    assert_eq!(req.set_ch(63), Ok(()));
    assert_eq!(req.ch(), 63);
    assert_eq!(req.set_ch(0), Ok(()));
    assert_eq!(req.ch(), 0);
    assert_eq!(req.set_ch(255), Err(Error::ChannelOutOfRange(255)));
    assert_eq!(req.ch(), 0);
}

#[test]
fn constructors_check_channel() {
    assert_eq!(bind(Mode::RxF, 64), Err(Error::ChannelOutOfRange(64)));
    let req = bind(Mode::RxF, 63).unwrap();
    assert_eq!(req.mode, Mode::RxF);
    assert_eq!(req.ctr, CtrRequest::BindModeOn);
    assert_eq!(req.cmd, Cmd::Bind);
    assert_eq!(req.ch(), 63);
    assert_eq!(req.id, 0);
    assert_eq!(
        Request::new(Mode::TX, CtrRequest::SendCommand, 64, Cmd::On, 7),
        Err(Error::ChannelOutOfRange(64))
    );
    let req = Request::new(Mode::TX, CtrRequest::SendCommand, 0, Cmd::On, 7).unwrap();
    assert_eq!(req.id, 7);
    let req = set_mode(Mode::Service);
    assert_eq!(req.mode, Mode::Service);
    assert_eq!(req.ctr, CtrRequest::SendCommand);
    assert_eq!(req.ch(), 0);
    assert_eq!(req.cmd, Cmd::Off);
}

#[test]
fn payload_layouts() {
    let mut req = Request::new(Mode::TX, CtrRequest::SendCommand, 1, Cmd::Off, 0).unwrap();

    req.cmd = Cmd::SetBrightness(SetBrightness::Fmt1(200));
    assert_eq!(&req.to_message()[5..11], &[6, 1, 200, 0, 0, 0]);

    req.cmd = Cmd::SetBrightness(SetBrightness::Fmt3([1, 2, 3]));
    assert_eq!(&req.to_message()[5..11], &[6, 3, 1, 2, 3, 0]);

    req.cmd = Cmd::BrightReg(9);
    assert_eq!(&req.to_message()[5..11], &[13, 1, 9, 0, 0, 0]);

    req.cmd = Cmd::TemporaryOn(TemporaryOn::Fmt1(4));
    assert_eq!(&req.to_message()[5..11], &[25, 1, 4, 0, 0, 0]);

    req.cmd = Cmd::TemporaryOn(TemporaryOn::Fmt2([5, 6]));
    assert_eq!(&req.to_message()[5..11], &[25, 2, 5, 6, 0, 0]);

    req.cmd = Cmd::Service(false);
    assert_eq!(&req.to_message()[5..11], &[131, 0, 0, 0, 0, 0]);

    req.cmd = Cmd::ClearMemory;
    assert_eq!(&req.to_message()[5..11], &[132, 4, 0xAA, 0x55, 0xAA, 0x55]);
}

#[test]
fn id_and_checksum_fields() {
    let req = Request::new(Mode::RX, CtrRequest::SendCommandToId, 2, Cmd::On, 0x12345678).unwrap();
    let msg = req.to_message();
    assert_eq!(msg[0], 171);
    assert_eq!(msg[1], 1);
    assert_eq!(msg[2], 9);
    assert_eq!(&msg[11..15], &[0x78, 0x56, 0x34, 0x12]);
    let sum: u32 = msg[..15].iter().map(|b| *b as u32).sum();
    assert_eq!(msg[15], (sum % 256) as u8);
    assert_eq!(msg[16], 172);
}
