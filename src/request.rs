use vstd::prelude::*;

use crate::cmd::{
    Cmd, CtrRequest, Mode, SetBrightness, TemporaryOn, CH_INDEX, CMD_INDEX, CRC_INDEX,
    MESSAGE_LENGTH, REQUEST_SP, REQUEST_ST,
};
use crate::error::Error;
use crate::frame::{checksum, checksum_of, le_bytes, u32_to_le};

verus! {

/// Number of channels of the base unit; valid channels are below it.
pub const CHANNEL_COUNT: u8 = 64;

/// A command addressed to one channel of the base unit.
#[derive(Debug, Clone, Copy, PartialEq, Eq)]
pub struct Request {
    pub mode: Mode,
    pub ctr: CtrRequest,
    pub ch: u8,
    pub cmd: Cmd,
    pub id: u32,
}

/// Bytes 0..=14 of the frame that carries `r`: everything the checksum covers.
pub open spec fn request_body(r: Request) -> Seq<u8> {
    seq![REQUEST_ST, r.mode.code(), r.ctr.code(), 0u8, r.ch, r.cmd.opcode()] + r.cmd.payload()
        + le_bytes(r.id)
}

/// The 17-byte frame that carries `r`.
pub open spec fn encode_request(r: Request) -> Seq<u8> {
    request_body(r).push(checksum(request_body(r))).push(REQUEST_SP)
}

impl Request {
    /// A request whose channel the base unit can address.
    pub open spec fn wf(self) -> bool {
        self.ch < CHANNEL_COUNT
    }

    /// A request with the given fields, refused when the channel is 64 or more.
    pub fn new(mode: Mode, ctr: CtrRequest, ch: u8, cmd: Cmd, id: u32) -> (r: Result<
        Request,
        Error,
    >)
        ensures
            ch < CHANNEL_COUNT ==> r == Ok::<Request, Error>(Request { mode, ctr, ch, cmd, id }),
            ch >= CHANNEL_COUNT ==> r == Err::<Request, Error>(Error::ChannelOutOfRange(ch)),
            r matches Ok(q) ==> q.wf(),
    {
        if ch < CHANNEL_COUNT {
            Ok(Request { mode, ctr, ch, cmd, id })
        } else {
            Err(Error::ChannelOutOfRange(ch))
        }
    }

    pub fn ch(&self) -> (r: u8)
        ensures
            r == self.ch,
    {
        self.ch
    }

    /// Sets the channel; a channel of 64 or more is refused and leaves the request as it was.
    pub fn set_ch(&mut self, ch: u8) -> (r: Result<(), Error>)
        ensures
            ch < CHANNEL_COUNT ==> r is Ok && *final(self) == (Request { ch, ..*old(self) })
                && final(self).wf(),
            ch >= CHANNEL_COUNT ==> r == Err::<(), Error>(Error::ChannelOutOfRange(ch))
                && *final(self) == *old(self),
    {
        if ch < CHANNEL_COUNT {
            self.ch = ch;
            Ok(())
        } else {
            Err(Error::ChannelOutOfRange(ch))
        }
    }

    /// The frame that carries this request.
    pub fn to_message(self) -> (r: [u8; MESSAGE_LENGTH])
        ensures
            r@ == encode_request(self),
    {
        let mut msg = [0u8; MESSAGE_LENGTH];
        msg[0] = REQUEST_ST;
        msg[1] = self.mode.as_u8();
        msg[2] = self.ctr.as_u8();
        msg[3] = 0;
        msg[CH_INDEX] = self.ch;
        msg[CMD_INDEX] = self.cmd.as_u8();
        match self.cmd {
            Cmd::SetBrightness(br) => match br {
                SetBrightness::Fmt1(d0) => {
                    msg[6] = 1;
                    msg[7] = d0;
                },
                SetBrightness::Fmt3(d) => {
                    msg[6] = 3;
                    msg[7] = d[0];
                    msg[8] = d[1];
                    msg[9] = d[2];
                },
            },
            Cmd::BrightReg(reg) => {
                msg[6] = 1;
                msg[7] = reg;
            },
            Cmd::TemporaryOn(tem) => match tem {
                TemporaryOn::Fmt1(d0) => {
                    msg[6] = 1;
                    msg[7] = d0;
                },
                TemporaryOn::Fmt2(d) => {
                    msg[6] = 2;
                    msg[7] = d[0];
                    msg[8] = d[1];
                },
            },
            Cmd::Service(on) => {
                msg[7] = if on {
                    1
                } else {
                    0
                };
            },
            Cmd::ClearMemory => {
                msg[6] = 4;
                msg[7] = 170;
                msg[8] = 85;
                msg[9] = 170;
                msg[10] = 85;
            },
            _ => {},
        }
        assert(msg@.subrange(6, 11) =~= self.cmd.payload());
        let id = u32_to_le(self.id);
        msg[11] = id[0];
        msg[12] = id[1];
        msg[13] = id[2];
        msg[14] = id[3];
        assert(msg@.take(15) =~= request_body(self));
        msg[CRC_INDEX] = checksum_of(&msg);
        msg[16] = REQUEST_SP;
        assert(msg@ =~= encode_request(self));
        msg
    }
}

impl Default for Request {
    fn default() -> (r: Request)
        ensures
            r == (Request { mode: Mode::TX, ctr: CtrRequest::SendCommand, ch: 0, cmd: Cmd::Off, id: 0 }),
    {
        Request { mode: Mode::TX, ctr: CtrRequest::SendCommand, ch: 0, cmd: Cmd::Off, id: 0 }
    }
}

/// A request that puts the base unit into mode `md`; every other field is at its default.
pub fn set_mode(md: Mode) -> (r: Request)
    ensures
        r == (Request { mode: md, ctr: CtrRequest::SendCommand, ch: 0, cmd: Cmd::Off, id: 0 }),
{
    Request { mode: md, ..Request::default() }
}

/// A request that binds channel `ch` in mode `md`; refused when the channel is 64 or more.
pub fn bind(md: Mode, ch: u8) -> (r: Result<Request, Error>)
    ensures
        ch < CHANNEL_COUNT ==> r == Ok::<Request, Error>(
            Request { mode: md, ctr: CtrRequest::BindModeOn, ch, cmd: Cmd::Bind, id: 0 },
        ),
        ch >= CHANNEL_COUNT ==> r == Err::<Request, Error>(Error::ChannelOutOfRange(ch)),
        r matches Ok(q) ==> q.wf(),
{
    Request::new(md, CtrRequest::BindModeOn, ch, Cmd::Bind, 0)
}

} // verus!
