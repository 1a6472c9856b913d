//! The command frame codec: building and parsing the fixed-header binary
//! frames that carry every command to the device, and the wire form of the
//! device's replies.
use vstd::prelude::*;

use crate::errors::Error;
use crate::hexfmt::{
    hex_decode, lemma_hex_of_bytes_is_hex, lemma_hex_round_trip, spec_bytes_of_hex, spec_hex_of_bytes,
    spec_is_hex,
};
use crate::reader::spec_be_u16;

verus! {

/// One command for the device: operation class, instruction, two
/// parameters, and a payload of at most 255 bytes.
#[derive(Debug, Clone)]
pub struct ApduCommand {
    pub cla: u8,
    pub ins: u8,
    pub p1: u8,
    pub p2: u8,
    pub data: Vec<u8>,
}

/// The mathematical value of a command.
pub struct ApduCommandV {
    pub cla: u8,
    pub ins: u8,
    pub p1: u8,
    pub p2: u8,
    pub data: Seq<u8>,
}

impl View for ApduCommand {
    type V = ApduCommandV;

    open spec fn view(&self) -> ApduCommandV {
        ApduCommandV { cla: self.cla, ins: self.ins, p1: self.p1, p2: self.p2, data: self.data@ }
    }
}

impl ApduCommandV {
    /// A command's declared payload length must equal its actual length,
    /// so the payload can be no longer than one length byte can declare.
    pub open spec fn wf(self) -> bool {
        self.data.len() <= 255
    }
}

/// The frame of a command: class, instruction, the two parameters, the
/// payload length, then the payload.
pub open spec fn spec_frame(c: ApduCommandV) -> Seq<u8>
    recommends
        c.wf(),
{
    seq![c.cla, c.ins, c.p1, c.p2, c.data.len() as u8] + c.data
}

/// The command a frame stands for: a five-byte header, then exactly as
/// many payload bytes as the header declares.
pub open spec fn spec_parse_frame(b: Seq<u8>) -> Result<ApduCommandV, Error> {
    if b.len() < 5 {
        Err(Error::MalformedCommand)
    } else if b.len() != 5 + b[4] {
        Err(Error::MalformedCommand)
    } else {
        Ok(ApduCommandV { cla: b[0], ins: b[1], p1: b[2], p2: b[3], data: b.skip(5) })
    }
}

/// The command a hexadecimal text stands for: the text must be well-formed
/// hexadecimal and its bytes a well-formed frame.
pub open spec fn spec_decode(s: Seq<char>) -> Result<ApduCommandV, Error> {
    if !spec_is_hex(s) {
        Err(Error::MalformedCommand)
    } else {
        spec_parse_frame(spec_bytes_of_hex(s))
    }
}

impl ApduCommand {
    /// Build the binary frame of this command; a payload longer than 255
    /// bytes cannot be framed and fails with `InvalidCommand`.
    pub fn encode(&self) -> (r: Result<Vec<u8>, Error>)
        ensures
            r is Ok <==> self@.wf(),
            r matches Ok(f) ==> f@ == spec_frame(self@),
            r is Err ==> r == Result::<Vec<u8>, Error>::Err(Error::InvalidCommand),
    {
        if self.data.len() > 255 {
            return Err(Error::InvalidCommand);
        }
        let mut frame: Vec<u8> = Vec::new();
        frame.push(self.cla);
        frame.push(self.ins);
        frame.push(self.p1);
        frame.push(self.p2);
        frame.push(self.data.len() as u8);
        let mut i: usize = 0;
        while i < self.data.len()
            invariant
                i <= self.data.len(),
                frame@ == seq![
                    self.cla,
                    self.ins,
                    self.p1,
                    self.p2,
                    self.data@.len() as u8,
                ] + self.data@.subrange(0, i as int),
            decreases self.data.len() - i,
        {
            frame.push(self.data[i]);
            i = i + 1;
            assert(frame@ =~= seq![
                self.cla,
                self.ins,
                self.p1,
                self.p2,
                self.data@.len() as u8,
            ] + self.data@.subrange(0, i as int));
        }
        proof {
            assert(self.data@.subrange(0, self.data@.len() as int) =~= self.data@);
            assert(frame@ =~= spec_frame(self@));
        }
        Ok(frame)
    }

    /// Parse a command from its hexadecimal text: five header bytes, then
    /// exactly the declared number of payload bytes. Bad hexadecimal or a
    /// length mismatch fails with `MalformedCommand`.
    pub fn decode(s: &str) -> (r: Result<ApduCommand, Error>)
        ensures
            r matches Ok(c) ==> spec_decode(s@) == Ok::<ApduCommandV, Error>(c@) && c@.wf(),
            r matches Err(e) ==> spec_decode(s@) == Err::<ApduCommandV, Error>(e),
    {
        let bytes = match hex_decode(s) {
            Some(b) => b,
            None => {
                return Err(Error::MalformedCommand);
            },
        };
        let mut rd = crate::reader::Reader::new(&bytes);
        let cla = match rd.read_u8() {
            Ok(v) => v,
            Err(_) => {
                return Err(Error::MalformedCommand);
            },
        };
        let ins = match rd.read_u8() {
            Ok(v) => v,
            Err(_) => {
                return Err(Error::MalformedCommand);
            },
        };
        let p1 = match rd.read_u8() {
            Ok(v) => v,
            Err(_) => {
                return Err(Error::MalformedCommand);
            },
        };
        let p2 = match rd.read_u8() {
            Ok(v) => v,
            Err(_) => {
                return Err(Error::MalformedCommand);
            },
        };
        let len = match rd.read_u8() {
            Ok(v) => v,
            Err(_) => {
                return Err(Error::MalformedCommand);
            },
        };
        let rest = rd.remaining();
        if rest != len as usize {
            return Err(Error::MalformedCommand);
        }
        let data = match rd.read_bytes(rest) {
            Ok(v) => v,
            Err(_) => {
                return Err(Error::MalformedCommand);
            },
        };
        proof {
            assert(data@ =~= bytes@.skip(5));
        }
        Ok(ApduCommand { cla, ins, p1, p2, data })
    }
}

/// Every well-formed command survives the round trip through its frame's
/// hexadecimal text: decoding the encoding gives the command back.
pub proof fn lemma_codec_round_trip(c: ApduCommandV)
    requires
        c.wf(),
    ensures
        spec_decode(spec_hex_of_bytes(spec_frame(c))) == Ok::<ApduCommandV, Error>(c),
{
    let f = spec_frame(c);
    lemma_hex_of_bytes_is_hex(f);
    lemma_hex_round_trip(f);
    assert(f.len() == 5 + c.data.len());
    assert(f[4] == c.data.len() as u8);
    assert(f.skip(5) =~= c.data);
    let parsed = spec_parse_frame(f);
    assert(parsed is Ok);
    assert(parsed.unwrap().data == c.data);
    assert(parsed.unwrap() == c);
}

/// One reply from the device: the payload, and the status word that ends
/// the raw reply on the wire.
#[derive(Debug, Clone)]
pub struct Response {
    pub status: u16,
    pub payload: Vec<u8>,
}

/// The mathematical value of a reply.
pub struct ResponseV {
    pub status: u16,
    pub payload: Seq<u8>,
}

impl View for Response {
    type V = ResponseV;

    open spec fn view(&self) -> ResponseV {
        ResponseV { status: self.status, payload: self.payload@ }
    }
}

/// The reply a raw wire answer stands for: the trailing two bytes are the
/// big-endian status word, everything before them is the payload.
pub open spec fn spec_parse_response(b: Seq<u8>) -> Result<ResponseV, Error> {
    if b.len() < 2 {
        Err(Error::TruncatedData)
    } else {
        Ok(
            ResponseV {
                status: spec_be_u16(b.skip(b.len() - 2)),
                payload: b.take(b.len() - 2),
            },
        )
    }
}

impl Response {
    /// Parse a raw wire answer: at least the two status bytes must be
    /// there, and everything before them is the payload.
    pub fn from_wire(bytes: &Vec<u8>) -> (r: Result<Response, Error>)
        ensures
            r matches Ok(resp) ==> spec_parse_response(bytes@) == Ok::<ResponseV, Error>(resp@),
            r matches Err(e) ==> spec_parse_response(bytes@) == Err::<ResponseV, Error>(e),
    {
        if bytes.len() < 2 {
            return Err(Error::TruncatedData);
        }
        let n = bytes.len();
        let hi = bytes[n - 2];
        let lo = bytes[n - 1];
        let status: u16 = (hi as u16) * 0x100 + (lo as u16);
        let mut payload: Vec<u8> = Vec::new();
        let mut i: usize = 0;
        while i < n - 2
            invariant
                n == bytes@.len(),
                2 <= n,
                i <= n - 2,
                payload@ == bytes@.subrange(0, i as int),
            decreases n - 2 - i,
        {
            payload.push(bytes[i]);
            i = i + 1;
            assert(payload@ =~= bytes@.subrange(0, i as int));
        }
        proof {
            let tail = bytes@.skip(n - 2);
            assert(tail[0] == hi && tail[1] == lo);
            assert(payload@ =~= bytes@.take(n - 2));
        }
        Ok(Response { status, payload })
    }

    /// Whether this reply's status word is the success sentinel.
    pub fn is_success(&self) -> (r: bool)
        ensures
            r == (self@.status == crate::STATUS_OK),
    {
        self.status == crate::STATUS_OK
    }
}

/// The fixed command that queries the device's identity.
pub fn get_version_command() -> (c: ApduCommand)
    ensures
        c@ == (ApduCommandV { cla: 0xe0, ins: 0x01, p1: 0x00, p2: 0x00, data: Seq::<u8>::empty() }),
{
    let c = ApduCommand { cla: 0xe0, ins: 0x01, p1: 0x00, p2: 0x00, data: Vec::new() };
    proof {
        assert(c@.data =~= Seq::<u8>::empty());
    }
    c
}

/// The fixed command that starts listing the installed applications.
pub fn list_apps_command() -> (c: ApduCommand)
    ensures
        c@ == (ApduCommandV { cla: 0xe0, ins: 0xde, p1: 0x00, p2: 0x00, data: Seq::<u8>::empty() }),
{
    let c = ApduCommand { cla: 0xe0, ins: 0xde, p1: 0x00, p2: 0x00, data: Vec::new() };
    proof {
        assert(c@.data =~= Seq::<u8>::empty());
    }
    c
}

/// The fixed command that asks for the next page of the application list.
pub fn continue_list_apps_command() -> (c: ApduCommand)
    ensures
        c@ == (ApduCommandV { cla: 0xe0, ins: 0xdf, p1: 0x00, p2: 0x00, data: Seq::<u8>::empty() }),
{
    let c = ApduCommand { cla: 0xe0, ins: 0xdf, p1: 0x00, p2: 0x00, data: Vec::new() };
    proof {
        assert(c@.data =~= Seq::<u8>::empty());
    }
    c
}

/// The command that opens the application of the given name.
pub fn open_app_command(name: Vec<u8>) -> (c: ApduCommand)
    requires
        name@.len() <= 255,
    ensures
        c@ == (ApduCommandV { cla: 0xe0, ins: 0xd8, p1: 0x00, p2: 0x00, data: name@ }),
        c@.wf(),
{
    ApduCommand { cla: 0xe0, ins: 0xd8, p1: 0x00, p2: 0x00, data: name }
}

} // verus!
