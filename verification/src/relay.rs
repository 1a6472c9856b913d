//! The relay session engine: the remote authority drives the session over
//! a duplex text channel, each inbound frame a JSON envelope carrying
//! opaque binary sub-commands; this module decides every step, while the
//! channel and the device transport stay outside.
use vstd::prelude::*;

use vstd::string::StringExecFns;

use crate::codec::{spec_decode, ApduCommand, ApduCommandV, Response, ResponseV};
use crate::errors::Error;
use crate::hexfmt::{hex_encode, spec_hex_of_bytes};
use crate::json::{
    json_as_array, json_as_str, json_as_u64, json_from_str, json_get, json_is_null, spec_json_of,
    spec_value_model, spec_values_model, JsonV,
};
use crate::text::{push_decimal, spec_decimal, str_eq};

verus! {

/// The kinds of query an envelope can carry; everything unknown is
/// `Other`.
#[derive(Debug, Clone, Copy, PartialEq, Eq, Structural)]
pub enum QueryKind {
    Exchange,
    Bulk,
    Success,
    Error,
    Warning,
    Other,
}

/// The kind a query word stands for.
pub open spec fn spec_query_kind(q: Seq<char>) -> QueryKind {
    if q == "exchange"@ {
        QueryKind::Exchange
    } else if q == "bulk"@ {
        QueryKind::Bulk
    } else if q == "success"@ {
        QueryKind::Success
    } else if q == "error"@ {
        QueryKind::Error
    } else if q == "warning"@ {
        QueryKind::Warning
    } else {
        QueryKind::Other
    }
}

/// The kind a query word stands for.
pub fn classify_query(q: &str) -> (r: QueryKind)
    ensures
        r == spec_query_kind(q@),
{
    if str_eq(q, "exchange") {
        QueryKind::Exchange
    } else if str_eq(q, "bulk") {
        QueryKind::Bulk
    } else if str_eq(q, "success") {
        QueryKind::Success
    } else if str_eq(q, "error") {
        QueryKind::Error
    } else if str_eq(q, "warning") {
        QueryKind::Warning
    } else {
        QueryKind::Other
    }
}

/// The payload variant of an inbound envelope.
#[derive(Debug, Clone)]
pub enum EnvelopeData {
    Single(String),
    Multi(Vec<String>),
    Absent,
}

/// The mathematical value of an envelope payload.
#[verifier::ext_equal]
pub enum EnvelopeDataV {
    Single(Seq<char>),
    Multi(Seq<Seq<char>>),
    Absent,
}

/// The character sequences of a sequence of strings.
pub open spec fn spec_strs_view(s: Seq<String>) -> Seq<Seq<char>> {
    s.map_values(|x: String| x@)
}

impl View for EnvelopeData {
    type V = EnvelopeDataV;

    open spec fn view(&self) -> EnvelopeDataV {
        match self {
            EnvelopeData::Single(s) => EnvelopeDataV::Single(s@),
            EnvelopeData::Multi(l) => EnvelopeDataV::Multi(spec_strs_view(l@)),
            EnvelopeData::Absent => EnvelopeDataV::Absent,
        }
    }
}

/// One inbound envelope: a query word, a nonce, and an optional payload of
/// one hexadecimal command or a list of them.
#[derive(Debug, Clone)]
pub struct RelayEnvelope {
    pub query: String,
    pub nonce: u32,
    pub data: EnvelopeData,
}

/// The mathematical value of an inbound envelope.
#[verifier::ext_equal]
pub struct RelayEnvelopeV {
    pub query: Seq<char>,
    pub nonce: u32,
    pub data: EnvelopeDataV,
}

impl View for RelayEnvelope {
    type V = RelayEnvelopeV;

    open spec fn view(&self) -> RelayEnvelopeV {
        RelayEnvelopeV { query: self.query@, nonce: self.nonce, data: self.data@ }
    }
}

/// The envelope payload a JSON member under `data` stands for: null is an
/// absent payload, a string one command, an array of strings a command
/// list; any other value fits no envelope.
pub open spec fn spec_data_of(j: JsonV) -> Option<EnvelopeDataV> {
    match j {
        JsonV::Null => Some(EnvelopeDataV::Absent),
        JsonV::Str(s) => Some(EnvelopeDataV::Single(s)),
        JsonV::Arr(elems) => if forall|i: int| 0 <= i < elems.len() ==> (#[trigger] elems[i]) is Str {
            Some(EnvelopeDataV::Multi(Seq::new(elems.len(), |i: int| elems[i]->Str_0)))
        } else {
            None
        },
        _ => None,
    }
}

/// The envelope a JSON document stands for: an object with a string under
/// `query`, an unsigned 32-bit integer under `nonce`, and an optional
/// `data` member that fits `spec_data_of`; anything else fits no envelope.
pub open spec fn spec_envelope_of(j: JsonV) -> Option<RelayEnvelopeV> {
    match j {
        JsonV::Object(m) => {
            if m.dom().contains("query"@) && m["query"@] is Str && m.dom().contains("nonce"@)
                && m["nonce"@] is UInt && m["nonce"@]->UInt_0 <= u32::MAX {
                let data = if m.dom().contains("data"@) {
                    spec_data_of(m["data"@])
                } else {
                    Some(EnvelopeDataV::Absent)
                };
                match data {
                    Some(d) => Some(
                        RelayEnvelopeV {
                            query: m["query"@]->Str_0,
                            nonce: m["nonce"@]->UInt_0 as u32,
                            data: d,
                        },
                    ),
                    None => None,
                }
            } else {
                None
            }
        },
        _ => None,
    }
}

/// Parse one channel text frame as a relay envelope: the text must be
/// JSON, and the parsed document must fit the envelope schema — a JSON
/// object with a string `query`, a 32-bit unsigned `nonce`, and an
/// optional `data` that is a string, a list of strings, or null. Exactly
/// what does not fit fails, with `UnsupportedFrame`.
#[verifier::loop_isolation(false)]
pub fn parse_envelope(text: &str) -> (r: Result<RelayEnvelope, Error>)
    ensures
        r is Ok <==> (spec_json_of(text@) matches Some(j) && spec_envelope_of(j) is Some),
        r matches Ok(env) ==> spec_envelope_of(spec_json_of(text@).unwrap()) == Some(env@),
        r matches Err(e) ==> e == Error::UnsupportedFrame,
{
    let v = match json_from_str(text) {
        Some(v) => v,
        None => {
            return Err(Error::UnsupportedFrame);
        },
    };
    let ghost jm = spec_value_model(v);
    let query = match json_get(&v, "query") {
        Some(qv) => match json_as_str(qv) {
            Some(s) => s,
            None => {
                return Err(Error::UnsupportedFrame);
            },
        },
        None => {
            return Err(Error::UnsupportedFrame);
        },
    };
    let nonce64 = match json_get(&v, "nonce") {
        Some(nv) => match json_as_u64(nv) {
            Some(n) => n,
            None => {
                return Err(Error::UnsupportedFrame);
            },
        },
        None => {
            return Err(Error::UnsupportedFrame);
        },
    };
    if nonce64 > 0xFFFF_FFFF {
        return Err(Error::UnsupportedFrame);
    }
    let nonce = nonce64 as u32;
    let data = match json_get(&v, "data") {
        None => EnvelopeData::Absent,
        Some(dv) => {
            if json_is_null(dv) {
                EnvelopeData::Absent
            } else {
                match json_as_str(dv) {
                    Some(s) => EnvelopeData::Single(s),
                    None => {
                        let arr = match json_as_array(dv) {
                            Some(a) => a,
                            None => {
                                return Err(Error::UnsupportedFrame);
                            },
                        };
                        let ghost elems = spec_values_model(arr@);
                        let mut cmds: Vec<String> = Vec::new();
                        let mut j: usize = 0;
                        while j < arr.len()
                            invariant
                                j <= arr@.len(),
                                cmds@.len() == j,
                                forall|i: int| 0 <= i < j ==> #[trigger] elems[i] == JsonV::Str(
                                    cmds@[i]@,
                                ),
                            decreases arr.len() - j,
                        {
                            match json_as_str(&arr[j]) {
                                Some(s) => {
                                    cmds.push(s);
                                },
                                None => {
                                    proof {
                                        assert(elems[j as int] == spec_value_model(
                                            arr@[j as int],
                                        ));
                                        assert(!(elems[j as int] is Str));
                                        assert(spec_data_of(JsonV::Arr(elems)) is None);
                                    }
                                    return Err(Error::UnsupportedFrame);
                                },
                            }
                            j = j + 1;
                        }
                        proof {
                            assert forall|i: int| 0 <= i < elems.len() implies (
                            #[trigger] elems[i]) is Str by {}
                            assert(Seq::new(elems.len(), |i: int| elems[i]->Str_0)
                                =~= spec_strs_view(cmds@));
                        }
                        EnvelopeData::Multi(cmds)
                    },
                }
            }
        },
    };
    let env = RelayEnvelope { query, nonce, data };
    proof {
        assert(spec_envelope_of(jm) == Some(env@));
    }
    Ok(env)
}

/// The outbound reply text: a JSON object carrying the nonce, the word
/// `success` or `error`, and the reply data.
pub open spec fn spec_reply(nonce: u32, ok: bool, data: Seq<char>) -> Seq<char> {
    "{\"nonce\":"@ + spec_decimal(nonce as nat) + ",\"response\":\""@ + (if ok {
        "success"@
    } else {
        "error"@
    }) + "\",\"data\":\""@ + data + "\"}"@
}

/// Build the outbound reply text for a nonce, an outcome, and reply data.
pub fn encode_reply(nonce: u32, ok: bool, data: &str) -> (r: String)
    ensures
        r@ == spec_reply(nonce, ok, data@),
{
    let mut out = String::new();
    out.append("{\"nonce\":");
    push_decimal(&mut out, nonce);
    out.append(",\"response\":\"");
    if ok {
        out.append("success");
    } else {
        out.append("error");
    }
    out.append("\",\"data\":\"");
    out.append(data);
    out.append("\"}");
    proof {
        assert(out@ =~= spec_reply(nonce, ok, data@));
    }
    out
}

/// Where the session stands between two events.
pub enum RelayState {
    /// Waiting for the next envelope from the remote authority.
    Listening,
    /// One sub-command is at the device; its reply answers this nonce.
    AwaitingExchange { nonce: u32 },
    /// A bulk run is under way: the command at `next - 1` is at the
    /// device, and the commands from `next` on are still to run.
    AwaitingBulk { nonce: u32, cmds: Vec<String>, next: usize },
    /// The session is over; no event is taken any more.
    Finished,
}

/// The mathematical value of a session state.
#[verifier::ext_equal]
pub enum RelayStateV {
    Listening,
    AwaitingExchange { nonce: u32 },
    AwaitingBulk { nonce: u32, cmds: Seq<Seq<char>>, next: int },
    Finished,
}

impl View for RelayState {
    type V = RelayStateV;

    open spec fn view(&self) -> RelayStateV {
        match self {
            RelayState::Listening => RelayStateV::Listening,
            RelayState::AwaitingExchange { nonce } => (RelayStateV::AwaitingExchange {
                nonce: *nonce,
            }),
            RelayState::AwaitingBulk { nonce, cmds, next } => (RelayStateV::AwaitingBulk {
                nonce: *nonce,
                cmds: spec_strs_view(cmds@),
                next: *next as int,
            }),
            RelayState::Finished => RelayStateV::Finished,
        }
    }
}

/// What reached the engine: a channel frame, or the outcome of the device
/// exchange it asked for.
pub enum RelayEvent {
    /// A text frame arrived and parsed as an envelope; `raw` is the frame
    /// as received.
    Message { env: RelayEnvelope, raw: String },
    /// A channel frame of any other kind arrived.
    NonTextFrame,
    /// The channel itself failed.
    ChannelFailed,
    /// The device answered the exchange the engine asked for.
    DeviceReply { response: Response },
    /// The device transport failed to complete that exchange.
    DeviceFailed,
}

/// The mathematical value of an event.
#[verifier::ext_equal]
pub enum RelayEventV {
    Message { env: RelayEnvelopeV, raw: Seq<char> },
    NonTextFrame,
    ChannelFailed,
    DeviceReply { response: ResponseV },
    DeviceFailed,
}

impl View for RelayEvent {
    type V = RelayEventV;

    open spec fn view(&self) -> RelayEventV {
        match self {
            RelayEvent::Message { env, raw } => (RelayEventV::Message {
                env: env@,
                raw: raw@,
            }),
            RelayEvent::NonTextFrame => RelayEventV::NonTextFrame,
            RelayEvent::ChannelFailed => RelayEventV::ChannelFailed,
            RelayEvent::DeviceReply { response } => (RelayEventV::DeviceReply {
                response: response@,
            }),
            RelayEvent::DeviceFailed => RelayEventV::DeviceFailed,
        }
    }
}

/// What the engine asks its surroundings to do next.
pub enum RelayAction {
    /// Send this reply text on the channel, then await the next frame.
    Send { reply: String },
    /// Run this command at the device and feed the outcome back.
    Exchange { command: ApduCommand },
    /// Report this frame locally as a warning, then await the next frame.
    Warn { raw: String },
    /// The session ended: the remote authority reported success.
    FinishSuccess,
    /// The session ended: the remote authority reported an error; `raw` is
    /// the frame that carried it.
    FinishRemoteError { raw: String },
    /// The session ended on this failure; nothing more is sent.
    Fail { error: Error },
}

/// The mathematical value of an action.
#[verifier::ext_equal]
pub enum RelayActionV {
    Send { reply: Seq<char> },
    Exchange { command: ApduCommandV },
    Warn { raw: Seq<char> },
    FinishSuccess,
    FinishRemoteError { raw: Seq<char> },
    Fail { error: Error },
}

impl View for RelayAction {
    type V = RelayActionV;

    open spec fn view(&self) -> RelayActionV {
        match self {
            RelayAction::Send { reply } => (RelayActionV::Send { reply: reply@ }),
            RelayAction::Exchange { command } => (RelayActionV::Exchange { command: command@ }),
            RelayAction::Warn { raw } => (RelayActionV::Warn { raw: raw@ }),
            RelayAction::FinishSuccess => RelayActionV::FinishSuccess,
            RelayAction::FinishRemoteError { raw } => (RelayActionV::FinishRemoteError {
                raw: raw@,
            }),
            RelayAction::Fail { error } => (RelayActionV::Fail { error: *error }),
        }
    }
}

/// Step a bulk run forward from command `i`: skip empty entries, hand the
/// next command to the device, finish the run with a success reply when
/// none is left, or end the session on a command that does not decode.
pub open spec fn spec_bulk_advance(nonce: u32, cmds: Seq<Seq<char>>, i: int) -> (RelayStateV,
    RelayActionV)
    decreases cmds.len() - i,
{
    if i < 0 || i >= cmds.len() {
        (RelayStateV::Listening, RelayActionV::Send { reply: spec_reply(nonce, true, Seq::empty()) })
    } else if cmds[i].len() == 0 {
        spec_bulk_advance(nonce, cmds, i + 1)
    } else {
        match spec_decode(cmds[i]) {
            Ok(cmd) => (
                RelayStateV::AwaitingBulk { nonce, cmds, next: i + 1 },
                RelayActionV::Exchange { command: cmd },
            ),
            Err(e) => (RelayStateV::Finished, RelayActionV::Fail { error: e }),
        }
    }
}

/// One step of the relay session: what the next state and the next action
/// are for each state and event. This is the whole decision logic of the
/// session; its surroundings only carry frames and run exchanges.
pub open spec fn spec_relay_step(state: RelayStateV, event: RelayEventV) -> (RelayStateV,
    RelayActionV) {
    match state {
        RelayStateV::Listening => match event {
            RelayEventV::Message { env, raw } => match spec_query_kind(env.query) {
                QueryKind::Exchange => match env.data {
                    EnvelopeDataV::Single(hex) => match spec_decode(hex) {
                        Ok(cmd) => (
                            RelayStateV::AwaitingExchange { nonce: env.nonce },
                            RelayActionV::Exchange { command: cmd },
                        ),
                        Err(e) => (RelayStateV::Finished, RelayActionV::Fail { error: e }),
                    },
                    _ => (
                        RelayStateV::Finished,
                        RelayActionV::Fail { error: Error::ProtocolViolation },
                    ),
                },
                QueryKind::Bulk => match env.data {
                    EnvelopeDataV::Multi(cmds) => spec_bulk_advance(env.nonce, cmds, 0),
                    _ => (
                        RelayStateV::Finished,
                        RelayActionV::Fail { error: Error::ProtocolViolation },
                    ),
                },
                QueryKind::Success => (RelayStateV::Finished, RelayActionV::FinishSuccess),
                QueryKind::Error => (
                    RelayStateV::Finished,
                    RelayActionV::FinishRemoteError { raw },
                ),
                QueryKind::Warning => (RelayStateV::Listening, RelayActionV::Warn { raw }),
                QueryKind::Other => (
                    RelayStateV::Finished,
                    RelayActionV::Fail { error: Error::UnsupportedQuery },
                ),
            },
            RelayEventV::NonTextFrame => (
                RelayStateV::Finished,
                RelayActionV::Fail { error: Error::UnsupportedFrame },
            ),
            _ => (RelayStateV::Finished, RelayActionV::Fail { error: Error::ChannelError }),
        },
        RelayStateV::AwaitingExchange { nonce } => match event {
            RelayEventV::DeviceReply { response } => (
                RelayStateV::Listening,
                RelayActionV::Send {
                    reply: spec_reply(
                        nonce,
                        response.status == crate::STATUS_OK,
                        spec_hex_of_bytes(response.payload),
                    ),
                },
            ),
            _ => (RelayStateV::Finished, RelayActionV::Fail { error: Error::TransportError }),
        },
        RelayStateV::AwaitingBulk { nonce, cmds, next } => match event {
            RelayEventV::DeviceReply { response } => spec_bulk_advance(nonce, cmds, next),
            _ => (RelayStateV::Finished, RelayActionV::Fail { error: Error::TransportError }),
        },
        RelayStateV::Finished => (RelayStateV::Finished, RelayActionV::FinishSuccess),
    }
}

/// Whether an event can reach the engine in a state: frames arrive while
/// listening, device outcomes while an exchange is at the device, and
/// nothing after the end.
pub open spec fn spec_event_fits(state: RelayStateV, event: RelayEventV) -> bool {
    match state {
        RelayStateV::Listening => event matches RelayEventV::Message { .. } || event
            matches RelayEventV::NonTextFrame || event matches RelayEventV::ChannelFailed,
        RelayStateV::AwaitingExchange { .. } => event matches RelayEventV::DeviceReply { .. }
            || event matches RelayEventV::DeviceFailed,
        RelayStateV::AwaitingBulk { .. } => event matches RelayEventV::DeviceReply { .. } || event
            matches RelayEventV::DeviceFailed,
        RelayStateV::Finished => false,
    }
}

/// Step a bulk run forward from command `start`.
fn bulk_advance(nonce: u32, cmds: Vec<String>, start: usize) -> (r: (RelayState, RelayAction))
    ensures
        (r.0@, r.1@) == spec_bulk_advance(nonce, spec_strs_view(cmds@), start as int),
{
    let ghost v = spec_strs_view(cmds@);
    let mut i: usize = start;
    loop
        invariant
            start <= i <= cmds@.len() || (i == start && i >= cmds@.len()),
            v == spec_strs_view(cmds@),
            spec_bulk_advance(nonce, v, start as int) == spec_bulk_advance(nonce, v, i as int),
        decreases cmds@.len() - i,
    {
        if i >= cmds.len() {
            let reply = encode_reply(nonce, true, "");
            proof {
                reveal_strlit("");
                assert(""@ =~= Seq::<char>::empty());
            }
            return (RelayState::Listening, RelayAction::Send { reply });
        }
        let is_empty = cmds[i].as_str().is_empty();
        if is_empty {
            proof {
                assert(v[i as int] == cmds@[i as int]@);
            }
            i = i + 1;
        } else {
            proof {
                assert(v[i as int] == cmds@[i as int]@);
            }
            match ApduCommand::decode(cmds[i].as_str()) {
                Ok(cmd) => {
                    let next = i + 1;
                    return (
                        RelayState::AwaitingBulk { nonce, cmds, next },
                        RelayAction::Exchange { command: cmd },
                    );
                },
                Err(e) => {
                    return (RelayState::Finished, RelayAction::Fail { error: e });
                },
            }
        }
    }
}

/// One step of the relay session, exactly as `spec_relay_step` says.
pub fn relay_step(state: RelayState, event: RelayEvent) -> (r: (RelayState, RelayAction))
    requires
        spec_event_fits(state@, event@),
    ensures
        (r.0@, r.1@) == spec_relay_step(state@, event@),
{
    match state {
        RelayState::Listening => match event {
            RelayEvent::Message { env, raw } => {
                let kind = classify_query(env.query.as_str());
                match kind {
                    QueryKind::Exchange => match env.data {
                        EnvelopeData::Single(hex) => match ApduCommand::decode(hex.as_str()) {
                            Ok(cmd) => (
                                RelayState::AwaitingExchange { nonce: env.nonce },
                                RelayAction::Exchange { command: cmd },
                            ),
                            Err(e) => (RelayState::Finished, RelayAction::Fail { error: e }),
                        },
                        _ => (
                            RelayState::Finished,
                            RelayAction::Fail { error: Error::ProtocolViolation },
                        ),
                    },
                    QueryKind::Bulk => match env.data {
                        EnvelopeData::Multi(cmds) => bulk_advance(env.nonce, cmds, 0),
                        _ => (
                            RelayState::Finished,
                            RelayAction::Fail { error: Error::ProtocolViolation },
                        ),
                    },
                    QueryKind::Success => (RelayState::Finished, RelayAction::FinishSuccess),
                    QueryKind::Error => (
                        RelayState::Finished,
                        RelayAction::FinishRemoteError { raw },
                    ),
                    QueryKind::Warning => (RelayState::Listening, RelayAction::Warn { raw }),
                    QueryKind::Other => (
                        RelayState::Finished,
                        RelayAction::Fail { error: Error::UnsupportedQuery },
                    ),
                }
            },
            RelayEvent::NonTextFrame => (
                RelayState::Finished,
                RelayAction::Fail { error: Error::UnsupportedFrame },
            ),
            _ => (RelayState::Finished, RelayAction::Fail { error: Error::ChannelError }),
        },
        RelayState::AwaitingExchange { nonce } => match event {
            RelayEvent::DeviceReply { response } => {
                let ok = response.is_success();
                let data = hex_encode(&response.payload);
                let reply = encode_reply(nonce, ok, data.as_str());
                (RelayState::Listening, RelayAction::Send { reply })
            },
            _ => (RelayState::Finished, RelayAction::Fail { error: Error::TransportError }),
        },
        RelayState::AwaitingBulk { nonce, cmds, next } => match event {
            RelayEvent::DeviceReply { response: _ } => bulk_advance(nonce, cmds, next),
            _ => (RelayState::Finished, RelayAction::Fail { error: Error::TransportError }),
        },
        RelayState::Finished => (RelayState::Finished, RelayAction::FinishSuccess),
    }
}

/// A success envelope ends the session successfully, with no further
/// channel traffic: the action neither sends nor asks for an exchange.
pub proof fn lemma_success_ends_session(env: RelayEnvelopeV, raw: Seq<char>)
    requires
        spec_query_kind(env.query) is Success,
    ensures
        spec_relay_step(RelayStateV::Listening, RelayEventV::Message { env, raw }) == (
            RelayStateV::Finished,
            RelayActionV::FinishSuccess,
        ),
{
}

/// An unrecognized query ends the session with `UnsupportedQuery`, and no
/// reply is sent: the action is a failure, not a send.
pub proof fn lemma_unknown_query_ends_session(env: RelayEnvelopeV, raw: Seq<char>)
    requires
        spec_query_kind(env.query) is Other,
    ensures
        spec_relay_step(RelayStateV::Listening, RelayEventV::Message { env, raw }) == (
            RelayStateV::Finished,
            (RelayActionV::Fail { error: Error::UnsupportedQuery }),
        ),
{
}

/// A transport failure during a bulk run aborts the whole session with
/// `TransportError` before any completion message is sent.
pub proof fn lemma_bulk_transport_failure_aborts(nonce: u32, cmds: Seq<Seq<char>>, next: int)
    ensures
        spec_relay_step(
            (RelayStateV::AwaitingBulk { nonce, cmds, next }),
            RelayEventV::DeviceFailed,
        ) == (RelayStateV::Finished, (RelayActionV::Fail { error: Error::TransportError })),
{
}

} // verus!
