//! The strict envelope around a request frame.
//!
//! A frame is one JSON object. It names its command, carries the protocol
//! version, the client identity and the request identifier, and holds no field
//! that its command does not define.

use vstd::prelude::*;

use crate::json::{
    document_error, json_error, json_keys, json_string, json_text, json_u32, json_u64,
    json_value_error, member_string, member_text, member_u32, member_u64, object_keys, value_error,
};
use crate::protocol::{hex_value, is_hex, ClientId, RequestId};
use crate::text::{quoted, quoted_text, same};

verus! {

/// The routing part of a request frame.
#[derive(Debug, PartialEq, Eq)]
pub struct Envelope {
    pub version: u32,
    pub client_id: ClientId,
    pub request_id: RequestId,
    pub command: String,
}

/// The fields that a command defines beside the envelope's own.
pub open spec fn command_field(command: Seq<char>, key: Seq<char>) -> bool {
    if command == "get-factory-fan-curves"@ {
        key == "ppd_profiles"@
    } else if command == "apply"@ {
        key == "request"@
    } else if command == "apply-undervolt-once"@ {
        key == "offset"@
    } else if command == "set-battery-limit"@ {
        key == "limit"@
    } else if command == "set-battery-one-time-charge"@ || command == "set-panel-overdrive"@
        || command == "set-controller-capture"@ {
        key == "enabled"@
    } else if command == "set-lighting"@ {
        key == "device"@ || key == "state"@
    } else if command == "subscribe"@ {
        key == "events"@
    } else if command == "get-outcome"@ {
        key == "target_client_id"@ || key == "target_request_id"@
    } else {
        false
    }
}

/// The fields that a frame of a command may hold.
pub open spec fn allowed_field(command: Seq<char>, key: Seq<char>) -> bool {
    ||| key == "version"@
    ||| key == "client_id"@
    ||| key == "request_id"@
    ||| key == "cmd"@
    ||| command_field(command, key)
}

fn is_command_field(command: &str, key: &str) -> (result: bool)
    ensures
        result == command_field(command@, key@),
{
    if same(command, "get-factory-fan-curves") {
        same(key, "ppd_profiles")
    } else if same(command, "apply") {
        same(key, "request")
    } else if same(command, "apply-undervolt-once") {
        same(key, "offset")
    } else if same(command, "set-battery-limit") {
        same(key, "limit")
    } else if same(command, "set-battery-one-time-charge") || same(command, "set-panel-overdrive")
        || same(command, "set-controller-capture") {
        same(key, "enabled")
    } else if same(command, "set-lighting") {
        same(key, "device") || same(key, "state")
    } else if same(command, "subscribe") {
        same(key, "events")
    } else if same(command, "get-outcome") {
        same(key, "target_client_id") || same(key, "target_request_id")
    } else {
        false
    }
}

/// Whether a frame of a command may hold a field.
pub fn is_allowed_field(command: &str, key: &str) -> (result: bool)
    ensures
        result == allowed_field(command@, key@),
{
    same(key, "version") || same(key, "client_id") || same(key, "request_id") || same(key, "cmd")
        || is_command_field(command, key)
}

/// The first key, from `from` on, that a frame of a command may not hold.
pub open spec fn first_unknown(keys: Seq<Seq<char>>, command: Seq<char>, from: int) -> Option<
    Seq<char>,
>
    decreases keys.len() - from,
{
    if from >= keys.len() {
        None
    } else if !allowed_field(command, keys[from]) {
        Some(keys[from])
    } else {
        first_unknown(keys, command, from + 1)
    }
}

/// The first key that a frame of a command may not hold.
pub fn unknown_field<'a>(keys: &'a Vec<String>, command: &str) -> (result: Option<&'a str>)
    ensures
        result.deep_view() == first_unknown(keys.deep_view(), command@, 0),
{
    let mut i: usize = 0;
    while i < keys.len()
        invariant
            i <= keys@.len(),
            first_unknown(keys.deep_view(), command@, 0) == first_unknown(
                keys.deep_view(),
                command@,
                i as int,
            ),
        decreases keys@.len() - i,
    {
        assert(keys.deep_view()[i as int] == keys@[i as int]@);
        if !is_allowed_field(command, keys[i].as_str()) {
            return Some(keys[i].as_str());
        }
        i = i + 1;
    }
    None
}

/// The refusal of an unknown field, given its name in quotes.
pub fn unknown_field_message(quoted_field: &str) -> (result: String)
    ensures
        result@ == "unknown request field "@ + quoted_field@,
{
    let mut text: String = String::from_str("unknown request field ");
    text.append(quoted_field);
    text
}

/// What a parser reads out of one frame; nothing where a member is absent.
pub struct EnvelopeParts {
    pub keys: Option<Vec<String>>,
    pub command: Option<String>,
    pub version: Option<Result<u32, String>>,
    pub client_id: Option<Result<String, String>>,
    pub request_id: Option<Result<u64, String>>,
}

/// The model of [`EnvelopeParts`].
pub struct EnvelopePartsView {
    pub keys: Option<Seq<Seq<char>>>,
    pub command: Option<Seq<char>>,
    pub version: Option<Result<u32, Seq<char>>>,
    pub client_id: Option<Result<Seq<char>, Seq<char>>>,
    pub request_id: Option<Result<u64, Seq<char>>>,
}

impl View for EnvelopeParts {
    type V = EnvelopePartsView;

    open spec fn view(&self) -> EnvelopePartsView {
        EnvelopePartsView {
            keys: self.keys.deep_view(),
            command: self.command.deep_view(),
            version: crate::json::optional_value(self.version),
            client_id: crate::json::optional_text(self.client_id),
            request_id: crate::json::optional_value(self.request_id),
        }
    }
}

/// The refusal of a written client identity.
pub open spec fn client_id_error(text: Seq<char>) -> Option<Seq<char>> {
    if !(text.len() == 32 && is_hex(text)) {
        Some("client ID must be exactly 32 hexadecimal digits"@)
    } else if hex_value(text) == 0 {
        Some("client ID must be non-zero"@)
    } else {
        None
    }
}

/// The first rule that a frame breaks, as the message it is refused with.
pub open spec fn envelope_error(parts: EnvelopePartsView) -> Option<Seq<char>> {
    if parts.keys is None {
        Some("request envelope must be an object"@)
    } else if parts.command is None {
        Some("request command must be a string"@)
    } else if first_unknown(parts.keys->0, parts.command->0, 0) is Some {
        Some(
            "unknown request field "@ + quoted_text(
                first_unknown(parts.keys->0, parts.command->0, 0)->0,
            ),
        )
    } else if parts.version is None {
        Some("missing request version"@)
    } else if parts.version->0 is Err {
        Some(parts.version->0->Err_0)
    } else if parts.client_id is None {
        Some("missing client ID"@)
    } else if parts.client_id->0 is Err {
        Some(parts.client_id->0->Err_0)
    } else if client_id_error(parts.client_id->0->Ok_0) is Some {
        client_id_error(parts.client_id->0->Ok_0)
    } else if parts.request_id is None {
        Some("missing request ID"@)
    } else if parts.request_id->0 is Err {
        Some(parts.request_id->0->Err_0)
    } else if parts.request_id->0->Ok_0 == 0 {
        Some("request ID must be non-zero"@)
    } else {
        None
    }
}

/// Whether an envelope is what the parts of an accepted frame say.
pub open spec fn is_envelope_of(envelope: Envelope, parts: EnvelopePartsView) -> bool {
    &&& parts.version == Some(Ok::<u32, Seq<char>>(envelope.version))
    &&& parts.client_id matches Some(Ok(written)) && envelope.client_id.number() == hex_value(
        written,
    )
    &&& parts.request_id == Some(Ok::<u64, Seq<char>>(envelope.request_id.number()))
    &&& parts.command == Some(envelope.command@)
}

/// Judges a frame by what a parser read out of it.
pub fn accept_envelope(parts: EnvelopeParts) -> (result: Result<Envelope, String>)
    ensures
        match envelope_error(parts@) {
            Some(text) => result matches Err(message) && message@ == text,
            None => result matches Ok(envelope) && is_envelope_of(envelope, parts@),
        },
{
    let keys: Vec<String> = match parts.keys {
        Some(keys) => keys,
        None => {
            return Err(String::from_str("request envelope must be an object"));
        },
    };
    let command: String = match parts.command {
        Some(command) => command,
        None => {
            return Err(String::from_str("request command must be a string"));
        },
    };
    match unknown_field(&keys, command.as_str()) {
        Some(field) => {
            return Err(unknown_field_message(quoted(field).as_str()));
        },
        None => {},
    }
    let version: u32 = match parts.version {
        None => {
            return Err(String::from_str("missing request version"));
        },
        Some(Err(message)) => {
            return Err(message);
        },
        Some(Ok(version)) => version,
    };
    let written: String = match parts.client_id {
        None => {
            return Err(String::from_str("missing client ID"));
        },
        Some(Err(message)) => {
            return Err(message);
        },
        Some(Ok(written)) => written,
    };
    let client_id: ClientId = match ClientId::parse(written.as_str()) {
        Ok(client_id) => client_id,
        Err(message) => {
            return Err(String::from_str(message));
        },
    };
    let number: u64 = match parts.request_id {
        None => {
            return Err(String::from_str("missing request ID"));
        },
        Some(Err(message)) => {
            return Err(message);
        },
        Some(Ok(number)) => number,
    };
    match RequestId::from_number(number) {
        Ok(request_id) => Ok(Envelope { version, client_id, request_id, command }),
        Err(message) => Err(String::from_str(message)),
    }
}

/// What the parser reads out of the bytes of a frame.
pub open spec fn parts_of(bytes: Seq<u8>) -> EnvelopePartsView {
    EnvelopePartsView {
        keys: json_keys(bytes),
        command: json_text(bytes, "cmd"@),
        version: json_u32(bytes, "version"@),
        client_id: json_string(bytes, "client_id"@),
        request_id: json_u64(bytes, "request_id"@),
    }
}

/// The refusal of the envelope at the start of a frame, whatever follows it.
pub open spec fn frame_refusal(bytes: Seq<u8>) -> Option<Seq<char>> {
    match json_value_error(bytes) {
        Some(text) => Some(text),
        None => envelope_error(parts_of(bytes)),
    }
}

/// Reads the envelope at the start of a request frame. What follows the object is
/// judged by [`check_frame_end`], once the command has been read too.
pub fn read_envelope(bytes: &[u8]) -> (result: Result<Envelope, String>)
    ensures
        match frame_refusal(bytes@) {
            Some(text) => result matches Err(message) && message@ == text,
            None => result matches Ok(envelope) && is_envelope_of(envelope, parts_of(bytes@)),
        },
{
    match value_error(bytes) {
        Some(message) => {
            return Err(message);
        },
        None => {},
    }
    accept_envelope(
        EnvelopeParts {
            keys: object_keys(bytes),
            command: member_text(bytes, "cmd"),
            version: member_u32(bytes, "version"),
            client_id: member_string(bytes, "client_id"),
            request_id: member_u64(bytes, "request_id"),
        },
    )
}

/// Refuses a frame that is not one JSON document, such as one that goes on behind
/// its object.
pub fn check_frame_end(bytes: &[u8]) -> (result: Result<(), String>)
    ensures
        match json_error(bytes@) {
            Some(text) => result matches Err(message) && message@ == text,
            None => result is Ok,
        },
{
    match document_error(bytes) {
        Some(message) => Err(message),
        None => Ok(()),
    }
}

/// Reads the envelope of a whole request frame: the envelope is judged before
/// what follows the object.
pub fn decode_envelope(bytes: &[u8]) -> (result: Result<Envelope, String>)
    ensures
        match frame_refusal(bytes@) {
            Some(text) => result matches Err(message) && message@ == text,
            None => match json_error(bytes@) {
                Some(text) => result matches Err(message) && message@ == text,
                None => result matches Ok(envelope) && is_envelope_of(envelope, parts_of(bytes@)),
            },
        },
{
    match read_envelope(bytes) {
        Ok(envelope) => match check_frame_end(bytes) {
            Ok(_) => Ok(envelope),
            Err(message) => Err(message),
        },
        Err(message) => Err(message),
    }
}

proof fn lemma_first_unknown(keys: Seq<Seq<char>>, command: Seq<char>, from: int)
    requires
        0 <= from <= keys.len(),
        first_unknown(keys, command, from) is None,
    ensures
        forall|i: int|
            from <= i < keys.len() ==> allowed_field(command, #[trigger] keys[i]),
    decreases keys.len() - from,
{
    if from < keys.len() {
        lemma_first_unknown(keys, command, from + 1);
    }
}

/// An accepted frame holds no field that its command does not define, and its
/// request identifier is not zero.
pub proof fn law_accepted_frames_are_strict(parts: EnvelopePartsView)
    requires
        envelope_error(parts) is None,
    ensures
        parts.keys is Some,
        parts.command is Some,
        forall|i: int|
            0 <= i < parts.keys->0.len() ==> allowed_field(
                parts.command->0,
                #[trigger] parts.keys->0[i],
            ),
        parts.request_id matches Some(Ok(number)) && number != 0,
{
    lemma_first_unknown(parts.keys->0, parts.command->0, 0);
}

/// A frame is accepted exactly if it is complete and nothing more: an object whose
/// keys its command allows, with a version, 32 hexadecimal digits of a client that
/// is not zero, and a request number that is not zero.
pub proof fn law_complete_frames_are_accepted(parts: EnvelopePartsView)
    ensures
        envelope_error(parts) is None <==> {
            &&& parts.keys is Some
            &&& parts.command is Some
            &&& forall|i: int|
                0 <= i < parts.keys->0.len() ==> allowed_field(
                    parts.command->0,
                    #[trigger] parts.keys->0[i],
                )
            &&& parts.version matches Some(Ok(_))
            &&& parts.client_id matches Some(Ok(client)) && client.len() == 32 && is_hex(client)
                && hex_value(client) != 0
            &&& parts.request_id matches Some(Ok(number)) && number != 0
        },
{
    if parts.keys is Some && parts.command is Some {
        lemma_allowed_keys(parts.keys->0, parts.command->0, 0);
        if first_unknown(parts.keys->0, parts.command->0, 0) is None {
            lemma_first_unknown(parts.keys->0, parts.command->0, 0);
        }
    }
}

proof fn lemma_allowed_keys(keys: Seq<Seq<char>>, command: Seq<char>, from: int)
    requires
        0 <= from <= keys.len(),
    ensures
        (forall|i: int| from <= i < keys.len() ==> allowed_field(command, #[trigger] keys[i]))
            ==> first_unknown(keys, command, from) is None,
        first_unknown(keys, command, from) matches Some(key) ==> !allowed_field(command, key),
    decreases keys.len() - from,
{
    if from < keys.len() {
        lemma_allowed_keys(keys, command, from + 1);
    }
}

/// Every command allows the four keys of the envelope; each key beyond them belongs
/// to the commands that define it and to no other.
#[verifier::rlimit(60)]
pub proof fn law_keys_belong_to_their_commands(command: Seq<char>)
    ensures
        allowed_field(command, "version"@),
        allowed_field(command, "client_id"@),
        allowed_field(command, "request_id"@),
        allowed_field(command, "cmd"@),
        allowed_field(command, "request"@) <==> command == "apply"@,
        allowed_field(command, "offset"@) <==> command == "apply-undervolt-once"@,
        allowed_field(command, "limit"@) <==> command == "set-battery-limit"@,
        allowed_field(command, "enabled"@) <==> command == "set-battery-one-time-charge"@ || command
            == "set-panel-overdrive"@ || command == "set-controller-capture"@,
        allowed_field(command, "device"@) <==> command == "set-lighting"@,
        allowed_field(command, "state"@) <==> command == "set-lighting"@,
        allowed_field(command, "events"@) <==> command == "subscribe"@,
        allowed_field(command, "ppd_profiles"@) <==> command == "get-factory-fan-curves"@,
        allowed_field(command, "target_client_id"@) <==> command == "get-outcome"@,
        allowed_field(command, "target_request_id"@) <==> command == "get-outcome"@,
{
    reveal_strlit("version");
    reveal_strlit("client_id");
    reveal_strlit("request_id");
    reveal_strlit("cmd");
    reveal_strlit("request");
    reveal_strlit("offset");
    reveal_strlit("limit");
    reveal_strlit("enabled");
    reveal_strlit("device");
    reveal_strlit("state");
    reveal_strlit("events");
    reveal_strlit("ppd_profiles");
    reveal_strlit("target_client_id");
    reveal_strlit("target_request_id");
    reveal_strlit("get-factory-fan-curves");
    reveal_strlit("apply");
    reveal_strlit("apply-undervolt-once");
    reveal_strlit("set-battery-limit");
    reveal_strlit("set-battery-one-time-charge");
    reveal_strlit("set-panel-overdrive");
    reveal_strlit("set-controller-capture");
    reveal_strlit("set-lighting");
    reveal_strlit("subscribe");
    reveal_strlit("get-outcome");
    assert("request"@[0] == 'r' && "version"@[0] == 'v' && "enabled"@[0] == 'e');
    assert("offset"@[0] == 'o' && "device"@[0] == 'd' && "events"@[0] == 'e');
    assert("limit"@[0] == 'l' && "state"@[0] == 's');
    assert("version"@.len() == 7 && "client_id"@.len() == 9 && "request_id"@.len() == 10);
    assert("cmd"@.len() == 3 && "request"@.len() == 7 && "enabled"@.len() == 7);
    assert("offset"@.len() == 6 && "limit"@.len() == 5 && "ppd_profiles"@.len() == 12);
    assert("device"@.len() == 6 && "state"@.len() == 5 && "events"@.len() == 6);
    assert("target_client_id"@.len() == 16 && "target_request_id"@.len() == 17);
    assert("get-factory-fan-curves"@.len() == 22);
    assert("apply"@.len() == 5);
    assert("apply-undervolt-once"@.len() == 20);
    assert("set-battery-limit"@.len() == 17);
    assert("set-battery-one-time-charge"@.len() == 27);
    assert("set-panel-overdrive"@.len() == 19);
    assert("set-controller-capture"@[0] == 's' && "get-factory-fan-curves"@[0] == 'g');
    assert("set-lighting"@.len() == 12);
    assert("subscribe"@.len() == 9);
    assert("get-outcome"@.len() == 11);
}

/// An accepted frame is read for what it says: the version, the command, the client
/// and the request are those of its members of that name.
pub proof fn law_envelopes_carry_their_members(bytes: Seq<u8>, envelope: Envelope)
    requires
        frame_refusal(bytes) is None,
        is_envelope_of(envelope, parts_of(bytes)),
    ensures
        json_u32(bytes, "version"@) == Some(Ok::<u32, Seq<char>>(envelope.version)),
        json_text(bytes, "cmd"@) == Some(envelope.command@),
        json_string(bytes, "client_id"@) matches Some(Ok(client)) && hex_value(client)
            == envelope.client_id.number(),
        json_u64(bytes, "request_id"@) == Some(
            Ok::<u64, Seq<char>>(envelope.request_id.number()),
        ),
        json_value_error(bytes) is None,
        json_keys(bytes) is Some,
{
}

} // verus!
