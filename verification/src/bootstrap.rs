//! The messages that introduce the bridge to the agent. They are sent on
//! every new connection to the local channel, before anything else.

use vstd::prelude::*;
use vstd::string::StrSliceExecFns;
use vstd::string::StringSliceAdditionalSpecFns;

verus! {

/// Address that the bridge binds at the agent.
pub const BIND_ADDRESS: u16 = 256;

/// Asks the agent to bind the bridge to [`BIND_ADDRESS`].
pub const BIND_REQUEST: &'static str = "{\"address\":256,\"method\":\"bind\"}";

/// Registers the bridge for the key `auto.report`.
pub const REGISTER_REPORT: &'static str = "{\"key\":\"auto.report\",\"method\":\"register\"}";

/// Registers the bridge for the key `auto.forward`.
pub const REGISTER_FORWARD: &'static str = "{\"key\":\"auto.forward\",\"method\":\"register\"}";

/// Registers the bridge for the key `lanbox.event`.
pub const REGISTER_EVENT: &'static str = "{\"key\":\"lanbox.event\",\"method\":\"register\"}";

/// How many messages introduce the bridge.
pub const REGISTRATION_COUNT: usize = 4;

/// Text of a bind request for an address written in decimal digits.
pub open spec fn bind_text(address: Seq<char>) -> Seq<char> {
    "{\"address\":"@ + address + ",\"method\":\"bind\"}"@
}

/// Text of a registration for a key.
pub open spec fn register_text(key: Seq<char>) -> Seq<char> {
    "{\"key\":\""@ + key + "\",\"method\":\"register\"}"@
}

/// The bytes of a text that is plain ASCII: one for each character.
pub open spec fn ascii_bytes(text: Seq<char>) -> Seq<u8> {
    Seq::new(text.len(), |i: int| text[i] as u8)
}

/// The payloads that introduce the bridge, in the order in which they are
/// sent.
pub open spec fn registration_payloads() -> Seq<Seq<u8>> {
    seq![
        BIND_REQUEST.spec_bytes(),
        REGISTER_REPORT.spec_bytes(),
        REGISTER_FORWARD.spec_bytes(),
        REGISTER_EVENT.spec_bytes(),
    ]
}

/// The views of a list of payloads.
pub open spec fn payload_views(payloads: Seq<Vec<u8>>) -> Seq<Seq<u8>> {
    payloads.map_values(|p: Vec<u8>| p@)
}

/// The payloads that introduce the bridge, in the order in which they are
/// sent.
pub fn registration_messages() -> (messages: Vec<Vec<u8>>)
    ensures
        payload_views(messages@) == registration_payloads(),
{
    let mut messages: Vec<Vec<u8>> = Vec::new();
    messages.push(BIND_REQUEST.as_bytes_vec());
    messages.push(REGISTER_REPORT.as_bytes_vec());
    messages.push(REGISTER_FORWARD.as_bytes_vec());
    messages.push(REGISTER_EVENT.as_bytes_vec());
    assert(payload_views(messages@) =~= registration_payloads());
    messages
}

/// There are four messages. The first one binds address 256; the other
/// three register the keys `auto.report`, `auto.forward` and `lanbox.event`,
/// in this order. All four are plain ASCII, so each payload has one byte for
/// each character of its text.
pub proof fn registration_texts()
    ensures
        BIND_ADDRESS == 256,
        BIND_REQUEST@ == bind_text("256"@),
        REGISTER_REPORT@ == register_text("auto.report"@),
        REGISTER_FORWARD@ == register_text("auto.forward"@),
        REGISTER_EVENT@ == register_text("lanbox.event"@),
        registration_payloads() == seq![
            ascii_bytes(BIND_REQUEST@),
            ascii_bytes(REGISTER_REPORT@),
            ascii_bytes(REGISTER_FORWARD@),
            ascii_bytes(REGISTER_EVENT@),
        ],
        registration_payloads().len() == REGISTRATION_COUNT,
        registration_payloads()[0].len() == 31,
        registration_payloads()[1].len() == 41,
        registration_payloads()[2].len() == 42,
        registration_payloads()[3].len() == 42,
{
    broadcast use vstd::string::is_ascii_spec_bytes;

    reveal_strlit("{\"address\":256,\"method\":\"bind\"}");
    reveal_strlit("{\"key\":\"auto.report\",\"method\":\"register\"}");
    reveal_strlit("{\"key\":\"auto.forward\",\"method\":\"register\"}");
    reveal_strlit("{\"key\":\"lanbox.event\",\"method\":\"register\"}");
    reveal_strlit("{\"address\":");
    reveal_strlit(",\"method\":\"bind\"}");
    reveal_strlit("{\"key\":\"");
    reveal_strlit("\",\"method\":\"register\"}");
    reveal_strlit("256");
    reveal_strlit("auto.report");
    reveal_strlit("auto.forward");
    reveal_strlit("lanbox.event");
    assert(BIND_REQUEST@ =~= bind_text("256"@));
    assert(REGISTER_REPORT@ =~= register_text("auto.report"@));
    assert(REGISTER_FORWARD@ =~= register_text("auto.forward"@));
    assert(REGISTER_EVENT@ =~= register_text("lanbox.event"@));
    assert(BIND_REQUEST.is_ascii());
    assert(REGISTER_REPORT.is_ascii());
    assert(REGISTER_FORWARD.is_ascii());
    assert(REGISTER_EVENT.is_ascii());
    assert(BIND_REQUEST.spec_bytes() =~= ascii_bytes(BIND_REQUEST@));
    assert(REGISTER_REPORT.spec_bytes() =~= ascii_bytes(REGISTER_REPORT@));
    assert(REGISTER_FORWARD.spec_bytes() =~= ascii_bytes(REGISTER_FORWARD@));
    assert(REGISTER_EVENT.spec_bytes() =~= ascii_bytes(REGISTER_EVENT@));
}

} // verus!
