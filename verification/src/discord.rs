//! Talking to Discord: endpoint URLs, message flags, interactions and their
//! signatures.
use crate::icon::utf8;
use vstd::prelude::*;

verus! {

pub const BASE_URL: &'static str = "https://discord.com/api/v10";

pub const CROSSPOSTED: u32 = 1u32 << 0u32;
pub const IS_CROSSPOST: u32 = 1u32 << 1u32;
pub const SUPPRESS_EMBEDS: u32 = 1u32 << 2u32;
pub const SOURCE_MESSAGE_DELETED: u32 = 1u32 << 3u32;
pub const URGENT: u32 = 1u32 << 4u32;
pub const HAS_THREAD: u32 = 1u32 << 5u32;
pub const EPHEMERAL: u32 = 1u32 << 6u32;
pub const LOADING: u32 = 1u32 << 7u32;
pub const FAILED_TO_MENTION_SOME_ROLES_IN_THREAD: u32 = 1u32 << 8u32;
pub const SUPPRESS_NOTIFICATIONS: u32 = 1u32 << 12u32;
pub const IS_VOICE_MESSAGE: u32 = 1u32 << 13u32;
pub const HAS_SNAPSHOT: u32 = 1u32 << 14u32;
pub const IS_COMPONENTS_V2: u32 = 1u32 << 15u32;

pub open spec fn channel_messages_url(channel_id: Seq<char>) -> Seq<char> {
    BASE_URL@ + "/channels/"@ + channel_id + "/messages"@
}

pub open spec fn message_url(channel_id: Seq<char>, message_id: Seq<char>) -> Seq<char> {
    channel_messages_url(channel_id) + "/"@ + message_id
}

/// Where a new message is posted to channel `channel_id`.
pub fn create_message_url(channel_id: &str) -> (r: String)
    ensures
        r@ == channel_messages_url(channel_id@),
{
    let mut r = String::from_str(BASE_URL);
    r.append("/channels/");
    r.append(channel_id);
    r.append("/messages");
    assert(r@ =~= channel_messages_url(channel_id@));
    r
}

/// Where message `message_id` of channel `channel_id` is edited or deleted.
pub fn message_url_of(channel_id: &str, message_id: &str) -> (r: String)
    ensures
        r@ == message_url(channel_id@, message_id@),
{
    let mut r = create_message_url(channel_id);
    r.append("/");
    r.append(message_id);
    assert(r@ =~= message_url(channel_id@, message_id@));
    r
}

/// Where the answer to an interaction is posted.
pub fn interaction_response_url(interaction_id: &str, interaction_token: &str) -> (r: String)
    ensures
        r@ == BASE_URL@ + "/interactions/"@ + interaction_id@ + "/"@ + interaction_token@
            + "/callback"@,
{
    let mut r = String::from_str(BASE_URL);
    r.append("/interactions/");
    r.append(interaction_id);
    r.append("/");
    r.append(interaction_token);
    r.append("/callback");
    r
}

/// Where several messages of a channel are deleted at once.
pub fn bulk_delete_url(channel_id: &str) -> (r: String)
    ensures
        r@ == channel_messages_url(channel_id@) + "/bulk-delete"@,
{
    let mut r = create_message_url(channel_id);
    r.append("/bulk-delete");
    r
}

/// A request that Discord answered with status 429 is retried after the
/// wait it names.
pub fn rate_limited(status: u16) -> (r: bool)
    ensures
        r == (status == 429),
{
    status == 429
}

/// The kinds of interaction Discord sends, by their wire number 1 to 5.
#[derive(Clone, Copy, Debug, PartialEq, Eq, Structural)]
pub enum Interaction {
    Ping,
    ApplicationCommand,
    MessageComponent,
    Autocomplete,
    ModalSubmit,
}

impl Interaction {
    pub open spec fn spec_code(self) -> u8 {
        match self {
            Interaction::Ping => 1,
            Interaction::ApplicationCommand => 2,
            Interaction::MessageComponent => 3,
            Interaction::Autocomplete => 4,
            Interaction::ModalSubmit => 5,
        }
    }

    /// The wire number of the kind.
    pub fn code(&self) -> (r: u8)
        ensures
            r == self.spec_code(),
    {
        match self {
            Interaction::Ping => 1,
            Interaction::ApplicationCommand => 2,
            Interaction::MessageComponent => 3,
            Interaction::Autocomplete => 4,
            Interaction::ModalSubmit => 5,
        }
    }

    /// The kind with wire number `n`, if there is one.
    pub fn from_code(n: u64) -> (r: Option<Interaction>)
        ensures
            match r {
                Some(k) => k.spec_code() == n,
                None => n < 1 || n > 5,
            },
    {
        if n == 1 {
            Some(Interaction::Ping)
        } else if n == 2 {
            Some(Interaction::ApplicationCommand)
        } else if n == 3 {
            Some(Interaction::MessageComponent)
        } else if n == 4 {
            Some(Interaction::Autocomplete)
        } else if n == 5 {
            Some(Interaction::ModalSubmit)
        } else {
            None
        }
    }
}

/// Why an interaction payload cannot be read.
#[derive(Clone, Copy, Debug, PartialEq, Eq, Structural)]
pub enum InteractionDataError {
    /// No numeric `kind`.
    MissingType,
    /// No `data`.
    MissingData,
    /// A `kind` that is not 1 to 5.
    UnknownType(u64),
}

/// The kind of an interaction payload from its `kind` field and whether it
/// has a `data` field; the kind is checked first.
pub fn classify_interaction(kind: Option<u64>, has_data: bool) -> (r: Result<Interaction, InteractionDataError>)
    ensures
        match kind {
            None => r == Err::<Interaction, InteractionDataError>(InteractionDataError::MissingType),
            Some(t) => if !has_data {
                r == Err::<Interaction, InteractionDataError>(InteractionDataError::MissingData)
            } else if 1 <= t <= 5 {
                r matches Ok(k) && k.spec_code() == t
            } else {
                r == Err::<Interaction, InteractionDataError>(InteractionDataError::UnknownType(t))
            },
        },
{
    let t = match kind {
        Some(t) => t,
        None => {
            return Err(InteractionDataError::MissingType);
        },
    };
    if !has_data {
        return Err(InteractionDataError::MissingData);
    }
    match Interaction::from_code(t) {
        Some(k) => Ok(k),
        None => Err(InteractionDataError::UnknownType(t)),
    }
}

/// How the bot answers an interaction.
#[derive(Clone, Copy, Debug, PartialEq, Eq, Structural)]
pub enum InteractionReply {
    /// Answer a ping with a pong (status 200, body `{"type":1}`).
    Pong,
    /// Accept (status 202) and post the test response to the interaction.
    Acknowledge,
}

pub fn reply_for(kind: &Interaction) -> (r: InteractionReply)
    ensures
        r == (if *kind == Interaction::Ping { InteractionReply::Pong } else { InteractionReply::Acknowledge }),
{
    match kind {
        Interaction::Ping => InteractionReply::Pong,
        _ => InteractionReply::Acknowledge,
    }
}

/// Answer type of a pong.
pub struct DiscordResponse {
    pub kind: u32,
}

/// An interaction answer that shows a message.
pub struct InterResponse {
    pub kind: u8,
    pub data: Content,
}

pub struct Content {
    pub content: &'static str,
    pub flags: u32,
}

/// The answer given to every interaction but a ping: a message only the
/// sender sees.
pub fn testing_response() -> (r: InterResponse)
    ensures
        r.kind == 4,
        r.data.content@ == "This is just a test!"@,
        r.data.flags == EPHEMERAL,
{
    InterResponse { kind: 4, data: Content { content: "This is just a test!", flags: EPHEMERAL } }
}

pub open spec fn is_hex_digit(b: u8) -> bool {
    ||| (48 <= b <= 57)
    ||| (65 <= b <= 70)
    ||| (97 <= b <= 102)
}

pub open spec fn hex_value(b: u8) -> int {
    if b <= 57 {
        b - 48
    } else if b <= 70 {
        b - 55
    } else {
        b - 87
    }
}

/// `text` is hexadecimal for exactly `n` bytes.
pub open spec fn hex_ok(text: Seq<u8>, n: nat) -> bool {
    &&& text.len() == 2 * n
    &&& forall|i: int| 0 <= i < text.len() ==> is_hex_digit(#[trigger] text[i])
}

/// The bytes a hexadecimal text stands for, two digits per byte.
pub open spec fn hex_bytes(text: Seq<u8>) -> Seq<u8> {
    Seq::new(text.len() / 2, |i: int| (hex_value(text[2 * i]) * 16 + hex_value(text[2 * i + 1])) as u8)
}

/// `hex::decode_to_slice` into `n` bytes: succeeds exactly when the text is
/// hexadecimal (either case) for `n` bytes, and then yields `hex_bytes`.
#[verifier::external_body]
fn hex_decode_to_vec(text: &str, n: usize) -> (r: Option<Vec<u8>>)
    ensures
        r is Some <==> hex_ok(utf8(text@), n as nat),
        r matches Some(v) ==> v@ == hex_bytes(utf8(text@)),
{
    let mut out = vec![0u8; n];
    match hex::decode_to_slice(text, &mut out) {
        Ok(()) => Some(out),
        Err(_) => None,
    }
}

/// The `n` bytes written in hexadecimal as `text`, if it is such a text.
pub fn decode_hex(text: &str, n: usize) -> (r: Option<Vec<u8>>)
    ensures
        r is Some <==> hex_ok(utf8(text@), n as nat),
        r matches Some(v) ==> v@ == hex_bytes(utf8(text@)) && v@.len() == n,
{
    hex_decode_to_vec(text, n)
}

/// Strict Ed25519 verification of `signature` over `message` with the
/// public key `public_key`; false when the key is not a valid point.
pub uninterp spec fn ed25519_verify_strict(public_key: Seq<u8>, message: Seq<u8>, signature: Seq<u8>) -> bool;

/// `ed25519_dalek`: `VerifyingKey::from_bytes` then `verify_strict`; the
/// result is `ed25519_verify_strict` of the bytes.
#[verifier::external_body]
fn ed25519_verify(public_key: &[u8], message: &[u8], signature: &[u8]) -> (ok: bool)
    requires
        public_key@.len() == 32,
        signature@.len() == 64,
    ensures
        ok == ed25519_verify_strict(public_key@, message@, signature@),
{
    let key: [u8; 32] = public_key.try_into().unwrap();
    let sig: [u8; 64] = signature.try_into().unwrap();
    match ed25519_dalek::VerifyingKey::from_bytes(&key) {
        Ok(k) => k.verify_strict(message, &ed25519_dalek::Signature::from_bytes(&sig)).is_ok(),
        Err(_) => false,
    }
}

/// Whether an interaction request is really from Discord: the signature
/// must be valid for the timestamp header followed by the body.
pub fn interaction_authentic(public_key: &[u8], signature: &[u8], timestamp: &str, body: &str) -> (r: bool)
    requires
        public_key@.len() == 32,
        signature@.len() == 64,
    ensures
        r == ed25519_verify_strict(public_key@, utf8(timestamp@ + body@), signature@),
{
    let mut message = String::from_str(timestamp);
    message.append(body);
    let bytes = message.as_str().as_bytes();
    ed25519_verify(public_key, bytes, signature)
}

} // verus!
