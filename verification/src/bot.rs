//! The persistent "next event" messages of the bot, and the decisions its
//! background loop takes about which Discord messages to rewrite.
use crate::calendar::{
    push_session_lines, push_weekend_heading, session_ended, session_lines, weekend_block,
    weekend_heading,
};
use crate::model::{
    Message, MessageKind, Series, Session, SessionStatus, Timestamp, Weekend, MAX_UTC_SECS,
};
use crate::text::{decimal_u64, nat_decimal, parse_u64, parse_u64_spec};
use crate::time::now;
use vstd::prelude::*;

verus! {

/// Closing line of the F1 message.
pub open spec fn f1_footer() -> Seq<char> {
    "\nUse <id:customize> and get the `f1-notifications` role to receive notifications!\n"@
}

/// The F1 message for the next weekend: its calendar block followed by a
/// hint about the notification role.
pub open spec fn f1_message(w: Weekend, sessions: Seq<Session>, now: Timestamp) -> Seq<char> {
    weekend_block(w, sessions, now) + f1_footer()
}

pub open spec fn feeder_header() -> Seq<char> {
    "# Next Feeder Events\n"@
}

pub open spec fn feeder_footer() -> Seq<char> {
    "\nGo to <id:customize> and select the [Series]-Notifications role to receive notifications for each series.\nAll Times are in your timezone.\n"@
}

/// The block of one feeder weekend: icon, series and name, a note when no
/// session times are known yet, and the session lines.
pub open spec fn feeder_block(w: Weekend, sessions: Seq<Session>, now: Timestamp) -> Seq<char> {
    "## "@ + w.icon@ + " "@ + w.series.text() + " "@ + w.name@ + "\n"@ + (if sessions.len() == 0 {
        "> :hourglass: Times are TBC\n"@
    } else {
        Seq::empty()
    }) + session_lines(sessions, now)
}

/// Blocks of the entries that have a weekend, in order; entries without
/// one are left out.
pub open spec fn feeder_blocks(entries: Seq<(Option<Weekend>, Seq<Session>)>, now: Timestamp) -> Seq<char>
    decreases entries.len(),
{
    if entries.len() == 0 {
        Seq::empty()
    } else {
        match entries[0].0 {
            None => feeder_blocks(entries.drop_first(), now),
            Some(w) => feeder_block(w, entries[0].1, now) + feeder_blocks(entries.drop_first(), now),
        }
    }
}

pub open spec fn feeder_message(entries: Seq<(Option<Weekend>, Seq<Session>)>, now: Timestamp) -> Seq<char> {
    feeder_header() + feeder_blocks(entries, now) + feeder_footer()
}

/// The three (weekend, sessions) pairs as plain values.
pub open spec fn feeder_entries(data: [(&Option<Weekend>, &Vec<Session>); 3]) -> Seq<(Option<Weekend>, Seq<Session>)> {
    Seq::new(3, |i: int| (*data@[i].0, data@[i].1@))
}

pub open spec fn all_fit(sessions: Seq<Session>) -> bool {
    forall|i: int| 0 <= i < sessions.len() ==> (#[trigger] sessions[i]).fits()
}

/// The F1 message for `weekend`, judging at `now` which sessions are over.
pub fn persistent_msg_f1_at(weekend: &Weekend, sessions: &Vec<Session>, now: &Timestamp) -> (r: String)
    requires
        all_fit(sessions@),
    ensures
        r@ == f1_message(*weekend, sessions@, *now),
{
    let mut out = String::new();
    push_weekend_heading(&mut out, weekend);
    push_session_lines(&mut out, sessions.as_slice(), now);
    out.append("\nUse <id:customize> and get the `f1-notifications` role to receive notifications!\n");
    assert(out@ =~= f1_message(*weekend, sessions@, *now));
    out
}

/// The message for the next F1 weekend; sessions over by the current time
/// are struck through.
pub fn persistent_msg_f1(weekend: &Weekend, sessions: &Vec<Session>) -> (r: Result<String, std::fmt::Error>)
    requires
        all_fit(sessions@),
    ensures
        r matches Ok(s) && exists|t: Timestamp| t.wf() && s@ == #[trigger] f1_message(*weekend, sessions@, t),
{
    let t = now();
    let s = persistent_msg_f1_at(weekend, sessions, &t);
    assert(s@ == f1_message(*weekend, sessions@, t));
    Ok(s)
}

/// Appends the feeder block of `weekend`.
fn push_feeder_block(out: &mut String, weekend: &Weekend, sessions: &Vec<Session>, now: &Timestamp)
    requires
        all_fit(sessions@),
    ensures
        final(out)@ == old(out)@ + feeder_block(*weekend, sessions@, *now),
{
    out.append("## ");
    out.append(weekend.icon.as_str());
    out.append(" ");
    out.append(weekend.series.as_str());
    out.append(" ");
    out.append(weekend.name.as_str());
    out.append("\n");
    if sessions.len() == 0 {
        out.append("> :hourglass: Times are TBC\n");
    }
    push_session_lines(out, sessions.as_slice(), now);
    assert(final(out)@ =~= old(out)@ + feeder_block(*weekend, sessions@, *now));
}

/// The feeder message (F2, F3, F1 Academy) at `now`: a single message with
/// one block per series that has a next weekend, in the given order.
pub fn persistent_msg_feeder_at(data: [(&Option<Weekend>, &Vec<Session>); 3], now: &Timestamp) -> (r: String)
    requires
        forall|i: int| 0 <= i < 3 ==> all_fit((#[trigger] data@[i]).1@),
    ensures
        r@ == feeder_message(feeder_entries(data), *now),
{
    let ghost entries = feeder_entries(data);
    let mut out = String::new();
    out.append("# Next Feeder Events\n");
    let ghost goal = feeder_header() + feeder_blocks(entries, *now);
    assert(entries.skip(0) =~= entries);
    assert(out@ =~= feeder_header());
    let mut i: usize = 0;
    while i < 3
        invariant
            i <= 3,
            entries == feeder_entries(data),
            forall|i: int| 0 <= i < 3 ==> all_fit((#[trigger] data@[i]).1@),
            out@ + feeder_blocks(entries.skip(i as int), *now) == goal,
        decreases 3 - i,
    {
        let entry = data[i];
        assert(entries.skip(i as int)[0] == entries[i as int]);
        assert(entries.skip(i as int).drop_first() =~= entries.skip(i + 1));
        match entry.0 {
            None => {},
            Some(weekend) => {
                let sessions: &Vec<Session> = entry.1;
                assert(all_fit(data@[i as int].1@));
                push_feeder_block(&mut out, weekend, sessions, now);
                assert(entries[i as int] == (Some(*weekend), sessions@));
            },
        }
        i = i + 1;
        assert(out@ + feeder_blocks(entries.skip(i as int), *now) =~= goal);
    }
    assert(entries.skip(3) =~= Seq::<(Option<Weekend>, Seq<Session>)>::empty());
    out.append(
        "\nGo to <id:customize> and select the [Series]-Notifications role to receive notifications for each series.\nAll Times are in your timezone.\n",
    );
    assert(out@ =~= feeder_message(entries, *now));
    out
}

/// The feeder message; sessions over by the current time are struck
/// through.
pub fn persistent_msg_feeder(data: [(&Option<Weekend>, &Vec<Session>); 3]) -> (r: Result<String, std::fmt::Error>)
    requires
        forall|i: int| 0 <= i < 3 ==> all_fit((#[trigger] data@[i]).1@),
    ensures
        r matches Ok(s) && exists|t: Timestamp|
            t.wf() && s@ == #[trigger] feeder_message(feeder_entries(data), t),
{
    let t = now();
    let s = persistent_msg_feeder_at(data, &t);
    assert(s@ == feeder_message(feeder_entries(data), t));
    Ok(s)
}

/// The hash `std::hash::DefaultHasher` gives for the text: a fresh hasher
/// made by `DefaultHasher::new`, fed the text, then finished.
pub uninterp spec fn default_hash(text: Seq<char>) -> u64;

/// `BuildHasher::hash_one` on `BuildHasherDefault<DefaultHasher>`: hashes
/// the text with a fresh `DefaultHasher::new()` and returns `finish`. std
/// documents that every hasher made by `DefaultHasher::new` is the same, so
/// the result is named `default_hash` of the text; nothing else about its
/// value is claimed.
#[verifier::external_body]
fn default_hash_of(text: &str) -> (h: u64)
    ensures
        h == default_hash(text@),
{
    std::hash::BuildHasher::hash_one(&std::hash::BuildHasherDefault::<std::hash::DefaultHasher>::default(), text)
}

/// The hash of a message content as it is stored: decimal text.
pub open spec fn hash_text(content: Seq<char>) -> Seq<char> {
    nat_decimal(default_hash(content) as nat)
}

/// The stored hash text of `content`.
pub fn hash_text_of(content: &str) -> (r: String)
    ensures
        r@ == hash_text(content@),
{
    decimal_u64(default_hash_of(content))
}

/// Seconds a persistent event message is kept: 100 days.
pub const MESSAGE_LIFETIME_SECS: i64 = 8640000;

/// The record of a persistent event message of `series` posted at `now`,
/// with the database id `id`, Discord's ids for it and the hash text of
/// its content `content`; it expires 100 days later.
pub fn event_message_record(
    id: u64,
    discord_id: String,
    discord_channel: String,
    series: Series,
    content: &str,
    now: &Timestamp,
) -> (r: Message)
    requires
        now.wf(),
        now.secs + MESSAGE_LIFETIME_SECS <= MAX_UTC_SECS,
    ensures
        r.id == id,
        r.discord_id == discord_id,
        r.discord_channel == discord_channel,
        r.kind == MessageKind::Weekend,
        r.series == series,
        r.expires_at == now.after_secs(MESSAGE_LIFETIME_SECS as int),
        r.created_at == *now,
        r.hash@ == hash_text(content@),
{
    Message {
        id,
        discord_id,
        discord_channel,
        kind: MessageKind::Weekend,
        series,
        expires_at: now.plus_secs(MESSAGE_LIFETIME_SECS),
        created_at: *now,
        hash: hash_text_of(content),
    }
}

/// Body of a message sent to Discord.
pub struct Content<'a> {
    pub content: &'a str,
}

impl<'a> Content<'a> {
    pub fn new(str: &'a str) -> (r: Self)
        ensures
            r.content == str,
    {
        Self { content: str }
    }
}

/// Whether a calendar message is rewritten, given its stored hash text,
/// the hash of its new content and that content; `None` when the stored
/// hash is not a number.
pub open spec fn calendar_update_decision(stored: Seq<char>, new_hash: u64, content: Seq<char>) -> Option<bool> {
    match parse_u64_spec(stored) {
        Some(h) => Some(h != new_hash && content.len() > 0),
        None => None,
    }
}

/// Whether the F1 message is rewritten; `None` when the stored hash is not
/// a number.
pub open spec fn f1_update_decision(stored: Seq<char>, new_hash: u64) -> Option<bool> {
    match parse_u64_spec(stored) {
        Some(h) => Some(h != new_hash),
        None => None,
    }
}

/// Whether the feeder message is rewritten; an unreadable stored hash
/// counts as zero.
pub open spec fn feeder_update_decision(stored: Seq<char>, new_hash: u64) -> bool {
    let h: u64 = match parse_u64_spec(stored) {
        Some(h) => h,
        None => 0,
    };
    new_hash != h || new_hash == 0 || h == 0
}

/// The calendar is only maintained once enough messages are reserved for it.
pub fn calendar_ready(message_count: usize) -> (r: bool)
    ensures
        r == (message_count >= 5),
{
    message_count >= 5
}

/// A calendar message is rewritten when the hash of its new content differs
/// from the stored one and the new content is not empty. `None` when the
/// stored hash is not a number.
pub fn calendar_update_needed(stored_hash: &str, new_hash: u64, content: &str) -> (r: Option<bool>)
    ensures
        r == calendar_update_decision(stored_hash@, new_hash, content@),
{
    match parse_u64(stored_hash) {
        Some(h) => {
            if h == new_hash {
                Some(false)
            } else if content.is_empty() {
                Some(false)
            } else {
                Some(true)
            }
        },
        None => None,
    }
}

/// The F1 message is rewritten when its content hash changed. `None` when
/// the stored hash is not a number.
pub fn f1_update_needed(stored_hash: &str, new_hash: u64) -> (r: Option<bool>)
    ensures
        r == f1_update_decision(stored_hash@, new_hash),
{
    match parse_u64(stored_hash) {
        Some(h) => Some(h != new_hash),
        None => None,
    }
}

/// The feeder message is rewritten when its content hash changed, and also
/// whenever either hash is zero; an unreadable stored hash counts as zero.
pub fn feeder_update_needed(stored_hash: &str, new_hash: u64) -> (r: bool)
    ensures
        r == feeder_update_decision(stored_hash@, new_hash),
{
    let h = match parse_u64(stored_hash) {
        Some(h) => h,
        None => 0,
    };
    new_hash != h || new_hash == 0 || h == 0
}

/// A reserved calendar message is forgotten once deleting it succeeded or
/// Discord no longer knows it (404); otherwise it is kept for another try.
pub fn calendar_message_gone(status: u16) -> (r: bool)
    ensures
        r == ((200 <= status <= 299) || status == 404),
{
    (200 <= status && status <= 299) || status == 404
}

/// A weekend is over once it has sessions and none of them is still open.
pub open spec fn weekend_over(sessions: Seq<Session>) -> bool {
    sessions.len() > 0 && forall|i: int|
        0 <= i < sessions.len() ==> (#[trigger] sessions[i]).status != SessionStatus::Open
}

/// A weekend is done once it has sessions and none of them is still open;
/// then its message is removed and the weekend closed.
pub fn weekend_finished(sessions: &[Session]) -> (r: bool)
    ensures
        r == weekend_over(sessions@),
{
    if sessions.len() == 0 {
        return false;
    }
    let mut i: usize = 0;
    while i < sessions.len()
        invariant
            i <= sessions@.len(),
            forall|j: int| 0 <= j < i ==> (#[trigger] sessions@[j]).status != SessionStatus::Open,
        decreases sessions.len() - i,
    {
        if sessions[i].status == SessionStatus::Open {
            return false;
        }
        i = i + 1;
    }
    true
}

/// What the loop does with a message it keeps up to date.
#[derive(Debug, PartialEq, Eq)]
pub enum MessageUpdate {
    /// The content is unchanged: leave the message as it is.
    Keep,
    /// Rewrite the message; its stored hash stays as it is.
    Edit,
    /// Rewrite the message, then store this hash text for it.
    EditAndStore(String),
    /// The stored hash is not a number: the loop stops with an error.
    BadStoredHash,
}

/// The step for calendar message content `content` whose stored hash text
/// is `stored_hash`: rewrite it and store the new hash when the content
/// changed and is not empty.
pub fn calendar_step(stored_hash: &str, content: &str) -> (r: MessageUpdate)
    ensures
        match calendar_update_decision(stored_hash@, default_hash(content@), content@) {
            None => r is BadStoredHash,
            Some(false) => r is Keep,
            Some(true) => r matches MessageUpdate::EditAndStore(h) && h@ == hash_text(content@),
        },
{
    let new_hash = default_hash_of(content);
    match calendar_update_needed(stored_hash, new_hash, content) {
        None => MessageUpdate::BadStoredHash,
        Some(false) => MessageUpdate::Keep,
        Some(true) => MessageUpdate::EditAndStore(decimal_u64(new_hash)),
    }
}

/// The step for the F1 message: rewritten when its content changed. The
/// stored hash is left as it is.
pub fn f1_step(stored_hash: &str, content: &str) -> (r: MessageUpdate)
    ensures
        match f1_update_decision(stored_hash@, default_hash(content@)) {
            None => r is BadStoredHash,
            Some(false) => r is Keep,
            Some(true) => r is Edit,
        },
{
    let new_hash = default_hash_of(content);
    match f1_update_needed(stored_hash, new_hash) {
        None => MessageUpdate::BadStoredHash,
        Some(false) => MessageUpdate::Keep,
        Some(true) => MessageUpdate::Edit,
    }
}

/// The step for the feeder message: rewritten, and the new hash stored,
/// when its content changed or either hash is zero.
pub fn feeder_step(stored_hash: &str, content: &str) -> (r: MessageUpdate)
    ensures
        if feeder_update_decision(stored_hash@, default_hash(content@)) {
            r matches MessageUpdate::EditAndStore(h) && h@ == hash_text(content@)
        } else {
            r is Keep
        },
{
    let new_hash = default_hash_of(content);
    if feeder_update_needed(stored_hash, new_hash) {
        MessageUpdate::EditAndStore(decimal_u64(new_hash))
    } else {
        MessageUpdate::Keep
    }
}

} // verus!
