//! Properties that tie the message functions together.
use crate::bot::{
    calendar_update_decision, default_hash, f1_footer, f1_message, f1_update_decision,
    feeder_update_decision, hash_text,
};
use crate::calendar::{
    calendar_message, calendar_title, session_ended, session_line, sessions_of, weekend_block,
    weekend_blocks,
};
use crate::markup::{
    SESSION_DETAILS_0, SESSION_DETAILS_1, SESSION_DETAILS_3, SESSION_DETAILS_4, WEEKEND_ROW_2,
    WEEKEND_ROW_3, WEEKEND_ROW_4, WEEKEND_ROW_5,
};
use crate::model::{Session, Timestamp, Weekend};
use crate::icon::listed_code;
use crate::pages::{session_row, weekend_row};
use crate::text::{law_decimal_round_trip, nat_decimal, parse_u64_spec};
use vstd::prelude::*;

verus! {

/// Once a session is over it stays over: its line is struck through at
/// every later instant and does not change any more.
pub proof fn law_finished_sessions_stay_struck(s: Session, t1: Timestamp, t2: Timestamp)
    requires
        session_ended(s, t1),
        !t2.before(t1),
    ensures
        session_ended(s, t2),
        session_line(s, t2) == session_line(s, t1),
{
}

/// The F1 message is the calendar block of the weekend followed by the
/// role hint.
pub proof fn law_f1_message_is_calendar_block(w: Weekend, sessions: Seq<Session>, now: Timestamp)
    ensures
        f1_message(w, sessions, now) == weekend_block(w, sessions, now) + f1_footer(),
{
}

proof fn lemma_blocks_append(a: Seq<Weekend>, b: Seq<Weekend>, sessions: Seq<Session>, now: Timestamp)
    ensures
        weekend_blocks(a + b, sessions, now) == weekend_blocks(a, sessions, now) + weekend_blocks(
            b,
            sessions,
            now,
        ),
    decreases b.len(),
{
    if b.len() == 0 {
        assert(a + b =~= a);
        assert(weekend_blocks(a, sessions, now) + weekend_blocks(b, sessions, now) =~= weekend_blocks(a, sessions, now));
    } else {
        lemma_blocks_append(a, b.drop_last(), sessions, now);
        assert((a + b).drop_last() =~= a + b.drop_last());
        assert((a + b).last() == b.last());
        assert(weekend_blocks(a + b, sessions, now) =~= weekend_blocks(a, sessions, now)
            + weekend_blocks(b, sessions, now));
    }
}

/// The first `n` calendar messages, one after the other.
pub open spec fn calendar_messages(
    weekends: Seq<Weekend>,
    sessions: Seq<Session>,
    n: nat,
    now: Timestamp,
    year: int,
) -> Seq<char>
    decreases n,
{
    if n == 0 {
        Seq::empty()
    } else {
        calendar_messages(weekends, sessions, (n - 1) as nat, now, year) + calendar_message(
            weekends,
            sessions,
            n - 1,
            now,
            year,
        )
    }
}

proof fn lemma_calendar_prefix(
    weekends: Seq<Weekend>,
    sessions: Seq<Session>,
    n: nat,
    now: Timestamp,
    year: int,
)
    requires
        n >= 1,
        5 * (n - 1) < weekends.len(),
    ensures
        calendar_messages(weekends, sessions, n, now, year) == calendar_title(year) + weekend_blocks(
            weekends.take(if 5 * n < weekends.len() { (5 * n) as int } else { weekends.len() as int }),
            sessions,
            now,
        ),
    decreases n,
{
    let len = weekends.len() as int;
    if n == 1 {
        let end = if 5 < len { 5 } else { len };
        assert(weekends.subrange(0, end) =~= weekends.take(end));
        assert(calendar_messages(weekends, sessions, 0, now, year) =~= Seq::<char>::empty());
        assert(calendar_messages(weekends, sessions, 1, now, year) =~= calendar_message(weekends, sessions, 0, now, year));
    } else {
        lemma_calendar_prefix(weekends, sessions, (n - 1) as nat, now, year);
        let start = 5 * (n - 1);
        let end = if 5 * n < len { (5 * n) as int } else { len };
        assert(weekends.take(start) + weekends.subrange(start, end) =~= weekends.take(end));
        lemma_blocks_append(weekends.take(start), weekends.subrange(start, end), sessions, now);
        assert(calendar_message(weekends, sessions, n - 1, now, year) =~= weekend_blocks(
            weekends.subrange(start, end),
            sessions,
            now,
        ));
        assert(calendar_messages(weekends, sessions, n, now, year) =~= calendar_title(year) + weekend_blocks(
            weekends.take(end),
            sessions,
            now,
        ));
    }
}

/// Read in order, the calendar messages needed for the weekends (five per
/// message) list every weekend exactly once, after the title.
pub proof fn law_calendar_lists_every_weekend_once(
    weekends: Seq<Weekend>,
    sessions: Seq<Session>,
    n: nat,
    now: Timestamp,
    year: int,
)
    requires
        n >= 1,
        5 * (n - 1) < weekends.len() <= 5 * n,
    ensures
        calendar_messages(weekends, sessions, n, now, year) == calendar_title(year) + weekend_blocks(
            weekends,
            sessions,
            now,
        ),
{
    lemma_calendar_prefix(weekends, sessions, n, now, year);
    assert(weekends.take(weekends.len() as int) =~= weekends);
}

/// A message whose content is unchanged is not rewritten: the stored hash
/// text of a content reads back as the hash of that same content, so the
/// calendar and F1 messages stay as they are, and the feeder message too
/// unless the hash is zero.
pub proof fn law_unchanged_content_is_not_rewritten(content: Seq<char>)
    ensures
        calendar_update_decision(hash_text(content), default_hash(content), content) == Some(false),
        f1_update_decision(hash_text(content), default_hash(content)) == Some(false),
        feeder_update_decision(hash_text(content), default_hash(content)) == (default_hash(content)
            == 0),
{
    law_decimal_round_trip(default_hash(content));
}

/// The calendar block of a weekend lists every one of its sessions,
/// whatever their status: the sessions taken for weekend `id` are exactly
/// those whose weekend is `id`, in their order.
pub proof fn law_weekend_keeps_all_its_sessions(sessions: Seq<Session>, id: u64)
    ensures
        sessions_of(sessions, id) == sessions.filter(|s: Session| s.weekend_id == id as i64),
        forall|i: int|
            0 <= i < sessions.len() && sessions[i].weekend_id == id as i64 ==> #[trigger] sessions_of(
                sessions,
                id,
            ).contains(sessions[i]),
        forall|j: int|
            0 <= j < sessions_of(sessions, id).len() ==> (#[trigger] sessions_of(sessions, id)[j]).weekend_id
                == id as i64,
    decreases sessions.len(),
{
    let pred = |s: Session| s.weekend_id == id as i64;
    reveal(Seq::filter);
    if sessions.len() > 0 {
        law_weekend_keeps_all_its_sessions(sessions.drop_last(), id);
        assert(sessions_of(sessions, id) =~= sessions.filter(pred));
    } else {
        assert(sessions_of(sessions, id) =~= sessions.filter(pred));
    }
    assert forall|i: int| 0 <= i < sessions.len() && sessions[i].weekend_id == id as i64 implies #[trigger] sessions_of(
        sessions,
        id,
    ).contains(sessions[i]) by {
        sessions.lemma_filter_contains(pred, i);
    }
    assert forall|j: int| 0 <= j < sessions_of(sessions, id).len() implies (#[trigger] sessions_of(
        sessions,
        id,
    )[j]).weekend_id == id as i64 by {
        sessions.lemma_filter_pred(pred, j);
    }
}

/// A stored hash that reads as the number `h` and a new content hash `n`:
/// the F1 message is rewritten exactly when they differ, the calendar
/// message when they differ and the content is not empty, the feeder
/// message when they differ or either is zero.
pub proof fn law_changed_hash_is_rewritten(stored: Seq<char>, h: u64, n: u64, content: Seq<char>)
    requires
        parse_u64_spec(stored) == Some(h),
    ensures
        f1_update_decision(stored, n) == Some(true) <==> h != n,
        f1_update_decision(stored, n) is Some,
        calendar_update_decision(stored, n, content) == Some(true) <==> (h != n && content.len() > 0),
        calendar_update_decision(stored, n, content) is Some,
        feeder_update_decision(stored, n) <==> (h != n || n == 0 || h == 0),
{
}

/// A message stored for the content `old` and now showing `new`, whose
/// hash differs, is rewritten: the F1 and feeder messages always, the
/// calendar message unless the new content is empty.
pub proof fn law_new_content_is_rewritten(old: Seq<char>, new: Seq<char>)
    requires
        default_hash(old) != default_hash(new),
    ensures
        f1_update_decision(hash_text(old), default_hash(new)) == Some(true),
        calendar_update_decision(hash_text(old), default_hash(new), new) == Some(new.len() > 0),
        feeder_update_decision(hash_text(old), default_hash(new)),
{
    law_decimal_round_trip(default_hash(old));
}

/// `part` occurs in `text`.
pub open spec fn shows(text: Seq<char>, part: Seq<char>) -> bool {
    exists|p: int|
        0 <= p && p + part.len() <= text.len() && #[trigger] text.subrange(p, p + part.len()) == part
}

proof fn lemma_shows_middle(a: Seq<char>, part: Seq<char>, b: Seq<char>)
    ensures
        shows(a + part + b, part),
{
    let text = a + part + b;
    assert(text.subrange(a.len() as int, (a.len() + part.len()) as int) =~= part);
}

/// A row of the event list shows the weekend's own status (as its
/// `data-status` and its status badge) and its own name.
pub proof fn law_weekend_row_shows_status_and_name(w: Weekend)
    ensures
        shows(weekend_row(w), WEEKEND_ROW_2@ + w.status.text() + WEEKEND_ROW_3@),
        shows(weekend_row(w), WEEKEND_ROW_4@ + w.name@ + WEEKEND_ROW_5@),
{
    let row = weekend_row(w);
    let series = w.series.text();
    let status = w.status.text();
    let a = crate::markup::WEEKEND_ROW_0@ + nat_decimal(w.id as nat) + crate::markup::WEEKEND_ROW_1@
        + series;
    let part = WEEKEND_ROW_2@ + status + WEEKEND_ROW_3@;
    let b = row.subrange((a.len() + part.len()) as int, row.len() as int);
    assert(row =~= a + part + b);
    lemma_shows_middle(a, part, b);
    let a2 = a + part + listed_code(w.icon@);
    let part2 = WEEKEND_ROW_4@ + w.name@ + WEEKEND_ROW_5@;
    let b2 = row.subrange((a2.len() + part2.len()) as int, row.len() as int);
    assert(row =~= a2 + part2 + b2);
    lemma_shows_middle(a2, part2, b2);
}

/// A row of the session pane shows the session's own name as its title
/// and its own status.
pub proof fn law_session_row_shows_name_and_status(s: Session)
    ensures
        shows(session_row(s), SESSION_DETAILS_0@ + s.name@ + SESSION_DETAILS_1@),
        shows(session_row(s), SESSION_DETAILS_3@ + s.status.text() + SESSION_DETAILS_4@),
{
    let row = session_row(s);
    let id = nat_decimal(s.id as nat);
    let start = crate::time::utc_rfc3339(s.start_time.secs as int, s.start_time.nanos as int);
    let a = crate::markup::SESSION_ROW_0@ + id + crate::markup::SESSION_ROW_1@ + s.notify.text()
        + crate::markup::SESSION_ROW_2@ + crate::pages::notify_icon(s.notify);
    let part = SESSION_DETAILS_0@ + s.name@ + SESSION_DETAILS_1@;
    let b = row.subrange((a.len() + part.len()) as int, row.len() as int);
    assert(row =~= a + part + b);
    lemma_shows_middle(a, part, b);
    let a2 = a + part + start + crate::markup::SESSION_DETAILS_2@ + start;
    let part2 = SESSION_DETAILS_3@ + s.status.text() + SESSION_DETAILS_4@;
    let b2 = row.subrange((a2.len() + part2.len()) as int, row.len() as int);
    assert(row =~= a2 + part2 + b2);
    lemma_shows_middle(a2, part2, b2);
}

} // verus!
