//! The calendar messages: one block per race weekend, listing its sessions
//! as Discord timestamps, with finished sessions struck through.
use crate::model::{Session, Timestamp, Weekend};
use crate::text::{int_decimal, pad_left, push_i64, push_padded};
use crate::time::{now, utc_year, year_of};
use vstd::prelude::*;

verus! {

/// Number of weekends listed per calendar message.
pub const WEEKENDS_PER_MESSAGE: usize = 5;

/// A session is over once its start time plus its duration lies strictly
/// before `now`.
pub open spec fn session_ended(s: Session, now: Timestamp) -> bool {
    s.start_time.after_secs(s.duration as int).before(now)
}

/// The line for one session: its name right-aligned in ten columns and its
/// start as absolute and relative Discord timestamps; struck through when
/// the session is over.
pub open spec fn session_line(s: Session, now: Timestamp) -> Seq<char> {
    let ts = int_decimal(s.start_time.secs as int);
    let body = pad_left(s.name@, 10) + "`: <t:"@ + ts + ":F> (<t:"@ + ts;
    if session_ended(s, now) {
        "> ~~`"@ + body + ":R>)~~\n"@
    } else {
        "> `"@ + body + ":R>)\n"@
    }
}

/// The lines of all `sessions`, in order.
pub open spec fn session_lines(sessions: Seq<Session>, now: Timestamp) -> Seq<char>
    decreases sessions.len(),
{
    if sessions.len() == 0 {
        Seq::empty()
    } else {
        session_lines(sessions.drop_last(), now) + session_line(sessions.last(), now)
    }
}

/// `## <icon> <name>` on a line of its own.
pub open spec fn weekend_heading(w: Weekend) -> Seq<char> {
    "## "@ + w.icon@ + " "@ + w.name@ + "\n"@
}

/// The calendar block of one weekend.
pub open spec fn weekend_block(w: Weekend, sessions: Seq<Session>, now: Timestamp) -> Seq<char> {
    weekend_heading(w) + session_lines(sessions, now)
}

/// The sessions that belong to weekend `id`, in their original order.
pub open spec fn sessions_of(sessions: Seq<Session>, id: u64) -> Seq<Session>
    decreases sessions.len(),
{
    if sessions.len() == 0 {
        Seq::empty()
    } else if sessions.last().weekend_id == id as i64 {
        sessions_of(sessions.drop_last(), id).push(sessions.last())
    } else {
        sessions_of(sessions.drop_last(), id)
    }
}

/// The blocks of `weekends`, each with its own sessions out of `sessions`.
pub open spec fn weekend_blocks(weekends: Seq<Weekend>, sessions: Seq<Session>, now: Timestamp) -> Seq<char>
    decreases weekends.len(),
{
    if weekends.len() == 0 {
        Seq::empty()
    } else {
        weekend_blocks(weekends.drop_last(), sessions, now) + weekend_block(
            weekends.last(),
            sessions_of(sessions, weekends.last().id),
            now,
        )
    }
}

/// Heading of the first calendar message.
pub open spec fn calendar_title(year: int) -> Seq<char> {
    "# F1 "@ + int_decimal(year) + " Calendar\n\n"@
}

/// Content of calendar message number `num`: the title (first message
/// only), then the blocks of weekends `5 * num` up to `5 * num + 5`; a
/// placeholder once the weekends have run out.
pub open spec fn calendar_message(
    weekends: Seq<Weekend>,
    sessions: Seq<Session>,
    num: int,
    now: Timestamp,
    year: int,
) -> Seq<char> {
    let start = 5 * num;
    if start > weekends.len() {
        "-# reserved message"@
    } else {
        let end = if start + 5 < weekends.len() { start + 5 } else { weekends.len() as int };
        (if num == 0 { calendar_title(year) } else { Seq::empty() }) + weekend_blocks(
            weekends.subrange(start, end),
            sessions,
            now,
        )
    }
}

pub open spec fn deref_sessions(s: Seq<&Session>) -> Seq<Session> {
    s.map_values(|x: &Session| *x)
}

/// Appends the line of one session.
pub fn push_session_line(out: &mut String, session: &Session, now: &Timestamp)
    requires
        session.fits(),
    ensures
        final(out)@ == old(out)@ + session_line(*session, *now),
{
    let end = session.start_time.plus_secs(session.duration as i64);
    let ended = end.secs < now.secs || (end.secs == now.secs && end.nanos < now.nanos);
    let ts = session.start_time.timestamp();
    if ended {
        out.append("> ~~`");
    } else {
        out.append("> `");
    }
    push_padded(out, session.name.as_str(), 10);
    out.append("`: <t:");
    push_i64(out, ts);
    out.append(":F> (<t:");
    push_i64(out, ts);
    if ended {
        out.append(":R>)~~\n");
    } else {
        out.append(":R>)\n");
    }
    assert(final(out)@ =~= old(out)@ + session_line(*session, *now));
}

/// Appends the heading of a weekend.
pub fn push_weekend_heading(out: &mut String, weekend: &Weekend)
    ensures
        final(out)@ == old(out)@ + weekend_heading(*weekend),
{
    out.append("## ");
    out.append(weekend.icon.as_str());
    out.append(" ");
    out.append(weekend.name.as_str());
    out.append("\n");
    assert(final(out)@ =~= old(out)@ + weekend_heading(*weekend));
}

/// Appends the lines of all `sessions`.
pub fn push_session_lines(out: &mut String, sessions: &[Session], now: &Timestamp)
    requires
        forall|i: int| 0 <= i < sessions@.len() ==> (#[trigger] sessions@[i]).fits(),
    ensures
        final(out)@ == old(out)@ + session_lines(sessions@, *now),
{
    let mut i: usize = 0;
    while i < sessions.len()
        invariant
            i <= sessions@.len(),
            forall|i: int| 0 <= i < sessions@.len() ==> (#[trigger] sessions@[i]).fits(),
            out@ == old(out)@ + session_lines(sessions@.take(i as int), *now),
        decreases sessions.len() - i,
    {
        push_session_line(out, &sessions[i], now);
        assert(sessions@.take(i + 1).drop_last() =~= sessions@.take(i as int));
        i = i + 1;
        assert(out@ =~= old(out)@ + session_lines(sessions@.take(i as int), *now));
    }
    assert(sessions@.take(i as int) =~= sessions@);
}

/// Appends the calendar block of `weekend` with the given `sessions`, judging
/// which sessions are over at `now`.
pub fn message_calendar_at(
    weekend: &Weekend,
    sessions: &Vec<&Session>,
    out: &mut String,
    now: &Timestamp,
)
    requires
        forall|i: int| 0 <= i < sessions@.len() ==> (#[trigger] sessions@[i]).fits(),
    ensures
        final(out)@ == old(out)@ + weekend_block(*weekend, deref_sessions(sessions@), *now),
{
    push_weekend_heading(out, weekend);
    let ghost all = deref_sessions(sessions@);
    let mut i: usize = 0;
    while i < sessions.len()
        invariant
            i <= sessions@.len(),
            all == deref_sessions(sessions@),
            forall|i: int| 0 <= i < sessions@.len() ==> (#[trigger] sessions@[i]).fits(),
            out@ == old(out)@ + weekend_heading(*weekend) + session_lines(all.take(i as int), *now),
        decreases sessions.len() - i,
    {
        let s: &Session = sessions[i];
        push_session_line(out, s, now);
        assert(all.take(i + 1).drop_last() =~= all.take(i as int));
        assert(all.take(i + 1).last() == *s);
        i = i + 1;
        assert(out@ =~= old(out)@ + weekend_heading(*weekend) + session_lines(all.take(i as int), *now));
    }
    assert(all.take(i as int) =~= all);
    assert(final(out)@ =~= old(out)@ + weekend_block(*weekend, deref_sessions(sessions@), *now));
}

/// Appends the calendar block of `weekend` with the given `sessions`; the
/// sessions over by the current time are struck through.
pub fn message_calendar(
    weekend: &Weekend,
    sessions: &Vec<&Session>,
    str: &mut String,
) -> (r: Result<(), std::fmt::Error>)
    requires
        forall|i: int| 0 <= i < sessions@.len() ==> (#[trigger] sessions@[i]).fits(),
    ensures
        r is Ok,
        exists|t: Timestamp|
            t.wf() && final(str)@ == old(str)@ + #[trigger] weekend_block(
                *weekend,
                deref_sessions(sessions@),
                t,
            ),
{
    let t = now();
    message_calendar_at(weekend, sessions, str, &t);
    assert(final(str)@ == old(str)@ + weekend_block(*weekend, deref_sessions(sessions@), t));
    Ok(())
}

/// Collects the sessions of weekend `id`, keeping their order.
fn sessions_for(sessions: &[Session], id: u64) -> (r: Vec<&Session>)
    ensures
        deref_sessions(r@) == sessions_of(sessions@, id),
        forall|i: int| 0 <= i < r@.len() ==> sessions@.contains(*#[trigger] r@[i]),
{
    let mut r: Vec<&Session> = Vec::new();
    let key = id as i64;
    let mut j: usize = 0;
    while j < sessions.len()
        invariant
            j <= sessions@.len(),
            key == id as i64,
            deref_sessions(r@) == sessions_of(sessions@.take(j as int), id),
            forall|i: int| 0 <= i < r@.len() ==> sessions@.contains(*#[trigger] r@[i]),
        decreases sessions.len() - j,
    {
        let s: &Session = &sessions[j];
        assert(sessions@.take(j + 1).drop_last() =~= sessions@.take(j as int));
        if s.weekend_id == key {
            r.push(s);
            assert(deref_sessions(r@) =~= sessions_of(sessions@.take(j as int), id).push(*s));
        }
        proof {
            assert(sessions@.contains(sessions@[j as int]));
        }
        j = j + 1;
    }
    assert(sessions@.take(j as int) =~= sessions@);
    r
}

/// Content of calendar message `num` at instant `now` in year `year`; see
/// `calendar_message`.
pub fn make_calendar_message_string_at(
    weekends: &[Weekend],
    sessions: &[Session],
    num: usize,
    now: &Timestamp,
    year: i32,
) -> (r: String)
    requires
        num <= usize::MAX / 5,
        forall|i: int| 0 <= i < sessions@.len() ==> (#[trigger] sessions@[i]).fits(),
    ensures
        r@ == calendar_message(weekends@, sessions@, num as int, *now, year as int),
{
    let chunk_size = WEEKENDS_PER_MESSAGE;
    let start = chunk_size * num;
    if start > weekends.len() {
        let r = String::from_str("-# reserved message");
        return r;
    }
    let end = if weekends.len() - start > chunk_size { start + chunk_size } else { weekends.len() };
    let mut out = String::new();
    if num == 0 {
        out.append("# F1 ");
        push_i64(&mut out, year as i64);
        out.append(" Calendar\n\n");
    }
    let ghost head = out@;
    assert(head =~= (if num == 0 { calendar_title(year as int) } else { Seq::empty() }));
    let ghost chunk = weekends@.subrange(start as int, end as int);
    let mut k = start;
    while k < end
        invariant
            start <= k <= end <= weekends@.len(),
            chunk == weekends@.subrange(start as int, end as int),
            forall|i: int| 0 <= i < sessions@.len() ==> (#[trigger] sessions@[i]).fits(),
            out@ == head + weekend_blocks(chunk.take(k - start), sessions@, *now),
        decreases end - k,
    {
        let weekend = &weekends[k];
        let these = sessions_for(sessions, weekend.id);
        proof {
            assert forall|i: int| 0 <= i < these@.len() implies (#[trigger] these@[i]).fits() by {
                let x = *these@[i];
                assert(sessions@.contains(x));
            }
        }
        message_calendar_at(weekend, &these, &mut out, now);
        assert(chunk.take(k + 1 - start).drop_last() =~= chunk.take(k - start));
        assert(chunk.take(k + 1 - start).last() == *weekend);
        k = k + 1;
        assert(out@ =~= head + weekend_blocks(chunk.take(k - start), sessions@, *now));
    }
    assert(chunk.take(end - start) =~= chunk);
    out
}

/// Content of calendar message number `num`, in the current year, with the
/// sessions over by now struck through.
pub fn make_calendar_message_string(
    weekends: &[Weekend],
    sessions: &[Session],
    num: usize,
) -> (r: Result<String, std::fmt::Error>)
    requires
        num <= usize::MAX / 5,
        forall|i: int| 0 <= i < sessions@.len() ==> (#[trigger] sessions@[i]).fits(),
    ensures
        r matches Ok(s) && exists|t: Timestamp|
            t.wf() && s@ == #[trigger] calendar_message(
                weekends@,
                sessions@,
                num as int,
                t,
                utc_year(t.secs as int),
            ),
{
    let t = now();
    let year = year_of(&t);
    let s = make_calendar_message_string_at(weekends, sessions, num, &t, year);
    assert(s@ == calendar_message(weekends@, sessions@, num as int, t, utc_year(t.secs as int)));
    Ok(s)
}

} // verus!
