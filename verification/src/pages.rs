//! The rows of the event list and of the session list.
use crate::html::{fails_at, footer_markup, lemma_renders_rows, renders_all, rows_of, scripts_markup, session_list_head, HtmlBuilder};
use crate::icon::{code_cut_ok, code_of, listed_code, utf8};
use crate::markup::{
    ADD_EVENT_DIALOG, ADD_SESSION_DIALOG, EMPTY_SESSIONS, EVENT_LIST_HEAD, HEADER, HEAD_0, HEAD_1,
    LIST_END, MAIN_CLOSE, MAIN_OPEN_0, MAIN_OPEN_1, BELL_ICON, BELL_OFF_ICON, SESSION_DETAILS_0, SESSION_DETAILS_1, SESSION_DETAILS_10,
    SESSION_DETAILS_2, SESSION_DETAILS_3, SESSION_DETAILS_4, SESSION_DETAILS_5, SESSION_DETAILS_6,
    SESSION_DETAILS_7, SESSION_DETAILS_8, SESSION_DETAILS_9, SESSION_ROW_0, SESSION_ROW_1,
    SESSION_ROW_2, TURN_OFF_NOTIFICATIONS, TURN_ON_NOTIFICATIONS, WEEKEND_ROW_0, WEEKEND_ROW_1,
    WEEKEND_ROW_10, WEEKEND_ROW_11, WEEKEND_ROW_2, WEEKEND_ROW_3, WEEKEND_ROW_4, WEEKEND_ROW_5,
    WEEKEND_ROW_6, WEEKEND_ROW_7, WEEKEND_ROW_8, WEEKEND_ROW_9,
};
use crate::model::{Session, SessionNotifySettings, Weekend};
use crate::text::{decimal_u64, nat_decimal};
use vstd::prelude::*;
use crate::time::{format_utc, now, rfc3339, utc_format, utc_rfc3339, utc_year, year_of};
use crate::model::Timestamp;

verus! {

/// The icon of an event can be shown in the list: icons of nine bytes or
/// more can be cut at bytes 6 and 8.
pub open spec fn listable(w: Weekend) -> bool {
    &&& (utf8(w.icon@).len() >= 9 ==> code_cut_ok(w.icon@))
    &&& w.start_date.wf()
}

pub open spec fn weekend_row(w: Weekend) -> Seq<char> {
    let series = w.series.text();
    let status = w.status.text();
    WEEKEND_ROW_0@ + nat_decimal(w.id as nat) + WEEKEND_ROW_1@ + series + WEEKEND_ROW_2@ + status
        + WEEKEND_ROW_3@ + listed_code(w.icon@) + WEEKEND_ROW_4@ + w.name@ + WEEKEND_ROW_5@ + series
        + WEEKEND_ROW_6@ + series + WEEKEND_ROW_7@ + utc_rfc3339(
        w.start_date.secs as int,
        w.start_date.nanos as int,
    ) + WEEKEND_ROW_8@ + utc_format(w.start_date.secs as int, w.start_date.nanos as int, "%d-%m-%Y"@)
        + WEEKEND_ROW_9@ + status + WEEKEND_ROW_10@ + status + WEEKEND_ROW_11@
}

/// The country code shown for `icon`.
fn listed_code_of(icon: &str) -> (r: &str)
    requires
        utf8(icon@).len() >= 9 ==> code_cut_ok(icon@),
    ensures
        r@ == listed_code(icon@),
{
    if icon.as_bytes().len() < 9 {
        return "__";
    }
    let code = code_of(icon);
    if !code.is_ascii() {
        return "__";
    }
    code
}

/// One row of the event list.
pub fn weekend_format(html: HtmlBuilder, item: &Weekend) -> (r: Result<HtmlBuilder, std::fmt::Error>)
    requires
        listable(*item),
    ensures
        r matches Ok(b) && b@ == html@ + weekend_row(*item),
{
    let mut out = String::new();
    let id = decimal_u64(item.id);
    let series = item.series.as_str();
    let status = item.status.as_str();
    let date_utc = rfc3339(&item.start_date);
    let date_display = format_utc(&item.start_date, "%d-%m-%Y");
    out.append(WEEKEND_ROW_0);
    out.append(id.as_str());
    out.append(WEEKEND_ROW_1);
    out.append(series);
    out.append(WEEKEND_ROW_2);
    out.append(status);
    out.append(WEEKEND_ROW_3);
    out.append(listed_code_of(item.icon.as_str()));
    out.append(WEEKEND_ROW_4);
    out.append(item.name.as_str());
    out.append(WEEKEND_ROW_5);
    out.append(series);
    out.append(WEEKEND_ROW_6);
    out.append(series);
    out.append(WEEKEND_ROW_7);
    out.append(date_utc.as_str());
    out.append(WEEKEND_ROW_8);
    out.append(date_display.as_str());
    out.append(WEEKEND_ROW_9);
    out.append(status);
    out.append(WEEKEND_ROW_10);
    out.append(status);
    out.append(WEEKEND_ROW_11);
    assert(out@ =~= weekend_row(*item));
    let mut b = html;
    let _ = b.write_str(out.as_str());
    Ok(b)
}

pub open spec fn notify_icon(n: SessionNotifySettings) -> Seq<char> {
    match n {
        SessionNotifySettings::Notify => BELL_ICON@,
        SessionNotifySettings::Ignore => BELL_OFF_ICON@,
    }
}

/// The action offered: the opposite of the current setting.
pub open spec fn toggle_action(n: SessionNotifySettings) -> Seq<char> {
    match n {
        SessionNotifySettings::Notify => "ignore_session"@,
        SessionNotifySettings::Ignore => "notify_session"@,
    }
}

pub open spec fn toggle_text(n: SessionNotifySettings) -> Seq<char> {
    match n {
        SessionNotifySettings::Notify => TURN_OFF_NOTIFICATIONS@,
        SessionNotifySettings::Ignore => TURN_ON_NOTIFICATIONS@,
    }
}

pub open spec fn session_row(s: Session) -> Seq<char> {
    let id = nat_decimal(s.id as nat);
    let start = utc_rfc3339(s.start_time.secs as int, s.start_time.nanos as int);
    let status = s.status.text();
    SESSION_ROW_0@ + id + SESSION_ROW_1@ + s.notify.text() + SESSION_ROW_2@ + notify_icon(s.notify)
        + SESSION_DETAILS_0@ + s.name@ + SESSION_DETAILS_1@ + start + SESSION_DETAILS_2@ + start
        + SESSION_DETAILS_3@ + status + SESSION_DETAILS_4@ + status + SESSION_DETAILS_5@ + id
        + SESSION_DETAILS_6@ + toggle_action(s.notify) + SESSION_DETAILS_7@ + id + SESSION_DETAILS_8@
        + toggle_text(s.notify) + SESSION_DETAILS_9@ + id + SESSION_DETAILS_10@
}

/// One row of the session list.
pub fn per_session(html: HtmlBuilder, item: &Session) -> (r: Result<HtmlBuilder, std::fmt::Error>)
    requires
        item.start_time.wf(),
    ensures
        r matches Ok(b) && b@ == html@ + session_row(*item),
{
    let mut out = String::new();
    let id = decimal_u64(item.id);
    let notify = item.notify.as_str();
    let status = item.status.as_str();
    let start = rfc3339(&item.start_time);
    let (icon, action, text) = match item.notify {
        SessionNotifySettings::Notify => (BELL_ICON, "ignore_session", TURN_OFF_NOTIFICATIONS),
        SessionNotifySettings::Ignore => (BELL_OFF_ICON, "notify_session", TURN_ON_NOTIFICATIONS),
    };
    out.append(SESSION_ROW_0);
    out.append(id.as_str());
    out.append(SESSION_ROW_1);
    out.append(notify);
    out.append(SESSION_ROW_2);
    out.append(icon);
    out.append(SESSION_DETAILS_0);
    out.append(item.name.as_str());
    out.append(SESSION_DETAILS_1);
    out.append(start.as_str());
    out.append(SESSION_DETAILS_2);
    out.append(start.as_str());
    out.append(SESSION_DETAILS_3);
    out.append(status);
    out.append(SESSION_DETAILS_4);
    out.append(status);
    out.append(SESSION_DETAILS_5);
    out.append(id.as_str());
    out.append(SESSION_DETAILS_6);
    out.append(action);
    out.append(SESSION_DETAILS_7);
    out.append(id.as_str());
    out.append(SESSION_DETAILS_8);
    out.append(text);
    out.append(SESSION_DETAILS_9);
    out.append(id.as_str());
    out.append(SESSION_DETAILS_10);
    assert(out@ =~= session_row(*item));
    let mut b = html;
    let _ = b.write_str(out.as_str());
    Ok(b)
}

/// The rows of `weekends`, in order.
pub open spec fn weekend_rows(weekends: Seq<Weekend>) -> Seq<char> {
    rows_of(weekends, |w: Weekend| weekend_row(w))
}

/// The rows of `sessions`, in order.
pub open spec fn session_rows(sessions: Seq<Session>) -> Seq<char> {
    rows_of(sessions, |s: Session| session_row(s))
}

pub open spec fn home_main_classes() -> Seq<char> {
    "row gap-2 flex-1 content-width"@
}

/// The home page: head, header, the event list with the session pane, the
/// dialogs, the script and the footer of `year`.
pub open spec fn home_markup(weekends: Seq<Weekend>, year: int) -> Seq<char> {
    HEAD_0@ + "Home"@ + HEAD_1@ + HEADER@ + MAIN_OPEN_0@ + home_main_classes() + MAIN_OPEN_1@
        + EVENT_LIST_HEAD@ + weekend_rows(weekends) + LIST_END@ + EMPTY_SESSIONS@ + MAIN_CLOSE@
        + ADD_EVENT_DIALOG@ + ADD_SESSION_DIALOG@ + scripts_markup(seq!["dash"]) + footer_markup(year)
}

/// The home page listing `weekends`, with the footer of the year `year`.
pub fn home_page_at(weekends: &[Weekend], year: i32) -> (r: Result<HtmlBuilder, std::fmt::Error>)
    requires
        forall|i: int| 0 <= i < weekends@.len() ==> listable(#[trigger] weekends@[i]),
    ensures
        r matches Ok(b) && b@ == home_markup(weekends@, year as int),
{
    let b = HtmlBuilder::new().head("Home")?.header()?;
    let ghost before_main = b;
    let content = |inner: HtmlBuilder| -> (r: Result<HtmlBuilder, std::fmt::Error>)
        requires
            forall|i: int| 0 <= i < weekends@.len() ==> listable(#[trigger] weekends@[i]),
        ensures
            r matches Ok(x) && x@ == inner@ + EVENT_LIST_HEAD@ + weekend_rows(weekends@) + LIST_END@
                + EMPTY_SESSIONS@,
        {
            let listed = inner.event_list(weekends, weekend_format);
            match listed {
                Ok(l) => {
                    proof {
                        let (start, items) = choose|start: HtmlBuilder, items: HtmlBuilder|
                            start@ == inner@ + EVENT_LIST_HEAD@ && #[trigger] renders_all(
                                weekend_format,
                                weekends@,
                                start,
                                items,
                            ) && l@ == items@ + LIST_END@;
                        lemma_renders_rows(weekend_format, |w: Weekend| weekend_row(w), weekends@, start, items);
                    }
                    l.empty_sessions()
                },
                Err(e) => {
                    proof {
                        let start = choose|start: HtmlBuilder|
                            start@ == inner@ + EVENT_LIST_HEAD@ && #[trigger] fails_at(
                                weekend_format,
                                weekends@,
                                start,
                                e,
                            );
                        let (k, mid) = choose|k: int, mid: HtmlBuilder|
                            0 <= k < weekends@.len() && renders_all(
                                weekend_format,
                                weekends@.take(k),
                                start,
                                mid,
                            ) && #[trigger] call_ensures(weekend_format, (mid, &weekends@[k]), Err(e));
                        assert(listable(weekends@[k]));
                        assert(false);
                    }
                    Err(e)
                },
            }
        };
    let b = match b.main(Some("row gap-2 flex-1 content-width"), content) {
        Ok(m) => {
            proof {
                let (start, inner) = choose|start: HtmlBuilder, inner: HtmlBuilder|
                    start@ == before_main@ + MAIN_OPEN_0@ + home_main_classes() + MAIN_OPEN_1@
                        && #[trigger] call_ensures(content, (start,), Ok(inner)) && m@ == inner@
                        + MAIN_CLOSE@;
                assert(inner@ == start@ + EVENT_LIST_HEAD@ + weekend_rows(weekends@) + LIST_END@
                    + EMPTY_SESSIONS@);
            }
            m
        },
        Err(e) => {
            return Err(e);
        },
    };
    let ghost after_main = b;
    let b = b.add_event()?.add_session()?;
    assert(b@ == after_main@ + ADD_EVENT_DIALOG@ + ADD_SESSION_DIALOG@);
    let ghost before_scripts = b;
    let names: [&str; 1] = ["dash"];
    let b = b.scripts(names.as_slice())?;
    assert(names@ =~= seq!["dash"]);
    assert(b@ == before_scripts@ + scripts_markup(seq!["dash"]));
    let b = b.footer_at(year)?;
    assert(b@ =~= home_markup(weekends@, year as int));
    Ok(b)
}

/// The home page listing `weekends`, with the footer of the current year.
pub fn home_page(weekends: &[Weekend]) -> (r: Result<HtmlBuilder, std::fmt::Error>)
    requires
        forall|i: int| 0 <= i < weekends@.len() ==> listable(#[trigger] weekends@[i]),
    ensures
        r matches Ok(b) && exists|t: Timestamp|
            t.wf() && b@ == #[trigger] home_markup(weekends@, utc_year(t.secs as int)),
{
    let t = now();
    let year = year_of(&t);
    let r = home_page_at(weekends, year);
    assert(home_markup(weekends@, year as int) == home_markup(weekends@, utc_year(t.secs as int)));
    r
}

/// The session pane of `weekend`: its heading, then one row per session.
pub fn sessions_page(weekend: &Weekend, sessions: &[Session]) -> (r: Result<HtmlBuilder, std::fmt::Error>)
    requires
        forall|i: int| 0 <= i < sessions@.len() ==> (#[trigger] sessions@[i]).start_time.wf(),
    ensures
        r matches Ok(b) && b@ == session_list_head(*weekend, sessions@.len() == 0) + session_rows(
            sessions@,
        ) + LIST_END@,
{
    let html = HtmlBuilder::with_capacity(1024);
    match html.session_list(weekend, sessions, per_session) {
        Ok(b) => {
            proof {
                let (start, items) = choose|start: HtmlBuilder, items: HtmlBuilder|
                    start@ == html@ + session_list_head(*weekend, sessions@.len() == 0)
                        && #[trigger] renders_all(per_session, sessions@, start, items) && b@
                        == items@ + LIST_END@;
                lemma_renders_rows(per_session, |s: Session| session_row(s), sessions@, start, items);
            }
            Ok(b)
        },
        Err(e) => {
            proof {
                let start = choose|start: HtmlBuilder|
                    start@ == html@ + session_list_head(*weekend, sessions@.len() == 0)
                        && #[trigger] fails_at(per_session, sessions@, start, e);
                let (k, mid) = choose|k: int, mid: HtmlBuilder|
                    0 <= k < sessions@.len() && renders_all(per_session, sessions@.take(k), start, mid)
                        && #[trigger] call_ensures(per_session, (mid, &sessions@[k]), Err(e));
            }
            Err(e)
        },
    }
}

} // verus!
