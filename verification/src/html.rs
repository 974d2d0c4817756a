//! A builder for the HTML pages of the web interface. Every block only
//! appends to what was written before.
use crate::icon::{code_cut_ok, code_of, icon_code};
use crate::markup::{
    ADD_EVENT_DIALOG, ADD_SESSION_DIALOG, EDIT_EVENT_0, EDIT_EVENT_1, EDIT_EVENT_10, EDIT_EVENT_2, EDIT_EVENT_3, EDIT_EVENT_4, EDIT_EVENT_5, EDIT_EVENT_6, EDIT_EVENT_7, EDIT_EVENT_8, EDIT_EVENT_9, EDIT_SESSION_0, EDIT_SESSION_1, EDIT_SESSION_10, EDIT_SESSION_2, EDIT_SESSION_3, EDIT_SESSION_4, EDIT_SESSION_5, EDIT_SESSION_6, EDIT_SESSION_7, EDIT_SESSION_8, EDIT_SESSION_9, EMPTY_SESSIONS, EVENT_LIST_HEAD, FOOTER_0, FOOTER_1, HEADER, HEAD_0, HEAD_1, LIST_END, MAIN_CLOSE, MAIN_OPEN_0, MAIN_OPEN_1, NO_SESSIONS_NOTE, SCRIPT_0, SCRIPT_1, SESSION_LIST_0, SESSION_LIST_1, SESSION_LIST_2,
};
use crate::model::{Session, Timestamp, Weekend};
use crate::text::{int_decimal, nat_decimal, push_i64, push_u64};
use crate::time::{format_utc, now, rfc3339, utc_format, utc_rfc3339, utc_year, year_of};
use vstd::prelude::*;

verus! {

/// `String::with_capacity`: an empty string with room for `cap` bytes.
#[verifier::external_body]
fn string_with_capacity(cap: usize) -> (s: String)
    ensures
        s@ == Seq::<char>::empty(),
{
    String::with_capacity(cap)
}

/// HTML text under construction.
pub struct HtmlBuilder(String);

impl View for HtmlBuilder {
    type V = Seq<char>;

    closed spec fn view(&self) -> Seq<char> {
        self.0@
    }
}

/// `f` turns the builder `from` into `to` by rendering `items` one after the
/// other, each call succeeding.
pub open spec fn renders_all<T, F: Fn(HtmlBuilder, &T) -> Result<HtmlBuilder, std::fmt::Error>>(
    f: F,
    items: Seq<T>,
    from: HtmlBuilder,
    to: HtmlBuilder,
) -> bool
    decreases items.len(),
{
    if items.len() == 0 {
        from == to
    } else {
        exists|mid: HtmlBuilder|
            renders_all(f, items.drop_last(), from, mid) && #[trigger] call_ensures(
                f,
                (mid, &items.last()),
                Ok(to),
            )
    }
}

/// `f` renders the first `k` items into `mid` and then fails on item `k`
/// with `e`.
pub open spec fn fails_at<T, F: Fn(HtmlBuilder, &T) -> Result<HtmlBuilder, std::fmt::Error>>(
    f: F,
    items: Seq<T>,
    from: HtmlBuilder,
    e: std::fmt::Error,
) -> bool {
    exists|k: int, mid: HtmlBuilder|
        0 <= k < items.len() && renders_all(f, items.take(k), from, mid) && #[trigger] call_ensures(
            f,
            (mid, &items[k]),
            Err(e),
        )
}

/// The text of `items` rendered one after the other by `row`.
pub open spec fn rows_of<T>(items: Seq<T>, row: spec_fn(T) -> Seq<char>) -> Seq<char>
    decreases items.len(),
{
    if items.len() == 0 {
        Seq::empty()
    } else {
        rows_of(items.drop_last(), row) + row(items.last())
    }
}

/// Where each successful call of `f` appends `row` of its item, rendering
/// `items` appends their rows in order.
pub proof fn lemma_renders_rows<T, F: Fn(HtmlBuilder, &T) -> Result<HtmlBuilder, std::fmt::Error>>(
    f: F,
    row: spec_fn(T) -> Seq<char>,
    items: Seq<T>,
    from: HtmlBuilder,
    to: HtmlBuilder,
)
    requires
        renders_all(f, items, from, to),
        forall|b: HtmlBuilder, x: T, o: HtmlBuilder|
            #[trigger] call_ensures(f, (b, &x), Ok(o)) ==> o@ == b@ + row(x),
    ensures
        to@ == from@ + rows_of(items, row),
    decreases items.len(),
{
    if items.len() == 0 {
        assert(to@ =~= from@ + rows_of(items, row));
    } else {
        let mid = choose|mid: HtmlBuilder|
            renders_all(f, items.drop_last(), from, mid) && #[trigger] call_ensures(
                f,
                (mid, &items.last()),
                Ok(to),
            );
        lemma_renders_rows(f, row, items.drop_last(), from, mid);
        assert(to@ =~= from@ + rows_of(items, row));
    }
}

pub open spec fn scripts_markup(list: Seq<&str>) -> Seq<char>
    decreases list.len(),
{
    if list.len() == 0 {
        Seq::empty()
    } else {
        scripts_markup(list.drop_last()) + SCRIPT_0@ + list.last()@ + SCRIPT_1@
    }
}

pub open spec fn edit_event_markup(w: Weekend) -> Seq<char> {
    let series = w.series.text();
    let status = w.status.text();
    EDIT_EVENT_0@ + nat_decimal(w.id as nat) + EDIT_EVENT_1@ + w.name@ + EDIT_EVENT_2@ + icon_code(w.icon@)
        + EDIT_EVENT_3@ + series + EDIT_EVENT_4@ + series + EDIT_EVENT_5@ + series + EDIT_EVENT_6@
        + utc_format(w.start_date.secs as int, w.start_date.nanos as int, "%Y-%m-%d"@) + EDIT_EVENT_7@
        + status + EDIT_EVENT_8@ + status + EDIT_EVENT_9@ + status + EDIT_EVENT_10@
}

pub open spec fn edit_session_markup(s: Session) -> Seq<char> {
    let status = s.status.text();
    let notify = s.notify.text();
    EDIT_SESSION_0@ + nat_decimal(s.id as nat) + EDIT_SESSION_1@ + s.name@ + EDIT_SESSION_2@
        + utc_rfc3339(s.start_time.secs as int, s.start_time.nanos as int) + EDIT_SESSION_3@
        + utc_format(s.start_time.secs as int, s.start_time.nanos as int, "%Y-%m-%dT%H:%M"@)
        + EDIT_SESSION_4@ + status + EDIT_SESSION_5@ + status + EDIT_SESSION_6@ + status
        + EDIT_SESSION_7@ + notify + EDIT_SESSION_8@ + notify + EDIT_SESSION_9@ + notify
        + EDIT_SESSION_10@
}

pub open spec fn footer_markup(year: int) -> Seq<char> {
    FOOTER_0@ + int_decimal(year) + FOOTER_1@
}

pub open spec fn session_list_head(event: Weekend, empty: bool) -> Seq<char> {
    SESSION_LIST_0@ + event.series.text() + SESSION_LIST_1@ + event.name@ + SESSION_LIST_2@ + (if empty {
        NO_SESSIONS_NOTE@
    } else {
        Seq::empty()
    })
}

impl HtmlBuilder {
    pub fn new() -> (r: Self)
        ensures
            r@ == Seq::<char>::empty(),
    {
        HtmlBuilder(String::new())
    }

    pub fn with_capacity(cap: usize) -> (r: Self)
        ensures
            r@ == Seq::<char>::empty(),
    {
        HtmlBuilder(string_with_capacity(cap))
    }

    /// Appends `s` verbatim.
    pub fn write_str(&mut self, s: &str) -> (r: Result<(), std::fmt::Error>)
        ensures
            r is Ok,
            final(self)@ == old(self)@ + s@,
    {
        self.0.append(s);
        Ok(())
    }

    /// The HTML text written so far.
    pub fn into_string(self) -> (r: String)
        ensures
            r@ == self@,
    {
        self.0
    }

    pub fn add_event(self) -> (r: Result<Self, std::fmt::Error>)
        ensures
            r matches Ok(b) && b@ == self@ + ADD_EVENT_DIALOG@,
    {
        let mut b = self;
        b.0.append(ADD_EVENT_DIALOG);
        Ok(b)
    }

    pub fn add_session(self) -> (r: Result<Self, std::fmt::Error>)
        ensures
            r matches Ok(b) && b@ == self@ + ADD_SESSION_DIALOG@,
    {
        let mut b = self;
        b.0.append(ADD_SESSION_DIALOG);
        Ok(b)
    }

    pub fn header(self) -> (r: Result<Self, std::fmt::Error>)
        ensures
            r matches Ok(b) && b@ == self@ + HEADER@,
    {
        let mut b = self;
        b.0.append(HEADER);
        Ok(b)
    }

    pub fn empty_sessions(self) -> (r: Result<Self, std::fmt::Error>)
        ensures
            r matches Ok(b) && b@ == self@ + EMPTY_SESSIONS@,
    {
        let mut b = self;
        b.0.append(EMPTY_SESSIONS);
        Ok(b)
    }

    /// Document head with the page title `F1 Notifications Bot | <title>`.
    pub fn head(self, title: &str) -> (r: Result<Self, std::fmt::Error>)
        ensures
            r matches Ok(b) && b@ == self@ + HEAD_0@ + title@ + HEAD_1@,
    {
        let mut b = self;
        b.0.append(HEAD_0);
        b.0.append(title);
        b.0.append(HEAD_1);
        Ok(b)
    }

    /// One script include per name, in order.
    pub fn scripts(self, list: &[&str]) -> (r: Result<Self, std::fmt::Error>)
        ensures
            r matches Ok(b) && b@ == self@ + scripts_markup(list@),
    {
        let mut b = self;
        let mut i: usize = 0;
        while i < list.len()
            invariant
                i <= list@.len(),
                b@ == self@ + scripts_markup(list@.take(i as int)),
            decreases list.len() - i,
        {
            b.0.append(SCRIPT_0);
            b.0.append(list[i]);
            b.0.append(SCRIPT_1);
            assert(list@.take(i + 1).drop_last() =~= list@.take(i as int));
            i = i + 1;
            assert(b@ =~= self@ + scripts_markup(list@.take(i as int)));
        }
        assert(list@.take(i as int) =~= list@);
        Ok(b)
    }

    /// Footer naming the year `year`.
    pub fn footer_at(self, year: i32) -> (r: Result<Self, std::fmt::Error>)
        ensures
            r matches Ok(b) && b@ == self@ + footer_markup(year as int),
    {
        let mut b = self;
        b.0.append(FOOTER_0);
        push_i64(&mut b.0, year as i64);
        b.0.append(FOOTER_1);
        assert(b@ =~= self@ + footer_markup(year as int));
        Ok(b)
    }

    /// Footer naming the current year; closes the document.
    pub fn footer(self) -> (r: Result<Self, std::fmt::Error>)
        ensures
            r matches Ok(b) && exists|t: Timestamp|
                t.wf() && b@ == self@ + #[trigger] footer_markup(utc_year(t.secs as int)),
    {
        let t = now();
        let year = year_of(&t);
        let r = self.footer_at(year);
        assert(footer_markup(year as int) == footer_markup(utc_year(t.secs as int)));
        r
    }

    /// Dialog for editing `weekend`, filled with its values.
    #[verifier::rlimit(40)]
    pub fn edit_event(self, weekend: &Weekend) -> (r: Result<Self, std::fmt::Error>)
        requires
            code_cut_ok(weekend.icon@),
            weekend.start_date.wf(),
        ensures
            r matches Ok(b) && b@ == self@ + edit_event_markup(*weekend),
    {
        let mut b = self;
        let series = weekend.series.as_str();
        let status = weekend.status.as_str();
        b.0.append(EDIT_EVENT_0);
        push_u64(&mut b.0, weekend.id);
        b.0.append(EDIT_EVENT_1);
        b.0.append(weekend.name.as_str());
        b.0.append(EDIT_EVENT_2);
        b.0.append(code_of(weekend.icon.as_str()));
        b.0.append(EDIT_EVENT_3);
        b.0.append(series);
        b.0.append(EDIT_EVENT_4);
        b.0.append(series);
        b.0.append(EDIT_EVENT_5);
        b.0.append(series);
        b.0.append(EDIT_EVENT_6);
        let date = format_utc(&weekend.start_date, "%Y-%m-%d");
        b.0.append(date.as_str());
        b.0.append(EDIT_EVENT_7);
        b.0.append(status);
        b.0.append(EDIT_EVENT_8);
        b.0.append(status);
        b.0.append(EDIT_EVENT_9);
        b.0.append(status);
        b.0.append(EDIT_EVENT_10);
        assert(b@ =~= self@ + edit_event_markup(*weekend));
        Ok(b)
    }

    /// Dialog for editing `session`, filled with its values.
    pub fn edit_session(self, session: &Session) -> (r: Result<Self, std::fmt::Error>)
        requires
            session.start_time.wf(),
        ensures
            r matches Ok(b) && b@ == self@ + edit_session_markup(*session),
    {
        let mut b = self;
        let status = session.status.as_str();
        let notify = session.notify.as_str();
        b.0.append(EDIT_SESSION_0);
        push_u64(&mut b.0, session.id);
        b.0.append(EDIT_SESSION_1);
        b.0.append(session.name.as_str());
        b.0.append(EDIT_SESSION_2);
        let utc = rfc3339(&session.start_time);
        b.0.append(utc.as_str());
        b.0.append(EDIT_SESSION_3);
        let local = format_utc(&session.start_time, "%Y-%m-%dT%H:%M");
        b.0.append(local.as_str());
        b.0.append(EDIT_SESSION_4);
        b.0.append(status);
        b.0.append(EDIT_SESSION_5);
        b.0.append(status);
        b.0.append(EDIT_SESSION_6);
        b.0.append(status);
        b.0.append(EDIT_SESSION_7);
        b.0.append(notify);
        b.0.append(EDIT_SESSION_8);
        b.0.append(notify);
        b.0.append(EDIT_SESSION_9);
        b.0.append(notify);
        b.0.append(EDIT_SESSION_10);
        assert(b@ =~= self@ + edit_session_markup(*session));
        Ok(b)
    }

    /// Renders `list` with `f`, one item after the other; stops at the first
    /// failure.
    fn render_each<T, F>(self, list: &[T], f: F) -> (r: Result<Self, std::fmt::Error>)
        where
            F: Fn(HtmlBuilder, &T) -> Result<HtmlBuilder, std::fmt::Error>,
        requires
            forall|i: int, b: HtmlBuilder| 0 <= i < list@.len() ==> call_requires(f, (b, &list@[i])),
        ensures
            match r {
                Ok(b) => renders_all(f, list@, self, b),
                Err(e) => fails_at(f, list@, self, e),
            },
    {
        let ghost start = self;
        let mut b = self;
        let mut i: usize = 0;
        while i < list.len()
            invariant
                i <= list@.len(),
                forall|i: int, b: HtmlBuilder| 0 <= i < list@.len() ==> call_requires(f, (b, &list@[i])),
                renders_all(f, list@.take(i as int), start, b),
                start == self,
            decreases list.len() - i,
        {
            let ghost before = b;
            match f(b, &list[i]) {
                Ok(next) => {
                    b = next;
                    assert(list@.take(i + 1).drop_last() =~= list@.take(i as int));
                    assert(list@.take(i + 1).last() == list@[i as int]);
                    assert(renders_all(f, list@.take(i + 1), start, b));
                },
                Err(e) => {
                    assert(fails_at(f, list@, start, e));
                    return Err(e);
                },
            }
            i = i + 1;
        }
        assert(list@.take(i as int) =~= list@);
        Ok(b)
    }

    /// The event list: its heading and filters, then each item rendered by
    /// `for_weekend`, then the list's end.
    pub fn event_list<T, F>(self, list: &[T], for_weekend: F) -> (r: Result<Self, std::fmt::Error>)
        where
            F: Fn(HtmlBuilder, &T) -> Result<HtmlBuilder, std::fmt::Error>,
        requires
            forall|i: int, b: HtmlBuilder|
                0 <= i < list@.len() ==> call_requires(for_weekend, (b, &list@[i])),
        ensures
            match r {
                Ok(b) => exists|start: HtmlBuilder, items: HtmlBuilder|
                    start@ == self@ + EVENT_LIST_HEAD@ && #[trigger] renders_all(
                        for_weekend,
                        list@,
                        start,
                        items,
                    ) && b@ == items@ + LIST_END@,
                Err(e) => exists|start: HtmlBuilder|
                    start@ == self@ + EVENT_LIST_HEAD@ && #[trigger] fails_at(
                        for_weekend,
                        list@,
                        start,
                        e,
                    ),
            },
    {
        let mut b = self;
        b.0.append(EVENT_LIST_HEAD);
        let ghost start = b;
        let mut items = b.render_each(list, for_weekend)?;
        let ghost rendered = items;
        items.0.append(LIST_END);
        assert(renders_all(for_weekend, list@, start, rendered));
        Ok(items)
    }

    /// The session list of `event`: its heading, a note when `list` is
    /// empty, each item rendered by `for_session`, then the list's end.
    pub fn session_list<T, F>(self, event: &Weekend, list: &[T], for_session: F) -> (r: Result<
        Self,
        std::fmt::Error,
    >)
        where
            F: Fn(HtmlBuilder, &T) -> Result<HtmlBuilder, std::fmt::Error>,
        requires
            forall|i: int, b: HtmlBuilder|
                0 <= i < list@.len() ==> call_requires(for_session, (b, &list@[i])),
        ensures
            match r {
                Ok(b) => exists|start: HtmlBuilder, items: HtmlBuilder|
                    start@ == self@ + session_list_head(*event, list@.len() == 0)
                        && #[trigger] renders_all(for_session, list@, start, items) && b@ == items@
                        + LIST_END@,
                Err(e) => exists|start: HtmlBuilder|
                    start@ == self@ + session_list_head(*event, list@.len() == 0)
                        && #[trigger] fails_at(for_session, list@, start, e),
            },
    {
        let mut b = self;
        b.0.append(SESSION_LIST_0);
        b.0.append(event.series.as_str());
        b.0.append(SESSION_LIST_1);
        b.0.append(event.name.as_str());
        b.0.append(SESSION_LIST_2);
        if list.len() == 0 {
            b.0.append(NO_SESSIONS_NOTE);
        }
        assert(b@ =~= self@ + session_list_head(*event, list@.len() == 0));
        let ghost start = b;
        let mut items = b.render_each(list, for_session)?;
        let ghost rendered = items;
        items.0.append(LIST_END);
        assert(renders_all(for_session, list@, start, rendered));
        Ok(items)
    }

    /// The main element with the given classes (none when `None`), its
    /// content written by `content`.
    pub fn main<F>(self, classes: Option<&str>, content: F) -> (r: Result<Self, std::fmt::Error>)
        where
            F: FnOnce(HtmlBuilder) -> Result<HtmlBuilder, std::fmt::Error>,
        requires
            forall|b: HtmlBuilder| call_requires(content, (b,)),
        ensures
            ({
                let class_text = match classes {
                    Some(c) => c@,
                    None => Seq::empty(),
                };
                match r {
                    Ok(b) => exists|start: HtmlBuilder, inner: HtmlBuilder|
                        start@ == self@ + MAIN_OPEN_0@ + class_text + MAIN_OPEN_1@
                            && #[trigger] call_ensures(content, (start,), Ok(inner)) && b@ == inner@
                            + MAIN_CLOSE@,
                    Err(e) => exists|start: HtmlBuilder|
                        start@ == self@ + MAIN_OPEN_0@ + class_text + MAIN_OPEN_1@
                            && #[trigger] call_ensures(content, (start,), Err(e)),
                }
            }),
    {
        let mut b = self;
        b.0.append(MAIN_OPEN_0);
        match classes {
            Some(c) => b.0.append(c),
            None => {},
        }
        b.0.append(MAIN_OPEN_1);
        let ghost start = b;
        let mut inner = content(b)?;
        let ghost written = inner;
        inner.0.append(MAIN_CLOSE);
        assert(call_ensures(content, (start,), Ok(written)));
        Ok(inner)
    }
}

} // verus!
