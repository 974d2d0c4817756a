//! Checks and values of the edit routes of the web interface.
use crate::icon::{code_cut_ok, flag_icon, icon_code, law_flag_icon_round_trip, listed_code, utf8};
use vstd::prelude::*;
use vstd::utf8::is_ascii_chars;

verus! {

/// Status of an event as submitted by the event form.
#[derive(Clone, Copy, Debug, PartialEq, Eq, Structural)]
pub enum EventStatus {
    Open,
    Done,
}

impl EventStatus {
    pub open spec fn text(self) -> Seq<char> {
        match self {
            EventStatus::Open => "Open"@,
            EventStatus::Done => "Done"@,
        }
    }

    /// The text stored for the status.
    pub fn into_value(self) -> (r: String)
        ensures
            r@ == self.text(),
    {
        match self {
            EventStatus::Open => String::from_str("Open"),
            EventStatus::Done => String::from_str("Done"),
        }
    }
}

/// Field the icon problems are reported for.
pub const ICON_FIELD: &'static str = "icon";

pub open spec fn icon_update_problem(icon: Seq<char>) -> Option<Seq<char>> {
    if is_ascii_chars(icon) && utf8(icon).len() == 2 {
        None
    } else {
        Some("Icon needs to be ASCII only and 2 characters."@)
    }
}

/// The problem with an icon submitted for an existing event, if any: it
/// must be two ASCII characters.
pub fn update_event_icon_problem(icon: &str) -> (r: Option<&'static str>)
    ensures
        match r {
            Some(m) => icon_update_problem(icon@) == Some(m@),
            None => icon_update_problem(icon@) is None,
        },
{
    if !icon.is_ascii() || icon.as_bytes().len() != 2 {
        Some("Icon needs to be ASCII only and 2 characters.")
    } else {
        None
    }
}

/// The problem with an icon submitted for a new event, if any: it must be
/// ASCII.
pub fn new_weekend_icon_problem(icon: &str) -> (r: Option<&'static str>)
    ensures
        r is None <==> is_ascii_chars(icon@),
        r matches Some(m) ==> m@ == "Icon needs to be ASCII only"@,
{
    if !icon.is_ascii() {
        Some("Icon needs to be ASCII only")
    } else {
        None
    }
}

/// An icon accepted for an existing event is stored as `:flag_<icon>:` and
/// shows up unchanged in the event list and in the edit dialog.
pub proof fn law_accepted_icon_round_trip(icon: Seq<char>)
    requires
        icon_update_problem(icon) is None,
    ensures
        code_cut_ok(flag_icon(icon)),
        icon_code(flag_icon(icon)) == icon,
        listed_code(flag_icon(icon)) == icon,
{
    vstd::utf8::is_ascii_chars_encode_utf8(icon);
    law_flag_icon_round_trip(icon);
}

/// Answer to deleting an event: 404 when no row was deleted, else 204.
pub fn delete_event_status(rows: u64) -> (r: u16)
    ensures
        r == (if rows == 0 { 404u16 } else { 204u16 }),
{
    if rows == 0 {
        404
    } else {
        204
    }
}

} // verus!
