//! The fixed parts of the HTML of the web interface.
use vstd::prelude::*;

verus! {

/// Dialog for creating a new event.
pub const ADD_EVENT_DIALOG: &'static str = r#"<div id="backdrop" class="backdrop"></div>
<div class="dialog" id="add-event-dialog">
<div class="col p-6 dialog-content"><form id="create-new-event-form">
<h1>Add new Event</h1>
<div class="form-group"><label for="event_title">Event Name</label>
<input type="text" name="name" required id="event_title" placeholder="Monaco Grand Prix"/></div>
<div class="row gap-1">
<div class="form-group flex-1"><label for="icon">Icon (country code)</label>
<input type="text" name="icon" minlength="2" maxlength="2" required id="icon" placeholder="MC"/></div>
<div class="form-group"><label>Series</label>
<div class="custom-select" value="Formula 1">
    <input type="hidden" name="series" value="F1"/>
    <div class="active-value">Formula 1</div><svg xmlns="http://www.w3.org/2000/svg" width="24" height="24" viewBox="0 0 24 24" fill="none" stroke="currentColor" stroke-width="2" stroke-linecap="round" stroke-linejoin="round" class="lucide lucide-chevron-down-icon lucide-chevron-down"><path d="m6 9 6 6 6-6"/></svg>
    <div class="options">
        <div class="option" data-value="F1">Formula 1</div>
        <div class="option" data-value="F2">Formula 2</div>
        <div class="option" data-value="F3">Formula 3</div>
        <div class="option" data-value="F1Academy">F1 Academy</div>
</div></div></div></div>
<div class="row gap-1"><div class="form-group flex-1">
<label for="start_date">Start Date</label>
<input type="date" name="start_date" required id="start_date"/>
</div>
<div class="form-group">
<label>Status</label>
<div class="custom-select" value="Open">
    <input type="hidden" name="status" value="Open"/>
    <div class="active-value">Open</div><svg xmlns="http://www.w3.org/2000/svg" width="24" height="24" viewBox="0 0 24 24" fill="none" stroke="currentColor" stroke-width="2" stroke-linecap="round" stroke-linejoin="round" class="lucide lucide-chevron-down-icon lucide-chevron-down"><path d="m6 9 6 6 6-6"/></svg>
    <div class="options">
        <div class="option" data-value="Open">Open</div>
        <div class="option" data-value="Done">Done</div>
</div></div></div>
</div>
<div class="row flex-end gap-1">
    <button id="cancel-new-event" cancel class="reversed">Cancel</button><button>Add Event</button>
</div>
</div>
</form></div></div>"#;

/// Dialog for creating a new session.
pub const ADD_SESSION_DIALOG: &'static str = r#"
<div class="dialog" id="add-session-dialog">
<div class="col p-6 dialog-content"><form id="edit-event-form">
<input type="hidden" name="event_id" required />
<h1>Add new Session</h1>
<div class="form-group"><label for="session_title">Session Name</label>
<input type="text" name="name" id="session_title" required placeholder="Free Practice 1"/></div>
<div class="form-group flex-1">
<label for="start_time">Start Time (Local time)</label>
<input type="datetime-local" required name="start_time" id="start_time"/>
</div>
<div class="row gap-1">
<div class="form-group">
<label>Status</label>
<div class="custom-select" value="Open">
    <input type="hidden" name="status" value="Open"/>
    <div class="active-value">Open</div><svg xmlns="http://www.w3.org/2000/svg" width="24" height="24" viewbox="0 0 24 24" fill="none" stroke="currentcolor" stroke-width="2" stroke-linecap="round" stroke-linejoin="round" class="lucide lucide-chevron-down-icon lucide-chevron-down"><path d="m6 9 6 6 6-6"/></svg>
    <div class="options">
        <div class="option" data-value="Open">Open</div>
        <div class="option" data-value="Finished">Finished</div>
</div></div></div>
<div class="form-group">
<label>Status</label>
<div class="custom-select" value="Notify">
    <input type="hidden" name="notify" value="Notify"/>
    <div class="active-value">Notify</div><svg xmlns="http://www.w3.org/2000/svg" width="24" height="24" viewbox="0 0 24 24" fill="none" stroke="currentcolor" stroke-width="2" stroke-linecap="round" stroke-linejoin="round" class="lucide lucide-chevron-down-icon lucide-chevron-down"><path d="m6 9 6 6 6-6"/></svg>
    <div class="options">
        <div class="option" data-value="Notify">Notify</div>
        <div class="option" data-value="Ignore">Ignore</div>
</div></div></div></div>
<div class="row flex-end gap-1 row-reverse"><button>Save</button>
<button id="cancel-edit-series" cancel class="reversed">Cancel</button>
</div>
</div>
</form></div></div>"#;

/// Dialog for editing an event, cut at its placeholders.
pub const EDIT_EVENT_0: &'static str = r#"
<div class="dialog" id="edit-dialog">
<div class="col p-6 dialog-content"><form id="edit-event-form">
<input type="hidden" name="event_id" value=""#;

pub const EDIT_EVENT_1: &'static str = r#"" required />
<h1>Edit Event</h1>
<div class="form-group"><label for="event_title">Event Name</label>
<input type="text" name="name" id="event_title" required placeholder="Monaco Grand Prix" value=""#;

pub const EDIT_EVENT_2: &'static str = r#""/></div>
<div class="row gap-1">
<div class="form-group flex-1"><label for="icon">Icon (country code)</label>
<input type="text" name="icon" minlength="2" required maxlength="2" id="icon" placeholder="MC" value=""#;

pub const EDIT_EVENT_3: &'static str = r#""/></div>
<div class="form-group"><label>Series</label>
<div class="custom-select" value=""#;

pub const EDIT_EVENT_4: &'static str = r#"">
    <input type="hidden" name="series" value=""#;

pub const EDIT_EVENT_5: &'static str = r#""/>
    <div class="active-value">"#;

pub const EDIT_EVENT_6: &'static str = r#"</div><svg xmlns="http://www.w3.org/2000/svg" width="24" height="24" viewBox="0 0 24 24" fill="none" stroke="currentColor" stroke-width="2" stroke-linecap="round" stroke-linejoin="round" class="lucide lucide-chevron-down-icon lucide-chevron-down"><path d="m6 9 6 6 6-6"/></svg>
    <div class="options">
        <div class="option" data-value="F1">Formula 1</div>
        <div class="option" data-value="F2">Formula 2</div>
        <div class="option" data-value="F3">Formula 3</div>
        <div class="option" data-value="F1Academy">F1 Academy</div>
</div></div></div></div>
<div class="row gap-1"><div class="form-group flex-1">
<label for="start_date">Start Date</label>
<input type="date" required name="start_date" value=""#;

pub const EDIT_EVENT_7: &'static str = r#"" id="start_date"/>
</div>
<div class="form-group">
<label>Status</label>
<div class="custom-select" value=""#;

pub const EDIT_EVENT_8: &'static str = r#"">
    <input type="hidden" name="status" value=""#;

pub const EDIT_EVENT_9: &'static str = r#""/>
    <div class="active-value">"#;

pub const EDIT_EVENT_10: &'static str = r#"</div><svg xmlns="http://www.w3.org/2000/svg" width="24" height="24" viewBox="0 0 24 24" fill="none" stroke="currentColor" stroke-width="2" stroke-linecap="round" stroke-linejoin="round" class="lucide lucide-chevron-down-icon lucide-chevron-down"><path d="m6 9 6 6 6-6"/></svg>
    <div class="options">
        <div class="option" data-value="Open">Open</div>
        <div class="option" data-value="Done">Done</div>
</div></div></div>
</div>
<div class="row flex-end gap-1">
    <button id="cancel-new-event" cancel class="reversed">Cancel</button><button>Save</button>
</div>
</div>
</form></div></div>"#;

/// Dialog for editing a session, cut at its placeholders.
pub const EDIT_SESSION_0: &'static str = r#"
<div class="dialog" id="edit-dialog">
<div class="col p-6 dialog-content"><form id="edit-event-form">
<input type="hidden" name="session_id" value=""#;

pub const EDIT_SESSION_1: &'static str = r#"" required />
<h1>Edit Event</h1>
<div class="form-group"><label for="event_title">Event Name</label>
<input type="text" name="name" id="event_title" required placeholder="Monaco Grand Prix" value=""#;

pub const EDIT_SESSION_2: &'static str = r#""/></div>
<div class="form-group flex-1">
<label for="start_time">Start Time (Local time)</label>
<input type="datetime-local" data-utc=""#;

pub const EDIT_SESSION_3: &'static str = r#"" required name="start_time" value=""#;

pub const EDIT_SESSION_4: &'static str = r#"" id="start_time"/>
</div>
<div class="row gap-1">
<div class="form-group">
<label>Status</label>
<div class="custom-select" value=""#;

pub const EDIT_SESSION_5: &'static str = r#"">
    <input type="hidden" name="status" value=""#;

pub const EDIT_SESSION_6: &'static str = r#""/>
    <div class="active-value">"#;

pub const EDIT_SESSION_7: &'static str = r#"</div><svg xmlns="http://www.w3.org/2000/svg" width="24" height="24" viewbox="0 0 24 24" fill="none" stroke="currentcolor" stroke-width="2" stroke-linecap="round" stroke-linejoin="round" class="lucide lucide-chevron-down-icon lucide-chevron-down"><path d="m6 9 6 6 6-6"/></svg>
    <div class="options">
        <div class="option" data-value="Open">Open</div>
        <div class="option" data-value="Finished">Finished</div>
</div></div></div>
<div class="form-group">
<label>Status</label>
<div class="custom-select" value=""#;

pub const EDIT_SESSION_8: &'static str = r#"">
    <input type="hidden" name="notify" value=""#;

pub const EDIT_SESSION_9: &'static str = r#""/>
    <div class="active-value">"#;

pub const EDIT_SESSION_10: &'static str = r#"</div><svg xmlns="http://www.w3.org/2000/svg" width="24" height="24" viewbox="0 0 24 24" fill="none" stroke="currentcolor" stroke-width="2" stroke-linecap="round" stroke-linejoin="round" class="lucide lucide-chevron-down-icon lucide-chevron-down"><path d="m6 9 6 6 6-6"/></svg>
    <div class="options">
        <div class="option" data-value="Notify">Notify</div>
        <div class="option" data-value="Ignore">Ignore</div>
</div></div></div></div>
<div class="row flex-end gap-1 row-reverse"><button>Save</button>
<button id="cancel-edit-series" cancel class="reversed">Cancel</button>
</div>
</div>
</form></div></div>"#;

/// Opening of the event list, with its filters.
pub const EVENT_LIST_HEAD: &'static str = r#"<div class="main-list flex-1">
<div class="container-header col gap-3">
<div class="row space-between">
<div class="card-title align-center row"><svg xmlns="http://www.w3.org/2000/svg" width="24" height="24" viewBox="0 0 24 24" fill="none" stroke="currentColor" stroke-width="2" stroke-linecap="round" stroke-linejoin="round" class="lucide lucide-calendar-icon lucide-calendar"><path d="M8 2v4"/><path d="M16 2v4"/><rect width="18" height="18" x="3" y="4" rx="2"/><path d="M3 10h18"/></svg>
Events
</div>
<button id="add-event"><svg xmlns="http://www.w3.org/2000/svg" width="24" height="24" viewBox="0 0 24 24" fill="none" stroke="currentColor" stroke-width="2" stroke-linecap="round" stroke-linejoin="round" class="lucide lucide-plus-icon lucide-plus"><path d="M5 12h14"/><path d="M12 5v14"/></svg> Add Event</button>
</div><div><div class="filters row align-center space-between"><div class="row align-center gap-5">
<svg class="funnel" xmlns="http://www.w3.org/2000/svg" width="24" height="24" viewBox="0 0 24 24" fill="none" stroke="currentColor" stroke-width="2" stroke-linecap="round" stroke-linejoin="round" class="lucide lucide-funnel-icon lucide-funnel"><path d="M10 20a1 1 0 0 0 .553.895l2 1A1 1 0 0 0 14 21v-7a2 2 0 0 1 .517-1.341L21.74 4.67A1 1 0 0 0 21 3H3a1 1 0 0 0-.742 1.67l7.225 7.989A2 2 0 0 1 10 14z"/></svg>
<div class="custom-select" id="series-filter" value="all">
    <input type="hidden" value="all" />
    <div class="active-value">All Series</div><svg xmlns="http://www.w3.org/2000/svg" width="24" height="24" viewBox="0 0 24 24" fill="none" stroke="currentColor" stroke-width="2" stroke-linecap="round" stroke-linejoin="round" class="lucide lucide-chevron-down-icon lucide-chevron-down"><path d="m6 9 6 6 6-6"/></svg>
    <div class="options">
        <div class="option" data-value="all">All Series</div>
        <div class="option" data-value="F1">Formula 1</div>
        <div class="option" data-value="F2">Formula 2</div>
        <div class="option" data-value="F3">Formula 3</div>
        <div class="option" data-value="F1Academy">F1 Academy</div>
    </div>
</div>
<div id="status-filter" class="custom-select" value="all">
    <input type="hidden" value="all" />
    <div class="active-value">All</div><svg xmlns="http://www.w3.org/2000/svg" width="24" height="24" viewBox="0 0 24 24" fill="none" stroke="currentColor" stroke-width="2" stroke-linecap="round" stroke-linejoin="round" class="lucide lucide-chevron-down-icon lucide-chevron-down"><path d="m6 9 6 6 6-6"/></svg>
    <div class="options">
        <div class="option" data-value="all">All</div>
        <div class="option" data-value="Open">Open</div>
        <div class="option" data-value="Done">Done</div>
    </div>
</div>
</div></div></div></div><div class="overflow-y">"#;

/// Closes a list.
pub const LIST_END: &'static str = r#"</div></div>"#;

/// Page footer, around the current year.
pub const FOOTER_0: &'static str = r#"<footer>&copy; "#;

pub const FOOTER_1: &'static str = r#" Markus Ort - All Rights Reserved.</footer></body></html>"#;

/// Document head, around the page title.
pub const HEAD_0: &'static str = r#"<!doctype html><html lang="en">
<head><title>F1 Notifications Bot | "#;

pub const HEAD_1: &'static str = r#"</title>
<meta charset="UTF-8"/>
<meta name="generator" value="F1-Notifications"/>
<meta name="viewport" content="width=device-width, initial-scale=1.0">
<link href="/assets/style.css" rel="stylesheet" media="screen" />
</head>"#;

/// Page header.
pub const HEADER: &'static str = r#"<header>
<div class="content-width row sticky">
<div class="row gap-1">
<div class="logo">
<svg xmlns="http://www.w3.org/2000/svg" width="24" height="24" viewBox="0 0 24 24" fill="none" stroke="currentColor" stroke-width="2" stroke-linecap="round" stroke-linejoin="round" class="lucide lucide-flag-icon lucide-flag"><path d="M4 22V4a1 1 0 0 1 .4-.8A6 6 0 0 1 8 2c3 0 5 2 7.333 2q2 0 3.067-.8A1 1 0 0 1 20 4v10a1 1 0 0 1-.4.8A6 6 0 0 1 16 16c-3 0-5-2-8-2a6 6 0 0 0-4 1.528"/></svg>
</div>
<div class="col">
<h1>F1 Notifications</h1>
<p>Manage race events & notifications</p>
</div>
</div>
</div></header>"#;

/// Opening of the main element, around its classes.
pub const MAIN_OPEN_0: &'static str = r#"<main class=""#;

pub const MAIN_OPEN_1: &'static str = r#"">"#;

/// Closes the main element.
pub const MAIN_CLOSE: &'static str = r#"</main>"#;

/// Script include, around the script name.
pub const SCRIPT_0: &'static str = r#"<script src="/assets/js/"#;

pub const SCRIPT_1: &'static str = r#".js" defer></script>"#;

/// Opening of a session list, around series and event name.
pub const SESSION_LIST_0: &'static str = r#"<div class="main-list flex-1 sessions" id="sessions-container">
<div class="container-header col gap-3">
<div class="row space-between align-center">
<div class="col">
<div class="card-title align-center row"><svg class="session-header-svg" xmlns="http://www.w3.org/2000/svg" width="24" height="24" viewBox="0 0 24 24" fill="none" stroke="currentColor" stroke-width="2" stroke-linecap="round" stroke-linejoin="round" class="lucide lucide-clock-icon lucide-clock"><circle cx="12" cy="12" r="10"/><path d="M12 6v6l4 2"/></svg>
Sessions
</div>
<span class="session-ev-title">"#;

pub const SESSION_LIST_1: &'static str = r#" "#;

pub const SESSION_LIST_2: &'static str = r#"</span>
</div>
<button id="add-session"><svg xmlns="http://www.w3.org/2000/svg" width="24" height="24" viewBox="0 0 24 24" fill="none" stroke="currentColor" stroke-width="2" stroke-linecap="round" stroke-linejoin="round" class="lucide lucide-plus-icon lucide-plus"><path d="M5 12h14"/><path d="M12 5v14"/></svg> Add Session</button>
</div></div><div class="overflow-y col">"#;

/// Shown in a session list without sessions.
pub const NO_SESSIONS_NOTE: &'static str = r#"<span class="empty-session">No sessions for this event</span>"#;

/// Session pane before an event is selected.
pub const EMPTY_SESSIONS: &'static str = r#"<div class="main-list flex-1 sessions" id="sessions-container"><div class="no-session">
            <svg xmlns="http://www.w3.org/2000/svg" width="24" height="24" viewBox="0 0 24 24" fill="none" stroke="currentColor" stroke-width="2" stroke-linecap="round" stroke-linejoin="round" class="lucide lucide-clock-icon lucide-clock"><circle cx="12" cy="12" r="10"/><path d="M12 6v6l4 2"/></svg>
            <span>Select an event to view its sessions</span>
            </div></div>"#;

/// One event in the event list, cut at its placeholders.
pub const WEEKEND_ROW_0: &'static str = r#"<div class="event row px-4 py-3" data-id=""#;

pub const WEEKEND_ROW_1: &'static str = r#"" data-series=""#;

pub const WEEKEND_ROW_2: &'static str = r#"" data-status=""#;

pub const WEEKEND_ROW_3: &'static str = r#"">
<div class="cc">"#;

pub const WEEKEND_ROW_4: &'static str = r#"</div>
<div class="col details flex-1"><div class="title">"#;

pub const WEEKEND_ROW_5: &'static str = r#"</div>
<div class="row meta align-center gap-5"><span class="series-display series-"#;

pub const WEEKEND_ROW_6: &'static str = r#"">"#;

pub const WEEKEND_ROW_7: &'static str = r#"</span><span class="date-display" data-date=""#;

pub const WEEKEND_ROW_8: &'static str = r#"" data-dateformat="dmy">"#;

pub const WEEKEND_ROW_9: &'static str = r#"</span></div>
</div>
<span class="status status-"#;

pub const WEEKEND_ROW_10: &'static str = r#""><span class="dot"></span>"#;

pub const WEEKEND_ROW_11: &'static str = r#"</span>
<button class="actions" data-actions=""><svg xmlns="http://www.w3.org/2000/svg" width="24" height="24" viewBox="0 0 24 24" fill="none" stroke="currentColor" stroke-width="2" stroke-linecap="round" stroke-linejoin="round" class="lucide lucide-ellipsis-icon lucide-ellipsis"><circle cx="12" cy="12" r="1"/><circle cx="19" cy="12" r="1"/><circle cx="5" cy="12" r="1"/></svg></button>
<div class="actions-display">
    <button class="row" data-action="edit_event"><svg xmlns="http://www.w3.org/2000/svg" width="24" height="24" viewBox="0 0 24 24" fill="none" stroke="currentColor" stroke-width="2" stroke-linecap="round" stroke-linejoin="round" class="lucide lucide-pencil-icon lucide-pencil"><path d="M21.174 6.812a1 1 0 0 0-3.986-3.987L3.842 16.174a2 2 0 0 0-.5.83l-1.321 4.352a.5.5 0 0 0 .623.622l4.353-1.32a2 2 0 0 0 .83-.497z"/><path d="m15 5 4 4"/></svg>Edit</button>
    <button class="destructive row" data-action="delete_event"><svg xmlns="http://www.w3.org/2000/svg" width="24" height="24" viewBox="0 0 24 24" fill="none" stroke="currentColor" stroke-width="2" stroke-linecap="round" stroke-linejoin="round" class="lucide lucide-trash2-icon lucide-trash-2"><path d="M10 11v6"/><path d="M14 11v6"/><path d="M19 6v14a2 2 0 0 1-2 2H7a2 2 0 0 1-2-2V6"/><path d="M3 6h18"/><path d="M8 6V4a2 2 0 0 1 2-2h4a2 2 0 0 1 2 2v2"/></svg>Delete</button>
</div>
</div>"#;

/// Start of one session in a session list.
pub const SESSION_ROW_0: &'static str = r#"<div class="session row px-4 py-3" data-id=""#;

pub const SESSION_ROW_1: &'static str = r#""><div class="notify-setting notify-"#;

pub const SESSION_ROW_2: &'static str = r#"">"#;

/// Icon of a session that is announced.
pub const BELL_ICON: &'static str = r#"<svg xmlns="http://www.w3.org/2000/svg" width="24" height="24" viewBox="0 0 24 24" fill="none" stroke="currentColor" stroke-width="2" stroke-linecap="round" stroke-linejoin="round" class="lucide lucide-bell-icon lucide-bell"><path d="M10.268 21a2 2 0 0 0 3.464 0"/><path d="M3.262 15.326A1 1 0 0 0 4 17h16a1 1 0 0 0 .74-1.673C19.41 13.956 18 12.499 18 8A6 6 0 0 0 6 8c0 4.499-1.411 5.956-2.738 7.326"/></svg>"#;

/// Icon of a session that is not announced.
pub const BELL_OFF_ICON: &'static str = r#"<svg xmlns="http://www.w3.org/2000/svg" width="24" height="24" viewBox="0 0 24 24" fill="none" stroke="currentColor" stroke-width="2" stroke-linecap="round" stroke-linejoin="round" class="lucide lucide-bell-off-icon lucide-bell-off"><path d="M10.268 21a2 2 0 0 0 3.464 0"/><path d="M17 17H4a1 1 0 0 1-.74-1.673C4.59 13.956 6 12.499 6 8a6 6 0 0 1 .258-1.742"/><path d="m2 2 20 20"/><path d="M8.668 3.01A6 6 0 0 1 18 8c0 2.687.77 4.653 1.707 6.05"/></svg>"#;

/// Rest of one session in a session list, cut at its placeholders.
pub const SESSION_DETAILS_0: &'static str = r#"</div><div class="col flex-1">
        <div class="title">"#;

pub const SESSION_DETAILS_1: &'static str = r#"</div>
        <div class="datetime" data-time=""#;

pub const SESSION_DETAILS_2: &'static str = r#"">"#;

pub const SESSION_DETAILS_3: &'static str = r#"</div>
        </div>
        <span class="status status-"#;

pub const SESSION_DETAILS_4: &'static str = r#""><span class="dot"></span>"#;

pub const SESSION_DETAILS_5: &'static str = r#"</span>
        <button class="actions" data-actions=""><svg xmlns="http://www.w3.org/2000/svg" width="24" height="24" viewBox="0 0 24 24" fill="none" stroke="currentColor" stroke-width="2" stroke-linecap="round" stroke-linejoin="round" class="lucide lucide-ellipsis-icon lucide-ellipsis"><circle cx="12" cy="12" r="1"/><circle cx="19" cy="12" r="1"/><circle cx="5" cy="12" r="1"/></svg></button>
        <div class="actions-display">
<button data-id=""#;

pub const SESSION_DETAILS_6: &'static str = r#"" data-action="edit_session"><svg xmlns="http://www.w3.org/2000/svg" width="24" height="24" viewBox="0 0 24 24" fill="none" stroke="currentColor" stroke-width="2" stroke-linecap="round" stroke-linejoin="round" class="lucide lucide-pencil-icon lucide-pencil"><path d="M21.174 6.812a1 1 0 0 0-3.986-3.987L3.842 16.174a2 2 0 0 0-.5.83l-1.321 4.352a.5.5 0 0 0 .623.622l4.353-1.32a2 2 0 0 0 .83-.497z"/><path d="m15 5 4 4"/></svg>Edit</button>
<button data-action=""#;

pub const SESSION_DETAILS_7: &'static str = r#"" data-id=""#;

pub const SESSION_DETAILS_8: &'static str = r#"">"#;

pub const SESSION_DETAILS_9: &'static str = r#"</button>
<div class="separator-h"></div>
<button class="destructive" data-id=""#;

pub const SESSION_DETAILS_10: &'static str = r#"" data-action="delete-session"><svg xmlns="http://www.w3.org/2000/svg" width="24" height="24" viewBox="0 0 24 24" fill="none" stroke="currentColor" stroke-width="2" stroke-linecap="round" stroke-linejoin="round" class="lucide lucide-trash2-icon lucide-trash-2"><path d="M10 11v6"/><path d="M14 11v6"/><path d="M19 6v14a2 2 0 0 1-2 2H7a2 2 0 0 1-2-2V6"/><path d="M3 6h18"/><path d="M8 6V4a2 2 0 0 1 2-2h4a2 2 0 0 1 2 2v2"/></svg>Delete</button>
        </div>
        </div>"#;

/// Action that stops announcing a session.
pub const TURN_OFF_NOTIFICATIONS: &'static str = r#"<svg xmlns="http://www.w3.org/2000/svg" width="24" height="24" viewBox="0 0 24 24" fill="none" stroke="currentColor" stroke-width="2" stroke-linecap="round" stroke-linejoin="round" class="lucide lucide-bell-off-icon lucide-bell-off"><path d="M10.268 21a2 2 0 0 0 3.464 0"/><path d="M17 17H4a1 1 0 0 1-.74-1.673C4.59 13.956 6 12.499 6 8a6 6 0 0 1 .258-1.742"/><path d="m2 2 20 20"/><path d="M8.668 3.01A6 6 0 0 1 18 8c0 2.687.77 4.653 1.707 6.05"/></svg> Turn off Notifications"#;

/// Action that starts announcing a session.
pub const TURN_ON_NOTIFICATIONS: &'static str = r#"<svg xmlns="http://www.w3.org/2000/svg" width="24" height="24" viewBox="0 0 24 24" fill="none" stroke="currentColor" stroke-width="2" stroke-linecap="round" stroke-linejoin="round" class="lucide lucide-bell-icon lucide-bell"><path d="M10.268 21a2 2 0 0 0 3.464 0"/><path d="M3.262 15.326A1 1 0 0 0 4 17h16a1 1 0 0 0 .74-1.673C19.41 13.956 18 12.499 18 8A6 6 0 0 0 6 8c0 4.499-1.411 5.956-2.738 7.326"/></svg>Turn on Notifications"#;

} // verus!
