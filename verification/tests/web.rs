use chrono::Datelike;
use f1_notifications::auth::{authorization_request, check_user_id, session_grant, CodeSender};
use f1_notifications::error::{describe_form, require_rows, Failure, FormValidation};
use f1_notifications::html::HtmlBuilder;
use f1_notifications::icon::make_flag_icon;
use f1_notifications::model::{
    Series, Session, SessionNotifySettings, SessionStatus, Timestamp, Weekend, WeekendStatus,
};
use f1_notifications::pages::{home_page, home_page_at, per_session, sessions_page, weekend_format};
use f1_notifications::routes::{
    delete_event_status, new_weekend_icon_problem, update_event_icon_problem, EventStatus,
};

fn at(rfc3339: &str) -> Timestamp {
    let t = chrono::DateTime::parse_from_rfc3339(rfc3339).unwrap();
    Timestamp { secs: t.timestamp(), nanos: t.timestamp_subsec_nanos() }
}

fn weekend(icon: &str) -> Weekend {
    Weekend {
        id: 7,
        name: "Monaco Grand Prix".to_string(),
        year: 2025,
        start_date: at("2025-01-01T06:00:00Z"),
        icon: icon.to_string(),
        series: Series::F1,
        status: WeekendStatus::Open,
    }
}

fn session(notify: SessionNotifySettings) -> Session {
    Session {
        id: 12,
        weekend_id: 7,
        start_time: at("2025-01-01T08:00:00Z"),
        name: "Race".to_string(),
        duration: 7200,
        notify,
        status: SessionStatus::Finished,
        created_at: at("2024-12-01T00:00:00Z"),
    }
}

#[test]
fn head_and_scripts_and_footer() {
    let html = HtmlBuilder::new().head("Home").unwrap().into_string();
    assert_eq!(
        html,
        "<!doctype html><html lang=\"en\">\n<head><title>F1 Notifications Bot | Home</title>\n<meta charset=\"UTF-8\"/>\n<meta name=\"generator\" value=\"F1-Notifications\"/>\n<meta name=\"viewport\" content=\"width=device-width, initial-scale=1.0\">\n<link href=\"/assets/style.css\" rel=\"stylesheet\" media=\"screen\" />\n</head>"
    );
    let html = HtmlBuilder::with_capacity(64).scripts(&["dash", "edit"]).unwrap().into_string();
    assert_eq!(
        html,
        "<script src=\"/assets/js/dash.js\" defer></script><script src=\"/assets/js/edit.js\" defer></script>"
    );
    let html = HtmlBuilder::new().footer_at(2025).unwrap().into_string();
    assert_eq!(html, "<footer>&copy; 2025 Markus Ort - All Rights Reserved.</footer></body></html>");
    let html = HtmlBuilder::new().footer().unwrap().into_string();
    assert!(html.starts_with("<footer>&copy; 20"));
}

#[test]
fn fixed_blocks() {
    let html = HtmlBuilder::new().header().unwrap().into_string();
    assert!(html.starts_with("<header>\n<div class=\"content-width row sticky\">"));
    assert!(html.ends_with("</div></header>"));
    let html = HtmlBuilder::new().add_event().unwrap().add_session().unwrap().into_string();
    assert!(html.starts_with("<div id=\"backdrop\" class=\"backdrop\"></div>"));
    assert!(html.contains("<h1>Add new Event</h1>"));
    assert!(html.contains("<h1>Add new Session</h1>"));
    let html = HtmlBuilder::new().empty_sessions().unwrap().into_string();
    assert!(html.contains("<span>Select an event to view its sessions</span>"));
}

#[test]
fn main_wraps_its_content() {
    let html = HtmlBuilder::new()
        .main(Some("row gap-2"), |b| b.empty_sessions())
        .unwrap()
        .into_string();
    assert!(html.starts_with("<main class=\"row gap-2\"><div class=\"main-list flex-1 sessions\""));
    assert!(html.ends_with("</div></div></main>"));
    let html = HtmlBuilder::new().main(None, |b| Ok(b)).unwrap().into_string();
    assert_eq!(html, "<main class=\"\"></main>");
}

#[test]
fn weekend_rows_show_the_country_code() {
    let html = weekend_format(HtmlBuilder::new(), &weekend(":flag_mc:")).unwrap().into_string();
    assert!(html.starts_with(
        "<div class=\"event row px-4 py-3\" data-id=\"7\" data-series=\"F1\" data-status=\"Open\">\n<div class=\"cc\">mc</div>"
    ));
    assert!(html.contains("<div class=\"title\">Monaco Grand Prix</div>"));
    assert!(html.contains(
        "data-date=\"2025-01-01T06:00:00Z\" data-dateformat=\"dmy\">01-01-2025</span>"
    ));
    assert!(html.contains("<span class=\"status status-Open\"><span class=\"dot\"></span>Open</span>"));
    let short = weekend_format(HtmlBuilder::new(), &weekend(":mc:")).unwrap().into_string();
    assert!(short.contains("<div class=\"cc\">__</div>"));
    let wide = weekend_format(HtmlBuilder::new(), &weekend(":flag_é:")).unwrap().into_string();
    assert!(wide.contains("<div class=\"cc\">__</div>"));
}

#[test]
fn event_list_renders_every_weekend() {
    let list = vec![weekend(":flag_mc:"), weekend(":flag_it:")];
    let html = HtmlBuilder::new().event_list(&list, weekend_format).unwrap().into_string();
    assert!(html.starts_with("<div class=\"main-list flex-1\">"));
    assert!(html.contains("<div class=\"cc\">mc</div>"));
    assert!(html.contains("<div class=\"cc\">it</div>"));
    assert!(html.ends_with("</div>\n</div></div></div>"));
}

#[test]
fn session_list_notes_missing_sessions() {
    let event = weekend(":flag_mc:");
    let none: Vec<Session> = Vec::new();
    let html = HtmlBuilder::new().session_list(&event, &none, per_session).unwrap().into_string();
    assert!(html.contains("<span class=\"session-ev-title\">F1 Monaco Grand Prix</span>"));
    assert!(html.ends_with("<span class=\"empty-session\">No sessions for this event</span></div></div>"));
    let some = vec![session(SessionNotifySettings::Notify)];
    let html = HtmlBuilder::new().session_list(&event, &some, per_session).unwrap().into_string();
    assert!(!html.contains("No sessions for this event"));
    assert!(html.contains("data-id=\"12\""));
}

#[test]
fn session_rows_offer_the_opposite_setting() {
    let on = per_session(HtmlBuilder::new(), &session(SessionNotifySettings::Notify)).unwrap().into_string();
    assert!(on.starts_with("<div class=\"session row px-4 py-3\" data-id=\"12\"><div class=\"notify-setting notify-Notify\"><svg"));
    assert!(on.contains("data-action=\"ignore_session\""));
    assert!(on.contains("Turn off Notifications"));
    assert!(on.contains("data-time=\"2025-01-01T08:00:00Z\">2025-01-01T08:00:00Z</div>"));
    assert!(on.contains("status-Finished"));
    let off = per_session(HtmlBuilder::new(), &session(SessionNotifySettings::Ignore)).unwrap().into_string();
    assert!(off.contains("data-action=\"notify_session\""));
    assert!(off.contains("Turn on Notifications"));
}

#[test]
fn home_page_lists_weekends_between_head_and_footer() {
    let list = vec![weekend(":flag_mc:"), weekend(":flag_it:")];
    let html = home_page_at(&list, 2024).unwrap().into_string();
    assert!(html.starts_with("<!doctype html><html lang=\"en\">\n<head><title>F1 Notifications Bot | Home</title>"));
    assert!(html.contains("<main class=\"row gap-2 flex-1 content-width\">"));
    let mc = html.find("<div class=\"cc\">mc</div>").unwrap();
    let it = html.find("<div class=\"cc\">it</div>").unwrap();
    assert!(mc < it);
    assert!(html.contains("<span>Select an event to view its sessions</span>"));
    assert!(html.contains("<h1>Add new Event</h1>"));
    assert!(html.contains("<script src=\"/assets/js/dash.js\" defer></script>"));
    assert!(html.ends_with("<footer>&copy; 2024 Markus Ort - All Rights Reserved.</footer></body></html>"));
    let now = home_page(&list).unwrap().into_string();
    assert!(now.contains("<footer>&copy; 20"));
}

#[test]
fn sessions_page_lists_the_sessions_of_an_event() {
    let event = weekend(":flag_mc:");
    let none: Vec<Session> = Vec::new();
    let html = sessions_page(&event, &none).unwrap().into_string();
    assert!(html.contains("<span class=\"session-ev-title\">F1 Monaco Grand Prix</span>"));
    assert!(html.contains("No sessions for this event"));
    let two = vec![session(SessionNotifySettings::Notify), session(SessionNotifySettings::Ignore)];
    let html = sessions_page(&event, &two).unwrap().into_string();
    assert!(!html.contains("No sessions for this event"));
    assert_eq!(html.matches("<div class=\"session row px-4 py-3\" data-id=\"12\">").count(), 2);
    assert!(html.find("ignore_session").unwrap() < html.find("notify_session").unwrap());
}

#[test]
fn edit_dialogs_are_filled() {
    let html = HtmlBuilder::new().edit_event(&weekend(":flag_mc:")).unwrap().into_string();
    assert!(html.contains("name=\"event_id\" value=\"7\""));
    assert!(html.contains("placeholder=\"MC\" value=\"mc\""));
    assert!(html.contains("value=\"2025-01-01\" id=\"start_date\""));
    assert!(html.contains("<div class=\"custom-select\" value=\"F1\">"));
    let html = HtmlBuilder::new().edit_session(&session(SessionNotifySettings::Ignore)).unwrap().into_string();
    assert!(html.contains("name=\"session_id\" value=\"12\""));
    assert!(html.contains("data-utc=\"2025-01-01T08:00:00Z\" required name=\"start_time\" value=\"2025-01-01T08:00\""));
    assert!(html.contains("<input type=\"hidden\" name=\"notify\" value=\"Ignore\"/>"));
}

#[test]
fn flag_icons_round_trip() {
    let icon = make_flag_icon("mc");
    assert_eq!(icon, ":flag_mc:");
    let html = weekend_format(HtmlBuilder::new(), &weekend(&icon)).unwrap().into_string();
    assert!(html.contains("<div class=\"cc\">mc</div>"));
}

#[test]
fn allowed_users() {
    assert!(check_user_id("142951266811641856"));
    assert!(check_user_id("808002254710898708"));
    assert!(!check_user_id("14295126681164185"));
    assert!(!check_user_id(""));
}

#[test]
fn authorization_redirect() {
    let (state, url) = authorization_request(&[0u8; 32], "http://127.0.0.1:8123/post-auth");
    assert_eq!(state, "66687aadf862bd776c8fc18b8e9f8e20089714856ee233b3902a591d0d5f2925");
    assert_eq!(
        url,
        "https://discord.com/oauth2/authorize?client_id=942121950778634240&response_type=code&redirect_uri=http%3a%2f%2f127.0.0.1%3a8123%2fpost-auth&scope=identify&state=66687aadf862bd776c8fc18b8e9f8e20089714856ee233b3902a591d0d5f2925"
    );
}

#[test]
fn session_cookie_lasts_seven_days() {
    let mut token = [0u8; 32];
    for (i, b) in token.iter_mut().enumerate() {
        *b = i as u8;
    }
    let now = at("2025-01-01T08:00:00Z");
    let (session, expiry, cookie) = session_grant(&token, &now);
    assert_eq!(session, "AAECAwQFBgcICQoLDA0ODxAREhMUFRYXGBkaGxwdHh8=");
    assert_eq!(expiry, Timestamp { secs: now.secs + 604800, nanos: 0 });
    assert_eq!(
        cookie,
        "session=AAECAwQFBgcICQoLDA0ODxAREhMUFRYXGBkaGxwdHh8=; Expires=Wed, 08 Jan 2025 08:00:00 GMT; Path=/; HttpOnly; Secure"
    );
    let form = CodeSender::authorization_code("abc".to_string(), "uri".to_string());
    assert_eq!(form.grant_type, "authorization_code");
}

#[test]
fn failures_and_checks() {
    assert_eq!(Failure::NotFound.status_code(), 404);
    assert_eq!(Failure::Unauthorized.status_code(), 401);
    assert_eq!(Failure::Form.status_code(), 422);
    assert_eq!(Failure::Internal.status_code(), 500);
    assert_eq!(require_rows(0), Err(Failure::NotFound));
    assert_eq!(require_rows(3), Ok(()));
    assert_eq!(delete_event_status(0), 404);
    assert_eq!(delete_event_status(1), 204);
    assert_eq!(update_event_icon_problem("mc"), None);
    assert_eq!(update_event_icon_problem("mcx"), Some("Icon needs to be ASCII only and 2 characters."));
    assert_eq!(update_event_icon_problem("é"), Some("Icon needs to be ASCII only and 2 characters."));
    assert_eq!(new_weekend_icon_problem("mcx"), None);
    assert_eq!(new_weekend_icon_problem("mé"), Some("Icon needs to be ASCII only"));
    assert_eq!(EventStatus::Open.into_value(), "Open");
    assert_eq!(EventStatus::Done.into_value(), "Done");
    assert!(FormValidation::new().0.is_empty());
    let text = describe_form(&[
        ("icon".to_string(), Some("too long".to_string())),
        ("name".to_string(), None),
    ]);
    assert_eq!(text, "Form Validation:\n> icon : too long\n> name\n");
}

#[test]
fn footer_shows_the_current_year() {
    let before = chrono::Utc::now().year();
    let html = HtmlBuilder::new().footer().unwrap().into_string();
    let after = chrono::Utc::now().year();
    assert!(
        html == format!("<footer>&copy; {before} Markus Ort - All Rights Reserved.</footer></body></html>")
            || html == format!("<footer>&copy; {after} Markus Ort - All Rights Reserved.</footer></body></html>")
    );
}

#[test]
fn leap_second_sessions_are_shown() {
    let mut s = session(SessionNotifySettings::Notify);
    s.start_time = at("2016-12-31T23:59:60Z");
    let html = per_session(HtmlBuilder::new(), &s).unwrap().into_string();
    assert!(html.contains("data-time=\"2016-12-31T23:59:60Z\">2016-12-31T23:59:60Z</div>"));
}

#[test]
fn session_granted_in_a_leap_second_ends_as_chrono_adds() {
    let token = [7u8; 32];
    let leap = at("2016-12-31T23:59:60Z");
    let now = Timestamp { secs: leap.secs, nanos: 1_250_000_000 };
    let (_, expiry, cookie) = session_grant(&token, &now);
    let expected = chrono::DateTime::from_timestamp(now.secs, now.nanos).unwrap() + chrono::Duration::days(7);
    assert_eq!(expiry, Timestamp { secs: expected.timestamp(), nanos: expected.timestamp_subsec_nanos() });
    assert!(cookie.contains("Expires=Sat, 07 Jan 2017 23:59:59 GMT"));
}
