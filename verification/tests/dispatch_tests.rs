use st_presence::calendar::{Date, LocalDateTime, TimeOfDay};
use st_presence::catalog::{find_status, statuses};
use st_presence::dispatch::{
    build_report, is_failure, plan, snooze_end_failure, DispatchPlan,
    asana_ooo_summary, chat_action, chat_success, chat_text, chat_verdict, host_action,
    host_mutation, host_success, ooo_is_set, render_line, render_report, request_of, resolve_return,
    snooze_action, snooze_end_verdict, snooze_minutes, tracker_advice, tracker_outcome,
    tracker_matters, unknown_keyword_message, Outcome, ReportEntry, Request, Service,
    ServiceAction, SnoozeAction, TrackerAdvice,
};
use st_presence::resolver::ParseError;

fn at(y: i32, mo: u32, d: u32, h: u32, mi: u32, s: u32) -> LocalDateTime {
    LocalDateTime {
        date: Date::from_ymd(y, mo, d).unwrap(),
        time: TimeOfDay { hour: h, minute: mi, second: s },
    }
}

#[test]
fn catalog_holds_nine_unique_keywords() {
    let all = statuses();
    let keywords: Vec<&str> = all.iter().map(|s| s.keyword).collect();
    assert_eq!(keywords, vec!["lunch", "zoom", "tuple", "meet", "eod", "vacation", "sick", "away", "back"]);
    for s in &all {
        assert_eq!(find_status(s.keyword), Some(*s));
    }
}

#[test]
fn catalog_flags() {
    let lunch = find_status("lunch").unwrap();
    assert_eq!((lunch.slack_text, lunch.slack_emoji), ("Lunchin'", ":fork_and_knife:"));
    assert!(lunch.slack_dnd && !lunch.github_busy && !lunch.asana_dnd);
    let vacation = find_status("vacation").unwrap();
    assert!(vacation.slack_dnd && vacation.github_busy && vacation.asana_dnd);
    let sick = find_status("sick").unwrap();
    assert!(sick.slack_dnd && !sick.github_busy && sick.asana_dnd);
    let away = find_status("away").unwrap();
    assert_eq!(away.slack_text, "Out of office");
    assert!(away.github_busy);
    let back = find_status("back").unwrap();
    assert_eq!((back.slack_text, back.slack_emoji), ("Catching up", ":inbox_tray:"));
    assert!(!back.slack_dnd && !back.github_busy);
}

#[test]
fn unknown_keywords_are_rejected() {
    assert_eq!(find_status("clear"), None);
    assert_eq!(find_status("Lunch"), None);
    assert_eq!(find_status(""), None);
    assert_eq!(request_of("nap"), None);
    assert_eq!(request_of("clear"), Some(Request::Clear));
    assert_eq!(request_of("back"), Some(Request::Return(find_status("back").unwrap())));
    assert_eq!(request_of("meet"), Some(Request::Announce(find_status("meet").unwrap())));
    assert_eq!(
        unknown_keyword_message("nap"),
        "Unknown keyword: nap\nAvailable: lunch, zoom, tuple, meet, eod, vacation, sick, away, back, clear"
    );
}

#[test]
fn meet_without_arguments() {
    let now = at(2025, 12, 17, 10, 0, 0);
    let request = request_of("meet").unwrap();
    let back = resolve_return("meet", None, None, &now).unwrap();
    assert_eq!(back, None);
    assert_eq!(
        chat_action(&request, back, &now.date),
        ServiceAction::SetStatus {
            text: "In a meeting".to_string(),
            icon: ":calendar:".to_string(),
            dnd_or_busy: false,
            expires_at: None,
        }
    );
    assert_eq!(snooze_action(&request, back, &now), SnoozeAction::Leave);
    assert_eq!(host_action(&request, back), ServiceAction::NoChange);
    assert_eq!(host_success(&request, true), Outcome::Skipped);
    assert_eq!(tracker_advice(&request, false), TrackerAdvice::NoChange);
    assert_eq!(tracker_advice(&request, true), TrackerAdvice::NoChange);
    assert_eq!(render_line(Service::CodeHost, &Outcome::Skipped), "  GitHub  - No change");
    assert_eq!(render_line(Service::Tracker, &tracker_outcome(TrackerAdvice::NoChange)), "  Asana   - No change");
    assert_eq!(
        render_line(Service::Chat, &chat_success(&request, back, &now.date)),
        "  Slack   \u{2713} In a meeting :calendar:"
    );
}

#[test]
fn vacation_until_friday() {
    // 2025-12-17 is a Wednesday; the Friday after is 2025-12-19.
    let now = at(2025, 12, 17, 10, 0, 0);
    let request = request_of("vacation").unwrap();
    let back = resolve_return("vacation", Some("friday"), None, &now).unwrap();
    let friday = at(2025, 12, 19, 7, 0, 0);
    assert_eq!(back, Some(friday));
    assert_eq!(snooze_action(&request, back, &now), SnoozeAction::Begin(2 * 1440 - 180));
    assert_eq!(
        chat_action(&request, back, &now.date),
        ServiceAction::SetStatus {
            text: "Vacation. Back Friday.".to_string(),
            icon: ":desert_island:".to_string(),
            dnd_or_busy: true,
            expires_at: Some(friday),
        }
    );
    assert_eq!(
        host_action(&request, back),
        ServiceAction::SetStatus {
            text: "Vacation".to_string(),
            icon: ":desert_island:".to_string(),
            dnd_or_busy: true,
            expires_at: Some(friday),
        }
    );
    assert_eq!(tracker_advice(&request, false), TrackerAdvice::RemindSet);
    assert_eq!(tracker_advice(&request, true), TrackerAdvice::AlreadySet);
    assert_eq!(
        render_line(Service::Chat, &chat_success(&request, back, &now.date)),
        "  Slack   \u{2713} Vacation. Back Friday 7am. :desert_island: (DND until 7am)"
    );
    assert_eq!(
        render_line(Service::CodeHost, &host_success(&request, true)),
        "  GitHub  \u{2713} Limited availability (Planning Center only)"
    );
    assert_eq!(
        render_line(Service::CodeHost, &host_success(&request, false)),
        "  GitHub  \u{2713} Limited availability"
    );
    assert_eq!(
        render_line(Service::Tracker, &tracker_outcome(TrackerAdvice::RemindSet)),
        "  Asana   ! Set Out of Office manually: Profile (icon) > Set out of office"
    );
    assert_eq!(
        render_line(Service::Tracker, &tracker_outcome(TrackerAdvice::AlreadySet)),
        "  Asana   \u{2713} Out of Office already set"
    );
}

#[test]
fn snooze_falls_back_to_a_full_day() {
    let now = at(2025, 12, 17, 10, 0, 30);
    assert_eq!(snooze_minutes(None, &now), 1440);
    assert_eq!(snooze_minutes(Some(at(2025, 12, 17, 10, 0, 30)), &now), 1440);
    assert_eq!(snooze_minutes(Some(at(2025, 12, 17, 9, 0, 0)), &now), 1440);
    assert_eq!(snooze_minutes(Some(at(2025, 12, 17, 10, 1, 29)), &now), 1440);
    assert_eq!(snooze_minutes(Some(at(2025, 12, 17, 10, 1, 30)), &now), 1);
    assert_eq!(snooze_minutes(Some(at(2025, 12, 17, 11, 0, 0)), &now), 59);
    assert_eq!(snooze_minutes(Some(at(2025, 12, 18, 10, 0, 30)), &now), 1440);
    assert_eq!(snooze_minutes(Some(at(2025, 12, 19, 10, 0, 30)), &now), 2880);
}

#[test]
fn lunch_takes_a_time_as_its_first_argument() {
    let now = at(2025, 12, 17, 12, 7, 0);
    assert_eq!(resolve_return("lunch", None, None, &now), Ok(Some(at(2025, 12, 17, 13, 15, 0))));
    assert_eq!(resolve_return("lunch", Some("1pm"), Some("ignored"), &now), Ok(Some(at(2025, 12, 17, 13, 0, 0))));
    assert_eq!(
        resolve_return("lunch", Some("friday"), None, &now),
        Err(ParseError::Time("friday".to_string()))
    );
    assert_eq!(
        resolve_return("eod", Some("whenever"), None, &now),
        Err(ParseError::Date("whenever".to_string()))
    );
    assert_eq!(resolve_return("eod", Some("tomorrow"), Some("8am"), &now), Ok(Some(at(2025, 12, 18, 8, 0, 0))));
    let request = request_of("lunch").unwrap();
    let back = Some(at(2025, 12, 17, 13, 15, 0));
    assert_eq!(snooze_action(&request, back, &now), SnoozeAction::Begin(68));
    assert_eq!(
        render_line(Service::Chat, &chat_success(&request, back, &now.date)),
        "  Slack   \u{2713} Lunchin' :fork_and_knife: (DND until 1:15pm)"
    );
    assert_eq!(
        render_line(Service::Chat, &chat_success(&request_of("eod").unwrap(), None, &now.date)),
        "  Slack   \u{2713} Done for the day :wave: (DND on)"
    );
}

#[test]
fn back_ends_the_snooze_and_clears_the_host() {
    let now = at(2025, 12, 17, 10, 0, 0);
    let request = request_of("back").unwrap();
    assert_eq!(snooze_action(&request, None, &now), SnoozeAction::EndBefore);
    assert_eq!(
        chat_action(&request, None, &now.date),
        ServiceAction::SetStatus {
            text: "Catching up".to_string(),
            icon: ":inbox_tray:".to_string(),
            dnd_or_busy: false,
            expires_at: None,
        }
    );
    assert_eq!(host_action(&request, None), ServiceAction::ClearStatus);
    assert_eq!(tracker_advice(&request, true), TrackerAdvice::RemindClear);
    assert_eq!(tracker_advice(&request, false), TrackerAdvice::NoChange);
    assert_eq!(
        render_line(Service::Chat, &chat_success(&request, None, &now.date)),
        "  Slack   \u{2713} Catching up :inbox_tray: (DND off)"
    );
    assert_eq!(render_line(Service::CodeHost, &host_success(&request, false)), "  GitHub  \u{2713} Cleared");
    assert_eq!(
        render_line(Service::Tracker, &tracker_outcome(TrackerAdvice::RemindClear)),
        "  Asana   ! Clear Out of Office manually: Profile (icon) > Set out of office"
    );
}

#[test]
fn ending_an_inactive_snooze_is_success() {
    assert_eq!(snooze_end_verdict(true, None), Ok(()));
    assert_eq!(snooze_end_verdict(false, Some("snooze_not_active")), Ok(()));
    assert_eq!(snooze_end_verdict(true, Some("snooze_not_active")), Ok(()));
    assert_eq!(
        snooze_end_verdict(false, Some("invalid_auth")),
        Err("Slack dnd.endSnooze: invalid_auth".to_string())
    );
    assert_eq!(snooze_end_verdict(false, None), Err("Slack dnd.endSnooze: ".to_string()));
}

#[test]
fn chat_failures_name_the_method() {
    assert_eq!(chat_verdict("users.profile.set", true, None), Ok(()));
    assert_eq!(chat_verdict("users.profile.set", true, Some("ignored")), Ok(()));
    assert_eq!(
        chat_verdict("users.profile.set", false, Some("invalid_auth")),
        Err("Slack users.profile.set: invalid_auth".to_string())
    );
    assert_eq!(chat_verdict("dnd.setSnooze", false, None), Err("Slack dnd.setSnooze: ".to_string()));
    assert_eq!(
        render_line(Service::Chat, &Outcome::Failure("SLACK_PAT not set".to_string())),
        "  Slack   \u{2717} SLACK_PAT not set"
    );
}

#[test]
fn clear_clears_everything() {
    let now = at(2025, 12, 17, 10, 0, 0);
    let request = Request::Clear;
    assert_eq!(chat_action(&request, None, &now.date), ServiceAction::ClearStatus);
    assert_eq!(snooze_action(&request, None, &now), SnoozeAction::EndAfter);
    assert_eq!(host_action(&request, None), ServiceAction::ClearStatus);
    assert_eq!(tracker_advice(&request, true), TrackerAdvice::RemindClear);
    assert_eq!(tracker_advice(&request, false), TrackerAdvice::NoChange);
    assert_eq!(
        render_line(Service::Chat, &chat_success(&request, None, &now.date)),
        "  Slack   \u{2713} Cleared (DND off)"
    );
}

#[test]
fn absence_text_tells_the_return() {
    let today = Date::from_ymd(2025, 12, 17).unwrap();
    let sick = find_status("sick").unwrap();
    let eod = find_status("eod").unwrap();
    let back = Some(at(2026, 1, 5, 9, 30, 0));
    assert_eq!(chat_text(&sick, back, &today, false), "Out sick. Back 1/5.");
    assert_eq!(chat_text(&sick, back, &today, true), "Out sick. Back 1/5 9:30am.");
    assert_eq!(chat_text(&sick, None, &today, true), "Out sick");
    assert_eq!(chat_text(&eod, back, &today, true), "Done for the day");
}

#[test]
fn host_mutation_text() {
    let away = find_status("away").unwrap();
    assert_eq!(
        host_mutation(&away, None, None),
        "mutation { changeUserStatus(input: { message: \"Out of office\", emoji: \":no_entry:\", limitedAvailability: true }) { status { message } } }"
    );
    assert_eq!(
        host_mutation(&away, Some("2026-01-05T15:00:00Z"), Some("O_1")),
        "mutation { changeUserStatus(input: { message: \"Out of office\", emoji: \":no_entry:\", limitedAvailability: true, expiresAt: \"2026-01-05T15:00:00Z\", organizationId: \"O_1\" }) { status { message } } }"
    );
    assert_eq!(
        host_mutation(&away, None, Some("O_1")),
        "mutation { changeUserStatus(input: { message: \"Out of office\", emoji: \":no_entry:\", limitedAvailability: true, organizationId: \"O_1\" }) { status { message } } }"
    );
}

#[test]
fn tracker_reads() {
    assert_eq!(asana_ooo_summary(&Ok(true)), Some("OOO is set".to_string()));
    assert_eq!(asana_ooo_summary(&Ok(false)), None);
    assert_eq!(asana_ooo_summary(&Err("ASANA_PAT not set".to_string())), None);
    assert!(!ooo_is_set(&vec![]));
    assert!(!ooo_is_set(&vec![false, false]));
    assert!(ooo_is_set(&vec![false, true]));
}

#[test]
fn report_lines_keep_the_order_of_the_services() {
    let report = vec![
        ReportEntry { service: Service::Chat, outcome: Outcome::Failure("SLACK_PAT not set".to_string()) },
        ReportEntry { service: Service::CodeHost, outcome: Outcome::Success("Cleared".to_string()) },
        ReportEntry { service: Service::Tracker, outcome: Outcome::Skipped },
    ];
    assert_eq!(
        render_report(&report),
        vec![
            "  Slack   \u{2717} SLACK_PAT not set".to_string(),
            "  GitHub  \u{2713} Cleared".to_string(),
            "  Asana   - No change".to_string(),
        ]
    );
    assert_eq!(render_report(&vec![]), Vec::<String>::new());
}

#[test]
fn tracker_is_read_only_where_it_matters() {
    for keyword in ["vacation", "sick", "away", "back", "clear"] {
        assert!(tracker_matters(&request_of(keyword).unwrap()));
    }
    for keyword in ["lunch", "zoom", "tuple", "meet", "eod"] {
        assert!(!tracker_matters(&request_of(keyword).unwrap()));
    }
}

#[test]
fn plan_gathers_the_three_decisions() {
    let now = at(2025, 12, 17, 10, 0, 0);
    let request = request_of("away").unwrap();
    let back = Some(at(2025, 12, 18, 7, 0, 0));
    assert_eq!(
        plan(&request, back, &now),
        DispatchPlan {
            chat: ServiceAction::SetStatus {
                text: "Out of office. Back Thursday.".to_string(),
                icon: ":no_entry:".to_string(),
                dnd_or_busy: true,
                expires_at: back,
            },
            snooze: SnoozeAction::Begin(21 * 60),
            host: ServiceAction::SetStatus {
                text: "Out of office".to_string(),
                icon: ":no_entry:".to_string(),
                dnd_or_busy: true,
                expires_at: back,
            },
            read_tracker: true,
        }
    );
    assert_eq!(
        plan(&Request::Clear, None, &now),
        DispatchPlan {
            chat: ServiceAction::ClearStatus,
            snooze: SnoozeAction::EndAfter,
            host: ServiceAction::ClearStatus,
            read_tracker: true,
        }
    );
}

#[test]
fn one_failure_leaves_the_other_services_alone() {
    let now = at(2025, 12, 17, 10, 0, 0);
    let request = request_of("vacation").unwrap();
    let report = build_report(
        &request,
        None,
        &now.date,
        false,
        Err("SLACK_PAT not set".to_string()),
        Ok(()),
        false,
    );
    assert_eq!(
        report,
        vec![
            ReportEntry { service: Service::Chat, outcome: Outcome::Failure("SLACK_PAT not set".to_string()) },
            ReportEntry { service: Service::CodeHost, outcome: Outcome::Success("Limited availability".to_string()) },
            ReportEntry {
                service: Service::Tracker,
                outcome: Outcome::Advisory(
                    "Set Out of Office manually: Profile (icon) > Set out of office".to_string()
                ),
            },
        ]
    );
    let report = build_report(&request, None, &now.date, false, Ok(()), Err("GITHUB_PAT not set".to_string()), true);
    assert_eq!(report[0].outcome, Outcome::Success("Vacation :desert_island: (DND on)".to_string()));
    assert_eq!(report[1].outcome, Outcome::Failure("GITHUB_PAT not set".to_string()));
    assert_eq!(report[2].outcome, Outcome::Success("Out of Office already set".to_string()));
    assert!(is_failure(&report[1].outcome));
    assert!(!is_failure(&report[0].outcome));
    assert!(!is_failure(&Outcome::Skipped));
    assert!(!is_failure(&Outcome::Advisory("x".to_string())));
}

#[test]
fn failing_to_end_the_snooze_is_told() {
    assert_eq!(
        render_line(Service::Chat, &snooze_end_failure("Slack dnd.endSnooze: invalid_auth")),
        "  Slack   \u{2717} ending DND: Slack dnd.endSnooze: invalid_auth"
    );
}
