//! Deciding, for a keyword and a resolved return time, what each presence
//! service is asked to do, and wording what came of it.

use vstd::prelude::*;
use vstd::string::*;
use crate::calendar::Date;
use crate::calendar::LocalDateTime;
use crate::catalog::find_status;
use crate::catalog::status_of;
use crate::catalog::Status;
use crate::formatter::format_horizon;
use crate::formatter::format_time;
use crate::formatter::horizon_text;
use crate::formatter::time_text;
use crate::resolver::input_view;
use crate::resolver::lunch_return;
use crate::resolver::return_of_tokens;
use crate::resolver::Fault;
use crate::resolver::parse_back_date;
use crate::resolver::parse_lunch_back_time;
use crate::resolver::ParseError;
use crate::text::spells;
use crate::text::to_chars;

verus! {

/// What a keyword asks for: to announce a status, to come back from one, or
/// to clear everything.
#[derive(Clone, Copy, Debug, PartialEq, Eq)]
pub enum Request {
    Announce(Status),
    Return(Status),
    Clear,
}

/// What a keyword asks for, if it is known.
pub open spec fn request_for(keyword: Seq<char>) -> Option<Request> {
    if keyword == "clear"@ {
        Some(Request::Clear)
    } else {
        match status_of(keyword) {
            Some(status) => if keyword == "back"@ {
                Some(Request::Return(status))
            } else {
                Some(Request::Announce(status))
            },
            None => None,
        }
    }
}

/// Reads a keyword: `clear`, `back`, or a status of the table. `None` for
/// an unknown keyword.
pub fn request_of(keyword: &str) -> (out: Option<Request>)
    ensures
        out == request_for(keyword@),
{
    let word = to_chars(keyword);
    if spells(&word, "clear") {
        return Some(Request::Clear);
    }
    match find_status(keyword) {
        Some(status) => if spells(&word, "back") {
            Some(Request::Return(status))
        } else {
            Some(Request::Announce(status))
        },
        None => None,
    }
}

/// The text shown for an unknown keyword: the keyword, then every valid one.
pub open spec fn unknown_keyword_text(keyword: Seq<char>) -> Seq<char> {
    "Unknown keyword: "@ + keyword
        + "\nAvailable: lunch, zoom, tuple, meet, eod, vacation, sick, away, back, clear"@
}

/// The message for an unknown keyword.
pub fn unknown_keyword_message(keyword: &str) -> (out: String)
    ensures
        out@ == unknown_keyword_text(keyword@),
{
    let mut out = String::from_str("Unknown keyword: ");
    out.append(keyword);
    out.append("\nAvailable: lunch, zoom, tuple, meet, eod, vacation, sick, away, back, clear");
    out
}

/// Whether the keyword is the one whose return is a time of today.
pub open spec fn is_lunch(keyword: Seq<char>) -> bool {
    keyword == "lunch"@
}

/// The return time that the arguments after the keyword name. For `lunch`
/// the first is a time token and a return time always results; for any other
/// keyword the first is a date token and the second a time token, and
/// without a first there is no return time.
pub open spec fn return_of_arguments(
    keyword: Seq<char>,
    first: Option<Seq<char>>,
    second: Option<Seq<char>>,
    now: LocalDateTime,
) -> Result<Option<LocalDateTime>, Fault> {
    if is_lunch(keyword) {
        match lunch_return(first, now) {
            Ok(back) => Ok(Some(back)),
            Err(fault) => Err(fault),
        }
    } else {
        match first {
            Some(date) => match return_of_tokens(date, second, now.date) {
                Ok(back) => Ok(Some(back)),
                Err(fault) => Err(fault),
            },
            None => Ok(None),
        }
    }
}

/// Resolves the arguments after the keyword into the return time. For
/// `lunch` the first argument is a time and the second is ignored; for every
/// other keyword the first is a date and the second a time.
pub fn resolve_return(
    keyword: &str,
    first: Option<&str>,
    second: Option<&str>,
    now: &LocalDateTime,
) -> (out: Result<Option<LocalDateTime>, ParseError>)
    requires
        now.time.wf(),
    ensures
        match return_of_arguments(keyword@, input_view(first), input_view(second), *now) {
            Ok(back) => out == Ok::<Option<LocalDateTime>, ParseError>(back),
            Err(fault) => out matches Err(e) && e@ == fault,
        },
        out matches Ok(Some(when)) ==> when.time.wf(),
{
    let word = to_chars(keyword);
    if spells(&word, "lunch") {
        match parse_lunch_back_time(first, now) {
            Ok(when) => Ok(Some(when)),
            Err(e) => Err(e),
        }
    } else {
        match first {
            Some(date) => match parse_back_date(date, second, &now.date) {
                Ok(when) => Ok(Some(when)),
                Err(e) => Err(e),
            },
            None => Ok(None),
        }
    }
}

/// What one service is asked to do.
#[derive(Debug, PartialEq, Eq)]
pub enum ServiceAction {
    SetStatus { text: String, icon: String, dnd_or_busy: bool, expires_at: Option<LocalDateTime> },
    ClearStatus,
    NoChange,
}

/// A service action with its texts as sequences of characters.
pub enum ActionView {
    SetStatus {
        text: Seq<char>,
        icon: Seq<char>,
        dnd_or_busy: bool,
        expires_at: Option<LocalDateTime>,
    },
    ClearStatus,
    NoChange,
}

impl View for ServiceAction {
    type V = ActionView;

    open spec fn view(&self) -> ActionView {
        match self {
            ServiceAction::SetStatus { text, icon, dnd_or_busy, expires_at } => ActionView::SetStatus {
                text: text@,
                icon: icon@,
                dnd_or_busy: *dnd_or_busy,
                expires_at: *expires_at,
            },
            ServiceAction::ClearStatus => ActionView::ClearStatus,
            ServiceAction::NoChange => ActionView::NoChange,
        }
    }
}

/// What happens to the chat service's snooze.
#[derive(Clone, Copy, Debug, PartialEq, Eq)]
pub enum SnoozeAction {
    /// Snooze for this many minutes, once the status is set.
    Begin(i64),
    /// End the snooze before the status is set.
    EndBefore,
    /// End the snooze once the status is cleared.
    EndAfter,
    /// Leave the snooze as it is.
    Leave,
}

/// What the user is told about the tracker's out-of-office flag, which no
/// program can write.
#[derive(Clone, Copy, Debug, PartialEq, Eq)]
pub enum TrackerAdvice {
    RemindSet,
    AlreadySet,
    RemindClear,
    NoChange,
}

/// Whether a status is a long absence: its chat text tells when the user is
/// back, and the tracker's out-of-office flag matters.
pub open spec fn is_absence(keyword: Seq<char>) -> bool {
    keyword == "vacation"@ || keyword == "sick"@ || keyword == "away"@
}

/// Whether a status is a long absence.
pub fn absence(status: &Status) -> (out: bool)
    ensures
        out == is_absence(status.keyword@),
{
    let word = to_chars(status.keyword);
    spells(&word, "vacation") || spells(&word, "sick") || spells(&word, "away")
}

/// The chat text of a status: for a long absence with a return time, the
/// display text, a full stop and the horizon text; else the display text.
pub open spec fn status_text(
    status: Status,
    back: Option<LocalDateTime>,
    today: Date,
    include_time: bool,
) -> Seq<char> {
    if back is Some && is_absence(status.keyword@) {
        status.slack_text@ + ". "@ + horizon_text(back.unwrap(), today, include_time)
    } else {
        status.slack_text@
    }
}

/// The chat text of a status.
pub fn chat_text(status: &Status, back: Option<LocalDateTime>, today: &Date, include_time: bool) -> (out:
    String)
    requires
        back matches Some(when) ==> when.time.wf(),
    ensures
        out@ == status_text(*status, back, *today, include_time),
{
    let mut out = String::from_str(status.slack_text);
    match back {
        Some(when) => {
            if absence(status) {
                out.append(". ");
                let horizon = format_horizon(&when, today, include_time);
                out.append(horizon.as_str());
            }
        },
        None => {},
    }
    out
}

/// Minutes of snooze: the whole minutes from `now` to the return time, or a
/// full day where there is no return time or it is less than a minute ahead.
pub open spec fn snooze_span(back: Option<LocalDateTime>, now: LocalDateTime) -> int {
    match back {
        Some(when) => if when.seconds() - now.seconds() >= 60 {
            (when.seconds() - now.seconds()) / 60
        } else {
            1440
        },
        None => 1440,
    }
}

/// Minutes of snooze for a status that asks for do-not-disturb.
pub fn snooze_minutes(back: Option<LocalDateTime>, now: &LocalDateTime) -> (out: i64)
    requires
        now.time.wf(),
        back matches Some(when) ==> when.time.wf(),
    ensures
        out == snooze_span(back, *now),
        out > 0,
{
    match back {
        Some(when) => {
            let span: i64 = when.seconds_from_origin() - now.seconds_from_origin();
            if span >= 60 {
                span / 60
            } else {
                1440
            }
        },
        None => 1440,
    }
}

/// What the chat service is asked to show.
pub open spec fn chat_plan(request: Request, back: Option<LocalDateTime>, today: Date) -> ActionView {
    match request {
        Request::Announce(status) => ActionView::SetStatus {
            text: status_text(status, back, today, false),
            icon: status.slack_emoji@,
            dnd_or_busy: status.slack_dnd,
            expires_at: back,
        },
        Request::Return(status) => ActionView::SetStatus {
            text: status_text(status, back, today, false),
            icon: status.slack_emoji@,
            dnd_or_busy: status.slack_dnd,
            expires_at: back,
        },
        Request::Clear => ActionView::ClearStatus,
    }
}

/// What the chat service is asked to show: the status with its text, icon
/// and expiry, or nothing at all for `clear`.
pub fn chat_action(request: &Request, back: Option<LocalDateTime>, today: &Date) -> (out:
    ServiceAction)
    requires
        back matches Some(when) ==> when.time.wf(),
    ensures
        out@ == chat_plan(*request, back, *today),
{
    match request {
        Request::Announce(status) => ServiceAction::SetStatus {
            text: chat_text(status, back, today, false),
            icon: String::from_str(status.slack_emoji),
            dnd_or_busy: status.slack_dnd,
            expires_at: back,
        },
        Request::Return(status) => ServiceAction::SetStatus {
            text: chat_text(status, back, today, false),
            icon: String::from_str(status.slack_emoji),
            dnd_or_busy: status.slack_dnd,
            expires_at: back,
        },
        Request::Clear => ServiceAction::ClearStatus,
    }
}

/// What happens to the snooze, as a spec.
pub open spec fn snooze_plan(request: Request, back: Option<LocalDateTime>, now: LocalDateTime) -> SnoozeAction {
    match request {
        Request::Announce(status) => if status.slack_dnd {
            SnoozeAction::Begin(snooze_span(back, now) as i64)
        } else {
            SnoozeAction::Leave
        },
        Request::Return(_) => SnoozeAction::EndBefore,
        Request::Clear => SnoozeAction::EndAfter,
    }
}

/// What happens to the snooze: begun for a status that asks for
/// do-not-disturb, ended on `back` and `clear` whether or not one is active.
pub fn snooze_action(request: &Request, back: Option<LocalDateTime>, now: &LocalDateTime) -> (out:
    SnoozeAction)
    requires
        now.time.wf(),
        back matches Some(when) ==> when.time.wf(),
    ensures
        out == snooze_plan(*request, back, *now),
{
    match request {
        Request::Announce(status) => if status.slack_dnd {
            SnoozeAction::Begin(snooze_minutes(back, now))
        } else {
            SnoozeAction::Leave
        },
        Request::Return(_) => SnoozeAction::EndBefore,
        Request::Clear => SnoozeAction::EndAfter,
    }
}

/// What the code host is asked to do, as a spec.
pub open spec fn host_plan(request: Request, back: Option<LocalDateTime>) -> ActionView {
    match request {
        Request::Announce(status) => if status.github_busy {
            ActionView::SetStatus {
                text: status.slack_text@,
                icon: status.slack_emoji@,
                dnd_or_busy: true,
                expires_at: back,
            }
        } else {
            ActionView::NoChange
        },
        Request::Return(_) => ActionView::ClearStatus,
        Request::Clear => ActionView::ClearStatus,
    }
}

/// What the code host is asked to do: limited availability for a status
/// that asks for it, with the same expiry as the chat status; a cleared
/// status on `back` and `clear`; else no change.
pub fn host_action(request: &Request, back: Option<LocalDateTime>) -> (out: ServiceAction)
    ensures
        out@ == host_plan(*request, back),
{
    match request {
        Request::Announce(status) => if status.github_busy {
            ServiceAction::SetStatus {
                text: String::from_str(status.slack_text),
                icon: String::from_str(status.slack_emoji),
                dnd_or_busy: true,
                expires_at: back,
            }
        } else {
            ServiceAction::NoChange
        },
        Request::Return(_) => ServiceAction::ClearStatus,
        Request::Clear => ServiceAction::ClearStatus,
    }
}

/// What the user is told about the tracker, as a spec.
pub open spec fn tracker_plan(request: Request, ooo_set: bool) -> TrackerAdvice {
    match request {
        Request::Announce(status) => if is_absence(status.keyword@) {
            if ooo_set {
                TrackerAdvice::AlreadySet
            } else {
                TrackerAdvice::RemindSet
            }
        } else {
            TrackerAdvice::NoChange
        },
        _ => if ooo_set {
            TrackerAdvice::RemindClear
        } else {
            TrackerAdvice::NoChange
        },
    }
}

/// What the user is told about the tracker, given whether out of office
/// already appears set there.
pub fn tracker_advice(request: &Request, ooo_set: bool) -> (out: TrackerAdvice)
    ensures
        out == tracker_plan(*request, ooo_set),
{
    match request {
        Request::Announce(status) => if absence(status) {
            if ooo_set {
                TrackerAdvice::AlreadySet
            } else {
                TrackerAdvice::RemindSet
            }
        } else {
            TrackerAdvice::NoChange
        },
        _ => if ooo_set {
            TrackerAdvice::RemindClear
        } else {
            TrackerAdvice::NoChange
        },
    }
}

/// Whether any workspace membership carries vacation dates.
pub fn ooo_is_set(vacations: &Vec<bool>) -> (out: bool)
    ensures
        out == vacations@.contains(true),
{
    let mut i: usize = 0;
    while i < vacations.len()
        invariant
            i <= vacations@.len(),
            forall|j: int| 0 <= j < i ==> !vacations@[j],
        decreases vacations@.len() - i,
    {
        if vacations[i] {
            assert(vacations@[i as int] == true);
            return true;
        }
        i += 1;
    }
    false
}

/// A word on the tracker's out-of-office flag: only a read that succeeded
/// and found it set gives one.
pub fn asana_ooo_summary(read: &Result<bool, String>) -> (out: Option<String>)
    ensures
        match read {
            Ok(true) => out matches Some(text) && text@ == "OOO is set"@,
            _ => out is None,
        },
{
    match read {
        Ok(true) => Some(String::from_str("OOO is set")),
        _ => None,
    }
}

/// Whether the chat service's answer to ending the snooze counts as
/// success: it does where the service says so, and where it only says that
/// no snooze was active.
pub open spec fn snooze_end_ok(ok: bool, error: Option<Seq<char>>) -> bool {
    ok || error == Some("snooze_not_active"@)
}

/// The failure text for a call of the chat service.
pub open spec fn chat_failure_text(method: Seq<char>, error: Option<Seq<char>>) -> Seq<char> {
    "Slack "@ + method + ": "@ + match error {
        Some(e) => e,
        None => Seq::<char>::empty(),
    }
}

/// Judges the chat service's answer to a call of `method`.
pub fn chat_verdict(method: &str, ok: bool, error: Option<&str>) -> (out: Result<(), String>)
    ensures
        ok ==> out is Ok,
        !ok ==> (out matches Err(text) && text@ == chat_failure_text(method@, input_view(error))),
{
    if ok {
        return Ok(());
    }
    let mut text = String::from_str("Slack ");
    text.append(method);
    text.append(": ");
    match error {
        Some(e) => {
            text.append(e);
        },
        None => {
            assert(text@ + Seq::<char>::empty() =~= text@);
        },
    }
    Err(text)
}

/// Judges the chat service's answer to ending the snooze: ending a snooze
/// that was not active is a success.
pub fn snooze_end_verdict(ok: bool, error: Option<&str>) -> (out: Result<(), String>)
    ensures
        snooze_end_ok(ok, input_view(error)) ==> out is Ok,
        !snooze_end_ok(ok, input_view(error)) ==> (out matches Err(text) && text@
            == chat_failure_text("dnd.endSnooze"@, input_view(error))),
{
    let inactive = match error {
        Some(e) => {
            let word = to_chars(e);
            spells(&word, "snooze_not_active")
        },
        None => false,
    };
    if ok || inactive {
        Ok(())
    } else {
        chat_verdict("dnd.endSnooze", false, error)
    }
}

/// The input of the code host's status mutation.
pub open spec fn host_input_text(
    status: Status,
    expires: Option<Seq<char>>,
    scope: Option<Seq<char>>,
) -> Seq<char> {
    "message: \""@ + status.slack_text@ + "\", emoji: \""@ + status.slack_emoji@
        + "\", limitedAvailability: true"@ + match expires {
        Some(at) => ", expiresAt: \""@ + at + "\""@,
        None => Seq::<char>::empty(),
    } + match scope {
        Some(id) => ", organizationId: \""@ + id + "\""@,
        None => Seq::<char>::empty(),
    }
}

/// The code host's status mutation.
pub open spec fn host_mutation_text(
    status: Status,
    expires: Option<Seq<char>>,
    scope: Option<Seq<char>>,
) -> Seq<char> {
    "mutation { changeUserStatus(input: { "@ + host_input_text(status, expires, scope)
        + " }) { status { message } } }"@
}

/// Writes the code host's mutation that marks limited availability with the
/// status's text and icon, the expiry where there is one and the
/// organization where one is configured.
pub fn host_mutation(status: &Status, expires: Option<&str>, scope: Option<&str>) -> (out: String)
    ensures
        out@ == host_mutation_text(*status, input_view(expires), input_view(scope)),
{
    let mut input = String::from_str("message: \"");
    input.append(status.slack_text);
    input.append("\", emoji: \"");
    input.append(status.slack_emoji);
    input.append("\", limitedAvailability: true");
    let ghost base = input@;
    match expires {
        Some(at) => {
            input.append(", expiresAt: \"");
            input.append(at);
            input.append("\"");
            assert(input@ =~= base + (", expiresAt: \""@ + at@ + "\""@));
        },
        None => {
            assert(input@ =~= base + Seq::<char>::empty());
        },
    }
    let ghost mid = input@;
    match scope {
        Some(id) => {
            input.append(", organizationId: \"");
            input.append(id);
            input.append("\"");
            assert(input@ =~= mid + (", organizationId: \""@ + id@ + "\""@));
        },
        None => {
            assert(input@ =~= mid + Seq::<char>::empty());
        },
    }
    assert(input@ == host_input_text(*status, input_view(expires), input_view(scope)));
    let mut out = String::from_str("mutation { changeUserStatus(input: { ");
    out.append(input.as_str());
    out.append(" }) { status { message } } }");
    out
}

/// What came of one service's action.
#[derive(Debug, PartialEq, Eq)]
pub enum Outcome {
    Success(String),
    Failure(String),
    Advisory(String),
    Skipped,
}

/// An outcome with its message as a sequence of characters.
pub enum OutcomeView {
    Success(Seq<char>),
    Failure(Seq<char>),
    Advisory(Seq<char>),
    Skipped,
}

impl View for Outcome {
    type V = OutcomeView;

    open spec fn view(&self) -> OutcomeView {
        match self {
            Outcome::Success(text) => OutcomeView::Success(text@),
            Outcome::Failure(text) => OutcomeView::Failure(text@),
            Outcome::Advisory(text) => OutcomeView::Advisory(text@),
            Outcome::Skipped => OutcomeView::Skipped,
        }
    }
}

/// The three services, in the order in which they are served.
#[derive(Clone, Copy, Debug, PartialEq, Eq)]
pub enum Service {
    Chat,
    CodeHost,
    Tracker,
}

/// The note on do-not-disturb that follows a status in the chat line.
pub open spec fn snooze_note(request: Request, back: Option<LocalDateTime>) -> Seq<char> {
    match request {
        Request::Announce(status) => if status.slack_dnd {
            match back {
                Some(when) => " (DND until "@ + time_text(when.time) + ")"@,
                None => " (DND on)"@,
            }
        } else {
            Seq::<char>::empty()
        },
        Request::Return(status) => if status.slack_dnd {
            match back {
                Some(when) => " (DND until "@ + time_text(when.time) + ")"@ + " (DND off)"@,
                None => " (DND on)"@ + " (DND off)"@,
            }
        } else {
            " (DND off)"@
        },
        Request::Clear => Seq::<char>::empty(),
    }
}

/// What the chat line says once the chat service was served.
pub open spec fn chat_success_text(request: Request, back: Option<LocalDateTime>, today: Date) -> Seq<
    char,
> {
    match request {
        Request::Announce(status) => status_text(status, back, today, true) + " "@
            + status.slack_emoji@ + snooze_note(request, back),
        Request::Return(status) => status_text(status, back, today, true) + " "@
            + status.slack_emoji@ + snooze_note(request, back),
        Request::Clear => "Cleared (DND off)"@,
    }
}

/// The outcome to report once the chat service was served.
pub fn chat_success(request: &Request, back: Option<LocalDateTime>, today: &Date) -> (out: Outcome)
    requires
        back matches Some(when) ==> when.time.wf(),
    ensures
        out@ == OutcomeView::Success(chat_success_text(*request, back, *today)),
{
    let (status, returning) = match request {
        Request::Announce(status) => (status, false),
        Request::Return(status) => (status, true),
        Request::Clear => {
            return Outcome::Success(String::from_str("Cleared (DND off)"));
        },
    };
    let mut text = chat_text(status, back, today, true);
    text.append(" ");
    text.append(status.slack_emoji);
    let ghost base = text@;
    if status.slack_dnd {
        match back {
            Some(when) => {
                text.append(" (DND until ");
                let time = format_time(&when);
                text.append(time.as_str());
                text.append(")");
                assert(text@ =~= base + (" (DND until "@ + time_text(when.time) + ")"@));
            },
            None => {
                text.append(" (DND on)");
            },
        }
    }
    if returning {
        text.append(" (DND off)");
        assert(text@ =~= base + snooze_note(*request, back));
    } else {
        assert(text@ =~= base + snooze_note(*request, back));
    }
    Outcome::Success(text)
}

/// What the code-host line says once the code host was served, or that
/// nothing was asked of it.
pub open spec fn host_outcome(request: Request, scoped: bool) -> OutcomeView {
    match request {
        Request::Announce(status) => if status.github_busy {
            if scoped {
                OutcomeView::Success("Limited availability"@ + " (Planning Center only)"@)
            } else {
                OutcomeView::Success("Limited availability"@)
            }
        } else {
            OutcomeView::Skipped
        },
        _ => OutcomeView::Success("Cleared"@),
    }
}

/// The outcome to report for the code host where its call, if any, went
/// well; `scoped` says whether an organization is configured.
pub fn host_success(request: &Request, scoped: bool) -> (out: Outcome)
    ensures
        out@ == host_outcome(*request, scoped),
{
    match request {
        Request::Announce(status) => if status.github_busy {
            let mut text = String::from_str("Limited availability");
            if scoped {
                text.append(" (Planning Center only)");
            }
            Outcome::Success(text)
        } else {
            Outcome::Skipped
        },
        _ => Outcome::Success(String::from_str("Cleared")),
    }
}

/// What the tracker line says for each piece of advice.
pub open spec fn tracker_outcome_of(advice: TrackerAdvice) -> OutcomeView {
    match advice {
        TrackerAdvice::RemindSet => OutcomeView::Advisory(
            "Set Out of Office manually: Profile (icon) > Set out of office"@,
        ),
        TrackerAdvice::AlreadySet => OutcomeView::Success("Out of Office already set"@),
        TrackerAdvice::RemindClear => OutcomeView::Advisory(
            "Clear Out of Office manually: Profile (icon) > Set out of office"@,
        ),
        TrackerAdvice::NoChange => OutcomeView::Skipped,
    }
}

/// The outcome to report for the tracker.
pub fn tracker_outcome(advice: TrackerAdvice) -> (out: Outcome)
    ensures
        out@ == tracker_outcome_of(advice),
{
    match advice {
        TrackerAdvice::RemindSet => Outcome::Advisory(
            String::from_str("Set Out of Office manually: Profile (icon) > Set out of office"),
        ),
        TrackerAdvice::AlreadySet => Outcome::Success(String::from_str("Out of Office already set")),
        TrackerAdvice::RemindClear => Outcome::Advisory(
            String::from_str("Clear Out of Office manually: Profile (icon) > Set out of office"),
        ),
        TrackerAdvice::NoChange => Outcome::Skipped,
    }
}

/// The label that starts a service's line.
pub open spec fn service_label(service: Service) -> Seq<char> {
    match service {
        Service::Chat => "  Slack   "@,
        Service::CodeHost => "  GitHub  "@,
        Service::Tracker => "  Asana   "@,
    }
}

/// One line of the report: the service's label, a mark for the kind of
/// outcome, and the message.
pub open spec fn line_text(service: Service, outcome: OutcomeView) -> Seq<char> {
    service_label(service) + match outcome {
        OutcomeView::Success(text) => "\u{2713} "@ + text,
        OutcomeView::Failure(text) => "\u{2717} "@ + text,
        OutcomeView::Advisory(text) => "! "@ + text,
        OutcomeView::Skipped => "- No change"@,
    }
}

/// Renders one line of the report.
pub fn render_line(service: Service, outcome: &Outcome) -> (out: String)
    ensures
        out@ == line_text(service, outcome@),
{
    let mut out = match service {
        Service::Chat => String::from_str("  Slack   "),
        Service::CodeHost => String::from_str("  GitHub  "),
        Service::Tracker => String::from_str("  Asana   "),
    };
    match outcome {
        Outcome::Success(text) => {
            out.append("\u{2713} ");
            out.append(text.as_str());
            assert(out@ =~= line_text(service, outcome@));
        },
        Outcome::Failure(text) => {
            out.append("\u{2717} ");
            out.append(text.as_str());
            assert(out@ =~= line_text(service, outcome@));
        },
        Outcome::Advisory(text) => {
            out.append("! ");
            out.append(text.as_str());
            assert(out@ =~= line_text(service, outcome@));
        },
        Outcome::Skipped => {
            out.append("- No change");
        },
    }
    out
}

/// Coming back is safe to repeat: ending a snooze that is not active counts
/// as success, as ending an active one does.
pub proof fn lemma_ending_inactive_snooze_succeeds(ok: bool)
    ensures
        snooze_end_ok(ok, Some("snooze_not_active"@)),
        snooze_end_ok(true, None),
{
}

/// Every request asks something of each of the three services: a status
/// that does not mark the code host busy says so as an explicit no-change.
pub proof fn lemma_host_always_answers(request: Request, back: Option<LocalDateTime>)
    ensures
        (request matches Request::Announce(status) && !status.github_busy) ==> host_plan(
            request,
            back,
        ) == ActionView::NoChange,
        (request matches Request::Announce(status) && status.github_busy) ==> (host_plan(
            request,
            back,
        ) matches ActionView::SetStatus { expires_at, .. } && expires_at == back),
        !(request is Announce) ==> host_plan(request, back) == ActionView::ClearStatus,
{
}

/// Whether the tracker's out-of-office flag bears on the request: it does
/// for a long absence, and for `back` and `clear`.
pub fn tracker_matters(request: &Request) -> (out: bool)
    ensures
        out == (tracker_plan(*request, true) != tracker_plan(*request, false)),
        out == !(request matches Request::Announce(status) && !is_absence(status.keyword@)),
{
    match request {
        Request::Announce(status) => absence(status),
        _ => true,
    }
}

/// One entry of the report: a service and what came of its action.
#[derive(Debug, PartialEq, Eq)]
pub struct ReportEntry {
    pub service: Service,
    pub outcome: Outcome,
}

/// Renders the report, one line for each entry, in the entries' order.
pub fn render_report(report: &Vec<ReportEntry>) -> (out: Vec<String>)
    ensures
        out@.len() == report@.len(),
        forall|i: int|
            0 <= i < report@.len() ==> (#[trigger] out@[i])@ == line_text(
                report@[i].service,
                report@[i].outcome@,
            ),
{
    let mut out: Vec<String> = Vec::new();
    let mut i: usize = 0;
    while i < report.len()
        invariant
            i <= report@.len(),
            out@.len() == i,
            forall|j: int|
                0 <= j < i ==> (#[trigger] out@[j])@ == line_text(
                    report@[j].service,
                    report@[j].outcome@,
                ),
        decreases report@.len() - i,
    {
        let line = render_line(report[i].service, &report[i].outcome);
        out.push(line);
        i += 1;
    }
    out
}

/// A status that asks for do-not-disturb and marks the code host busy
/// snoozes for the whole minutes until a return time at least a minute
/// ahead, and both services are given that return time as the expiry.
pub proof fn lemma_absence_shares_the_return(
    status: Status,
    back: LocalDateTime,
    now: LocalDateTime,
    today: Date,
)
    requires
        status.slack_dnd,
        status.github_busy,
        back.seconds() - now.seconds() >= 60,
        back.seconds() - now.seconds() <= i64::MAX,
    ensures
        snooze_plan(Request::Announce(status), Some(back), now) == SnoozeAction::Begin(
            ((back.seconds() - now.seconds()) / 60) as i64,
        ),
        chat_plan(Request::Announce(status), Some(back), today) matches ActionView::SetStatus {
            expires_at,
            ..
        } && expires_at == Some(back),
        host_plan(Request::Announce(status), Some(back)) matches ActionView::SetStatus {
            expires_at,
            dnd_or_busy,
            ..
        } && expires_at == Some(back) && dnd_or_busy,
{
}

/// Everything that a request asks of the services, decided before any of
/// them is served.
#[derive(Debug, PartialEq, Eq)]
pub struct DispatchPlan {
    pub chat: ServiceAction,
    pub snooze: SnoozeAction,
    pub host: ServiceAction,
    pub read_tracker: bool,
}

/// Decides what each service is asked to do for `request`, with the return
/// time `back`, as seen at `now`.
pub fn plan(request: &Request, back: Option<LocalDateTime>, now: &LocalDateTime) -> (out:
    DispatchPlan)
    requires
        now.time.wf(),
        back matches Some(until) ==> until.time.wf(),
    ensures
        out.chat@ == chat_plan(*request, back, now.date),
        out.snooze == snooze_plan(*request, back, *now),
        out.host@ == host_plan(*request, back),
        out.read_tracker == !(request matches Request::Announce(status) && !is_absence(
            status.keyword@,
        )),
{
    DispatchPlan {
        chat: chat_action(request, back, &now.date),
        snooze: snooze_action(request, back, now),
        host: host_action(request, back),
        read_tracker: tracker_matters(request),
    }
}

/// What is reported where ending the snooze ahead of a status failed.
pub fn snooze_end_failure(error: &str) -> (out: Outcome)
    ensures
        out@ == OutcomeView::Failure("ending DND: "@ + error@),
{
    let mut text = String::from_str("ending DND: ");
    text.append(error);
    Outcome::Failure(text)
}

/// What is reported for a service that was served: its success, or the
/// failure with the error's text.
pub open spec fn served_outcome(served: Result<(), String>, success: OutcomeView) -> OutcomeView {
    match served {
        Ok(_) => success,
        Err(error) => OutcomeView::Failure(error@),
    }
}

/// Builds the report from what came of each service: always three entries,
/// for chat, code host and tracker in that order, each judged on its own.
pub fn build_report(
    request: &Request,
    back: Option<LocalDateTime>,
    today: &Date,
    scoped: bool,
    chat: Result<(), String>,
    host: Result<(), String>,
    ooo_set: bool,
) -> (out: Vec<ReportEntry>)
    requires
        back matches Some(until) ==> until.time.wf(),
    ensures
        out@.len() == 3,
        out@[0].service == Service::Chat,
        out@[0].outcome@ == served_outcome(
            chat,
            OutcomeView::Success(chat_success_text(*request, back, *today)),
        ),
        out@[1].service == Service::CodeHost,
        out@[1].outcome@ == served_outcome(host, host_outcome(*request, scoped)),
        out@[2].service == Service::Tracker,
        out@[2].outcome@ == tracker_outcome_of(tracker_plan(*request, ooo_set)),
{
    let mut out: Vec<ReportEntry> = Vec::new();
    let first = match chat {
        Ok(_) => chat_success(request, back, today),
        Err(error) => Outcome::Failure(error),
    };
    out.push(ReportEntry { service: Service::Chat, outcome: first });
    let second = match host {
        Ok(_) => host_success(request, scoped),
        Err(error) => Outcome::Failure(error),
    };
    out.push(ReportEntry { service: Service::CodeHost, outcome: second });
    let third = tracker_outcome(tracker_advice(request, ooo_set));
    out.push(ReportEntry { service: Service::Tracker, outcome: third });
    out
}

/// Whether a line of the report goes to the error stream.
pub fn is_failure(outcome: &Outcome) -> (out: bool)
    ensures
        out == (outcome@ is Failure),
{
    match outcome {
        Outcome::Failure(_) => true,
        _ => false,
    }
}

} // verus!
