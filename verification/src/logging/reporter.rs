//! Test sessions, their event logs, and report rendering.
use vstd::prelude::*;

use crate::error::ScenarioError;
use crate::ids::{new_uuid_string, now_rfc3339};
use crate::text::{chars_of, decimal, push_decimal, push_str, str_eq, to_owned_string};
use crate::types::{details_view, log_entries_view, EventDetails, LogEntry, LogEntryView, ReportFormat};

verus! {

/// Data for a test session
#[derive(Debug)]
pub struct TestSession {
    pub id: String,
    pub scenario_id: String,
    pub scenario_name: String,
    pub started_at: String,
    pub ended_at: Option<String>,
    pub status: String,
}

/// The abstract value of a [`TestSession`].
pub struct TestSessionView {
    pub id: Seq<char>,
    pub scenario_id: Seq<char>,
    pub scenario_name: Seq<char>,
    pub started_at: Seq<char>,
    pub ended_at: Option<Seq<char>>,
    pub status: Seq<char>,
}

/// The abstract value of an optional string.
pub open spec fn opt_string_view(o: Option<String>) -> Option<Seq<char>> {
    match o {
        Some(s) => Some(s@),
        None => None,
    }
}

impl View for TestSession {
    type V = TestSessionView;

    open spec fn view(&self) -> TestSessionView {
        TestSessionView {
            id: self.id@,
            scenario_id: self.scenario_id@,
            scenario_name: self.scenario_name@,
            started_at: self.started_at@,
            ended_at: opt_string_view(self.ended_at),
            status: self.status@,
        }
    }
}

impl Clone for TestSession {
    fn clone(&self) -> (r: Self)
        ensures
            r == *self,
    {
        let ended_at = match &self.ended_at {
            Some(e) => Some(e.clone()),
            None => None,
        };
        TestSession {
            id: self.id.clone(),
            scenario_id: self.scenario_id.clone(),
            scenario_name: self.scenario_name.clone(),
            started_at: self.started_at.clone(),
            ended_at,
            status: self.status.clone(),
        }
    }
}

/// Internal storage for a test session and its events
#[derive(Debug)]
pub struct TestSessionData {
    pub session: TestSession,
    pub events: Vec<LogEntry>,
}

/// What the logger holds for one session: its record and its events in
/// the order they were logged.
pub struct SessionRecord {
    pub session: TestSessionView,
    pub events: Seq<LogEntryView>,
}

/// The record of stored session data.
pub open spec fn record_of(d: TestSessionData) -> SessionRecord {
    SessionRecord { session: d.session@, events: log_entries_view(d.events@) }
}

/// The record of a session that has just been created.
pub open spec fn fresh_record(
    session_id: Seq<char>,
    scenario_id: Seq<char>,
    scenario_name: Seq<char>,
    now: Seq<char>,
) -> SessionRecord {
    SessionRecord {
        session: TestSessionView {
            id: session_id,
            scenario_id,
            scenario_name,
            started_at: now,
            ended_at: None,
            status: "running"@,
        },
        events: Seq::empty(),
    }
}

/// The log entry recorded for an event.
pub open spec fn event_view(
    entry_id: Seq<char>,
    session_id: Seq<char>,
    timestamp: Seq<char>,
    level: Seq<char>,
    message: Seq<char>,
    details: Option<(Seq<char>, Seq<char>)>,
) -> LogEntryView {
    LogEntryView { id: entry_id, session_id, timestamp, level, message, details }
}

/// A session record once the session has ended at `now` with `status`.
pub open spec fn ended_record(r: SessionRecord, status: Seq<char>, now: Seq<char>) -> SessionRecord {
    SessionRecord {
        session: TestSessionView { ended_at: Some(now), status: status, ..r.session },
        events: r.events,
    }
}

/// The sessions after a session is created (replacing any with its id).
pub open spec fn after_create(
    m: Map<Seq<char>, SessionRecord>,
    session_id: Seq<char>,
    scenario_id: Seq<char>,
    scenario_name: Seq<char>,
    now: Seq<char>,
) -> Map<Seq<char>, SessionRecord> {
    m.insert(session_id, fresh_record(session_id, scenario_id, scenario_name, now))
}

/// The sessions after event `e` is logged for `session_id`: appended to
/// its events; nothing changes for an unknown session.
pub open spec fn after_log(m: Map<Seq<char>, SessionRecord>, session_id: Seq<char>, e: LogEntryView) -> Map<
    Seq<char>,
    SessionRecord,
> {
    if m.contains_key(session_id) {
        m.insert(session_id, SessionRecord { session: m[session_id].session, events: m[session_id].events.push(e) })
    } else {
        m
    }
}

/// The sessions after `session_id` ends at `now` with `status`; nothing
/// changes for an unknown session.
pub open spec fn after_end(m: Map<Seq<char>, SessionRecord>, session_id: Seq<char>, status: Seq<char>, now: Seq<char>) -> Map<
    Seq<char>,
    SessionRecord,
> {
    if m.contains_key(session_id) {
        m.insert(session_id, ended_record(m[session_id], status, now))
    } else {
        m
    }
}

/// The events of a session, in the order they were logged (none for an
/// unknown session).
pub open spec fn events_of(m: Map<Seq<char>, SessionRecord>, session_id: Seq<char>) -> Seq<LogEntryView> {
    if m.contains_key(session_id) {
        m[session_id].events
    } else {
        Seq::empty()
    }
}

/// Test logger that manages sessions and their events
pub struct TestLogger {
    sessions: Vec<TestSessionData>,
}

impl TestLogger {
    /// Well-formedness: no two stored sessions share an id.
    #[verifier::type_invariant]
    closed spec fn wf(&self) -> bool {
        forall|i: int, j: int|
            0 <= i < self.sessions@.len() && 0 <= j < self.sessions@.len() && i != j
                ==> self.sessions@[i].session.id@ != self.sessions@[j].session.id@
    }

    /// Position of the session with id `k` in storage.
    closed spec fn pos(&self, k: Seq<char>) -> int {
        choose|i: int| 0 <= i < self.sessions@.len() && self.sessions@[i].session.id@ == k
    }
}

impl View for TestLogger {
    type V = Map<Seq<char>, SessionRecord>;

    closed spec fn view(&self) -> Map<Seq<char>, SessionRecord> {
        Map::new(
            |k: Seq<char>|
                exists|i: int| 0 <= i < self.sessions@.len() && self.sessions@[i].session.id@ == k,
            |k: Seq<char>| record_of(self.sessions@[self.pos(k)]),
        )
    }
}

impl TestLogger {
    proof fn lemma_lookup(&self, i: int)
        requires
            self.wf(),
            0 <= i < self.sessions@.len(),
        ensures
            self@.contains_key(self.sessions@[i].session.id@),
            self@[self.sessions@[i].session.id@] == record_of(self.sessions@[i]),
            self.pos(self.sessions@[i].session.id@) == i,
    {
        let k = self.sessions@[i].session.id@;
        assert(self@.dom().contains(k));
    }

    proof fn lemma_update(old_l: TestLogger, new_l: TestLogger, i: int, d: TestSessionData)
        requires
            old_l.wf(),
            0 <= i < old_l.sessions@.len(),
            d.session.id@ == old_l.sessions@[i].session.id@,
            new_l.sessions@ == old_l.sessions@.update(i, d),
        ensures
            new_l.wf(),
            new_l@ == old_l@.insert(d.session.id@, record_of(d)),
    {
        let target = old_l@.insert(d.session.id@, record_of(d));
        assert(new_l.wf());
        assert forall|k: Seq<char>| #[trigger] new_l@.contains_key(k) implies target.contains_key(k)
            && new_l@[k] == target[k] by {
            let j = new_l.pos(k);
            new_l.lemma_lookup(j);
            if j != i {
                old_l.lemma_lookup(j);
            }
        }
        assert forall|k: Seq<char>| #[trigger] target.contains_key(k) implies new_l@.contains_key(k) by {
            if k == d.session.id@ {
                new_l.lemma_lookup(i);
            } else {
                let j = old_l.pos(k);
                old_l.lemma_lookup(j);
                new_l.lemma_lookup(j);
            }
        }
        assert(new_l@ =~= target);
    }

    proof fn lemma_push(old_l: TestLogger, new_l: TestLogger, d: TestSessionData)
        requires
            old_l.wf(),
            !old_l@.contains_key(d.session.id@),
            new_l.sessions@ == old_l.sessions@.push(d),
        ensures
            new_l.wf(),
            new_l@ == old_l@.insert(d.session.id@, record_of(d)),
    {
        let n = old_l.sessions@.len() as int;
        let target = old_l@.insert(d.session.id@, record_of(d));
        assert forall|j: int| 0 <= j < n implies old_l.sessions@[j].session.id@ != d.session.id@ by {
            old_l.lemma_lookup(j);
        }
        assert(new_l.wf());
        assert forall|k: Seq<char>| #[trigger] new_l@.contains_key(k) implies target.contains_key(k)
            && new_l@[k] == target[k] by {
            let j = new_l.pos(k);
            new_l.lemma_lookup(j);
            if j != n {
                old_l.lemma_lookup(j);
            }
        }
        assert forall|k: Seq<char>| #[trigger] target.contains_key(k) implies new_l@.contains_key(k) by {
            if k == d.session.id@ {
                new_l.lemma_lookup(n);
            } else {
                let j = old_l.pos(k);
                old_l.lemma_lookup(j);
                new_l.lemma_lookup(j);
            }
        }
        assert(new_l@ =~= target);
    }

    /// Finds the storage position of a session.
    fn position(&self, session_id: &str) -> (r: Option<usize>)
        ensures
            match r {
                Some(i) => i < self.sessions@.len() && self.sessions@[i as int].session.id@
                    == session_id@,
                None => !self@.contains_key(session_id@),
            },
    {
        let mut i: usize = 0;
        while i < self.sessions.len()
            invariant
                i <= self.sessions@.len(),
                forall|j: int| 0 <= j < i ==> self.sessions@[j].session.id@ != session_id@,
            decreases self.sessions@.len() - i,
        {
            if str_eq(self.sessions[i].session.id.as_str(), session_id) {
                return Some(i);
            }
            i = i + 1;
        }
        None
    }

    /// Create a new, empty TestLogger
    pub fn new() -> (r: Self)
        ensures
            r@ == Map::<Seq<char>, SessionRecord>::empty(),
    {
        let r = TestLogger { sessions: Vec::new() };
        assert(r@ =~= Map::<Seq<char>, SessionRecord>::empty());
        r
    }

    /// Creates a session with the given id and start time, replacing any
    /// session that already has this id, and returns the id.
    pub fn create_session_at(
        &mut self,
        session_id: String,
        scenario_id: &str,
        scenario_name: &str,
        now: String,
    ) -> (r: String)
        ensures
            r@ == session_id@,
            final(self)@ == after_create(old(self)@, session_id@, scenario_id@, scenario_name@, now@),
    {
        let ghost old_self = *self;
        let session = TestSession {
            id: session_id.clone(),
            scenario_id: to_owned_string(scenario_id),
            scenario_name: to_owned_string(scenario_name),
            started_at: now,
            ended_at: None,
            status: to_owned_string("running"),
        };
        let data = TestSessionData { session, events: Vec::new() };
        let ghost rec = record_of(data);
        assert(rec == fresh_record(session_id@, scenario_id@, scenario_name@, now@)) by {
            assert(log_entries_view(data.events@) =~= Seq::<LogEntryView>::empty());
        }
        proof {
            use_type_invariant(&*self);
        }
        let pos = self.position(session_id.as_str());
        let mut v: Vec<TestSessionData> = Vec::new();
        std::mem::swap(&mut v, &mut self.sessions);
        match pos {
            Some(i) => {
                v.set(i, data);
                proof {
                    TestLogger::lemma_update(old_self, TestLogger { sessions: v }, i as int, data);
                }
            },
            None => {
                v.push(data);
                proof {
                    TestLogger::lemma_push(old_self, TestLogger { sessions: v }, data);
                }
            },
        }
        self.sessions = v;
        session_id
    }

    /// Create a new test session and return the session_id.
    ///
    /// The id is a fresh random identifier and the start time is the
    /// current time; everything else is as in [`TestLogger::create_session_at`].
    pub fn create_session(&mut self, scenario_id: &str, scenario_name: &str) -> (r: String)
        ensures
            exists|now: Seq<char>| final(self)@ == after_create(old(self)@, r@, scenario_id@, scenario_name@, now),
    {
        let session_id = new_uuid_string();
        let now = now_rfc3339();
        let ghost now_v = now@;
        let r = self.create_session_at(session_id, scenario_id, scenario_name, now);
        assert(final(self)@ == after_create(old(self)@, r@, scenario_id@, scenario_name@, now_v));
        r
    }

    /// Logs an event with the given entry id and timestamp for a session;
    /// an event for an unknown session is dropped.
    pub fn log_event_at(
        &mut self,
        session_id: &str,
        entry_id: String,
        timestamp: String,
        level: &str,
        message: &str,
        details: Option<EventDetails>,
    )
        ensures
            final(self)@ == after_log(
                old(self)@,
                session_id@,
                event_view(entry_id@, session_id@, timestamp@, level@, message@, details_view(details)),
            ),
    {
        let ghost old_self = *self;
        proof {
            use_type_invariant(&*self);
        }
        match self.position(session_id) {
            Some(i) => {
                proof {
                    old_self.lemma_lookup(i as int);
                }
                let mut v: Vec<TestSessionData> = Vec::new();
                std::mem::swap(&mut v, &mut self.sessions);
                let entry = LogEntry {
                    id: entry_id,
                    session_id: to_owned_string(session_id),
                    timestamp,
                    level: to_owned_string(level),
                    message: to_owned_string(message),
                    details,
                };
                v[i].events.push(entry);
                proof {
                    let d = v@[i as int];
                    assert(v@ == old_self.sessions@.update(i as int, d));
                    TestLogger::lemma_update(old_self, TestLogger { sessions: v }, i as int, d);
                    assert(log_entries_view(d.events@) =~= log_entries_view(
                        old_self.sessions@[i as int].events@,
                    ).push(entry@));
                }
                self.sessions = v;
            },
            None => {},
        }
    }

    /// Log an event for a session, stamped with a fresh id and the current time.
    pub fn log_event(
        &mut self,
        session_id: &str,
        level: &str,
        message: &str,
        details: Option<EventDetails>,
    )
        ensures
            exists|entry_id: Seq<char>, timestamp: Seq<char>|
                final(self)@ == after_log(
                    old(self)@,
                    session_id@,
                    event_view(entry_id, session_id@, timestamp, level@, message@, details_view(details)),
                ),
    {
        let entry_id = new_uuid_string();
        let timestamp = now_rfc3339();
        let ghost e = entry_id@;
        let ghost t = timestamp@;
        self.log_event_at(session_id, entry_id, timestamp, level, message, details);
        assert(final(self)@ == after_log(
            old(self)@,
            session_id@,
            event_view(e, session_id@, t, level@, message@, details_view(details)),
        ));
    }

    /// Marks a session as ended at `now` with a final status; an unknown
    /// session is left alone.
    pub fn end_session_at(&mut self, session_id: &str, status: &str, now: String)
        ensures
            final(self)@ == after_end(old(self)@, session_id@, status@, now@),
    {
        let ghost old_self = *self;
        proof {
            use_type_invariant(&*self);
        }
        match self.position(session_id) {
            Some(i) => {
                proof {
                    old_self.lemma_lookup(i as int);
                }
                let mut v: Vec<TestSessionData> = Vec::new();
                std::mem::swap(&mut v, &mut self.sessions);
                v[i].session.ended_at = Some(now);
                v[i].session.status = to_owned_string(status);
                proof {
                    let d = v@[i as int];
                    assert(v@ == old_self.sessions@.update(i as int, d));
                    TestLogger::lemma_update(old_self, TestLogger { sessions: v }, i as int, d);
                }
                self.sessions = v;
            },
            None => {},
        }
    }

    /// Mark a session as ended, at the current time, with a final status.
    pub fn end_session(&mut self, session_id: &str, status: &str)
        ensures
            exists|now: Seq<char>| final(self)@ == after_end(old(self)@, session_id@, status@, now),
    {
        let now = now_rfc3339();
        let ghost t = now@;
        self.end_session_at(session_id, status, now);
        assert(final(self)@ == after_end(old(self)@, session_id@, status@, t));
    }

    /// Get logs for a specific session (empty for an unknown session).
    pub fn get_session_logs(&self, session_id: &str) -> (r: Vec<LogEntry>)
        ensures
            log_entries_view(r@) == events_of(self@, session_id@),
    {
        proof {
            use_type_invariant(self);
        }
        match self.position(session_id) {
            Some(i) => {
                proof {
                    self.lemma_lookup(i as int);
                }
                let events = &self.sessions[i].events;
                let mut r: Vec<LogEntry> = Vec::new();
                let mut k: usize = 0;
                while k < events.len()
                    invariant
                        k <= events@.len(),
                        r@ == events@.take(k as int),
                    decreases events@.len() - k,
                {
                    r.push(events[k].clone());
                    k = k + 1;
                    assert(r@ =~= events@.take(k as int));
                }
                assert(events@.take(events@.len() as int) =~= events@);
                r
            },
            None => {
                let r: Vec<LogEntry> = Vec::new();
                assert(log_entries_view(r@) =~= Seq::<LogEntryView>::empty());
                r
            },
        }
    }

    /// Get a specific session
    pub fn get_session(&self, session_id: &str) -> (r: Option<TestSession>)
        ensures
            match r {
                Some(s) => self@.contains_key(session_id@) && s@ == self@[session_id@].session,
                None => !self@.contains_key(session_id@),
            },
    {
        proof {
            use_type_invariant(self);
        }
        match self.position(session_id) {
            Some(i) => {
                proof {
                    self.lemma_lookup(i as int);
                }
                Some(self.sessions[i].session.clone())
            },
            None => None,
        }
    }

    /// List all test sessions: each stored session exactly once.
    pub fn list_sessions(&self) -> (r: Vec<TestSession>)
        ensures
            forall|i: int|
                0 <= i < r@.len() ==> #[trigger] self@.contains_key(r@[i]@.id) && self@[r@[i]@.id].session
                    == r@[i]@,
            forall|k: Seq<char>|
                #[trigger] self@.contains_key(k) ==> exists|i: int| 0 <= i < r@.len() && r@[i]@.id == k,
            forall|i: int, j: int|
                0 <= i < r@.len() && 0 <= j < r@.len() && i != j ==> r@[i]@.id != r@[j]@.id,
    {
        proof {
            use_type_invariant(self);
        }
        let mut r: Vec<TestSession> = Vec::new();
        let mut k: usize = 0;
        while k < self.sessions.len()
            invariant
                self.wf(),
                k <= self.sessions@.len(),
                r@.len() == k,
                forall|i: int| 0 <= i < k ==> #[trigger] r@[i] == self.sessions@[i].session,
            decreases self.sessions@.len() - k,
        {
            r.push(self.sessions[k].session.clone());
            k = k + 1;
        }
        proof {
            assert forall|i: int| 0 <= i < r@.len() implies #[trigger] self@.contains_key(r@[i]@.id)
                && self@[r@[i]@.id].session == r@[i]@ by {
                self.lemma_lookup(i);
            }
            assert forall|key: Seq<char>| #[trigger] self@.contains_key(key) implies exists|i: int|
                0 <= i < r@.len() && r@[i]@.id == key by {
                let j = self.pos(key);
                assert(r@[j]@.id == key);
            }
        }
        r
    }

    /// The session and its events, for a JSON export.
    pub fn export_data(&self, session_id: &str) -> (r: Result<(TestSession, Vec<LogEntry>), ScenarioError>)
        ensures
            match r {
                Ok((s, es)) => self@.contains_key(session_id@) && s@ == self@[session_id@].session
                    && log_entries_view(es@) == self@[session_id@].events,
                Err(e) => !self@.contains_key(session_id@) && is_session_not_found(e, session_id@),
            },
    {
        match self.get_session(session_id) {
            Some(s) => {
                let es = self.get_session_logs(session_id);
                Ok((s, es))
            },
            None => Err(not_found_error(session_id)),
        }
    }

    /// Export session data as CSV text.
    pub fn export_csv(&self, session_id: &str) -> (r: Result<String, ScenarioError>)
        ensures
            match r {
                Ok(text) => self@.contains_key(session_id@) && text@ == csv_report(
                    self@[session_id@].events,
                ),
                Err(e) => !self@.contains_key(session_id@) && is_session_not_found(e, session_id@),
            },
    {
        proof {
            use_type_invariant(self);
        }
        match self.position(session_id) {
            Some(i) => {
                proof {
                    self.lemma_lookup(i as int);
                }
                Ok(render_csv_report(self.sessions[i].events.as_slice()))
            },
            None => Err(not_found_error(session_id)),
        }
    }

    /// Export session data as a simple HTML page.
    pub fn export_html(&self, session_id: &str) -> (r: Result<String, ScenarioError>)
        ensures
            match r {
                Ok(text) => self@.contains_key(session_id@) && text@ == html_report(
                    self@[session_id@].session,
                    self@[session_id@].events,
                ),
                Err(e) => !self@.contains_key(session_id@) && is_session_not_found(e, session_id@),
            },
    {
        proof {
            use_type_invariant(self);
        }
        match self.position(session_id) {
            Some(i) => {
                proof {
                    self.lemma_lookup(i as int);
                }
                Ok(render_html_report(&self.sessions[i].session, self.sessions[i].events.as_slice()))
            },
            None => Err(not_found_error(session_id)),
        }
    }

}


/// A fixed piece of the HTML report.
pub const HTML_HEAD: &'static str = "<!DOCTYPE html>\n<html lang=\"en\">\n<head>\n  <meta charset=\"UTF-8\">\n  <meta name=\"viewport\" content=\"width=device-width, initial-scale=1.0\">\n  <title>Test Report - ";

/// A fixed piece of the HTML report.
pub const HTML_STYLE: &'static str = "</title>\n  <style>\n    body { font-family: -apple-system, BlinkMacSystemFont, 'Segoe UI', Roboto, sans-serif; margin: 20px; background: #f5f5f5; }\n    h1 { color: #333; }\n    .summary { background: white; padding: 16px; border-radius: 8px; margin-bottom: 20px; box-shadow: 0 1px 3px rgba(0,0,0,0.1); }\n    .summary dt { font-weight: bold; color: #666; }\n    .summary dd { margin-bottom: 8px; }\n    table { width: 100%; border-collapse: collapse; background: white; border-radius: 8px; overflow: hidden; box-shadow: 0 1px 3px rgba(0,0,0,0.1); }\n    th { background: #4a5568; color: white; padding: 12px 16px; text-align: left; }\n    td { padding: 10px 16px; border-bottom: 1px solid #e2e8f0; }\n    tr:hover { background: #f7fafc; }\n    .level-info { color: #2b6cb0; }\n    .level-warn { color: #c05621; }\n    .level-error { color: #c53030; }\n    .status-completed { color: #2f855a; font-weight: bold; }\n    .status-failed { color: #c53030; font-weight: bold; }\n    .status-aborted { color: #c05621; font-weight: bold; }\n    .status-running { color: #2b6cb0; font-weight: bold; }\n  </style>\n</head>\n<body>\n  <h1>Test Report: ";

/// A fixed piece of the HTML report.
pub const HTML_SUMMARY_ID: &'static str = "</h1>\n  <div class=\"summary\">\n    <dl>\n      <dt>Session ID</dt><dd>";

/// A fixed piece of the HTML report.
pub const HTML_SUMMARY_SCENARIO: &'static str = "</dd>\n      <dt>Scenario</dt><dd>";

/// A fixed piece of the HTML report.
pub const HTML_SUMMARY_STARTED: &'static str = "</dd>\n      <dt>Started</dt><dd>";

/// A fixed piece of the HTML report.
pub const HTML_SUMMARY_ENDED: &'static str = "</dd>\n      <dt>Ended</dt><dd>";

/// A fixed piece of the HTML report.
pub const HTML_SUMMARY_STATUS: &'static str = "</dd>\n      <dt>Status</dt><dd class=\"status-";

/// A fixed piece of the HTML report.
pub const HTML_SUMMARY_STATUS_TEXT: &'static str = "\">";

/// A fixed piece of the HTML report.
pub const HTML_SUMMARY_TOTAL: &'static str = "</dd>\n      <dt>Total Events</dt><dd>";

/// A fixed piece of the HTML report.
pub const HTML_TABLE_HEAD: &'static str = "</dd>\n    </dl>\n  </div>\n  <h2>Events</h2>\n  <table>\n    <thead>\n      <tr><th>Timestamp</th><th>Level</th><th>Message</th><th>Details</th></tr>\n    </thead>\n    <tbody>\n";

/// A fixed piece of the HTML report.
pub const HTML_TAIL: &'static str = "    </tbody>\n  </table>\n</body>\n</html>\n";

/// A fixed piece of the HTML report.
pub const HTML_ROW_START: &'static str = "      <tr><td>";

/// A fixed piece of the HTML report.
pub const HTML_ROW_LEVEL_CLASS: &'static str = "</td><td class=\"level-";

/// A fixed piece of the HTML report.
pub const HTML_ROW_LEVEL: &'static str = "\">";

/// A fixed piece of the HTML report.
pub const HTML_ROW_MESSAGE: &'static str = "</td><td>";

/// A fixed piece of the HTML report.
pub const HTML_ROW_DETAILS: &'static str = "</td><td><pre>";

/// A fixed piece of the HTML report.
pub const HTML_ROW_END: &'static str = "</pre></td></tr>\n";

/// The ended-at cell of the summary: the escaped time, or `-`.
pub open spec fn html_ended(s: TestSessionView) -> Seq<char> {
    match s.ended_at {
        Some(t) => escape_html_spec(t),
        None => "-"@,
    }
}

/// One table row of the HTML report.
pub open spec fn html_row(e: LogEntryView) -> Seq<char> {
    HTML_ROW_START@ + escape_html_spec(e.timestamp) + HTML_ROW_LEVEL_CLASS@ + e.level + HTML_ROW_LEVEL@
        + escape_html_spec(e.level) + HTML_ROW_MESSAGE@ + escape_html_spec(e.message) + HTML_ROW_DETAILS@
        + escape_html_spec(details_pretty(e)) + HTML_ROW_END@
}

/// The table rows of a sequence of events.
pub open spec fn html_rows(es: Seq<LogEntryView>) -> Seq<char>
    decreases es.len(),
{
    if es.len() == 0 {
        Seq::empty()
    } else {
        html_rows(es.drop_last()) + html_row(es.last())
    }
}

/// The HTML report of a session: a summary followed by a table of events.
pub open spec fn html_report(s: TestSessionView, es: Seq<LogEntryView>) -> Seq<char> {
    HTML_HEAD@ + escape_html_spec(s.scenario_name) + HTML_STYLE@ + escape_html_spec(s.scenario_name)
        + HTML_SUMMARY_ID@ + escape_html_spec(s.id) + HTML_SUMMARY_SCENARIO@ + escape_html_spec(
        s.scenario_name,
    ) + HTML_SUMMARY_STARTED@ + escape_html_spec(s.started_at) + HTML_SUMMARY_ENDED@ + html_ended(s)
        + HTML_SUMMARY_STATUS@ + escape_html_spec(s.status) + HTML_SUMMARY_STATUS_TEXT@
        + escape_html_spec(s.status) + HTML_SUMMARY_TOTAL@ + decimal(es.len()) + HTML_TABLE_HEAD@
        + html_rows(es) + HTML_TAIL@
}

fn push_html_row(out: &mut String, e: &LogEntry)
    ensures
        final(out)@ == old(out)@ + html_row(e@),
{
    push_str(out, HTML_ROW_START);
    push_html_escaped(out, e.timestamp.as_str());
    push_str(out, HTML_ROW_LEVEL_CLASS);
    push_str(out, e.level.as_str());
    push_str(out, HTML_ROW_LEVEL);
    push_html_escaped(out, e.level.as_str());
    push_str(out, HTML_ROW_MESSAGE);
    push_html_escaped(out, e.message.as_str());
    push_str(out, HTML_ROW_DETAILS);
    match &e.details {
        Some(d) => push_html_escaped(out, d.pretty.as_str()),
        None => {
            assert(escape_html_spec(Seq::<char>::empty()) =~= Seq::<char>::empty());
        },
    }
    push_str(out, HTML_ROW_END);
    assert(out@ =~= old(out)@ + html_row(e@));
}

/// Renders the HTML report of a session and its events.
pub fn render_html_report(session: &TestSession, events: &[LogEntry]) -> (r: String)
    ensures
        r@ == html_report(session@, log_entries_view(events@)),
{
    let mut out = String::new();
    push_str(&mut out, HTML_HEAD);
    push_html_escaped(&mut out, session.scenario_name.as_str());
    push_str(&mut out, HTML_STYLE);
    push_html_escaped(&mut out, session.scenario_name.as_str());
    push_str(&mut out, HTML_SUMMARY_ID);
    push_html_escaped(&mut out, session.id.as_str());
    push_str(&mut out, HTML_SUMMARY_SCENARIO);
    push_html_escaped(&mut out, session.scenario_name.as_str());
    push_str(&mut out, HTML_SUMMARY_STARTED);
    push_html_escaped(&mut out, session.started_at.as_str());
    push_str(&mut out, HTML_SUMMARY_ENDED);
    match &session.ended_at {
        Some(t) => push_html_escaped(&mut out, t.as_str()),
        None => push_str(&mut out, "-"),
    }
    push_str(&mut out, HTML_SUMMARY_STATUS);
    push_html_escaped(&mut out, session.status.as_str());
    push_str(&mut out, HTML_SUMMARY_STATUS_TEXT);
    push_html_escaped(&mut out, session.status.as_str());
    push_str(&mut out, HTML_SUMMARY_TOTAL);
    push_decimal(&mut out, events.len() as u64);
    push_str(&mut out, HTML_TABLE_HEAD);
    let ghost prefix = out@;
    assert(prefix == HTML_HEAD@ + escape_html_spec(session@.scenario_name) + HTML_STYLE@
        + escape_html_spec(session@.scenario_name) + HTML_SUMMARY_ID@ + escape_html_spec(session@.id)
        + HTML_SUMMARY_SCENARIO@ + escape_html_spec(session@.scenario_name) + HTML_SUMMARY_STARTED@
        + escape_html_spec(session@.started_at) + HTML_SUMMARY_ENDED@ + html_ended(session@)
        + HTML_SUMMARY_STATUS@ + escape_html_spec(session@.status) + HTML_SUMMARY_STATUS_TEXT@
        + escape_html_spec(session@.status) + HTML_SUMMARY_TOTAL@ + decimal(
        log_entries_view(events@).len(),
    ) + HTML_TABLE_HEAD@);
    let mut i: usize = 0;
    while i < events.len()
        invariant
            i <= events@.len(),
            out@ == prefix + html_rows(log_entries_view(events@.take(i as int))),
        decreases events@.len() - i,
    {
        push_html_row(&mut out, &events[i]);
        let ghost es = log_entries_view(events@.take(i + 1));
        assert(es.drop_last() =~= log_entries_view(events@.take(i as int)));
        i = i + 1;
        assert(out@ =~= prefix + html_rows(log_entries_view(events@.take(i as int))));
    }
    assert(events@.take(events@.len() as int) =~= events@);
    push_str(&mut out, HTML_TAIL);
    out
}

// ---------------------------------------------------------------------
// Laws of the logger
// ---------------------------------------------------------------------

/// Reading back a log: after an event is logged for a known session, the
/// session's events are those it had, followed by the new event.
pub proof fn law_logged_event_is_read_back(m: Map<Seq<char>, SessionRecord>, session_id: Seq<char>, e: LogEntryView)
    requires
        m.contains_key(session_id),
    ensures
        events_of(after_log(m, session_id, e), session_id) == events_of(m, session_id).push(e),
        after_log(m, session_id, e)[session_id].session == m[session_id].session,
{
}

/// Logging for one session changes no other session, and logging for an
/// unknown session changes nothing.
pub proof fn law_log_touches_only_its_session(
    m: Map<Seq<char>, SessionRecord>,
    session_id: Seq<char>,
    e: LogEntryView,
    other: Seq<char>,
)
    requires
        other != session_id,
    ensures
        after_log(m, session_id, e).contains_key(other) == m.contains_key(other),
        m.contains_key(other) ==> after_log(m, session_id, e)[other] == m[other],
        !m.contains_key(session_id) ==> after_log(m, session_id, e) == m,
{
}

/// A session that has just been created is running, has not ended, and
/// has no events; every other session is unchanged.
pub proof fn law_created_session_is_fresh(
    m: Map<Seq<char>, SessionRecord>,
    session_id: Seq<char>,
    scenario_id: Seq<char>,
    scenario_name: Seq<char>,
    now: Seq<char>,
    other: Seq<char>,
)
    requires
        other != session_id,
    ensures
        ({
            let m2 = after_create(m, session_id, scenario_id, scenario_name, now);
            &&& m2.contains_key(session_id)
            &&& events_of(m2, session_id) == Seq::<LogEntryView>::empty()
            &&& m2[session_id].session.status == "running"@
            &&& m2[session_id].session.ended_at is None
            &&& m2[session_id].session.started_at == now
            &&& m2.contains_key(other) == m.contains_key(other)
            &&& m.contains_key(other) ==> m2[other] == m[other]
        }),
{
}

/// Ending a session records its status and end time and keeps its events;
/// no other session changes.
pub proof fn law_end_keeps_events(
    m: Map<Seq<char>, SessionRecord>,
    session_id: Seq<char>,
    status: Seq<char>,
    now: Seq<char>,
    other: Seq<char>,
)
    requires
        m.contains_key(session_id),
        other != session_id,
    ensures
        ({
            let m2 = after_end(m, session_id, status, now);
            &&& events_of(m2, session_id) == events_of(m, session_id)
            &&& m2[session_id].session.status == status
            &&& m2[session_id].session.ended_at == Some(now)
            &&& m2[session_id].session.id == m[session_id].session.id
            &&& m2[session_id].session.started_at == m[session_id].session.started_at
            &&& m2.contains_key(other) == m.contains_key(other)
            &&& m.contains_key(other) ==> m2[other] == m[other]
        }),
{
}

/// `e` is the error reported for an unknown session.
pub open spec fn is_session_not_found(e: ScenarioError, session_id: Seq<char>) -> bool {
    e matches ScenarioError::ExecutionFailed(m) && m@ == "Session not found: "@ + session_id
}

fn not_found_error(session_id: &str) -> (e: ScenarioError)
    ensures
        is_session_not_found(e, session_id@),
{
    let mut m = String::new();
    push_str(&mut m, "Session not found: ");
    push_str(&mut m, session_id);
    ScenarioError::ExecutionFailed(m)
}

/// `"` doubled, as inside a quoted CSV field.
pub open spec fn csv_quote_char(c: char) -> Seq<char> {
    if c == '"' {
        seq!['"', '"']
    } else {
        seq![c]
    }
}

/// Every `"` in `s` doubled (`str::replace('"', "\"\"")`).
pub open spec fn csv_escape(s: Seq<char>) -> Seq<char>
    decreases s.len(),
{
    if s.len() == 0 {
        Seq::empty()
    } else {
        csv_escape(s.drop_last()) + csv_quote_char(s.last())
    }
}

/// HTML entity for a special character, or the character itself.
pub open spec fn html_escape_char(c: char) -> Seq<char> {
    if c == '&' {
        "&amp;"@
    } else if c == '<' {
        "&lt;"@
    } else if c == '>' {
        "&gt;"@
    } else if c == '"' {
        "&quot;"@
    } else if c == '\'' {
        "&#39;"@
    } else {
        seq![c]
    }
}

/// `s` with the HTML special characters `& < > " '` replaced by entities.
pub open spec fn escape_html_spec(s: Seq<char>) -> Seq<char>
    decreases s.len(),
{
    if s.len() == 0 {
        Seq::empty()
    } else {
        escape_html_spec(s.drop_last()) + html_escape_char(s.last())
    }
}

/// A character HTML gives a meaning to in text or attributes.
pub open spec fn is_html_special(c: char) -> bool {
    c == '&' || c == '<' || c == '>' || c == '"' || c == '\''
}

/// Escaping for HTML leaves no `<`, `>`, `"` or `'` in the text, and
/// changes nothing in a text without special characters.
pub proof fn law_escaped_html_is_inert(s: Seq<char>)
    ensures
        forall|k: int|
            0 <= k < escape_html_spec(s).len() ==> {
                let c = #[trigger] escape_html_spec(s)[k];
                c != '<' && c != '>' && c != '"' && c != '\''
            },
        (forall|k: int| 0 <= k < s.len() ==> !is_html_special(#[trigger] s[k])) ==> escape_html_spec(s) == s,
    decreases s.len(),
{
    reveal_strlit("&amp;");
    reveal_strlit("&lt;");
    reveal_strlit("&gt;");
    reveal_strlit("&quot;");
    reveal_strlit("&#39;");
    if s.len() > 0 {
        let p = s.drop_last();
        law_escaped_html_is_inert(p);
        let a = escape_html_spec(p);
        let b = html_escape_char(s.last());
        assert(escape_html_spec(s) == a + b);
        assert forall|k: int| 0 <= k < (a + b).len() implies {
            let c = #[trigger] (a + b)[k];
            c != '<' && c != '>' && c != '"' && c != '\''
        } by {
            if k >= a.len() {
                assert((a + b)[k] == b[k - a.len()]);
            } else {
                assert((a + b)[k] == a[k]);
            }
        }
        if forall|k: int| 0 <= k < s.len() ==> !is_html_special(#[trigger] s[k]) {
            assert forall|k: int| 0 <= k < p.len() implies !is_html_special(#[trigger] p[k]) by {
                assert(p[k] == s[k]);
            }
            assert(!is_html_special(s[s.len() - 1]));
            assert(a + b =~= s);
        }
    }
}

/// Quoting for CSV changes nothing in a text without `"`.
pub proof fn law_csv_escape_plain(s: Seq<char>)
    requires
        forall|k: int| 0 <= k < s.len() ==> #[trigger] s[k] != '"',
    ensures
        csv_escape(s) == s,
    decreases s.len(),
{
    if s.len() > 0 {
        let p = s.drop_last();
        assert forall|k: int| 0 <= k < p.len() implies #[trigger] p[k] != '"' by {
            assert(p[k] == s[k]);
        }
        law_csv_escape_plain(p);
        assert(s[s.len() - 1] != '"');
        assert(p + seq![s.last()] =~= s);
    }
}

/// Appends `s` with every `"` doubled.
fn push_csv_escaped(out: &mut String, s: &str)
    ensures
        final(out)@ == old(out)@ + csv_escape(s@),
{
    let v = chars_of(s);
    let mut i: usize = 0;
    while i < v.len()
        invariant
            i <= v@.len(),
            v@ == s@,
            out@ == old(out)@ + csv_escape(v@.take(i as int)),
        decreases v@.len() - i,
    {
        let c = v[i];
        if c == '"' {
            push_str(out, "\"\"");
            assert(seq!['"', '"'] =~= "\"\""@) by {
                reveal_strlit("\"\"");
            }
        } else {
            crate::text::push_char(out, c);
        }
        assert(v@.take(i + 1).drop_last() =~= v@.take(i as int));
        i = i + 1;
        assert(out@ =~= old(out)@ + csv_escape(v@.take(i as int)));
    }
    assert(v@.take(v@.len() as int) =~= v@);
}

/// Appends `s` with HTML special characters escaped.
fn push_html_escaped(out: &mut String, s: &str)
    ensures
        final(out)@ == old(out)@ + escape_html_spec(s@),
{
    let v = chars_of(s);
    let mut i: usize = 0;
    while i < v.len()
        invariant
            i <= v@.len(),
            v@ == s@,
            out@ == old(out)@ + escape_html_spec(v@.take(i as int)),
        decreases v@.len() - i,
    {
        let c = v[i];
        let ghost before = out@;
        if c == '&' {
            push_str(out, "&amp;");
        } else if c == '<' {
            push_str(out, "&lt;");
        } else if c == '>' {
            push_str(out, "&gt;");
        } else if c == '"' {
            push_str(out, "&quot;");
        } else if c == '\'' {
            push_str(out, "&#39;");
        } else {
            crate::text::push_char(out, c);
        }
        assert(out@ =~= before + html_escape_char(c));
        assert(v@.take(i + 1).drop_last() =~= v@.take(i as int));
        i = i + 1;
        assert(out@ =~= old(out)@ + escape_html_spec(v@.take(i as int)));
    }
    assert(v@.take(v@.len() as int) =~= v@);
}

/// Escape HTML special characters
pub fn escape_html(s: &str) -> (r: String)
    ensures
        r@ == escape_html_spec(s@),
{
    let mut r = String::new();
    push_html_escaped(&mut r, s);
    assert(r@ =~= escape_html_spec(s@));
    r
}

/// The compact JSON text of an entry's details, or nothing.
pub open spec fn details_compact(e: LogEntryView) -> Seq<char> {
    match e.details {
        Some((c, p)) => c,
        None => Seq::empty(),
    }
}

/// The pretty JSON text of an entry's details, or nothing.
pub open spec fn details_pretty(e: LogEntryView) -> Seq<char> {
    match e.details {
        Some((c, p)) => p,
        None => Seq::empty(),
    }
}

/// The header line of a CSV report.
pub const CSV_HEADER: &'static str = "id,session_id,timestamp,level,message,details\n";

/// One CSV line for a log entry.
pub open spec fn csv_row(e: LogEntryView) -> Seq<char> {
    e.id + ","@ + e.session_id + ","@ + e.timestamp + ","@ + e.level + ",\""@ + csv_escape(e.message)
        + "\",\""@ + csv_escape(details_compact(e)) + "\"\n"@
}

/// The CSV lines of a sequence of log entries.
pub open spec fn csv_rows(es: Seq<LogEntryView>) -> Seq<char>
    decreases es.len(),
{
    if es.len() == 0 {
        Seq::empty()
    } else {
        csv_rows(es.drop_last()) + csv_row(es.last())
    }
}

/// A CSV report: header line, then one line per event.
pub open spec fn csv_report(es: Seq<LogEntryView>) -> Seq<char> {
    CSV_HEADER@ + csv_rows(es)
}

fn push_csv_row(out: &mut String, e: &LogEntry)
    ensures
        final(out)@ == old(out)@ + csv_row(e@),
{
    push_str(out, e.id.as_str());
    push_str(out, ",");
    push_str(out, e.session_id.as_str());
    push_str(out, ",");
    push_str(out, e.timestamp.as_str());
    push_str(out, ",");
    push_str(out, e.level.as_str());
    push_str(out, ",\"");
    push_csv_escaped(out, e.message.as_str());
    push_str(out, "\",\"");
    match &e.details {
        Some(d) => push_csv_escaped(out, d.compact.as_str()),
        None => {
            assert(csv_escape(Seq::<char>::empty()) =~= Seq::<char>::empty());
        },
    }
    push_str(out, "\"\n");
    assert(out@ =~= old(out)@ + csv_row(e@));
}

/// Renders the CSV report of a sequence of events.
pub fn render_csv_report(events: &[LogEntry]) -> (r: String)
    ensures
        r@ == csv_report(log_entries_view(events@)),
{
    let mut out = String::new();
    push_str(&mut out, CSV_HEADER);
    let mut i: usize = 0;
    while i < events.len()
        invariant
            i <= events@.len(),
            out@ == CSV_HEADER@ + csv_rows(log_entries_view(events@.take(i as int))),
        decreases events@.len() - i,
    {
        push_csv_row(&mut out, &events[i]);
        let ghost es = log_entries_view(events@.take(i + 1));
        assert(es.drop_last() =~= log_entries_view(events@.take(i as int)));
        i = i + 1;
        assert(out@ =~= CSV_HEADER@ + csv_rows(log_entries_view(events@.take(i as int))));
    }
    assert(events@.take(events@.len() as int) =~= events@);
    out
}

/// The report format a name asks for: `json`, `csv` or `html`.
pub open spec fn report_format_spec(name: Seq<char>) -> Option<ReportFormat> {
    if name == "json"@ {
        Some(ReportFormat::Json)
    } else if name == "csv"@ {
        Some(ReportFormat::Csv)
    } else if name == "html"@ {
        Some(ReportFormat::Html)
    } else {
        None
    }
}

/// The report format a name asks for, or the error that lists the formats.
pub fn report_format(name: &str) -> (r: Result<ReportFormat, String>)
    ensures
        match report_format_spec(name@) {
            Some(f) => r == Ok::<ReportFormat, String>(f),
            None => r matches Err(e) && e@ == "Unsupported export format: "@ + name@
                + ". Use 'json', 'csv', or 'html'."@,
        },
{
    if str_eq(name, "json") {
        Ok(ReportFormat::Json)
    } else if str_eq(name, "csv") {
        Ok(ReportFormat::Csv)
    } else if str_eq(name, "html") {
        Ok(ReportFormat::Html)
    } else {
        let mut m = to_owned_string("Unsupported export format: ");
        push_str(&mut m, name);
        push_str(&mut m, ". Use 'json', 'csv', or 'html'.");
        Err(m)
    }
}


/// The summary of the HTML report shows the session's own fields in its
/// cells: somewhere in the report, the Session ID cell holds the escaped
/// session id, followed by the Scenario cell with the escaped scenario
/// name and the Started cell with the escaped start time; the Ended cell
/// holds the escaped end time, or `-` while the session runs; the Status
/// cell holds the escaped status, and the Total Events cell the number of
/// events in decimal, just before the table.
pub proof fn law_html_summary_cells(s: TestSessionView, es: Seq<LogEntryView>)
    ensures
        exists|p: Seq<char>, q: Seq<char>|
            html_report(s, es) == p + HTML_SUMMARY_ID@ + escape_html_spec(s.id) + HTML_SUMMARY_SCENARIO@
                + escape_html_spec(s.scenario_name) + HTML_SUMMARY_STARTED@ + escape_html_spec(s.started_at)
                + HTML_SUMMARY_ENDED@ + q,
        exists|p: Seq<char>, q: Seq<char>|
            html_report(s, es) == p + HTML_SUMMARY_ENDED@ + html_ended(s) + HTML_SUMMARY_STATUS@ + escape_html_spec(s.status) + HTML_SUMMARY_STATUS_TEXT@
                + escape_html_spec(s.status) + HTML_SUMMARY_TOTAL@ + decimal(es.len()) + HTML_TABLE_HEAD@ + q,
{
    let p2 = HTML_HEAD@ + escape_html_spec(s.scenario_name) + HTML_STYLE@ + escape_html_spec(s.scenario_name)
        + HTML_SUMMARY_ID@ + escape_html_spec(s.id) + HTML_SUMMARY_SCENARIO@ + escape_html_spec(s.scenario_name)
        + HTML_SUMMARY_STARTED@ + escape_html_spec(s.started_at);
    let q2 = html_rows(es) + HTML_TAIL@;
    assert(html_report(s, es) =~= p2 + HTML_SUMMARY_ENDED@ + html_ended(s) + HTML_SUMMARY_STATUS@ + escape_html_spec(s.status) + HTML_SUMMARY_STATUS_TEXT@ + escape_html_spec(
        s.status,
    ) + HTML_SUMMARY_TOTAL@ + decimal(es.len()) + HTML_TABLE_HEAD@ + q2);
    let p = HTML_HEAD@ + escape_html_spec(s.scenario_name) + HTML_STYLE@ + escape_html_spec(s.scenario_name);
    let q = html_ended(s) + HTML_SUMMARY_STATUS@ + escape_html_spec(s.status) + HTML_SUMMARY_STATUS_TEXT@
        + escape_html_spec(s.status) + HTML_SUMMARY_TOTAL@ + decimal(es.len()) + HTML_TABLE_HEAD@
        + html_rows(es) + HTML_TAIL@;
    assert(html_report(s, es) =~= p + HTML_SUMMARY_ID@ + escape_html_spec(s.id) + HTML_SUMMARY_SCENARIO@
        + escape_html_spec(s.scenario_name) + HTML_SUMMARY_STARTED@ + escape_html_spec(s.started_at)
        + HTML_SUMMARY_ENDED@ + q);
}

} // verus!
