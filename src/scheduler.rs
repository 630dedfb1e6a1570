use vstd::prelude::*;

use crate::text::same_text;

verus! {

/// Time between two automatic refreshes of the report, in milliseconds.
pub const REFRESH_INTERVAL_MS: u64 = 300000;

/// The decisions of the refresh loop. Times are milliseconds on a clock that
/// the caller keeps.
#[derive(Clone, Copy, Debug, PartialEq, Eq, Structural)]
pub struct RefreshScheduler {
    /// When the last refresh of the report started.
    pub last_update_ms: u64,
    /// The next tick treats the interval as elapsed.
    pub refresh_forced: bool,
    /// The next due refresh runs even while automatic updates are suppressed.
    pub manual_update: bool,
    /// Automatic updates are suppressed.
    pub stop_updating: bool,
    /// A flight plan is being loaded.
    pub loading_flight_plan: bool,
    /// The report is being refreshed.
    pub loading_data: bool,
    /// The account name changed since the last flight plan was requested.
    pub username_changed: bool,
}

/// What a tick asks the caller to start.
#[derive(Clone, Copy, Debug, PartialEq, Eq, Structural)]
pub struct TickActions {
    pub start_flight_plan: bool,
    pub start_data: bool,
}

/// What the save action of the credentials form leads to.
pub struct SaveDecision {
    /// The account name to store, if it changes.
    pub new_name: Option<String>,
    /// The API key to store, if it changes.
    pub new_key: Option<String>,
    /// Something was typed: the save counts, and the report is refreshed.
    pub saved: bool,
}

/// Whether the refresh interval is over at time `now`.
pub open spec fn interval_elapsed(s: RefreshScheduler, now: u64) -> bool {
    s.refresh_forced || (now >= s.last_update_ms && now - s.last_update_ms >= REFRESH_INTERVAL_MS)
}

/// Whether a tick at `now` starts a refresh of the report.
pub open spec fn data_due(s: RefreshScheduler, now: u64) -> bool {
    !s.loading_data && (!s.stop_updating || s.manual_update) && interval_elapsed(s, now)
}

/// Whether a tick starts loading the flight plan.
pub open spec fn flight_plan_due(s: RefreshScheduler, reload_clicked: bool) -> bool {
    !s.loading_flight_plan && (reload_clicked || s.username_changed)
}

/// The state after a tick at `now`.
pub open spec fn after_tick(s: RefreshScheduler, now: u64, reload_clicked: bool) -> RefreshScheduler {
    let s1 = if flight_plan_due(s, reload_clicked) {
        RefreshScheduler { loading_flight_plan: true, username_changed: false, ..s }
    } else {
        s
    };
    if data_due(s, now) {
        RefreshScheduler {
            last_update_ms: now,
            refresh_forced: false,
            manual_update: false,
            loading_data: true,
            ..s1
        }
    } else {
        s1
    }
}

/// The state after the user asks for a reload of the report; ignored while
/// one is running.
pub open spec fn after_reload(s: RefreshScheduler) -> RefreshScheduler {
    if s.loading_data {
        s
    } else {
        RefreshScheduler { refresh_forced: true, manual_update: true, ..s }
    }
}

/// The state after the credentials were saved.
pub open spec fn after_save(s: RefreshScheduler, name_changed: bool) -> RefreshScheduler {
    RefreshScheduler {
        refresh_forced: true,
        username_changed: s.username_changed || name_changed,
        ..s
    }
}

/// The state after a flight plan came in: its airports are refreshed at once,
/// suppressed or not.
pub open spec fn after_flight_plan(s: RefreshScheduler) -> RefreshScheduler {
    RefreshScheduler {
        loading_flight_plan: false,
        refresh_forced: true,
        manual_update: true,
        ..s
    }
}

/// `s` with surrounding white space removed, as `str::trim` does it.
pub uninterp spec fn trimmed_of(s: Seq<char>) -> Seq<char>;

/// Relies on `str::trim`, whose result depends on the characters of `s` alone.
#[verifier::external_body]
fn trim_text(s: &str) -> (r: String)
    ensures
        r@ == trimmed_of(s@),
{
    s.trim().to_string()
}

/// The value to store for one credential typed as `typed` (already trimmed)
/// where `stored` is held: the typed one, unless it is empty or unchanged.
pub open spec fn credential_change(typed: Seq<char>, stored: Seq<char>) -> Option<Seq<char>> {
    if typed.len() > 0 && typed != stored {
        Some(typed)
    } else {
        None
    }
}

impl RefreshScheduler {
    /// The scheduler at start-up, at time `now`: the flight plan is loaded at
    /// the first tick.
    pub fn new(now: u64) -> (r: Self)
        ensures
            r == (RefreshScheduler {
                last_update_ms: now,
                refresh_forced: false,
                manual_update: false,
                stop_updating: false,
                loading_flight_plan: false,
                loading_data: false,
                username_changed: true,
            }),
    {
        RefreshScheduler {
            last_update_ms: now,
            refresh_forced: false,
            manual_update: false,
            stop_updating: false,
            loading_flight_plan: false,
            loading_data: false,
            username_changed: true,
        }
    }

    /// Decides at time `now` what to start; `reload_clicked` tells whether the
    /// user asked for the flight plan.
    pub fn tick(&mut self, now: u64, reload_clicked: bool) -> (r: TickActions)
        ensures
            r == (TickActions {
                start_flight_plan: flight_plan_due(*old(self), reload_clicked),
                start_data: data_due(*old(self), now),
            }),
            *final(self) == after_tick(*old(self), now, reload_clicked),
    {
        let elapsed = self.refresh_forced || (now >= self.last_update_ms && now
            - self.last_update_ms >= REFRESH_INTERVAL_MS);
        let start_data = !self.loading_data && (!self.stop_updating || self.manual_update)
            && elapsed;
        let start_flight_plan = !self.loading_flight_plan && (reload_clicked
            || self.username_changed);
        if start_flight_plan {
            self.loading_flight_plan = true;
            self.username_changed = false;
        }
        if start_data {
            self.last_update_ms = now;
            self.refresh_forced = false;
            self.manual_update = false;
            self.loading_data = true;
        }
        TickActions { start_flight_plan, start_data }
    }

    /// The user asks for a reload of the report.
    pub fn reload_data(&mut self)
        ensures
            *final(self) == after_reload(*old(self)),
    {
        if !self.loading_data {
            self.refresh_forced = true;
            self.manual_update = true;
        }
    }

    /// The user switches the suppression of automatic updates.
    pub fn set_suppressed(&mut self, suppressed: bool)
        ensures
            *final(self) == (RefreshScheduler { stop_updating: suppressed, ..*old(self) }),
    {
        self.stop_updating = suppressed;
    }

    /// The credentials were saved; `name_changed` tells whether the account
    /// name is new, which calls for a new flight plan.
    pub fn credentials_saved(&mut self, name_changed: bool)
        ensures
            *final(self) == after_save(*old(self), name_changed),
    {
        self.refresh_forced = true;
        self.username_changed = self.username_changed || name_changed;
    }

    /// A flight plan came in.
    pub fn flight_plan_loaded(&mut self)
        ensures
            *final(self) == after_flight_plan(*old(self)),
    {
        self.loading_flight_plan = false;
        self.refresh_forced = true;
        self.manual_update = true;
    }

    /// The refresh of the report finished.
    pub fn data_loaded(&mut self)
        ensures
            *final(self) == (RefreshScheduler { loading_data: false, ..*old(self) }),
    {
        self.loading_data = false;
    }
}

/// Decides what the save action stores, given what was typed and what is
/// stored.
pub fn save_credentials(typed_name: &str, typed_key: &str, stored_name: &str, stored_key: &str) -> (r:
    SaveDecision)
    ensures
        r.saved == (trimmed_of(typed_name@).len() > 0 || trimmed_of(typed_key@).len() > 0),
        r.saved ==> crate::json::text_view(r.new_name) == credential_change(
            trimmed_of(typed_name@),
            stored_name@,
        ),
        r.saved ==> crate::json::text_view(r.new_key) == credential_change(
            trimmed_of(typed_key@),
            stored_key@,
        ),
        !r.saved ==> r.new_name is None && r.new_key is None,
{
    let name = trim_text(typed_name);
    let key = trim_text(typed_key);
    let saved = name.as_str().unicode_len() > 0 || key.as_str().unicode_len() > 0;
    if !saved {
        return SaveDecision { new_name: None, new_key: None, saved };
    }
    let new_name = if name.as_str().unicode_len() > 0 && !same_text(name.as_str(), stored_name) {
        Some(name)
    } else {
        None
    };
    let new_key = if key.as_str().unicode_len() > 0 && !same_text(key.as_str(), stored_key) {
        Some(key)
    } else {
        None
    };
    SaveDecision { new_name, new_key, saved }
}

/// A reload asked for by the user makes the next tick refresh the report,
/// whether or not the interval is over and automatic updates are suppressed,
/// unless a refresh is already running.
pub proof fn lemma_manual_reload_is_due(s: RefreshScheduler, now: u64)
    requires
        !s.loading_data,
    ensures
        data_due(after_reload(s), now),
{
}

/// While automatic updates are suppressed and no reload was asked for, a tick
/// starts no refresh of the report and keeps the time of the last one.
pub proof fn lemma_suppression_blocks_automatic(s: RefreshScheduler, now: u64, reload_clicked: bool)
    requires
        s.stop_updating,
        !s.manual_update,
    ensures
        !data_due(s, now),
        after_tick(s, now, reload_clicked).last_update_ms == s.last_update_ms,
        !after_tick(s, now, reload_clicked).manual_update,
{
}

/// Without suppression, a tick refreshes the report once the interval is over
/// and no refresh is running.
pub proof fn lemma_automatic_refresh_when_elapsed(s: RefreshScheduler, now: u64)
    requires
        !s.stop_updating,
        !s.loading_data,
        now >= s.last_update_ms,
        now - s.last_update_ms >= REFRESH_INTERVAL_MS,
    ensures
        data_due(s, now),
{
}

} // verus!
