//! The mathematical model of the dashboard: its state as plain values and
//! every transition as a function from state to state.

use vstd::prelude::*;
use crate::email::{Email, FetchError};
use crate::text::{contains_ignoring_case, decimal};

verus! {

/// Milliseconds between two ticks of the input loop.
pub const TICK_RATE_MILLIS: u128 = 250;

/// Milliseconds after which a status message is cleared.
pub const STATUS_TIMEOUT_MILLIS: u128 = 5000;

/// The interaction context that decides what a key does.
#[derive(Clone, Copy, Debug, PartialEq, Eq, Structural)]
pub enum InputMode {
    Normal,
    Help,
    EmailView,
    Search,
}

/// The panel that is emphasised on screen.
#[derive(Clone, Copy, Debug, PartialEq, Eq, Structural)]
pub enum FocusPanel {
    EmailList,
    EmailContent,
}

/// A key press, reduced to what the state machine tells apart.
#[derive(Clone, Copy, Debug, PartialEq, Eq, Structural)]
pub enum Key {
    Char(char),
    Up,
    Down,
    Left,
    Right,
    Enter,
    Esc,
    Backspace,
    Other,
}

/// The cursor position after one step forward in a list of `len` entries.
pub open spec fn next_index(cursor: usize, len: nat) -> usize {
    if len == 0 {
        cursor
    } else if cursor + 1 < len {
        (cursor + 1) as usize
    } else {
        0
    }
}

/// The cursor position after one step backward in a list of `len` entries.
pub open spec fn previous_index(cursor: usize, len: nat) -> usize {
    if len == 0 {
        cursor
    } else if cursor > 0 {
        (cursor - 1) as usize
    } else {
        (len - 1) as usize
    }
}

/// The cursor brought into a list of `len` entries: unchanged if it fits,
/// else the last position, and 0 in an empty list.
pub open spec fn clamped_index(cursor: usize, len: nat) -> usize {
    if len == 0 {
        0
    } else if cursor < len {
        cursor
    } else {
        (len - 1) as usize
    }
}

/// The positions `0, 1, .., n - 1` in order.
pub open spec fn all_indices(n: nat) -> Seq<usize> {
    Seq::new(n, |i: int| i as usize)
}

/// Whether a message's subject, sender or body contains `query` when case
/// is ignored.
pub open spec fn email_matches(email: Email, query: Seq<char>) -> bool {
    ||| contains_ignoring_case(email.subject@, query)
    ||| contains_ignoring_case(email.sender@, query)
    ||| contains_ignoring_case(email.body@, query)
}

/// The positions below `upto` of the messages that match `query`, in
/// ascending order.
pub open spec fn matching_indices(emails: Seq<Email>, query: Seq<char>, upto: nat) -> Seq<usize>
    decreases upto,
{
    if upto == 0 {
        Seq::empty()
    } else {
        let earlier = matching_indices(emails, query, (upto - 1) as nat);
        if email_matches(emails[upto - 1], query) {
            earlier.push((upto - 1) as usize)
        } else {
            earlier
        }
    }
}

/// The filtered list that a search for `query` produces: every position
/// for the empty query, else the positions of the matching messages.
pub open spec fn search_result(emails: Seq<Email>, query: Seq<char>) -> Seq<usize> {
    if query.len() == 0 {
        all_indices(emails.len())
    } else {
        matching_indices(emails, query, emails.len())
    }
}

/// The status text after a search that found `count` messages.
pub open spec fn found_message(count: nat, query: Seq<char>) -> Seq<char> {
    "Found "@ + decimal(count) + " emails matching '"@ + query + "'"@
}

/// The status text after a search that found nothing.
pub open spec fn not_found_message(query: Seq<char>) -> Seq<char> {
    "No emails found matching '"@ + query + "'"@
}

/// The status text after a failed fetch.
pub open spec fn fetch_failed_message(description: Seq<char>) -> Seq<char> {
    "Failed to fetch emails: "@ + description
}

/// The status text after a successful fetch.
pub open spec fn refreshed_message() -> Seq<char> {
    "Emails refreshed successfully"@
}

/// The status text that announces the first fetch.
pub open spec fn loading_message() -> Seq<char> {
    "Loading emails..."@
}

/// The status text that answers the refresh key.
pub open spec fn refresh_disabled_message() -> Seq<char> {
    "Can't refresh emails during UI running. Restart app to refresh."@
}

/// The dashboard's state as plain values.
pub ghost struct AppView {
    /// The messages, in the order in which they were fetched.
    pub emails: Seq<Email>,
    /// Positions into `emails` that the list panel shows.
    pub filtered: Seq<usize>,
    /// The selected position in `filtered`.
    pub cursor: usize,
    pub mode: InputMode,
    pub focus: FocusPanel,
    /// The status text with the millisecond at which it was set.
    pub status: Option<(Seq<char>, u128)>,
    pub search_input: Seq<char>,
    pub should_quit: bool,
    pub loading: bool,
    /// The millisecond of the last tick.
    pub last_tick: u128,
}

impl AppView {
    /// The message list fits in memory. The filtered list holds valid
    /// positions in ascending order and is no longer than the message list.
    /// The cursor lies inside the filtered list unless that is empty.
    pub open spec fn wf(self) -> bool {
        &&& self.emails.len() <= usize::MAX
        &&& self.filtered.len() <= self.emails.len()
        &&& forall|i: int|
            0 <= i < self.filtered.len() ==> (#[trigger] self.filtered[i]) < self.emails.len()
        &&& forall|i: int, j: int|
            0 <= i < j < self.filtered.len() ==> (#[trigger] self.filtered[i])
                < (#[trigger] self.filtered[j])
        &&& self.filtered.len() > 0 ==> self.cursor < self.filtered.len()
    }

    /// The state of a dashboard that has just been created.
    pub open spec fn initial() -> AppView {
        AppView {
            emails: Seq::empty(),
            filtered: Seq::empty(),
            cursor: 0,
            mode: InputMode::Normal,
            focus: FocusPanel::EmailList,
            status: None,
            search_input: Seq::empty(),
            should_quit: false,
            loading: false,
            last_tick: 0,
        }
    }

    /// The message at `position` of the filtered list, if there is one.
    pub open spec fn get(self, position: usize) -> Option<Email> {
        if position < self.filtered.len() {
            Some(self.emails[self.filtered[position as int] as int])
        } else {
            None
        }
    }

    /// The message under the cursor, if the filtered list is not empty.
    pub open spec fn selected(self) -> Option<Email> {
        self.get(self.cursor)
    }

    pub open spec fn with_mode(self, mode: InputMode) -> AppView {
        AppView { mode, ..self }
    }

    pub open spec fn with_focus(self, focus: FocusPanel) -> AppView {
        AppView { focus, ..self }
    }

    pub open spec fn with_cursor(self, cursor: usize) -> AppView {
        AppView { cursor, ..self }
    }

    pub open spec fn with_quit(self) -> AppView {
        AppView { should_quit: true, ..self }
    }

    pub open spec fn with_loading(self) -> AppView {
        AppView { loading: true, ..self }
    }

    pub open spec fn with_search_input(self, search_input: Seq<char>) -> AppView {
        AppView { search_input, ..self }
    }

    /// The tick interval starts anew at the millisecond `now`.
    pub open spec fn with_last_tick(self, now: u128) -> AppView {
        AppView { last_tick: now, ..self }
    }

    /// A new status message replaces the old one and ends loading.
    pub open spec fn with_status(self, text: Seq<char>, now: u128) -> AppView {
        AppView { status: Some((text, now)), loading: false, ..self }
    }

    /// Whether the status message is at least `timeout` milliseconds old.
    pub open spec fn status_is_stale(self, now: u128, timeout: u128) -> bool {
        match self.status {
            Some((_, created)) => now - created >= timeout,
            None => false,
        }
    }

    /// A stale status message is cleared; a fresh one stays.
    pub open spec fn expire_status(self, now: u128, timeout: u128) -> AppView {
        if self.status_is_stale(now, timeout) {
            AppView { status: None, ..self }
        } else {
            self
        }
    }

    pub open spec fn moved_next(self) -> AppView {
        self.with_cursor(next_index(self.cursor, self.filtered.len()))
    }

    pub open spec fn moved_previous(self) -> AppView {
        self.with_cursor(previous_index(self.cursor, self.filtered.len()))
    }

    pub open spec fn jumped_first(self) -> AppView {
        if self.filtered.len() == 0 {
            self
        } else {
            self.with_cursor(0)
        }
    }

    pub open spec fn jumped_last(self) -> AppView {
        if self.filtered.len() == 0 {
            self
        } else {
            self.with_cursor((self.filtered.len() - 1) as usize)
        }
    }

    /// The filtered list becomes the result of the search. The cursor
    /// returns to 0 unless nothing was found. A query that is not empty
    /// leaves a status message with the outcome.
    pub open spec fn searched(self, query: Seq<char>, now: u128) -> AppView {
        let filtered = search_result(self.emails, query);
        let cursor = if filtered.len() > 0 {
            0
        } else {
            self.cursor
        };
        let shown = AppView { filtered, cursor, ..self };
        if query.len() == 0 {
            shown
        } else if filtered.len() == 0 {
            shown.with_status(not_found_message(query), now)
        } else {
            shown.with_status(found_message(filtered.len(), query), now)
        }
    }

    /// A new message list is installed: every message is shown and the
    /// cursor is brought into bounds.
    pub open spec fn replaced(self, emails: Seq<Email>) -> AppView {
        AppView {
            emails,
            filtered: all_indices(emails.len()),
            cursor: clamped_index(self.cursor, emails.len()),
            ..self
        }
    }

    /// The outcome of a fetch is taken in: fetched messages replace the
    /// list, a failure leaves it alone, and either leaves a status message.
    pub open spec fn fetched(self, outcome: Result<Vec<Email>, FetchError>, now: u128) -> AppView {
        match outcome {
            Ok(emails) => self.replaced(emails@).with_status(refreshed_message(), now),
            Err(error) => self.with_status(fetch_failed_message(error.description@), now),
        }
    }

    /// What a key does in `Normal` mode.
    pub open spec fn step_normal(self, key: Key, now: u128) -> AppView {
        match key {
            Key::Char(c) => {
                if c == 'q' {
                    self.with_quit()
                } else if c == '?' {
                    self.with_mode(InputMode::Help)
                } else if c == 'r' {
                    self.with_status(refresh_disabled_message(), now)
                } else if c == '/' {
                    self.with_mode(InputMode::Search).with_search_input(Seq::empty())
                } else if c == 'j' {
                    self.moved_next()
                } else if c == 'k' {
                    self.moved_previous()
                } else if c == 'l' {
                    self.entering_view()
                } else if c == 'h' {
                    self.with_focus(FocusPanel::EmailList)
                } else if c == 'g' {
                    self.jumped_first()
                } else if c == 'G' {
                    self.jumped_last()
                } else {
                    self
                }
            },
            Key::Down => self.moved_next(),
            Key::Up => self.moved_previous(),
            Key::Right => self.entering_view(),
            Key::Enter => self.entering_view(),
            Key::Left => self.with_focus(FocusPanel::EmailList),
            _ => self,
        }
    }

    /// The selected message is opened, if there is one.
    pub open spec fn entering_view(self) -> AppView {
        if self.filtered.len() > 0 {
            self.with_mode(InputMode::EmailView).with_focus(FocusPanel::EmailContent)
        } else {
            self
        }
    }

    /// The message view is left for the list.
    pub open spec fn leaving_view(self) -> AppView {
        self.with_mode(InputMode::Normal).with_focus(FocusPanel::EmailList)
    }

    /// What a key does in `EmailView` mode.
    pub open spec fn step_email_view(self, key: Key) -> AppView {
        match key {
            Key::Char(c) => {
                if c == 'h' {
                    self.leaving_view()
                } else if c == 'j' {
                    self.moved_next()
                } else if c == 'k' {
                    self.moved_previous()
                } else if c == 'q' {
                    self.with_quit()
                } else if c == '?' {
                    self.with_mode(InputMode::Help)
                } else {
                    self
                }
            },
            Key::Esc => self.leaving_view(),
            Key::Left => self.leaving_view(),
            Key::Down => self.moved_next(),
            Key::Up => self.moved_previous(),
            _ => self,
        }
    }

    /// What a key does in `Help` mode: any key dismisses the help.
    pub open spec fn step_help(self) -> AppView {
        self.with_mode(InputMode::Normal)
    }

    /// What a key does in `Search` mode.
    pub open spec fn step_search(self, key: Key, now: u128) -> AppView {
        match key {
            Key::Esc => self.with_mode(InputMode::Normal).with_search_input(Seq::empty()).searched(
                Seq::empty(),
                now,
            ),
            Key::Enter => self.with_mode(InputMode::Normal).searched(self.search_input, now),
            Key::Char(c) => self.with_search_input(self.search_input.push(c)),
            Key::Backspace => if self.search_input.len() > 0 {
                self.with_search_input(self.search_input.drop_last())
            } else {
                self
            },
            _ => self,
        }
    }

    /// What a key does, by the current mode.
    pub open spec fn step(self, key: Key, now: u128) -> AppView {
        match self.mode {
            InputMode::Normal => self.step_normal(key, now),
            InputMode::EmailView => self.step_email_view(key),
            InputMode::Help => self.step_help(),
            InputMode::Search => self.step_search(key, now),
        }
    }

    /// Whether a tick is due: a full tick interval has passed since the
    /// last one.
    pub open spec fn tick_due(self, now: u128) -> bool {
        now - self.last_tick >= TICK_RATE_MILLIS
    }

    /// What the end of an input-loop round does: when a tick is due it is
    /// recorded and a stale status message is cleared.
    pub open spec fn ticked(self, now: u128) -> AppView {
        if self.tick_due(now) {
            self.with_last_tick(now).expire_status(now, STATUS_TIMEOUT_MILLIS)
        } else {
            self
        }
    }

    /// How long the input loop may wait for a key: what is left of the
    /// tick interval.
    pub open spec fn poll_timeout(self, now: u128) -> u128 {
        if now < self.last_tick {
            TICK_RATE_MILLIS
        } else if now - self.last_tick >= TICK_RATE_MILLIS {
            0
        } else {
            (TICK_RATE_MILLIS - (now - self.last_tick)) as u128
        }
    }
}

} // verus!
