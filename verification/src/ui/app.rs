//! The application state machine.

use vstd::prelude::*;
use std::time::Instant;
use crate::email::{Email, EmailClient, FetchError};
use crate::text::{contains_folded, decimal_string, lowercase_of};
use crate::ui::laws::lemma_search_result_ordered;
use crate::ui::model::{
    all_indices, email_matches, loading_message, matching_indices, search_result, AppView,
    STATUS_TIMEOUT_MILLIS, TICK_RATE_MILLIS,
};
pub use crate::ui::model::{FocusPanel, InputMode, Key};

verus! {

/// A status text with the millisecond at which it was set.
pub struct StatusMessage {
    pub text: String,
    pub created: u128,
}

/// The dashboard: the message store, the selection, the mode and the
/// status line, changed only through the methods below.
pub struct App<T: EmailClient> {
    email_client: T,
    emails: Vec<Email>,
    filtered_emails: Vec<usize>,
    selected_index: usize,
    input_mode: InputMode,
    focus: FocusPanel,
    status_message: Option<StatusMessage>,
    search_input: String,
    should_quit: bool,
    loading: bool,
    started: Instant,
    last_tick: u128,
}

impl<T: EmailClient> View for App<T> {
    type V = AppView;

    closed spec fn view(&self) -> AppView {
        AppView {
            emails: self.emails@,
            filtered: self.filtered_emails@,
            cursor: self.selected_index,
            mode: self.input_mode,
            focus: self.focus,
            status: match self.status_message {
                Some(message) => Some((message.text@, message.created)),
                None => None,
            },
            search_input: self.search_input@,
            should_quit: self.should_quit,
            loading: self.loading,
            last_tick: self.last_tick,
        }
    }
}

/// The positions `0, 1, .., n - 1`.
fn every_index(n: usize) -> (indices: Vec<usize>)
    ensures
        indices@ == all_indices(n as nat),
{
    let mut indices: Vec<usize> = Vec::new();
    let mut i: usize = 0;
    while i < n
        invariant
            i <= n,
            indices@ == all_indices(i as nat),
        decreases n - i,
    {
        indices.push(i);
        i += 1;
        assert(indices@ =~= all_indices(i as nat));
    }
    indices
}

/// Whether the subject, sender or body of `email`, lower-cased, contains
/// `folded`, the lower-cased query.
fn matches_folded(email: &Email, folded: &str, Ghost(query): Ghost<Seq<char>>) -> (hit: bool)
    requires
        folded@ == lowercase_of(query),
    ensures
        hit == email_matches(*email, query),
{
    contains_folded(email.subject.as_str(), folded) || contains_folded(
        email.sender.as_str(),
        folded,
    ) || contains_folded(email.body.as_str(), folded)
}

/// The positions of the messages that a search for `query` shows.
fn find_matches(emails: &Vec<Email>, query: &str) -> (found: Vec<usize>)
    ensures
        found@ == search_result(emails@, query@),
{
    if query.is_empty() {
        return every_index(emails.len());
    }
    let folded = query.to_lowercase();
    let mut found: Vec<usize> = Vec::new();
    let mut i: usize = 0;
    while i < emails.len()
        invariant
            i <= emails.len(),
            folded@ == lowercase_of(query@),
            found@ == matching_indices(emails@, query@, i as nat),
        decreases emails.len() - i,
    {
        if matches_folded(&emails[i], folded.as_str(), Ghost(query@)) {
            found.push(i);
        }
        i += 1;
    }
    found
}

impl<T: EmailClient> App<T> {
    #[verifier::type_invariant]
    closed spec fn inv(&self) -> bool {
        self@.wf()
    }

    /// The client that the dashboard fetches through.
    pub closed spec fn client(&self) -> T {
        self.email_client
    }

    /// A dashboard with no messages, in `Normal` mode, with the list
    /// panel focused.
    pub fn new(email_client: T) -> (app: Self)
        ensures
            app@ == AppView::initial(),
            app@.wf(),
            app.client() == email_client,
    {
        App {
            email_client,
            emails: Vec::new(),
            filtered_emails: Vec::new(),
            selected_index: 0,
            input_mode: InputMode::Normal,
            focus: FocusPanel::EmailList,
            status_message: None,
            search_input: String::new(),
            should_quit: false,
            loading: false,
            started: Instant::now(),
            last_tick: 0,
        }
    }

    /// Milliseconds on the monotonic clock since the dashboard was
    /// created: the `now` of the methods that take none.
    pub fn now(&self) -> u128 {
        self.started.elapsed().as_millis()
    }

    /// Sets the status message at the millisecond `now` and ends loading.
    pub fn set_status_message_at(&mut self, message: String, now: u128)
        ensures
            final(self)@ == old(self)@.with_status(message@, now),
            final(self)@.wf(),
            final(self).client() == old(self).client(),
    {
        proof {
            use_type_invariant(&*self);
        }
        self.status_message = Some(StatusMessage { text: message, created: now });
        self.loading = false;
    }

    /// Sets the status message at the present time and ends loading.
    pub fn set_status_message(&mut self, message: String)
        ensures
            exists|now: u128| final(self)@ == old(self)@.with_status(message@, now),
            final(self)@.wf(),
            final(self).client() == old(self).client(),
    {
        let now = self.now();
        self.set_status_message_at(message, now);
    }

    /// Clears the status message if it is at least `timeout` milliseconds
    /// old at the millisecond `now`.
    pub fn expire_status_message_at(&mut self, now: u128, timeout: u128)
        ensures
            final(self)@ == old(self)@.expire_status(now, timeout),
            final(self)@.wf(),
            final(self).client() == old(self).client(),
    {
        proof {
            use_type_invariant(&*self);
        }
        let stale = match &self.status_message {
            Some(message) => now >= message.created && now - message.created >= timeout,
            None => false,
        };
        if stale {
            self.status_message = None;
        }
    }

    /// Shows the messages that match `query`, at the millisecond `now`.
    ///
    /// The empty query shows every message and leaves no status message.
    /// Any other query shows, in store order, the messages whose subject,
    /// sender or body contains it when case is ignored, and reports how
    /// many there are. The cursor returns to the top unless nothing is
    /// shown.
    pub fn search_at(&mut self, query: String, now: u128)
        ensures
            final(self)@ == old(self)@.searched(query@, now),
            final(self)@.wf(),
            final(self).client() == old(self).client(),
    {
        proof {
            use_type_invariant(&*self);
            lemma_search_result_ordered(self.emails@, query@);
        }
        let found = find_matches(&self.emails, query.as_str());
        let count = found.len();
        if count > 0 {
            self.selected_index = 0;
        }
        self.filtered_emails = found;
        if !query.as_str().is_empty() {
            if count == 0 {
                let mut text = "No emails found matching '".to_owned();
                text.append(query.as_str());
                text.append("'");
                self.set_status_message_at(text, now);
            } else {
                let mut text = "Found ".to_owned();
                text.append(decimal_string(count).as_str());
                text.append(" emails matching '");
                text.append(query.as_str());
                text.append("'");
                self.set_status_message_at(text, now);
            }
        }
    }

    /// Shows the messages that match `query`, at the present time.
    pub fn search(&mut self, query: String)
        ensures
            exists|now: u128| final(self)@ == old(self)@.searched(query@, now),
            final(self)@.wf(),
            final(self).client() == old(self).client(),
    {
        let now = self.now();
        self.search_at(query, now);
    }

    /// Installs a new message list: every message is shown, and the cursor
    /// stays where it fits, else moves to the last message, or to 0 when
    /// there is none.
    pub fn replace_all(&mut self, emails: Vec<Email>)
        ensures
            final(self)@ == old(self)@.replaced(emails@),
            final(self)@.wf(),
            final(self).client() == old(self).client(),
    {
        proof {
            use_type_invariant(&*self);
        }
        let count = emails.len();
        let indices = every_index(count);
        self.filtered_emails = Vec::new();
        self.emails = emails;
        if count == 0 {
            self.selected_index = 0;
        } else if self.selected_index >= count {
            self.selected_index = count - 1;
        }
        self.filtered_emails = indices;
    }

    /// Marks a fetch as under way.
    pub fn start_loading(&mut self)
        ensures
            final(self)@ == old(self)@.with_loading(),
            final(self)@.wf(),
            final(self).client() == old(self).client(),
    {
        proof {
            use_type_invariant(&*self);
        }
        self.loading = true;
    }

    /// Takes in the outcome of a fetch at the millisecond `now`.
    ///
    /// Fetched messages replace the list and the status reports success.
    /// A failure leaves the list and the mode alone and the status holds
    /// the failure's description. The result hands the failure on.
    pub fn apply_fetch_result_at(
        &mut self,
        outcome: Result<Vec<Email>, FetchError>,
        now: u128,
    ) -> (result: Result<(), FetchError>)
        ensures
            final(self)@ == old(self)@.fetched(outcome, now),
            final(self)@.wf(),
            final(self).client() == old(self).client(),
            match outcome {
                Ok(_) => result is Ok,
                Err(error) => result == Err::<(), FetchError>(error),
            },
    {
        match outcome {
            Ok(emails) => {
                self.replace_all(emails);
                self.set_status_message_at("Emails refreshed successfully".to_owned(), now);
                Ok(())
            },
            Err(error) => {
                let mut text = "Failed to fetch emails: ".to_owned();
                text.append(error.description.as_str());
                self.set_status_message_at(text, now);
                Err(error)
            },
        }
    }

    /// Fetches the messages through the client and takes in the outcome.
    ///
    /// Whatever the client returns, the new state is the old one with that
    /// outcome taken in, and the client's failure is handed on.
    pub fn refresh_emails(&mut self) -> (result: Result<(), FetchError>)
        ensures
            exists|outcome: Result<Vec<Email>, FetchError>, now: u128|
                {
                    &&& call_ensures(
                        T::fetch_current_quarter_emails,
                        (&old(self).client(),),
                        outcome,
                    )
                    &&& final(self)@ == #[trigger] old(self)@.fetched(outcome, now)
                    &&& match outcome {
                        Ok(_) => result is Ok,
                        Err(error) => result == Err::<(), FetchError>(error),
                    }
                },
            final(self)@.wf(),
            final(self).client() == old(self).client(),
    {
        self.start_loading();
        let outcome = self.email_client.fetch_current_quarter_emails();
        let now = self.now();
        let ghost before = self@;
        let result = self.apply_fetch_result_at(outcome, now);
        proof {
            assert(before.fetched(outcome, now) == old(self)@.fetched(outcome, now));
        }
        result
    }

    /// Starts a session: announces the fetch in the status message,
    /// fetches the messages through the client, takes in the outcome and
    /// starts the tick interval.
    ///
    /// Whatever the client returns, and whenever each step is taken, the
    /// new state is the old one after these steps, and the client's failure
    /// is handed on.
    pub fn start(&mut self) -> (result: Result<(), FetchError>)
        ensures
            exists|
                outcome: Result<Vec<Email>, FetchError>,
                announced: u128,
                fetched: u128,
                ticking: u128,
            |
                {
                    &&& call_ensures(
                        T::fetch_current_quarter_emails,
                        (&old(self).client(),),
                        outcome,
                    )
                    &&& final(self)@ == #[trigger] old(self)@.with_status(
                        loading_message(),
                        announced,
                    ).fetched(outcome, fetched).with_last_tick(ticking)
                    &&& match outcome {
                        Ok(_) => result is Ok,
                        Err(error) => result == Err::<(), FetchError>(error),
                    }
                },
            final(self)@.wf(),
            final(self).client() == old(self).client(),
    {
        self.set_status_message("Loading emails...".to_owned());
        let ghost announcing = self@;
        let result = self.refresh_emails();
        let ghost loaded = self@;
        self.restart_ticks();
        proof {
            let announced = choose|now: u128|
                announcing == old(self)@.with_status(loading_message(), now);
            let (outcome, fetched) = choose|
                outcome: Result<Vec<Email>, FetchError>,
                now: u128,
            |
                {
                    &&& call_ensures(
                        T::fetch_current_quarter_emails,
                        (&old(self).client(),),
                        outcome,
                    )
                    &&& loaded == #[trigger] announcing.fetched(outcome, now)
                    &&& match outcome {
                        Ok(_) => result is Ok,
                        Err(error) => result == Err::<(), FetchError>(error),
                    }
                };
            let ticking = choose|now: u128| self@ == loaded.with_last_tick(now);
            assert(self@ == old(self)@.with_status(loading_message(), announced).fetched(
                outcome,
                fetched,
            ).with_last_tick(ticking));
        }
        result
    }

    /// Moves the cursor one entry down the filtered list, from the last
    /// entry back to the first. Does nothing in an empty list.
    pub fn move_next(&mut self)
        ensures
            final(self)@ == old(self)@.moved_next(),
            final(self)@.wf(),
            final(self).client() == old(self).client(),
    {
        proof {
            use_type_invariant(&*self);
        }
        let len = self.filtered_emails.len();
        if len > 0 {
            if self.selected_index + 1 < len {
                self.selected_index = self.selected_index + 1;
            } else {
                self.selected_index = 0;
            }
        }
    }

    /// Moves the cursor one entry up the filtered list, from the first
    /// entry on to the last. Does nothing in an empty list.
    pub fn move_previous(&mut self)
        ensures
            final(self)@ == old(self)@.moved_previous(),
            final(self)@.wf(),
            final(self).client() == old(self).client(),
    {
        proof {
            use_type_invariant(&*self);
        }
        let len = self.filtered_emails.len();
        if len > 0 {
            if self.selected_index > 0 {
                self.selected_index = self.selected_index - 1;
            } else {
                self.selected_index = len - 1;
            }
        }
    }

    /// Moves the cursor to the first entry. Does nothing in an empty list.
    pub fn jump_first(&mut self)
        ensures
            final(self)@ == old(self)@.jumped_first(),
            final(self)@.wf(),
            final(self).client() == old(self).client(),
    {
        proof {
            use_type_invariant(&*self);
        }
        if self.filtered_emails.len() > 0 {
            self.selected_index = 0;
        }
    }

    /// Moves the cursor to the last entry. Does nothing in an empty list.
    pub fn jump_last(&mut self)
        ensures
            final(self)@ == old(self)@.jumped_last(),
            final(self)@.wf(),
            final(self).client() == old(self).client(),
    {
        proof {
            use_type_invariant(&*self);
        }
        let len = self.filtered_emails.len();
        if len > 0 {
            self.selected_index = len - 1;
        }
    }

    /// Focuses `panel`, whatever the list holds.
    pub fn set_focus(&mut self, panel: FocusPanel)
        ensures
            final(self)@ == old(self)@.with_focus(panel),
            final(self)@.wf(),
            final(self).client() == old(self).client(),
    {
        proof {
            use_type_invariant(&*self);
        }
        self.focus = panel;
    }

    /// Opens the selected message, if there is one.
    fn enter_view(&mut self)
        ensures
            final(self)@ == old(self)@.entering_view(),
            final(self).client() == old(self).client(),
    {
        proof {
            use_type_invariant(&*self);
        }
        if self.filtered_emails.len() > 0 {
            self.input_mode = InputMode::EmailView;
            self.focus = FocusPanel::EmailContent;
        }
    }

    /// Returns from the message view to the list.
    fn leave_view(&mut self)
        ensures
            final(self)@ == old(self)@.leaving_view(),
            final(self).client() == old(self).client(),
    {
        proof {
            use_type_invariant(&*self);
        }
        self.input_mode = InputMode::Normal;
        self.focus = FocusPanel::EmailList;
    }

    fn handle_normal_key(&mut self, key: Key, now: u128)
        ensures
            final(self)@ == old(self)@.step_normal(key, now),
            final(self).client() == old(self).client(),
    {
        proof {
            use_type_invariant(&*self);
        }
        match key {
            Key::Char(c) => {
                if c == 'q' {
                    self.should_quit = true;
                } else if c == '?' {
                    self.input_mode = InputMode::Help;
                } else if c == 'r' {
                    self.set_status_message_at(
                        "Can't refresh emails during UI running. Restart app to refresh.".to_owned(),
                        now,
                    );
                } else if c == '/' {
                    self.input_mode = InputMode::Search;
                    self.search_input = String::new();
                } else if c == 'j' {
                    self.move_next();
                } else if c == 'k' {
                    self.move_previous();
                } else if c == 'l' {
                    self.enter_view();
                } else if c == 'h' {
                    self.focus = FocusPanel::EmailList;
                } else if c == 'g' {
                    self.jump_first();
                } else if c == 'G' {
                    self.jump_last();
                }
            },
            Key::Down => self.move_next(),
            Key::Up => self.move_previous(),
            Key::Right => self.enter_view(),
            Key::Enter => self.enter_view(),
            Key::Left => {
                self.focus = FocusPanel::EmailList;
            },
            _ => {},
        }
    }

    fn handle_email_view_key(&mut self, key: Key)
        ensures
            final(self)@ == old(self)@.step_email_view(key),
            final(self).client() == old(self).client(),
    {
        proof {
            use_type_invariant(&*self);
        }
        match key {
            Key::Char(c) => {
                if c == 'h' {
                    self.leave_view();
                } else if c == 'j' {
                    self.move_next();
                } else if c == 'k' {
                    self.move_previous();
                } else if c == 'q' {
                    self.should_quit = true;
                } else if c == '?' {
                    self.input_mode = InputMode::Help;
                }
            },
            Key::Esc => self.leave_view(),
            Key::Left => self.leave_view(),
            Key::Down => self.move_next(),
            Key::Up => self.move_previous(),
            _ => {},
        }
    }

    fn handle_search_key(&mut self, key: Key, now: u128)
        ensures
            final(self)@ == old(self)@.step_search(key, now),
            final(self).client() == old(self).client(),
    {
        proof {
            use_type_invariant(&*self);
        }
        match key {
            Key::Esc => {
                self.input_mode = InputMode::Normal;
                self.search_input = String::new();
                self.search_at(String::new(), now);
            },
            Key::Enter => {
                let query = self.search_input.clone();
                self.input_mode = InputMode::Normal;
                self.search_at(query, now);
            },
            Key::Char(c) => {
                let mut input = String::new();
                std::mem::swap(&mut self.search_input, &mut input);
                input.push(c);
                self.search_input = input;
            },
            Key::Backspace => {
                let mut input = String::new();
                std::mem::swap(&mut self.search_input, &mut input);
                input.pop();
                self.search_input = input;
            },
            _ => {},
        }
    }

    /// Takes in one key press at the millisecond `now`: what the key does
    /// depends on the mode.
    pub fn handle_key_at(&mut self, key: Key, now: u128)
        ensures
            final(self)@ == old(self)@.step(key, now),
            final(self)@.wf(),
            final(self).client() == old(self).client(),
    {
        match self.input_mode {
            InputMode::Normal => self.handle_normal_key(key, now),
            InputMode::EmailView => self.handle_email_view_key(key),
            InputMode::Help => {
                proof {
                    use_type_invariant(&*self);
                }
                self.input_mode = InputMode::Normal;
            },
            InputMode::Search => self.handle_search_key(key, now),
        }
        proof {
            use_type_invariant(&*self);
        }
    }

    /// Takes in one key press at the present time.
    pub fn handle_key(&mut self, key: Key)
        ensures
            exists|now: u128| final(self)@ == old(self)@.step(key, now),
            final(self)@.wf(),
            final(self).client() == old(self).client(),
    {
        let now = self.now();
        self.handle_key_at(key, now);
    }

    /// How many milliseconds the input loop may wait for a key at the
    /// millisecond `now`: what is left of the tick interval.
    pub fn poll_timeout_at(&self, now: u128) -> (timeout: u128)
        ensures
            timeout == self@.poll_timeout(now),
            timeout <= TICK_RATE_MILLIS,
    {
        if now < self.last_tick {
            TICK_RATE_MILLIS
        } else if now - self.last_tick >= TICK_RATE_MILLIS {
            0
        } else {
            TICK_RATE_MILLIS - (now - self.last_tick)
        }
    }

    /// Starts the tick interval anew at the millisecond `now`.
    pub fn restart_ticks_at(&mut self, now: u128)
        ensures
            final(self)@ == old(self)@.with_last_tick(now),
            final(self)@.wf(),
            final(self).client() == old(self).client(),
    {
        proof {
            use_type_invariant(&*self);
        }
        self.last_tick = now;
    }

    /// Ends a round of the input loop at the millisecond `now`: when a
    /// tick is due it is recorded and a stale status message is cleared.
    /// Returns whether a tick was due.
    pub fn tick_at(&mut self, now: u128) -> (due: bool)
        ensures
            due == old(self)@.tick_due(now),
            final(self)@ == old(self)@.ticked(now),
            final(self)@.wf(),
            final(self).client() == old(self).client(),
    {
        proof {
            use_type_invariant(&*self);
        }
        if now >= self.last_tick && now - self.last_tick >= TICK_RATE_MILLIS {
            self.last_tick = now;
            self.expire_status_message_at(now, STATUS_TIMEOUT_MILLIS);
            true
        } else {
            false
        }
    }

    /// How many milliseconds the input loop may wait for a key now.
    pub fn poll_timeout(&self) -> (timeout: u128)
        ensures
            exists|now: u128| timeout == #[trigger] self@.poll_timeout(now),
            timeout <= TICK_RATE_MILLIS,
    {
        let now = self.now();
        self.poll_timeout_at(now)
    }

    /// Starts the tick interval anew now.
    pub fn restart_ticks(&mut self)
        ensures
            exists|now: u128| final(self)@ == old(self)@.with_last_tick(now),
            final(self)@.wf(),
            final(self).client() == old(self).client(),
    {
        let now = self.now();
        self.restart_ticks_at(now);
    }

    /// Ends a round of the input loop now. Returns whether a tick was due.
    pub fn tick(&mut self) -> (due: bool)
        ensures
            exists|now: u128|
                due == old(self)@.tick_due(now) && final(self)@ == #[trigger] old(self)@.ticked(now),
            final(self)@.wf(),
            final(self).client() == old(self).client(),
    {
        let now = self.now();
        self.tick_at(now)
    }

    /// The message at `position` of the filtered list, or `None` beyond
    /// its end.
    pub fn get(&self, position: usize) -> (found: Option<&Email>)
        ensures
            match found {
                Some(email) => self@.get(position) == Some(*email),
                None => self@.get(position) is None,
            },
    {
        proof {
            use_type_invariant(self);
        }
        if position < self.filtered_emails.len() {
            Some(&self.emails[self.filtered_emails[position]])
        } else {
            None
        }
    }

    /// The message under the cursor, or `None` when nothing is shown.
    pub fn selected_email(&self) -> (selected: Option<&Email>)
        ensures
            match selected {
                Some(email) => self@.selected() == Some(*email),
                None => self@.selected() is None,
            },
            selected is Some <==> self@.filtered.len() > 0,
    {
        proof {
            use_type_invariant(self);
        }
        self.get(self.selected_index)
    }

    /// Whether a fetch is under way.
    pub fn is_loading(&self) -> (loading: bool)
        ensures
            loading == self@.loading,
    {
        self.loading
    }

    /// Whether the user has asked to quit.
    pub fn should_quit(&self) -> (quit: bool)
        ensures
            quit == self@.should_quit,
    {
        self.should_quit
    }

    pub fn input_mode(&self) -> (mode: InputMode)
        ensures
            mode == self@.mode,
    {
        self.input_mode
    }

    pub fn focus(&self) -> (focus: FocusPanel)
        ensures
            focus == self@.focus,
    {
        self.focus
    }

    /// The position of the cursor in the filtered list.
    pub fn selected_index(&self) -> (cursor: usize)
        ensures
            cursor == self@.cursor,
            self@.filtered.len() > 0 ==> cursor < self@.filtered.len(),
    {
        proof {
            use_type_invariant(self);
        }
        self.selected_index
    }

    /// The messages in store order.
    pub fn emails(&self) -> (emails: &Vec<Email>)
        ensures
            emails@ == self@.emails,
    {
        &self.emails
    }

    /// The positions of the messages that are shown, in ascending order,
    /// each a valid position in the message list.
    pub fn filtered_emails(&self) -> (filtered: &Vec<usize>)
        ensures
            filtered@ == self@.filtered,
            self@.wf(),
    {
        proof {
            use_type_invariant(self);
        }
        &self.filtered_emails
    }

    /// The status message, if one is set.
    pub fn status_message(&self) -> (status: &Option<StatusMessage>)
        ensures
            match *status {
                Some(message) => self@.status == Some((message.text@, message.created)),
                None => self@.status is None,
            },
    {
        &self.status_message
    }

    /// The text typed so far in `Search` mode.
    pub fn search_input(&self) -> (input: &String)
        ensures
            input@ == self@.search_input,
    {
        &self.search_input
    }

    /// The client that fetches the messages.
    pub fn email_client(&self) -> (client: &T)
        ensures
            *client == self.client(),
    {
        &self.email_client
    }
}

} // verus!
