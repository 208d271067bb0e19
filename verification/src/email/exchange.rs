//! The client for an Exchange server.

use vstd::prelude::*;
use chrono::{Datelike, Timelike};
use crate::calendar::{Civil, CivilDateTime};
use crate::config::ExchangeConfig;
use crate::email::{Email, EmailClient, FetchError};

verus! {

/// Seconds in a day.
pub const SECONDS_PER_DAY: i64 = 86_400;

/// A client for one Exchange account.
pub struct ExchangeClient {
    config: ExchangeConfig,
}

/// `chrono::Local::now` read through `Datelike` and `Timelike`: the year,
/// month, day, hour, minute and second of the present local time. Which
/// moment comes back is open; it is always a date of the calendar and a
/// time of the day. The outside call panics where the system clock stands
/// before 1970.
#[verifier::external_body]
fn local_now() -> (parts: (i32, u32, u32, u32, u32, u32))
    ensures
        (Civil {
            year: parts.0 as int,
            month: parts.1 as int,
            day: parts.2 as int,
            hour: parts.3 as int,
            minute: parts.4 as int,
            second: parts.5 as int,
        }).valid(),
{
    let now = chrono::Local::now();
    (now.year(), now.month(), now.day(), now.hour(), now.minute(), now.second())
}

/// `chrono::Utc::now` read through `DateTime::timestamp`: the present time
/// in whole seconds since 1970-01-01 00:00:00 UTC. Which moment comes back
/// is open; it is never negative, as the outside call panics where the
/// system clock stands before 1970.
#[verifier::external_body]
fn utc_now_seconds() -> (seconds: i64)
    ensures
        seconds >= 0,
{
    chrono::Utc::now().timestamp()
}

/// The body of the first sample message.
pub open spec fn sample_body_1() -> Seq<char> {
    "Here's the latest update on our project progress...\n\nWe've completed the initial phase of development and are moving into testing. Please review the attached documents and provide feedback by the end of the week.\n\nThanks,\nProject Manager"@
}

/// The body of the second sample message.
pub open spec fn sample_body_2() -> Seq<char> {
    "Reminder: We have a team meeting scheduled for tomorrow at 10 AM.\n\nAgenda:\n1. Project status updates\n2. Upcoming deadlines\n3. Resource allocation\n4. Open discussion\n\nPlease come prepared with your updates.\n\nRegards,\nTeam Lead"@
}

/// The body of the third sample message.
pub open spec fn sample_body_3() -> Seq<char> {
    "Your vacation request has been approved.\n\nDates: June 15-22, 2023\nTotal days: 5 business days\nRemaining PTO: 15 days\n\nPlease ensure all your tasks are properly handed over before your departure.\n\nBest regards,\nHR Department"@
}

/// The body of the fourth sample message.
pub open spec fn sample_body_4() -> Seq<char> {
    "Dear Team,\n\nPlease be informed that we will be performing system maintenance this weekend. The following systems will be unavailable from Saturday 8 PM to Sunday 2 AM:\n\n- Email servers\n- Internal documentation\n- Project management tools\n\nPlease plan your work accordingly.\n\nIT Support Team"@
}

/// `email` holds exactly these texts and this date.
pub open spec fn email_is(
    email: Email,
    id: Seq<char>,
    subject: Seq<char>,
    sender: Seq<char>,
    date: int,
    body: Seq<char>,
) -> bool {
    &&& email.id@ == id
    &&& email.subject@ == subject
    &&& email.sender@ == sender
    &&& email.date == date
    &&& email.body@ == body
}

/// `inbox` is the sample inbox as it stands at the second `now`: four
/// messages, sent a week, a day, two days and no time before `now`.
pub open spec fn is_sample_inbox(inbox: Seq<Email>, now: i64) -> bool {
    &&& inbox.len() == 4
    &&& email_is(
        inbox[0],
        "1"@,
        "Project Update - Q2"@,
        "manager@company.com"@,
        now - 7 * SECONDS_PER_DAY,
        sample_body_1(),
    )
    &&& email_is(
        inbox[1],
        "2"@,
        "Team Meeting - Tomorrow"@,
        "team-lead@company.com"@,
        now - SECONDS_PER_DAY,
        sample_body_2(),
    )
    &&& email_is(
        inbox[2],
        "3"@,
        "Vacation Request"@,
        "hr@company.com"@,
        now - 2 * SECONDS_PER_DAY,
        sample_body_3(),
    )
    &&& email_is(
        inbox[3],
        "4"@,
        "System Maintenance Notice"@,
        "it-support@company.com"@,
        now as int,
        sample_body_4(),
    )
}

/// The sample inbox as it stands at the second `now`.
pub fn sample_inbox(now: i64) -> (inbox: Vec<Email>)
    requires
        now - 7 * SECONDS_PER_DAY >= i64::MIN,
    ensures
        is_sample_inbox(inbox@, now),
{
    let mut inbox: Vec<Email> = Vec::new();
    inbox.push(
        Email {
            id: "1".to_owned(),
            subject: "Project Update - Q2".to_owned(),
            sender: "manager@company.com".to_owned(),
            date: now - 7 * SECONDS_PER_DAY,
            body: "Here's the latest update on our project progress...\n\nWe've completed the initial phase of development and are moving into testing. Please review the attached documents and provide feedback by the end of the week.\n\nThanks,\nProject Manager".to_owned(),
        },
    );
    inbox.push(
        Email {
            id: "2".to_owned(),
            subject: "Team Meeting - Tomorrow".to_owned(),
            sender: "team-lead@company.com".to_owned(),
            date: now - SECONDS_PER_DAY,
            body: "Reminder: We have a team meeting scheduled for tomorrow at 10 AM.\n\nAgenda:\n1. Project status updates\n2. Upcoming deadlines\n3. Resource allocation\n4. Open discussion\n\nPlease come prepared with your updates.\n\nRegards,\nTeam Lead".to_owned(),
        },
    );
    inbox.push(
        Email {
            id: "3".to_owned(),
            subject: "Vacation Request".to_owned(),
            sender: "hr@company.com".to_owned(),
            date: now - 2 * SECONDS_PER_DAY,
            body: "Your vacation request has been approved.\n\nDates: June 15-22, 2023\nTotal days: 5 business days\nRemaining PTO: 15 days\n\nPlease ensure all your tasks are properly handed over before your departure.\n\nBest regards,\nHR Department".to_owned(),
        },
    );
    inbox.push(
        Email {
            id: "4".to_owned(),
            subject: "System Maintenance Notice".to_owned(),
            sender: "it-support@company.com".to_owned(),
            date: now,
            body: "Dear Team,\n\nPlease be informed that we will be performing system maintenance this weekend. The following systems will be unavailable from Saturday 8 PM to Sunday 2 AM:\n\n- Email servers\n- Internal documentation\n- Project management tools\n\nPlease plan your work accordingly.\n\nIT Support Team".to_owned(),
        },
    );
    inbox
}

impl View for ExchangeClient {
    type V = ExchangeConfig;

    /// The account that the client serves.
    closed spec fn view(&self) -> ExchangeConfig {
        self.config
    }
}

impl ExchangeClient {
    /// A client for the account that `config` describes.
    pub fn new(config: &ExchangeConfig) -> (client: Self)
        ensures
            client@ == *config,
    {
        ExchangeClient { config: config.clone() }
    }

    /// The account that this client serves.
    pub fn config(&self) -> (config: &ExchangeConfig)
        ensures
            *config == self@,
    {
        &self.config
    }

    /// The first and the last second of the quarter of the year that `now`
    /// falls in.
    pub fn calculate_quarter_date_range(now: CivilDateTime) -> (range: (
        CivilDateTime,
        CivilDateTime,
    ))
        ensures
            range.0@ == now@.quarter_start(),
            range.1@ == now@.quarter_end(),
            range.0@.valid(),
            range.1@.valid(),
    {
        now.quarter_range()
    }

    /// The quarter of the year that the present local date falls in.
    pub fn get_quarter_date_range(&self) -> (range: (CivilDateTime, CivilDateTime))
        ensures
            exists|now: Civil|
                now.valid() && range.0@ == #[trigger] now.quarter_start() && range.1@
                    == now.quarter_end(),
    {
        let parts = local_now();
        match CivilDateTime::new(parts.0, parts.1, parts.2, parts.3, parts.4, parts.5) {
            Some(now) => Self::calculate_quarter_date_range(now),
            None => {
                proof {
                    assert(false);
                }
                unreached()
            },
        }
    }
}

impl EmailClient for ExchangeClient {
    /// The sample inbox as it stands now.
    fn fetch_current_quarter_emails(&self) -> (fetched: Result<Vec<Email>, FetchError>)
        ensures
            fetched is Ok,
            exists|now: i64| now >= 0 && #[trigger] is_sample_inbox(fetched->Ok_0@, now),
    {
        let _range = self.get_quarter_date_range();
        let now = utc_now_seconds();
        let inbox = sample_inbox(now);
        let fetched: Result<Vec<Email>, FetchError> = Ok(inbox);
        assert(is_sample_inbox(fetched->Ok_0@, now));
        fetched
    }
}

} // verus!
