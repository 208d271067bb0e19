use mail_tui::calendar::{leap_year, month_length, CivilDateTime};
use mail_tui::config::{Config, ExchangeConfig};
use mail_tui::email::create_client;
use mail_tui::email::exchange::ExchangeClient;

fn moment(year: i32, month: u32, day: u32, hour: u32, minute: u32, second: u32) -> CivilDateTime {
    CivilDateTime::new(year, month, day, hour, minute, second).unwrap()
}

fn account() -> ExchangeConfig {
    ExchangeConfig {
        email: "me@company.com".to_string(),
        password: "hunter2".to_string(),
        server: "outlook.office365.com".to_string(),
    }
}

#[test]
fn test_calculate_quarter_date_range() {
    // Test Q1 (January-March)
    let q1_date = moment(2023, 2, 15, 12, 0, 0);
    let (start, end) = ExchangeClient::calculate_quarter_date_range(q1_date);

    assert_eq!(start, moment(2023, 1, 1, 0, 0, 0));
    assert_eq!(end, moment(2023, 3, 31, 23, 59, 59));

    // Test Q2 (April-June)
    let q2_date = moment(2023, 5, 15, 12, 0, 0);
    let (start, end) = ExchangeClient::calculate_quarter_date_range(q2_date);

    assert_eq!(start, moment(2023, 4, 1, 0, 0, 0));
    assert_eq!(end, moment(2023, 6, 30, 23, 59, 59));

    // Test Q3 (July-September)
    let q3_date = moment(2023, 8, 15, 12, 0, 0);
    let (start, end) = ExchangeClient::calculate_quarter_date_range(q3_date);

    assert_eq!(start, moment(2023, 7, 1, 0, 0, 0));
    assert_eq!(end, moment(2023, 9, 30, 23, 59, 59));

    // Test Q4 (October-December)
    let q4_date = moment(2023, 11, 15, 12, 0, 0);
    let (start, end) = ExchangeClient::calculate_quarter_date_range(q4_date);

    assert_eq!(start, moment(2023, 10, 1, 0, 0, 0));
    assert_eq!(end, moment(2023, 12, 31, 23, 59, 59));

    // Test leap year February (2024)
    let leap_year_date = moment(2024, 2, 15, 12, 0, 0);
    let (start, end) = ExchangeClient::calculate_quarter_date_range(leap_year_date);

    assert_eq!(start, moment(2024, 1, 1, 0, 0, 0));
    assert_eq!(end, moment(2024, 3, 31, 23, 59, 59));
}

#[test]
fn quarter_range_at_the_edges_of_a_quarter() {
    let (start, end) = moment(2023, 1, 1, 0, 0, 0).quarter_range();
    assert_eq!(start, moment(2023, 1, 1, 0, 0, 0));
    assert_eq!(end, moment(2023, 3, 31, 23, 59, 59));
    let (start, end) = moment(2023, 12, 31, 23, 59, 59).quarter_range();
    assert_eq!(start, moment(2023, 10, 1, 0, 0, 0));
    assert_eq!(end, moment(2023, 12, 31, 23, 59, 59));
    let (start, end) = moment(2023, 6, 30, 8, 30, 0).quarter_range();
    assert_eq!((start.month(), start.day()), (4, 1));
    assert_eq!((end.month(), end.day()), (6, 30));
}

#[test]
fn quarter_range_keeps_the_year() {
    let (start, end) = moment(-44, 3, 15, 12, 0, 0).quarter_range();
    assert_eq!(start.year(), -44);
    assert_eq!(end.year(), -44);
    assert_eq!((end.hour(), end.minute(), end.second()), (23, 59, 59));
    assert_eq!((start.hour(), start.minute(), start.second()), (0, 0, 0));
}

#[test]
fn leap_years_follow_the_gregorian_rule() {
    assert!(leap_year(2024));
    assert!(!leap_year(2023));
    assert!(!leap_year(1900));
    assert!(leap_year(2000));
    assert!(leap_year(0));
    assert!(leap_year(-4));
    assert!(!leap_year(-1));
    assert!(!leap_year(-100));
    assert!(leap_year(-400));
    assert!(!leap_year(i32::MAX));
    assert!(leap_year(i32::MIN));
}

#[test]
fn month_lengths() {
    let expected = [31, 28, 31, 30, 31, 30, 31, 31, 30, 31, 30, 31];
    for month in 1..=12u32 {
        assert_eq!(month_length(2023, month), expected[(month - 1) as usize]);
    }
    assert_eq!(month_length(2024, 2), 29);
    assert_eq!(month_length(1900, 2), 28);
    assert_eq!(month_length(2000, 2), 29);
}

#[test]
fn dates_that_do_not_exist_are_refused() {
    assert!(CivilDateTime::new(2023, 2, 29, 0, 0, 0).is_none());
    assert!(CivilDateTime::new(2024, 2, 29, 0, 0, 0).is_some());
    assert!(CivilDateTime::new(2024, 2, 30, 0, 0, 0).is_none());
    assert!(CivilDateTime::new(2023, 4, 31, 0, 0, 0).is_none());
    assert!(CivilDateTime::new(2023, 0, 1, 0, 0, 0).is_none());
    assert!(CivilDateTime::new(2023, 13, 1, 0, 0, 0).is_none());
    assert!(CivilDateTime::new(2023, 1, 0, 0, 0, 0).is_none());
    assert!(CivilDateTime::new(2023, 1, 32, 0, 0, 0).is_none());
    assert!(CivilDateTime::new(2023, 1, 1, 24, 0, 0).is_none());
    assert!(CivilDateTime::new(2023, 1, 1, 0, 60, 0).is_none());
    assert!(CivilDateTime::new(2023, 1, 1, 0, 0, 60).is_none());
    assert!(CivilDateTime::new(2023, 12, 31, 23, 59, 59).is_some());
}

#[test]
fn a_date_hands_back_its_numbers() {
    let made = moment(2023, 5, 15, 12, 34, 56);
    assert_eq!(made.year(), 2023);
    assert_eq!(made.month(), 5);
    assert_eq!(made.day(), 15);
    assert_eq!(made.hour(), 12);
    assert_eq!(made.minute(), 34);
    assert_eq!(made.second(), 56);
}

#[test]
fn the_present_quarter_is_a_quarter() {
    let client = ExchangeClient::new(&account());
    let (start, end) = client.get_quarter_date_range();
    assert_eq!(start.year(), end.year());
    assert!(start.year() >= 1970);
    assert!([1, 4, 7, 10].contains(&start.month()));
    assert_eq!(end.month(), start.month() + 2);
    assert_eq!(start.day(), 1);
    assert_eq!(end.day(), month_length(end.year(), end.month()));
    assert_eq!((start.hour(), start.minute(), start.second()), (0, 0, 0));
    assert_eq!((end.hour(), end.minute(), end.second()), (23, 59, 59));
}

#[test]
fn a_client_keeps_its_account() {
    let client = ExchangeClient::new(&account());
    assert_eq!(client.config().email, "me@company.com");
    assert_eq!(client.config().password, "hunter2");
    assert_eq!(client.config().server, "outlook.office365.com");
    let config = Config { exchange: account() };
    let made = create_client(&config);
    assert_eq!(made.config().email, "me@company.com");
    assert_eq!(made.config().server, "outlook.office365.com");
    let copy = config.clone();
    assert_eq!(copy.exchange.email, config.exchange.email);
    assert_eq!(copy.exchange.password, config.exchange.password);
    assert_eq!(copy.exchange.server, config.exchange.server);
}
