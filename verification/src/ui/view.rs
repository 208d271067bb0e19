//! The render projection: what the screen shows of a state, as plain
//! values for a terminal backend to paint. Nothing here changes the state.

use vstd::prelude::*;
use vstd::utf8::encode_utf8;
use crate::calendar::{format_utc, text_is, utc_text};
use crate::email::{Email, EmailClient};
use crate::text::{lines_of, split_lines, texts_of};
use crate::ui::app::App;
use crate::ui::layout::{
    centered_rect, centering_is_safe, is_centered_in, is_screen_layout, layout_lies_within,
    lies_within, screen_is_safe, screen_layout, Rect, ScreenLayout, HELP_HEIGHT_PERCENT,
    OVERLAY_WIDTH_PERCENT, SEARCH_HEIGHT_PERCENT,
};
use crate::ui::model::{AppView, FocusPanel, InputMode};

verus! {

/// The strftime pattern of a date in the list panel.
pub open spec fn list_date_pattern() -> Seq<char> {
    "%Y-%m-%d %H:%M"@
}

/// The strftime pattern of a date in the content panel.
pub open spec fn content_date_pattern() -> Seq<char> {
    "%Y-%m-%d %H:%M:%S"@
}

/// One entry of the list panel.
#[derive(Debug)]
pub struct ListRow {
    pub subject: String,
    pub sender: String,
    /// The date to the minute, or `None` for a date that cannot be written.
    pub date: Option<String>,
}

/// The list panel: one row for each message shown.
#[derive(Debug)]
pub struct ListPanel {
    pub rows: Vec<ListRow>,
    /// The row under the cursor, or `None` where there is no row.
    pub highlighted: Option<usize>,
    pub focused: bool,
}

/// A message written out for reading.
#[derive(Debug)]
pub struct MessageText {
    pub subject: String,
    pub sender: String,
    /// The date to the second, or `None` for a date that cannot be written.
    pub date: Option<String>,
    pub body_lines: Vec<String>,
}

/// The content panel: the selected message, or `None` where nothing is
/// selected.
#[derive(Debug)]
pub struct ContentPanel {
    pub message: Option<MessageText>,
    pub focused: bool,
}

/// What kind of text the status bar holds.
#[derive(Clone, Copy, Debug, PartialEq, Eq, Structural)]
pub enum StatusTone {
    /// A fetch is under way.
    Loading,
    /// A status message is set.
    Message,
    /// The hint of the current mode.
    Idle,
}

/// The one-line status bar.
#[derive(Debug)]
pub struct StatusBar {
    pub text: String,
    pub tone: StatusTone,
}

/// The box in which a search is typed.
#[derive(Debug)]
pub struct SearchBox {
    /// Where the box lies, or `None` where the layout engine cannot place
    /// it.
    pub area: Option<Rect>,
    pub text: String,
    /// Column and row of the text cursor, or `None` where the box has no
    /// place or the cursor would lie beyond the coordinate range.
    pub cursor: Option<(u16, u16)>,
}

/// What lies over the panels.
#[derive(Debug)]
pub enum Overlay {
    Nothing,
    /// The help, and where it lies if the layout engine can place it.
    Help(Option<Rect>),
    Search(SearchBox),
}

/// Everything that one frame shows.
#[derive(Debug)]
pub struct Screen {
    /// Where the panels and the status bar lie, or `None` where the layout
    /// engine cannot divide the screen.
    pub layout: Option<ScreenLayout>,
    pub list: ListPanel,
    pub content: ContentPanel,
    pub status: StatusBar,
    pub overlay: Overlay,
}

/// `row` shows `email`, with the date as chrono writes it to the minute.
pub open spec fn row_shows(row: ListRow, email: Email) -> bool {
    &&& row.subject@ == email.subject@
    &&& row.sender@ == email.sender@
    &&& text_is(row.date, utc_text(email.date as int, list_date_pattern()))
}

/// `panel` is the list panel of `state`: a row for each message shown, in
/// order, the cursor's row highlighted, and the focus where the list has it.
pub open spec fn list_panel_shows(panel: ListPanel, state: AppView) -> bool {
    &&& panel.rows@.len() == state.filtered.len()
    &&& forall|i: int|
        0 <= i < panel.rows@.len() ==> row_shows(
            #[trigger] panel.rows@[i],
            state.emails[state.filtered[i] as int],
        )
    &&& panel.highlighted == if state.filtered.len() > 0 {
        Some(state.cursor)
    } else {
        None
    }
    &&& panel.focused == (state.focus == FocusPanel::EmailList)
}

/// `text` is `email` written out, with the date as chrono writes it to
/// the second and the body line by line.
pub open spec fn message_shows(text: MessageText, email: Email) -> bool {
    &&& text.subject@ == email.subject@
    &&& text.sender@ == email.sender@
    &&& text_is(text.date, utc_text(email.date as int, content_date_pattern()))
    &&& texts_of(text.body_lines@) == lines_of(email.body@)
}

/// `panel` is the content panel of `state`: the selected message if there
/// is one, and the focus where the content has it.
pub open spec fn content_panel_shows(panel: ContentPanel, state: AppView) -> bool {
    &&& match panel.message {
        Some(text) => state.selected() is Some && message_shows(text, state.selected()->Some_0),
        None => state.selected() is None,
    }
    &&& panel.focused == (state.focus == FocusPanel::EmailContent)
}

/// The frame of the loading animation at the millisecond `millis`: one of
/// ten, each shown for a tenth of a second.
pub open spec fn spinner_char(millis: u128) -> char {
    let frame = (millis / 100) % 10;
    if frame == 0 {
        '\u{280b}'
    } else if frame == 1 {
        '\u{2819}'
    } else if frame == 2 {
        '\u{2839}'
    } else if frame == 3 {
        '\u{2838}'
    } else if frame == 4 {
        '\u{283c}'
    } else if frame == 5 {
        '\u{2834}'
    } else if frame == 6 {
        '\u{2826}'
    } else if frame == 7 {
        '\u{2827}'
    } else if frame == 8 {
        '\u{2807}'
    } else {
        '\u{280f}'
    }
}

/// The hint that the status bar shows in `mode` when it has nothing else
/// to show.
pub open spec fn idle_text(mode: InputMode) -> Seq<char> {
    match mode {
        InputMode::Normal => "Normal mode | Press ? for help | q to quit"@,
        InputMode::EmailView => "Email view mode | Press Esc to return | ? for help"@,
        InputMode::Help => "Help mode"@,
        InputMode::Search => "Search mode"@,
    }
}

/// The text of the status bar: the loading animation while a fetch is
/// under way, else the status message if one is set, else the mode's hint.
pub open spec fn status_text(state: AppView, millis: u128) -> Seq<char> {
    if state.loading {
        seq![spinner_char(millis)] + " Loading emails..."@
    } else {
        match state.status {
            Some((text, _)) => text,
            None => idle_text(state.mode),
        }
    }
}

/// The kind of text that the status bar holds.
pub open spec fn status_tone(state: AppView) -> StatusTone {
    if state.loading {
        StatusTone::Loading
    } else if state.status is Some {
        StatusTone::Message
    } else {
        StatusTone::Idle
    }
}

/// The text of the search box.
pub open spec fn search_text(state: AppView) -> Seq<char> {
    "Search: "@ + state.search_input
}

/// The number of bytes that `text` takes in UTF-8.
pub open spec fn byte_length(text: Seq<char>) -> usize {
    encode_utf8(text).len() as usize
}

/// Where the text cursor of the search box lies: one cell inside the
/// box's border, after the text's bytes; `None` beyond the coordinate
/// range or without a box.
pub open spec fn search_cursor(area: Option<Rect>, text_bytes: usize) -> Option<(u16, u16)> {
    match area {
        Some(place) => if place.x + text_bytes + 1 <= u16::MAX && place.y + 1 <= u16::MAX {
            Some(((place.x + text_bytes + 1) as u16, (place.y + 1) as u16))
        } else {
            None
        },
        None => None,
    }
}

/// The row of the list panel for `email`, with its date written as `date`.
pub fn list_row(email: &Email, date: Option<String>) -> (row: ListRow)
    ensures
        row.subject@ == email.subject@,
        row.sender@ == email.sender@,
        row.date == date,
{
    ListRow { subject: email.subject.clone(), sender: email.sender.clone(), date }
}

/// The list panel: for each message shown its subject, sender and date.
pub fn draw_email_list<T: EmailClient>(app: &App<T>) -> (panel: ListPanel)
    ensures
        list_panel_shows(panel, app@),
{
    let emails = app.emails();
    let filtered = app.filtered_emails();
    let mut rows: Vec<ListRow> = Vec::new();
    let mut i: usize = 0;
    while i < filtered.len()
        invariant
            i <= filtered.len(),
            app@.wf(),
            emails@ == app@.emails,
            filtered@ == app@.filtered,
            rows@.len() == i,
            forall|k: int|
                0 <= k < i ==> row_shows(#[trigger] rows@[k], emails@[filtered@[k] as int]),
        decreases filtered.len() - i,
    {
        let email = &emails[filtered[i]];
        let date = format_utc(email.date, "%Y-%m-%d %H:%M");
        rows.push(list_row(email, date));
        i += 1;
    }
    let highlighted = if filtered.len() > 0 {
        Some(app.selected_index())
    } else {
        None
    };
    ListPanel { rows, highlighted, focused: app.focus() == FocusPanel::EmailList }
}

/// `email` written out for reading, with its date written as `date`.
pub fn message_text(email: &Email, date: Option<String>) -> (text: MessageText)
    ensures
        text.subject@ == email.subject@,
        text.sender@ == email.sender@,
        text.date == date,
        texts_of(text.body_lines@) == lines_of(email.body@),
{
    MessageText {
        subject: email.subject.clone(),
        sender: email.sender.clone(),
        date,
        body_lines: split_lines(email.body.as_str()),
    }
}

/// The content panel: the selected message in full.
pub fn draw_email_content<T: EmailClient>(app: &App<T>) -> (panel: ContentPanel)
    ensures
        content_panel_shows(panel, app@),
{
    let message = match app.selected_email() {
        Some(email) => {
            let date = format_utc(email.date, "%Y-%m-%d %H:%M:%S");
            Some(message_text(email, date))
        },
        None => None,
    };
    ContentPanel { message, focused: app.focus() == FocusPanel::EmailContent }
}

/// The frame of the loading animation at the millisecond `millis`.
pub fn spinner_frame(millis: u128) -> (frame: char)
    ensures
        frame == spinner_char(millis),
{
    let index = (millis / 100) % 10;
    if index == 0 {
        '\u{280b}'
    } else if index == 1 {
        '\u{2819}'
    } else if index == 2 {
        '\u{2839}'
    } else if index == 3 {
        '\u{2838}'
    } else if index == 4 {
        '\u{283c}'
    } else if index == 5 {
        '\u{2834}'
    } else if index == 6 {
        '\u{2826}'
    } else if index == 7 {
        '\u{2827}'
    } else if index == 8 {
        '\u{2807}'
    } else {
        '\u{280f}'
    }
}

/// The status bar with the loading animation at its frame for the
/// millisecond `millis`.
pub fn draw_status_bar_at<T: EmailClient>(app: &App<T>, millis: u128) -> (bar: StatusBar)
    ensures
        bar.text@ == status_text(app@, millis),
        bar.tone == status_tone(app@),
{
    if app.is_loading() {
        let mut text = String::new();
        text.push(spinner_frame(millis));
        text.append(" Loading emails...");
        assert(text@ =~= seq![spinner_char(millis)] + " Loading emails..."@);
        StatusBar { text, tone: StatusTone::Loading }
    } else {
        match app.status_message() {
            Some(message) => StatusBar { text: message.text.clone(), tone: StatusTone::Message },
            None => {
                let text = match app.input_mode() {
                    InputMode::Normal => "Normal mode | Press ? for help | q to quit".to_owned(),
                    InputMode::EmailView => "Email view mode | Press Esc to return | ? for help".to_owned(),
                    InputMode::Help => "Help mode".to_owned(),
                    InputMode::Search => "Search mode".to_owned(),
                };
                StatusBar { text, tone: StatusTone::Idle }
            },
        }
    }
}

/// The status bar as it stands now.
pub fn draw_status_bar<T: EmailClient>(app: &App<T>) -> (bar: StatusBar)
    ensures
        exists|millis: u128| bar.text@ == #[trigger] status_text(app@, millis),
        bar.tone == status_tone(app@),
{
    let millis = app.now();
    draw_status_bar_at(app, millis)
}

/// `area` is where an overlay of `percent_y` hundredths of the height
/// lies on a screen of `size`: centred in the screen, and within it,
/// wherever the layout engine can divide the screen for it, and `None`
/// elsewhere.
pub open spec fn overlay_is_placed(area: Option<Rect>, percent_y: u16, size: Rect) -> bool {
    &&& area is Some <==> centering_is_safe(OVERLAY_WIDTH_PERCENT, percent_y, size)
    &&& area matches Some(place) ==> is_centered_in(OVERLAY_WIDTH_PERCENT, percent_y, size, place)
    &&& area matches Some(place) ==> lies_within(place, size)
}

/// `layout` is where the panels and the status bar lie on a screen of
/// `size`: the layout engine's division of the screen, within the screen,
/// wherever the engine can divide it, and `None` elsewhere.
pub open spec fn layout_is_placed(layout: Option<ScreenLayout>, size: Rect) -> bool {
    &&& layout is Some <==> screen_is_safe(size)
    &&& layout matches Some(parts) ==> is_screen_layout(size, parts)
    &&& layout matches Some(parts) ==> layout_lies_within(parts, size)
}

/// `overlay` lies on a screen of `size` where an overlay of its kind
/// belongs.
pub open spec fn overlay_lies_on(overlay: Overlay, size: Rect) -> bool {
    match overlay {
        Overlay::Nothing => true,
        Overlay::Help(area) => overlay_is_placed(area, HELP_HEIGHT_PERCENT, size),
        Overlay::Search(shown) => overlay_is_placed(shown.area, SEARCH_HEIGHT_PERCENT, size),
    }
}

/// Where the help lies on a screen of `size`: a rectangle within the
/// screen, or `None` where the layout engine cannot divide the screen for
/// it.
pub fn draw_help(size: Rect) -> (area: Option<Rect>)
    ensures
        overlay_is_placed(area, HELP_HEIGHT_PERCENT, size),
{
    centered_rect(OVERLAY_WIDTH_PERCENT, HELP_HEIGHT_PERCENT, size)
}

/// The search box placed at `area`, holding what has been typed.
pub fn search_box<T: EmailClient>(app: &App<T>, area: Option<Rect>) -> (shown: SearchBox)
    ensures
        shown.area == area,
        shown.text@ == search_text(app@),
        shown.cursor == search_cursor(area, byte_length(shown.text@)),
{
    let mut text = "Search: ".to_owned();
    text.append(app.search_input().as_str());
    let bytes = text.as_str().len();
    let cursor = match area {
        Some(place) => {
            if bytes < u16::MAX as usize && place.x as usize + bytes + 1 <= u16::MAX as usize
                && place.y < u16::MAX {
                Some(((place.x as usize + bytes + 1) as u16, place.y + 1))
            } else {
                None
            }
        },
        None => None,
    };
    SearchBox { area, text, cursor }
}

/// The search box on a screen of `size`.
pub fn draw_search<T: EmailClient>(app: &App<T>, size: Rect) -> (shown: SearchBox)
    ensures
        overlay_is_placed(shown.area, SEARCH_HEIGHT_PERCENT, size),
        shown.text@ == search_text(app@),
        shown.cursor == search_cursor(shown.area, byte_length(shown.text@)),
{
    let area = centered_rect(OVERLAY_WIDTH_PERCENT, SEARCH_HEIGHT_PERCENT, size);
    search_box(app, area)
}

/// `overlay` is the overlay that belongs to `state`: the help in `Help`
/// mode, the search box in `Search` mode, else nothing.
pub open spec fn overlay_shows(overlay: Overlay, state: AppView) -> bool {
    match state.mode {
        InputMode::Help => overlay is Help,
        InputMode::Search => overlay matches Overlay::Search(shown) && shown.text@ == search_text(
            state,
        ) && shown.cursor == search_cursor(shown.area, byte_length(shown.text@)),
        _ => overlay is Nothing,
    }
}

/// The frame for a screen of `size`, with the loading animation at its
/// frame for the millisecond `millis`.
pub fn draw_at<T: EmailClient>(app: &App<T>, size: Rect, millis: u128) -> (screen: Screen)
    ensures
        list_panel_shows(screen.list, app@),
        content_panel_shows(screen.content, app@),
        screen.status.text@ == status_text(app@, millis),
        screen.status.tone == status_tone(app@),
        overlay_shows(screen.overlay, app@),
        layout_is_placed(screen.layout, size),
        overlay_lies_on(screen.overlay, size),
{
    let layout = screen_layout(size);
    let list = draw_email_list(app);
    let content = draw_email_content(app);
    let status = draw_status_bar_at(app, millis);
    let overlay = match app.input_mode() {
        InputMode::Help => Overlay::Help(draw_help(size)),
        InputMode::Search => Overlay::Search(draw_search(app, size)),
        _ => Overlay::Nothing,
    };
    Screen { layout, list, content, status, overlay }
}

/// The frame for a screen of `size` as it stands now.
pub fn draw<T: EmailClient>(app: &App<T>, size: Rect) -> (screen: Screen)
    ensures
        list_panel_shows(screen.list, app@),
        content_panel_shows(screen.content, app@),
        exists|millis: u128| screen.status.text@ == #[trigger] status_text(app@, millis),
        screen.status.tone == status_tone(app@),
        overlay_shows(screen.overlay, app@),
        layout_is_placed(screen.layout, size),
        overlay_lies_on(screen.overlay, size),
{
    let millis = app.now();
    draw_at(app, size, millis)
}

} // verus!
