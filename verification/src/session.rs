//! The interaction state machine: the mode, what each key means in it, and
//! what each key does to the session.
//!
//! The session decides; it does no input or output. A caller hands it one
//! key press at a time and carries out the `Action` that comes back: to end,
//! or to probe a file and report the outcome with `finish_analysis`.

use crate::buffer::{apply_edit, buffer_text};
use crate::error::{description_of, ExtractionError};
use crate::filter::{
    filtered_view, predicate_models, visible, FilterPredicate, PredicateModel,
};
use crate::notification::{
    analysis_message, analysis_message_for, expired_at, Notification, NotificationModel,
    NOTIFICATION_LIFETIME_MS,
};
use crate::record::{models_of, models_of_refs, MediaRecord, RecordModel};
use crate::text::{chars_of, lines_of, split_lines, string_of, texts_of, views_of};
use tui_input::{Input, InputRequest};
use vstd::prelude::*;
use vstd::string::StringExecFns;

verus! {

/// What the session is showing, which decides what a key means.
#[derive(Clone, Copy, Debug, PartialEq, Eq)]
pub enum Mode {
    /// The table of files. The session starts here, and only here can it
    /// end.
    Browsing,
    /// The dialog that takes the path of a file to add.
    AddingFile,
    /// The raw report of the selected file.
    ViewingRawOutput,
    /// The list of keys.
    ViewingHelp,
}

/// A key, as far as the session tells keys apart.
#[derive(Clone, Copy, Debug, PartialEq, Eq)]
pub enum Key {
    Char(char),
    Up,
    Down,
    Tab,
    Enter,
    Esc,
    Other,
}

/// One key press: the key, and the edit that it stands for in a text-entry
/// buffer, if it stands for one. The session reads the edit only while the
/// add-file dialog is open, and does not ask whether it belongs to the key.
pub struct KeyPress {
    pub key: Key,
    pub edit: Option<InputRequest>,
}

/// What a key asks for in a mode.
#[derive(Clone, Copy, Debug, PartialEq, Eq)]
pub enum Command {
    /// End the session.
    Quit,
    /// Open the add-file dialog with an empty buffer.
    BeginAdd,
    /// Show the raw report, from its first line.
    ShowRaw,
    /// Show the list of keys.
    ShowHelp,
    /// Empty the catalogue and the active filter set.
    ClearAll,
    /// Move the selection one record forward.
    SelectNext,
    /// Move the selection one record back.
    SelectPrevious,
    /// Show the next display tab.
    NextTab,
    /// Take the buffer's text as the path of a file to analyse.
    Confirm,
    /// Leave the add-file dialog and discard its buffer.
    Cancel,
    /// Hand the key to the text-entry buffer.
    Edit,
    /// Scroll the raw report one line up.
    ScrollUp,
    /// Scroll the raw report one line down.
    ScrollDown,
    /// Go back to the table of files.
    Back,
    /// The key means nothing in this mode.
    Ignore,
}

/// What the caller has to do after a key press.
#[derive(Debug)]
pub enum Action {
    /// Nothing but to go on.
    Continue,
    /// End the session.
    Quit,
    /// Probe the file at this path and report with `finish_analysis`.
    Analyze(String),
}

/// What an `Action` holds, the path as a sequence of characters.
pub ghost enum ActionModel {
    Continue,
    Quit,
    Analyze(Seq<char>),
}

impl View for Action {
    type V = ActionModel;

    open spec fn view(&self) -> ActionModel {
        match self {
            Action::Continue => ActionModel::Continue,
            Action::Quit => ActionModel::Quit,
            Action::Analyze(path) => ActionModel::Analyze(path@),
        }
    }
}

/// The number of display tabs.
pub const TAB_COUNT: usize = 3;

/// The state of a session, in mathematical terms.
pub ghost struct SessionModel {
    /// The catalogue: the records in the order in which they were added.
    pub records: Seq<RecordModel>,
    /// The active filter set, combined by "and".
    pub predicates: Seq<PredicateModel>,
    /// The selection cursor, an index into the filtered view.
    pub cursor: nat,
    pub mode: Mode,
    /// The text in the add-file dialog's buffer.
    pub buffer: Seq<char>,
    /// The index of the display tab that is shown.
    pub tab: nat,
    /// How many lines of the raw report are scrolled away.
    pub scroll: nat,
    pub notification: Option<NotificationModel>,
}

/// What `key` asks for in `mode`.
pub open spec fn command_of(mode: Mode, key: Key) -> Command {
    match mode {
        Mode::Browsing => match key {
            Key::Char(c) => if c == 'q' {
                Command::Quit
            } else if c == 'a' {
                Command::BeginAdd
            } else if c == 'r' {
                Command::ShowRaw
            } else if c == 'h' {
                Command::ShowHelp
            } else if c == 'c' {
                Command::ClearAll
            } else if c == 'j' {
                Command::SelectNext
            } else if c == 'k' {
                Command::SelectPrevious
            } else {
                Command::Ignore
            },
            Key::Down => Command::SelectNext,
            Key::Up => Command::SelectPrevious,
            Key::Tab => Command::NextTab,
            _ => Command::Ignore,
        },
        Mode::AddingFile => match key {
            Key::Enter => Command::Confirm,
            Key::Esc => Command::Cancel,
            _ => Command::Edit,
        },
        Mode::ViewingRawOutput => match key {
            Key::Esc => Command::Back,
            Key::Up => Command::ScrollUp,
            Key::Down => Command::ScrollDown,
            _ => Command::Ignore,
        },
        Mode::ViewingHelp => match key {
            Key::Esc => Command::Back,
            _ => Command::Ignore,
        },
    }
}

/// The filtered view of a session: what the active filter set leaves of the
/// catalogue.
pub open spec fn view_of(s: SessionModel) -> Seq<RecordModel> {
    visible(s.records, s.predicates)
}

/// The cursor after a step forward in a view of `len` records: back to the
/// first record from the last one or from beyond it; unchanged where the
/// view is empty.
pub open spec fn next_index(cursor: nat, len: nat) -> nat {
    if len == 0 {
        cursor
    } else if cursor + 1 >= len {
        0
    } else {
        cursor + 1
    }
}

/// The cursor after a step back in a view of `len` records: to the last
/// record from the first one; unchanged where the view is empty.
pub open spec fn previous_index(cursor: nat, len: nat) -> nat {
    if len == 0 {
        cursor
    } else if cursor == 0 {
        (len - 1) as nat
    } else {
        (cursor - 1) as nat
    }
}

/// The message after the catalogue was emptied.
pub open spec fn cleared_message() -> Seq<char> {
    "All files cleared"@
}

/// The session after `command` at time `now`, for every command but `Edit`,
/// whose effect on the buffer is left to the buffer.
pub open spec fn after(s: SessionModel, command: Command, now: u64) -> SessionModel {
    match command {
        Command::Quit | Command::Ignore | Command::Edit => s,
        Command::BeginAdd => SessionModel { mode: Mode::AddingFile, buffer: Seq::empty(), ..s },
        Command::ShowRaw => SessionModel { mode: Mode::ViewingRawOutput, scroll: 0, ..s },
        Command::ShowHelp => SessionModel { mode: Mode::ViewingHelp, ..s },
        Command::ClearAll => SessionModel {
            records: Seq::empty(),
            predicates: Seq::empty(),
            cursor: 0,
            notification: Some(NotificationModel { message: cleared_message(), created_at: now }),
            ..s
        },
        Command::SelectNext => SessionModel {
            cursor: next_index(s.cursor, view_of(s).len()),
            ..s
        },
        Command::SelectPrevious => SessionModel {
            cursor: previous_index(s.cursor, view_of(s).len()),
            ..s
        },
        Command::NextTab => SessionModel { tab: (s.tab + 1) % (TAB_COUNT as nat), ..s },
        Command::Confirm | Command::Cancel => SessionModel {
            mode: Mode::Browsing,
            buffer: Seq::empty(),
            ..s
        },
        Command::ScrollUp => SessionModel {
            scroll: if s.scroll > 0 {
                (s.scroll - 1) as nat
            } else {
                0
            },
            ..s
        },
        Command::ScrollDown => SessionModel {
            scroll: if s.scroll < usize::MAX {
                s.scroll + 1
            } else {
                s.scroll
            },
            ..s
        },
        Command::Back => SessionModel { mode: Mode::Browsing, ..s },
    }
}

/// What the caller has to do after `command`: to end after `Quit`, to probe
/// the path in the buffer after `Confirm` unless the buffer is empty, and
/// else nothing.
pub open spec fn action_for(s: SessionModel, command: Command) -> ActionModel {
    match command {
        Command::Quit => ActionModel::Quit,
        Command::Confirm => if s.buffer.len() > 0 {
            ActionModel::Analyze(s.buffer)
        } else {
            ActionModel::Continue
        },
        _ => ActionModel::Continue,
    }
}

/// The session after an analysis that took `elapsed_ms` milliseconds and
/// ended at `now`: a record is appended and the time reported, or the error
/// is reported and nothing else changes.
pub open spec fn after_analysis(
    s: SessionModel,
    outcome: Result<MediaRecord, ExtractionError>,
    elapsed_ms: u64,
    now: u64,
) -> SessionModel {
    match outcome {
        Ok(record) => SessionModel {
            records: s.records.push(record@),
            notification: Some(
                NotificationModel { message: analysis_message(elapsed_ms), created_at: now },
            ),
            ..s
        },
        Err(error) => SessionModel {
            notification: Some(
                NotificationModel { message: description_of(error), created_at: now },
            ),
            ..s
        },
    }
}

/// The status message of a mode when there is nothing to notify.
pub open spec fn default_status(mode: Mode) -> Seq<char> {
    match mode {
        Mode::Browsing => "Ready - Press 'h' for help"@,
        Mode::AddingFile => "Enter file path..."@,
        Mode::ViewingRawOutput => "Viewing raw output - Press Esc to return"@,
        Mode::ViewingHelp => "Help - Press Esc to return"@,
    }
}

/// The notification that is shown at `now`, if any.
pub open spec fn shown_at(s: SessionModel, now: u64) -> Option<NotificationModel> {
    match s.notification {
        Some(n) => if expired_at(n.created_at, now) {
            None
        } else {
            Some(n)
        },
        None => None,
    }
}

/// The status line at `now`: the notification while it is shown, else the
/// mode's own message.
pub open spec fn status_at(s: SessionModel, now: u64) -> Seq<char> {
    match shown_at(s, now) {
        Some(n) => n.message,
        None => default_status(s.mode),
    }
}

/// The message in place of a raw report when no record is selected.
pub open spec fn no_selection() -> Seq<char> {
    "No file selected"@
}

/// The selected record: the one of the filtered view under the cursor.
pub open spec fn selected_of(s: SessionModel) -> Option<RecordModel> {
    if s.cursor < view_of(s).len() {
        Some(view_of(s)[s.cursor as int])
    } else {
        None
    }
}

/// The raw report of the selected record, or the message that none is
/// selected.
pub open spec fn raw_text_of(s: SessionModel) -> Seq<char> {
    match selected_of(s) {
        Some(record) => record.raw_report,
        None => no_selection(),
    }
}

/// The lines of the raw report that are not scrolled away.
pub open spec fn raw_lines_of(s: SessionModel) -> Seq<Seq<char>> {
    let lines = lines_of(raw_text_of(s));
    if s.scroll >= lines.len() {
        Seq::empty()
    } else {
        lines.subrange(s.scroll as int, lines.len() as int)
    }
}

/// The selection wraps: one step forward from the last record of a view
/// leads to the first, one step back from the first leads to the last, and
/// in an empty view neither step moves the cursor.
pub proof fn lemma_selection_wraps(cursor: nat, len: nat)
    ensures
        len > 0 ==> next_index((len - 1) as nat, len) == 0,
        len > 0 ==> previous_index(0, len) == len - 1,
        next_index(cursor, 0) == cursor,
        previous_index(cursor, 0) == cursor,
        len > 0 ==> next_index(cursor, len) < len,
        len > 0 && cursor < len ==> previous_index(cursor, len) < len,
{
}

/// After `ClearAll` the filtered view and the active filter set are empty
/// and the cursor is at 0, whatever the session was before.
pub proof fn lemma_clear_empties(s: SessionModel, now: u64)
    ensures
        view_of(after(s, Command::ClearAll, now)) == Seq::<RecordModel>::empty(),
        after(s, Command::ClearAll, now).records == Seq::<RecordModel>::empty(),
        after(s, Command::ClearAll, now).predicates == Seq::<PredicateModel>::empty(),
        after(s, Command::ClearAll, now).cursor == 0,
{
}

/// A notification is on the status line from the time at which it was made
/// up to the end of its lifetime; from then on the status line is the
/// mode's own message.
pub proof fn lemma_notification_expires(s: SessionModel, n: NotificationModel, now: u64)
    requires
        s.notification == Some(n),
    ensures
        n.created_at <= now < n.created_at + NOTIFICATION_LIFETIME_MS ==> status_at(s, now)
            == n.message,
        now >= n.created_at + NOTIFICATION_LIFETIME_MS ==> status_at(s, now) == default_status(
            s.mode,
        ),
        now >= n.created_at + NOTIFICATION_LIFETIME_MS ==> shown_at(s, now) is None,
{
}

/// From every mode but `Browsing` the escape key leads to `Browsing`, and
/// only in `Browsing` can a key end the session.
pub proof fn lemma_escape_and_quit(s: SessionModel, key: Key, now: u64)
    ensures
        s.mode != Mode::Browsing ==> after(s, command_of(s.mode, Key::Esc), now).mode
            == Mode::Browsing,
        action_for(s, command_of(s.mode, key)) == ActionModel::Quit ==> s.mode == Mode::Browsing,
{
}

/// No key changes the catalogue but the one that empties it: records come
/// only from `finish_analysis`.
pub proof fn lemma_keys_keep_records(s: SessionModel, key: Key, now: u64)
    ensures
        command_of(s.mode, key) != Command::ClearAll ==> after(
            s,
            command_of(s.mode, key),
            now,
        ).records == s.records,
{
}

/// A failed analysis leaves the catalogue as it was and reports the error.
pub proof fn lemma_failure_keeps_records(
    s: SessionModel,
    error: ExtractionError,
    elapsed_ms: u64,
    now: u64,
)
    ensures
        after_analysis(s, Err(error), elapsed_ms, now).records == s.records,
        status_at(after_analysis(s, Err(error), elapsed_ms, now), now) == description_of(error),
{
}

/// What `key` asks for in `mode`.
pub fn route(mode: Mode, key: Key) -> (command: Command)
    ensures
        command == command_of(mode, key),
{
    match mode {
        Mode::Browsing => match key {
            Key::Char(c) => if c == 'q' {
                Command::Quit
            } else if c == 'a' {
                Command::BeginAdd
            } else if c == 'r' {
                Command::ShowRaw
            } else if c == 'h' {
                Command::ShowHelp
            } else if c == 'c' {
                Command::ClearAll
            } else if c == 'j' {
                Command::SelectNext
            } else if c == 'k' {
                Command::SelectPrevious
            } else {
                Command::Ignore
            },
            Key::Down => Command::SelectNext,
            Key::Up => Command::SelectPrevious,
            Key::Tab => Command::NextTab,
            _ => Command::Ignore,
        },
        Mode::AddingFile => match key {
            Key::Enter => Command::Confirm,
            Key::Esc => Command::Cancel,
            _ => Command::Edit,
        },
        Mode::ViewingRawOutput => match key {
            Key::Esc => Command::Back,
            Key::Up => Command::ScrollUp,
            Key::Down => Command::ScrollDown,
            _ => Command::Ignore,
        },
        Mode::ViewingHelp => match key {
            Key::Esc => Command::Back,
            _ => Command::Ignore,
        },
    }
}

/// One interactive session: the catalogue, the active filter set, the
/// selection, the mode and what belongs to it.
pub struct Session {
    catalogue: Vec<MediaRecord>,
    filters: Vec<FilterPredicate>,
    cursor: usize,
    mode: Mode,
    input: Input,
    tab: usize,
    scroll: usize,
    notification: Option<Notification>,
}

impl View for Session {
    type V = SessionModel;

    closed spec fn view(&self) -> SessionModel {
        SessionModel {
            records: models_of(self.catalogue@),
            predicates: predicate_models(self.filters@),
            cursor: self.cursor as nat,
            mode: self.mode,
            buffer: buffer_text(self.input),
            tab: self.tab as nat,
            scroll: self.scroll as nat,
            notification: match self.notification {
                Some(n) => Some(n@),
                None => None,
            },
        }
    }
}

impl Session {
    /// A new session: no record, no filter, the cursor at 0, the table of
    /// files shown, nothing to notify.
    pub fn new() -> (session: Session)
        ensures
            session@ == (SessionModel {
                records: Seq::empty(),
                predicates: Seq::empty(),
                cursor: 0,
                mode: Mode::Browsing,
                buffer: Seq::empty(),
                tab: 0,
                scroll: 0,
                notification: None,
            }),
    {
        let session = Session {
            catalogue: Vec::new(),
            filters: Vec::new(),
            cursor: 0,
            mode: Mode::Browsing,
            input: Input::default(),
            tab: 0,
            scroll: 0,
            notification: None,
        };
        assert(session@.records =~= Seq::empty());
        assert(session@.predicates =~= Seq::empty());
        session
    }

    /// The mode.
    pub fn mode(&self) -> (mode: Mode)
        ensures
            mode == self@.mode,
    {
        self.mode
    }

    /// The catalogue.
    pub fn catalogue(&self) -> (records: &Vec<MediaRecord>)
        ensures
            models_of(records@) == self@.records,
    {
        &self.catalogue
    }

    /// The number of records in the catalogue.
    pub fn catalogue_len(&self) -> (len: usize)
        ensures
            len == self@.records.len(),
    {
        self.catalogue.len()
    }

    /// The active filter set.
    pub fn filters(&self) -> (predicates: &Vec<FilterPredicate>)
        ensures
            predicate_models(predicates@) == self@.predicates,
    {
        &self.filters
    }

    /// The selection cursor.
    pub fn cursor(&self) -> (cursor: usize)
        ensures
            cursor == self@.cursor,
    {
        self.cursor
    }

    /// The index of the display tab that is shown.
    pub fn tab(&self) -> (tab: usize)
        ensures
            tab == self@.tab,
    {
        self.tab
    }

    /// How many lines of the raw report are scrolled away.
    pub fn scroll(&self) -> (scroll: usize)
        ensures
            scroll == self@.scroll,
    {
        self.scroll
    }

    /// The text in the add-file dialog's buffer.
    pub fn buffer(&self) -> (text: &str)
        ensures
            text@ == self@.buffer,
    {
        self.input.value()
    }

    /// The text-entry buffer itself, for the one who draws it.
    pub fn input(&self) -> (input: &Input)
        ensures
            buffer_text(*input) == self@.buffer,
    {
        &self.input
    }

    /// The notification as it was last set, shown or not.
    pub fn notification(&self) -> (notification: Option<&Notification>)
        ensures
            match notification {
                Some(n) => self@.notification == Some(n@),
                None => self@.notification is None,
            },
    {
        self.notification.as_ref()
    }

    /// The filtered view: what the active filter set leaves of the
    /// catalogue, in the catalogue's order.
    pub fn visible_records(&self) -> (out: Vec<&MediaRecord>)
        ensures
            models_of_refs(out@) == view_of(self@),
    {
        filtered_view(&self.catalogue, &self.filters)
    }

    /// The selected record: the one of the filtered view under the cursor,
    /// if there is one.
    pub fn selected(&self) -> (record: Option<&MediaRecord>)
        ensures
            match record {
                Some(r) => selected_of(self@) == Some(r@),
                None => selected_of(self@) is None,
            },
    {
        let shown = filtered_view(&self.catalogue, &self.filters);
        if self.cursor < shown.len() {
            let record: &MediaRecord = shown[self.cursor];
            Some(record)
        } else {
            None
        }
    }

    /// The raw report of the selected record, or the message that none is
    /// selected.
    pub fn raw_report(&self) -> (text: String)
        ensures
            text@ == raw_text_of(self@),
    {
        match self.selected() {
            Some(record) => record.raw_report.clone(),
            None => String::from_str("No file selected"),
        }
    }

    /// The lines of the raw report that are not scrolled away.
    pub fn raw_report_lines(&self) -> (out: Vec<String>)
        ensures
            texts_of(out@) == raw_lines_of(self@),
    {
        let text = self.raw_report();
        let lines = split_lines(&chars_of(text.as_str()));
        let ghost all = views_of(lines@);
        let mut out: Vec<String> = Vec::new();
        if self.scroll >= lines.len() {
            return out;
        }
        let mut i: usize = self.scroll;
        while i < lines.len()
            invariant
                self.scroll <= i <= lines.len(),
                all == views_of(lines@),
                texts_of(out@) == all.subrange(self.scroll as int, i as int),
            decreases lines.len() - i,
        {
            let ghost before = texts_of(out@);
            let line = string_of(&lines[i]);
            out.push(line);
            assert(before.push(all[i as int]) =~= all.subrange(self.scroll as int, i + 1));
            i += 1;
        }
        out
    }

    /// The status line at `now`. A notification whose lifetime has passed is
    /// dropped; nothing else changes.
    pub fn status_line(&mut self, now: u64) -> (text: String)
        ensures
            text@ == status_at(old(self)@, now),
            final(self)@ == (SessionModel { notification: shown_at(old(self)@, now), ..old(self)@ }),
    {
        let over: bool = match &self.notification {
            Some(n) => n.is_expired(now),
            None => true,
        };
        if over {
            self.notification = None;
        }
        match &self.notification {
            Some(n) => n.message.clone(),
            None => match self.mode {
                Mode::Browsing => String::from_str("Ready - Press 'h' for help"),
                Mode::AddingFile => String::from_str("Enter file path..."),
                Mode::ViewingRawOutput => String::from_str(
                    "Viewing raw output - Press Esc to return",
                ),
                Mode::ViewingHelp => String::from_str("Help - Press Esc to return"),
            },
        }
    }

    /// Appends `record` to the catalogue. Nothing is checked and nothing else
    /// changes; a record that is there already is there twice afterwards.
    pub fn append(&mut self, record: MediaRecord)
        ensures
            final(self)@ == (SessionModel {
                records: old(self)@.records.push(record@),
                ..old(self)@
            }),
    {
        self.catalogue.push(record);
        assert(models_of(self.catalogue@) =~= models_of(old(self).catalogue@).push(record@));
    }

    /// Adds `predicate` to the active filter set. Nothing else changes.
    pub fn add_filter(&mut self, predicate: FilterPredicate)
        ensures
            final(self)@ == (SessionModel {
                predicates: old(self)@.predicates.push(predicate@),
                ..old(self)@
            }),
    {
        self.filters.push(predicate);
        assert(predicate_models(self.filters@) =~= predicate_models(old(self).filters@).push(
            predicate@,
        ));
    }

    /// Shows `message` from `now` on. Nothing else changes.
    pub fn notify(&mut self, message: String, now: u64)
        ensures
            final(self)@ == (SessionModel {
                notification: Some(NotificationModel { message: message@, created_at: now }),
                ..old(self)@
            }),
    {
        self.notification = Some(Notification::new(message, now));
    }

    /// Empties the catalogue and the active filter set, puts the cursor at 0
    /// and says so in a notification.
    pub fn clear_all(&mut self, now: u64)
        ensures
            final(self)@ == after(old(self)@, Command::ClearAll, now),
            view_of(final(self)@) == Seq::<RecordModel>::empty(),
    {
        self.catalogue.clear();
        self.filters.clear();
        self.cursor = 0;
        self.notification = Some(Notification::new(String::from_str("All files cleared"), now));
        assert(models_of(self.catalogue@) =~= Seq::empty());
        assert(predicate_models(self.filters@) =~= Seq::empty());
    }

    /// Moves the selection one record forward in the filtered view, from the
    /// last record to the first. Nothing changes where the view is empty.
    pub fn select_next(&mut self)
        ensures
            final(self)@ == (SessionModel {
                cursor: next_index(old(self)@.cursor, view_of(old(self)@).len()),
                ..old(self)@
            }),
    {
        let len: usize = filtered_view(&self.catalogue, &self.filters).len();
        if len > 0 {
            self.cursor = if self.cursor >= len - 1 {
                0
            } else {
                self.cursor + 1
            };
        }
    }

    /// Moves the selection one record back in the filtered view, from the
    /// first record to the last. Nothing changes where the view is empty.
    pub fn select_previous(&mut self)
        ensures
            final(self)@ == (SessionModel {
                cursor: previous_index(old(self)@.cursor, view_of(old(self)@).len()),
                ..old(self)@
            }),
    {
        let len: usize = filtered_view(&self.catalogue, &self.filters).len();
        if len > 0 {
            self.cursor = if self.cursor == 0 {
                len - 1
            } else {
                self.cursor - 1
            };
        }
    }

    /// Takes one key press at time `now`: the key's command for the mode is
    /// carried out, and what is left for the caller to do is returned. A key
    /// that is handed to the buffer changes nothing but the buffer's text,
    /// and not even that where it stands for no edit.
    pub fn handle_key(&mut self, press: KeyPress, now: u64) -> (action: Action)
        ensures
            action@ == action_for(old(self)@, command_of(old(self)@.mode, press.key)),
            command_of(old(self)@.mode, press.key) != Command::Edit ==> final(self)@ == after(
                old(self)@,
                command_of(old(self)@.mode, press.key),
                now,
            ),
            command_of(old(self)@.mode, press.key) == Command::Edit ==> final(self)@ == (
            SessionModel { buffer: final(self)@.buffer, ..old(self)@ }),
            command_of(old(self)@.mode, press.key) == Command::Edit && press.edit is None
                ==> final(self)@ == old(self)@,
    {
        match route(self.mode, press.key) {
            Command::Quit => Action::Quit,
            Command::Ignore => Action::Continue,
            Command::BeginAdd => {
                self.input.reset();
                self.mode = Mode::AddingFile;
                Action::Continue
            },
            Command::ShowRaw => {
                self.mode = Mode::ViewingRawOutput;
                self.scroll = 0;
                Action::Continue
            },
            Command::ShowHelp => {
                self.mode = Mode::ViewingHelp;
                Action::Continue
            },
            Command::ClearAll => {
                self.clear_all(now);
                Action::Continue
            },
            Command::SelectNext => {
                self.select_next();
                Action::Continue
            },
            Command::SelectPrevious => {
                self.select_previous();
                Action::Continue
            },
            Command::NextTab => {
                self.tab = (self.tab % TAB_COUNT + 1) % TAB_COUNT;
                Action::Continue
            },
            Command::Confirm => {
                let path = String::from_str(self.input.value());
                self.input.reset();
                self.mode = Mode::Browsing;
                if path.as_str().is_empty() {
                    Action::Continue
                } else {
                    Action::Analyze(path)
                }
            },
            Command::Cancel => {
                self.input.reset();
                self.mode = Mode::Browsing;
                Action::Continue
            },
            Command::Edit => {
                match press.edit {
                    Some(request) => {
                        apply_edit(&mut self.input, request);
                    },
                    None => {},
                }
                Action::Continue
            },
            Command::ScrollUp => {
                if self.scroll > 0 {
                    self.scroll = self.scroll - 1;
                }
                Action::Continue
            },
            Command::ScrollDown => {
                if self.scroll < usize::MAX {
                    self.scroll = self.scroll + 1;
                }
                Action::Continue
            },
            Command::Back => {
                self.mode = Mode::Browsing;
                Action::Continue
            },
        }
    }

    /// Takes the outcome of the analysis that `handle_key` asked for, which
    /// took `elapsed_ms` milliseconds and ended at `now`. A record is
    /// appended to the catalogue and the time is reported; an error is
    /// reported and leaves the catalogue as it was. The mode does not change.
    pub fn finish_analysis(
        &mut self,
        outcome: Result<MediaRecord, ExtractionError>,
        elapsed_ms: u64,
        now: u64,
    )
        ensures
            final(self)@ == after_analysis(old(self)@, outcome, elapsed_ms, now),
            outcome is Err ==> final(self)@.records == old(self)@.records,
    {
        match outcome {
            Ok(record) => {
                self.append(record);
                self.notify(analysis_message_for(elapsed_ms), now);
            },
            Err(error) => {
                self.notify(error.description(), now);
            },
        }
    }
}

} // verus!
