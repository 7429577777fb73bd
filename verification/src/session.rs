//! The session: the launcher's whole state, and what each event does to it.

use vstd::prelude::*;
use crate::buffer::{BufferModel, InputBuffer};
use crate::candidates::{build_candidates, candidates_of};
use crate::config::{is_set, lookup, Config};
use crate::dispatch::{
    config_complete,
    is_config_complete,
    placement_of,
    plan,
    plan_dispatch,
    requests_view,
    working_dir,
    ExecModel,
    Request,
    RequestModel,
    KEY_EMBEDDED,
    KEY_SHELL,
    KEY_SHELL_FLAG,
};
use crate::matcher::{best_match, find_best, matching, matching_candidates, scores_of};
use crate::panes::{
    active_position,
    focused_position,
    helper_in,
    listing_view,
    locate_helper,
    TabInfo,
    TabPanes,
    TabPanesModel,
};
use crate::shell::{shell_words, split_command, well_quoted, DispatchError};
use crate::view::{
    compose_frame,
    enabled_after,
    frame,
    lines_view,
    prompt_line,
    validation_line,
    Line,
    LineModel,
    COMPLETION_ROWS,
    MIN_ROWS,
};

verus! {

/// The key under which the inline list of candidates is configured, one to a line.
pub const KEY_CANDIDATES: &'static str = "global_completion";

/// The key under which the helper pane's title is configured.
pub const KEY_HELPER: &'static str = "ghost_launcher";

/// The helper pane's title where none is configured.
pub const DEFAULT_HELPER: &'static str = "GhostLauncher";

/// A key press, as far as the launcher tells keys apart.
#[derive(Clone, Copy, Debug, PartialEq, Eq, Structural)]
pub enum Key {
    Enter,
    Backspace,
    Left,
    Right,
    Esc,
    /// A character typed by itself.
    Char(char),
    /// A character typed with the control key held.
    Ctrl(char),
    /// Any other key.
    Other,
}

/// What the host reports.
#[derive(Clone, Debug, PartialEq, Eq)]
pub enum Event {
    /// A key was pressed.
    Key(Key),
    /// The tabs, as they are now.
    TabUpdate(Vec<TabInfo>),
    /// The panes of each tab, as they are now.
    PaneUpdate(Vec<TabPanes>),
    /// Anything else.
    Other,
}

/// What an event leads to: whether the display has to be drawn again, and what the
/// host is asked to do, in this order.
#[derive(Clone, Debug, PartialEq, Eq)]
pub struct Outcome {
    pub render: bool,
    pub requests: Vec<Request>,
}

/// The launcher's state.
#[derive(Clone, Debug, PartialEq, Eq)]
pub struct Session {
    /// Whether launched commands are placed in the layout.
    pub embedded: bool,
    /// The text under edit.
    pub input: InputBuffer,
    /// The configuration, fixed once loaded.
    pub config: Config,
    /// Whether candidates are selected and shown.
    pub completion_enabled: bool,
    /// The candidates, fixed once loaded.
    pub candidates: Vec<String>,
    /// The candidate selected when the selection was last computed.
    pub best_match: Option<String>,
    /// The position of the tab that has the focus.
    pub focused_tab: usize,
    /// The helper pane that the last pane listing showed.
    pub helper_pane: Option<u32>,
}

/// The value of a [`Session`].
pub struct SessionModel {
    pub embedded: bool,
    pub input: BufferModel,
    pub config: Seq<(Seq<char>, Seq<char>)>,
    pub completion_enabled: bool,
    pub candidates: Seq<Seq<char>>,
    pub best_match: Option<Seq<char>>,
    pub focused_tab: usize,
    pub helper_pane: Option<u32>,
}

impl View for Session {
    type V = SessionModel;

    open spec fn view(&self) -> SessionModel {
        SessionModel {
            embedded: self.embedded,
            input: self.input@,
            config: self.config@,
            completion_enabled: self.completion_enabled,
            candidates: self.candidates.deep_view(),
            best_match: self.best_match.deep_view(),
            focused_tab: self.focused_tab,
            helper_pane: self.helper_pane,
        }
    }
}

/// The session as it starts: an empty line, the candidates of both sources, and the
/// completion switched on where there is a candidate at all.
pub open spec fn loaded(config: Seq<(Seq<char>, Seq<char>)>, file: Option<Seq<char>>) -> SessionModel {
    let candidates = candidates_of(lookup(config, KEY_CANDIDATES@), file);
    SessionModel {
        embedded: is_set(config, KEY_EMBEDDED@),
        input: BufferModel { text: Seq::empty(), cursor: 0 },
        config,
        completion_enabled: candidates.len() > 0,
        candidates,
        best_match: None,
        focused_tab: 0,
        helper_pane: None,
    }
}

/// The title by which the helper pane is known.
pub open spec fn helper_name(config: Seq<(Seq<char>, Seq<char>)>) -> Seq<char> {
    match lookup(config, KEY_HELPER@) {
        Some(name) => name,
        None => DEFAULT_HELPER@,
    }
}

impl SessionModel {
    /// The cursor is inside the text.
    pub open spec fn wf(self) -> bool {
        self.input.wf()
    }

    /// The command that Enter would launch: the selected candidate while the
    /// completion is on and has one, else the text as typed.
    pub open spec fn resolved(self) -> Seq<char> {
        if self.completion_enabled && self.best_match is Some {
            self.best_match.unwrap()
        } else {
            self.input.text
        }
    }

    /// The session with another text under edit.
    pub open spec fn with_input(self, input: BufferModel) -> SessionModel {
        SessionModel { input, ..self }
    }

    /// The session with the selection computed anew for the text as it is.
    pub open spec fn refreshed(self) -> SessionModel {
        SessionModel { best_match: best_match(self.candidates, self.input.text), ..self }
    }

    /// The session after a character was typed. The selection follows only where the
    /// insertion says so.
    pub open spec fn typed(self, c: char) -> SessionModel {
        let next = self.with_input(self.input.insert(c));
        if self.input.insert_signals() {
            next.refreshed()
        } else {
            next
        }
    }

    /// The session after a backspace. The selection follows only where the removal
    /// says so.
    pub open spec fn erased(self) -> SessionModel {
        let next = self.with_input(self.input.remove_before_cursor());
        if self.input.remove_signals() {
            next.refreshed()
        } else {
            next
        }
    }

    /// What launching `command` from this session comes to.
    pub open spec fn launch(self, command: Seq<char>) -> Result<ExecModel, DispatchError> {
        plan(command, well_quoted(command), self.config, self.embedded)
    }

    /// The requests by which `command` is launched: one to run it and one to close the
    /// launcher; none where it cannot be launched.
    pub open spec fn launch_requests(self, command: Seq<char>) -> Seq<RequestModel> {
        match self.launch(command) {
            Ok(exec) => seq![RequestModel::Run(exec), RequestModel::CloseSelf],
            Err(_) => Seq::empty(),
        }
    }

    /// The session after `command` was to be launched: the line is emptied where it
    /// was, and nothing changes where it was not.
    pub open spec fn launched(self, command: Seq<char>) -> SessionModel {
        match self.launch(command) {
            Ok(_) => self.with_input(BufferModel { text: Seq::empty(), cursor: 0 }),
            Err(_) => self,
        }
    }

    /// The requests that close the launcher, the helper pane first where one is known.
    pub open spec fn close_requests(self) -> Seq<RequestModel> {
        match self.helper_pane {
            Some(id) => seq![RequestModel::ClosePane(id), RequestModel::CloseSelf],
            None => seq![RequestModel::CloseSelf],
        }
    }

    /// The session after a key press.
    pub open spec fn after_key(self, key: Key) -> SessionModel {
        match key {
            Key::Enter => self.launched(self.resolved()),
            Key::Backspace => self.erased(),
            Key::Left => self.with_input(self.input.move_left()),
            Key::Right => self.with_input(self.input.move_right()),
            Key::Esc => self,
            Key::Ctrl(c) => if c == 'c' {
                self
            } else if c == 'x' {
                SessionModel { completion_enabled: !self.completion_enabled, ..self }
            } else {
                self.typed(c)
            },
            Key::Char(c) => self.typed(c),
            Key::Other => self,
        }
    }

    /// What a key press asks of the host.
    pub open spec fn key_requests(self, key: Key) -> Seq<RequestModel> {
        match key {
            Key::Enter => self.launch_requests(self.resolved()),
            Key::Esc => self.close_requests(),
            Key::Ctrl(c) => if c == 'c' {
                self.close_requests()
            } else {
                Seq::empty()
            },
            _ => Seq::empty(),
        }
    }

    /// The session after a snapshot of the tabs: the focus is where the snapshot has
    /// it, and stays where the snapshot marks no tab.
    pub open spec fn after_tabs(self, tabs: Seq<TabInfo>) -> SessionModel {
        match active_position(tabs) {
            Some(position) => SessionModel { focused_tab: position, ..self },
            None => self,
        }
    }

    /// The session after a listing of the panes: the helper pane is the one that the
    /// listing shows in the focused tab.
    pub open spec fn after_panes(self, listing: Seq<TabPanesModel>) -> SessionModel {
        SessionModel {
            helper_pane: helper_in(listing, self.focused_tab, helper_name(self.config)),
            ..self
        }
    }

    /// What a listing of the panes asks of the host: to close the helper pane, every
    /// time that one is shown.
    pub open spec fn pane_requests(self, listing: Seq<TabPanesModel>) -> Seq<RequestModel> {
        match helper_in(listing, self.focused_tab, helper_name(self.config)) {
            Some(id) => seq![RequestModel::ClosePane(id)],
            None => Seq::empty(),
        }
    }

    /// The display in a viewport of `rows` rows.
    pub open spec fn display(self, rows: int) -> Seq<LineModel> {
        frame(
            self.config,
            self.input,
            self.completion_enabled,
            self.best_match,
            matching(self.candidates, scores_of(self.candidates, self.input.text)),
            well_quoted(self.resolved()),
            rows,
        )
    }

    /// The session once the display was made.
    pub open spec fn displayed(self, rows: int) -> SessionModel {
        SessionModel {
            completion_enabled: enabled_after(self.config, self.completion_enabled, rows),
            ..self
        }
    }
}

/// A command with a quote left open is not launched: nothing is asked of the host, and
/// the session, the text under edit with it, stays as it is.
pub proof fn lemma_malformed_not_launched(s: SessionModel, command: Seq<char>)
    requires
        !well_quoted(command),
    ensures
        s.launch(command) == Err::<ExecModel, DispatchError>(DispatchError::MalformedCommand),
        s.launch_requests(command) == Seq::<RequestModel>::empty(),
        s.launched(command) == s,
{
}

/// Without the interpreter or without its flag no command is launched: nothing is
/// asked of the host, and the session stays as it is.
pub proof fn lemma_unconfigured_not_launched(s: SessionModel, command: Seq<char>)
    requires
        lookup(s.config, KEY_SHELL@) is None || lookup(s.config, KEY_SHELL_FLAG@) is None,
    ensures
        s.launch(command) is Err,
        s.launch_requests(command) == Seq::<RequestModel>::empty(),
        s.launched(command) == s,
{
}

/// A well quoted command under a complete configuration is launched by exactly two
/// requests. The first runs the interpreter with two arguments, its flag and the whole
/// command as it was given; the second closes the launcher. The line is empty
/// afterwards.
pub proof fn lemma_launch_requests(s: SessionModel, command: Seq<char>)
    requires
        well_quoted(command),
        config_complete(s.config),
    ensures
        s.launch_requests(command) == seq![
            RequestModel::Run(
                ExecModel {
                    path: lookup(s.config, KEY_SHELL@).unwrap(),
                    args: seq![lookup(s.config, KEY_SHELL_FLAG@).unwrap(), command],
                    cwd: working_dir(s.config),
                    placement: placement_of(s.embedded),
                },
            ),
            RequestModel::CloseSelf,
        ],
        s.launched(command).input.text == Seq::<char>::empty(),
        s.launched(command).input.cursor == 0,
{
}

/// In a viewport of fewer rows than the least, the display is the error line alone
/// where the configuration is incomplete, and else the validation line and the prompt
/// without completion; and the completion is then off afterwards, whatever it was.
pub proof fn lemma_low_viewport_display(s: SessionModel, rows: int)
    requires
        rows < MIN_ROWS,
    ensures
        !config_complete(s.config) ==> s.display(rows) == seq![LineModel::ConfigError],
        config_complete(s.config) ==> s.display(rows) == seq![
            validation_line(well_quoted(s.resolved())),
            prompt_line(s.input, false),
        ],
        config_complete(s.config) ==> !s.displayed(rows).completion_enabled,
{
}

/// A listing of the panes levels the session: shown a second time, the same listing
/// leaves the session as it is and asks for the same pane to be closed again.
pub proof fn lemma_pane_update_levels(s: SessionModel, listing: Seq<TabPanesModel>)
    ensures
        s.after_panes(listing).after_panes(listing) == s.after_panes(listing),
        s.after_panes(listing).pane_requests(listing) == s.pane_requests(listing),
{
}

/// The selection depends on the candidates and the text alone: two sessions that agree
/// on both select the same candidate, whatever else they hold.
pub proof fn lemma_selection_determined(a: SessionModel, b: SessionModel)
    requires
        a.candidates == b.candidates,
        a.input.text == b.input.text,
    ensures
        a.refreshed().best_match == b.refreshed().best_match,
{
}

/// Typing keeps the cursor inside the text and makes the text one character longer,
/// whatever else the key press leads to.
pub proof fn lemma_typed_grows(s: SessionModel, c: char)
    requires
        s.wf(),
    ensures
        s.typed(c).wf(),
        s.typed(c).input.text.len() == s.input.text.len() + 1,
{
}

impl Session {
    /// The session as it starts, from the configuration and the text of the candidate
    /// file, where there is one.
    pub fn load(config: Config, file: Option<&str>) -> (s: Session)
        ensures
            s@ == loaded(config@, file.deep_view()),
            s@.wf(),
    {
        let embedded = config.flag(KEY_EMBEDDED);
        let candidates = match config.get(KEY_CANDIDATES) {
            Some(text) => build_candidates(Some(text.as_str()), file),
            None => build_candidates(None, file),
        };
        let completion_enabled = candidates.len() > 0;
        Session {
            embedded,
            input: InputBuffer::new(),
            config,
            completion_enabled,
            candidates,
            best_match: None,
            focused_tab: 0,
            helper_pane: None,
        }
    }

    /// The command that Enter would launch.
    pub fn resolved_command(&self) -> (command: String)
        ensures
            command@ == self@.resolved(),
    {
        if self.completion_enabled {
            if let Some(best) = &self.best_match {
                return best.clone();
            }
        }
        self.input.text()
    }

    /// The words of the command that Enter would launch, or the reason why it has
    /// none.
    pub fn check_valid_cmd(&self) -> (r: Result<Vec<String>, DispatchError>)
        ensures
            match r {
                Ok(words) => shell_words(self@.resolved()) == Some(words.deep_view()),
                Err(e) => e == DispatchError::MalformedCommand && !well_quoted(self@.resolved()),
            },
    {
        let command = self.resolved_command();
        split_command(command.as_str())
    }

    /// Computes the selection anew for the text as it is.
    pub fn fuzzy_find_completion(&mut self)
        ensures
            final(self)@ == old(self)@.refreshed(),
            old(self)@.input.text.len() == 0 ==> final(self).best_match is None,
    {
        self.best_match = None;
        let query = self.input.text();
        self.best_match = find_best(&self.candidates, query.as_str());
    }

    /// Launches `input_cmd` where it is well quoted and the interpreter is configured:
    /// the requests are to run it and to close the launcher, and the line is emptied.
    /// Else nothing is asked and nothing changes.
    pub fn run_command(&mut self, input_cmd: String) -> (r: Result<Vec<Request>, DispatchError>)
        ensures
            final(self)@ == old(self)@.launched(input_cmd@),
            match r {
                Ok(requests) => {
                    &&& old(self)@.launch(input_cmd@) is Ok
                    &&& requests_view(requests@) == old(self)@.launch_requests(input_cmd@)
                },
                Err(e) => old(self)@.launch(input_cmd@) == Err::<ExecModel, DispatchError>(e),
            },
    {
        let valid = split_command(input_cmd.as_str()).is_ok();
        match plan_dispatch(input_cmd, valid, &self.config, self.embedded) {
            Ok(exec) => {
                let mut requests: Vec<Request> = Vec::new();
                requests.push(Request::Run(exec));
                requests.push(Request::CloseSelf);
                self.input.clear();
                assert(requests_view(requests@) =~= old(self)@.launch_requests(input_cmd@));
                assert(self@.input =~= (BufferModel { text: Seq::empty(), cursor: 0 }));
                Ok(requests)
            },
            Err(e) => Err(e),
        }
    }

    /// Launches the command that Enter stands for.
    pub fn dispatch(&mut self) -> (requests: Vec<Request>)
        ensures
            final(self)@ == old(self)@.launched(old(self)@.resolved()),
            requests_view(requests@) == old(self)@.launch_requests(old(self)@.resolved()),
    {
        let command = self.resolved_command();
        match self.run_command(command) {
            Ok(requests) => requests,
            Err(_) => {
                let none: Vec<Request> = Vec::new();
                assert(requests_view(none@) =~= Seq::<RequestModel>::empty());
                none
            },
        }
    }

    /// The requests that close the launcher and, before it, the helper pane where one
    /// is known.
    pub fn close(&self) -> (requests: Vec<Request>)
        ensures
            requests_view(requests@) == self@.close_requests(),
    {
        let mut requests: Vec<Request> = Vec::new();
        if let Some(id) = self.helper_pane {
            requests.push(Request::ClosePane(id));
        }
        requests.push(Request::CloseSelf);
        assert(requests_view(requests@) =~= self@.close_requests());
        requests
    }

    /// Types a character and lets the selection follow where the insertion says so.
    pub fn type_char(&mut self, c: char)
        ensures
            final(self)@ == old(self)@.typed(c),
            final(self)@.wf(),
    {
        if self.input.insert(c) {
            self.fuzzy_find_completion();
        }
    }

    /// Takes a character out and lets the selection follow where the removal says so.
    pub fn erase_char(&mut self)
        ensures
            final(self)@ == old(self)@.erased(),
            final(self)@.wf(),
    {
        if self.input.remove_before_cursor() {
            self.fuzzy_find_completion();
        }
    }

    /// A key press. The display is drawn again after every key.
    pub fn handle_key_event(&mut self, key: Key) -> (out: Outcome)
        ensures
            final(self)@ == old(self)@.after_key(key),
            requests_view(out.requests@) == old(self)@.key_requests(key),
            out.render,
    {
        let mut requests: Vec<Request> = Vec::new();
        assert(requests_view(requests@) =~= Seq::<RequestModel>::empty());
        match key {
            Key::Enter => {
                requests = self.dispatch();
            },
            Key::Backspace => {
                self.erase_char();
            },
            Key::Left => {
                self.input.move_left();
            },
            Key::Right => {
                self.input.move_right();
            },
            Key::Esc => {
                requests = self.close();
            },
            Key::Ctrl(c) => {
                if c == 'c' {
                    requests = self.close();
                } else if c == 'x' {
                    self.completion_enabled = !self.completion_enabled;
                } else {
                    self.type_char(c);
                }
            },
            Key::Char(c) => {
                self.type_char(c);
            },
            Key::Other => {},
        }
        Outcome { render: true, requests }
    }

    /// A snapshot of the tabs: the focus moves to the tab that is marked active.
    pub fn on_tab_update(&mut self, tabs: &Vec<TabInfo>)
        ensures
            final(self)@ == old(self)@.after_tabs(tabs@),
    {
        if let Some(position) = focused_position(tabs) {
            self.focused_tab = position;
        }
    }

    /// A listing of the panes: the helper pane of the focused tab is noted and, where
    /// there is one, asked to be closed.
    pub fn on_pane_update(&mut self, listing: &Vec<TabPanes>) -> (requests: Vec<Request>)
        ensures
            final(self)@ == old(self)@.after_panes(listing_view(listing@)),
            requests_view(requests@) == old(self)@.pane_requests(listing_view(listing@)),
    {
        let found = match self.config.get(KEY_HELPER) {
            Some(name) => locate_helper(listing, self.focused_tab, name.as_str()),
            None => locate_helper(listing, self.focused_tab, DEFAULT_HELPER),
        };
        self.helper_pane = found;
        let mut requests: Vec<Request> = Vec::new();
        if let Some(id) = found {
            requests.push(Request::ClosePane(id));
        }
        assert(requests_view(requests@) =~= old(self)@.pane_requests(listing_view(listing@)));
        requests
    }

    /// An event of the host. Only a key press has the display drawn again.
    pub fn update(&mut self, event: Event) -> (out: Outcome)
        ensures
            match event {
                Event::Key(key) => {
                    &&& final(self)@ == old(self)@.after_key(key)
                    &&& requests_view(out.requests@) == old(self)@.key_requests(key)
                    &&& out.render
                },
                Event::TabUpdate(tabs) => {
                    &&& final(self)@ == old(self)@.after_tabs(tabs@)
                    &&& out.requests@.len() == 0
                    &&& !out.render
                },
                Event::PaneUpdate(listing) => {
                    &&& final(self)@ == old(self)@.after_panes(listing_view(listing@))
                    &&& requests_view(out.requests@) == old(self)@.pane_requests(
                        listing_view(listing@),
                    )
                    &&& !out.render
                },
                Event::Other => {
                    &&& final(self)@ == old(self)@
                    &&& out.requests@.len() == 0
                    &&& !out.render
                },
            },
    {
        match event {
            Event::Key(key) => self.handle_key_event(key),
            Event::TabUpdate(tabs) => {
                self.on_tab_update(&tabs);
                Outcome { render: false, requests: Vec::new() }
            },
            Event::PaneUpdate(listing) => {
                let requests = self.on_pane_update(&listing);
                Outcome { render: false, requests }
            },
            Event::Other => Outcome { render: false, requests: Vec::new() },
        }
    }

    /// The display in a viewport of `rows` rows. A viewport too low for the completion
    /// switches it off for good.
    pub fn render(&mut self, rows: usize, _cols: usize) -> (out: Vec<Line>)
        ensures
            lines_view(out@) == old(self)@.display(rows as int),
            final(self)@ == old(self)@.displayed(rows as int),
    {
        let complete = is_config_complete(&self.config);
        let valid: bool = complete && self.check_valid_cmd().is_ok();
        let showing: bool = complete && self.completion_enabled && rows >= COMPLETION_ROWS;
        let matches: Vec<String> = if showing {
            let query = self.input.text();
            matching_candidates(&self.candidates, query.as_str())
        } else {
            Vec::new()
        };
        let out = compose_frame(
            &self.config,
            &self.input,
            self.completion_enabled,
            &self.best_match,
            &matches,
            valid,
            rows,
        );
        if complete && rows < COMPLETION_ROWS {
            self.completion_enabled = false;
        }
        out
    }
}

} // verus!
