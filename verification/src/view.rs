//! The display: what the launcher shows, line by line, for a state and a viewport.
//!
//! A line is given by its kind and its texts. Colours and glyphs are the host's.

use vstd::prelude::*;
use crate::buffer::{BufferModel, InputBuffer};
use crate::config::{is_set, Config};
use crate::dispatch::{config_complete, configured_cwd, is_config_complete, working_dir};

verus! {

/// One line of the display.
#[derive(Clone, Debug, PartialEq, Eq)]
pub enum Line {
    /// The interpreter or its flag is not configured.
    ConfigError,
    /// The command that Enter would launch is well quoted: an empty line.
    CommandValid,
    /// The command that Enter would launch is not well quoted.
    CommandInvalid,
    /// The prompt with the text under edit, parted at the cursor.
    Prompt { completing: bool, before: String, after: String },
    /// The prompt over an empty line, with a hint in place of text.
    PromptHint { completing: bool },
    /// The candidate that is selected.
    Match(String),
    /// No candidate is selected.
    NoMatch,
    /// An empty line.
    Blank,
    /// The heading of the list of candidates.
    ListHeader,
    /// A candidate that matches the text.
    Candidate(String),
    /// More candidates match than the viewport has room for.
    Truncated,
    /// The working directory of launched commands.
    WorkingDir(String),
    /// The key bindings.
    KeyHelp,
    /// For diagnosis: the text under edit.
    DebugInput(String),
    /// For diagnosis: the cursor's index.
    DebugCursor(usize),
    /// For diagnosis: the length of the text.
    DebugLength(usize),
    /// For diagnosis: the heading of the configuration.
    DebugConfigHeader,
    /// For diagnosis: one entry of the configuration.
    DebugEntry { key: String, value: String },
}

/// The value of a [`Line`].
pub enum LineModel {
    ConfigError,
    CommandValid,
    CommandInvalid,
    Prompt { completing: bool, before: Seq<char>, after: Seq<char> },
    PromptHint { completing: bool },
    Match(Seq<char>),
    NoMatch,
    Blank,
    ListHeader,
    Candidate(Seq<char>),
    Truncated,
    WorkingDir(Seq<char>),
    KeyHelp,
    DebugInput(Seq<char>),
    DebugCursor(usize),
    DebugLength(usize),
    DebugConfigHeader,
    DebugEntry { key: Seq<char>, value: Seq<char> },
}

impl View for Line {
    type V = LineModel;

    open spec fn view(&self) -> LineModel {
        match self {
            Line::ConfigError => LineModel::ConfigError,
            Line::CommandValid => LineModel::CommandValid,
            Line::CommandInvalid => LineModel::CommandInvalid,
            Line::Prompt { completing, before, after } => LineModel::Prompt {
                completing: *completing,
                before: before@,
                after: after@,
            },
            Line::PromptHint { completing } => LineModel::PromptHint { completing: *completing },
            Line::Match(m) => LineModel::Match(m@),
            Line::NoMatch => LineModel::NoMatch,
            Line::Blank => LineModel::Blank,
            Line::ListHeader => LineModel::ListHeader,
            Line::Candidate(c) => LineModel::Candidate(c@),
            Line::Truncated => LineModel::Truncated,
            Line::WorkingDir(d) => LineModel::WorkingDir(d@),
            Line::KeyHelp => LineModel::KeyHelp,
            Line::DebugInput(t) => LineModel::DebugInput(t@),
            Line::DebugCursor(n) => LineModel::DebugCursor(*n),
            Line::DebugLength(n) => LineModel::DebugLength(*n),
            Line::DebugConfigHeader => LineModel::DebugConfigHeader,
            Line::DebugEntry { key, value } => LineModel::DebugEntry { key: key@, value: value@ },
        }
    }
}

/// The values of some lines, in their order.
pub open spec fn lines_view(lines: Seq<Line>) -> Seq<LineModel> {
    Seq::new(lines.len(), |i: int| lines[i]@)
}

/// Below this many rows the display is the validation line and the prompt.
pub const MIN_ROWS: usize = 5;

/// Below this many rows the completion is switched off.
pub const COMPLETION_ROWS: usize = 10;

/// The rows that are spoken for before the first candidate is listed: nine lines
/// above the list, and four kept free.
pub const LIST_RESERVE: usize = 13;

/// The key whose value `true` adds the diagnostic lines.
pub const KEY_DEBUG: &'static str = "debug";

/// The line that tells whether the command is well quoted.
pub open spec fn validation_line(valid: bool) -> LineModel {
    if valid {
        LineModel::CommandValid
    } else {
        LineModel::CommandInvalid
    }
}

/// The prompt: the text parted at the cursor, or a hint where there is no text.
pub open spec fn prompt_line(input: BufferModel, completing: bool) -> LineModel {
    if input.text.len() == 0 {
        LineModel::PromptHint { completing }
    } else {
        LineModel::Prompt {
            completing,
            before: input.before_cursor(),
            after: input.after_cursor(),
        }
    }
}

/// How many candidates a viewport of `rows` rows has room for.
pub open spec fn list_room(rows: int) -> int {
    if rows > LIST_RESERVE {
        rows - LIST_RESERVE
    } else {
        0
    }
}

/// The list of matching candidates: all of them where there is room, else as many as
/// there is room for and a mark that the list goes on.
pub open spec fn listing(matches: Seq<Seq<char>>, room: int) -> Seq<LineModel> {
    if matches.len() <= room {
        Seq::new(matches.len(), |i: int| LineModel::Candidate(matches[i]))
    } else {
        Seq::new(room as nat, |i: int| LineModel::Candidate(matches[i])).push(LineModel::Truncated)
    }
}

/// The line of the selected candidate.
pub open spec fn match_line(best: Option<Seq<char>>) -> LineModel {
    match best {
        Some(m) => LineModel::Match(m),
        None => LineModel::NoMatch,
    }
}

/// The completion's part of the display.
pub open spec fn completion_lines(
    best: Option<Seq<char>>,
    matches: Seq<Seq<char>>,
    rows: int,
) -> Seq<LineModel> {
    seq![match_line(best), LineModel::Blank, LineModel::ListHeader] + listing(
        matches,
        list_room(rows),
    )
}

/// The working directory's part of the display.
pub open spec fn cwd_lines(config: Seq<(Seq<char>, Seq<char>)>) -> Seq<LineModel> {
    match working_dir(config) {
        Some(dir) => seq![LineModel::Blank, LineModel::WorkingDir(dir)],
        None => Seq::empty(),
    }
}

/// The diagnostic part of the display.
pub open spec fn debug_lines(config: Seq<(Seq<char>, Seq<char>)>, input: BufferModel) -> Seq<
    LineModel,
> {
    if is_set(config, KEY_DEBUG@) {
        seq![
            LineModel::DebugInput(input.text),
            LineModel::DebugCursor(input.cursor as usize),
            LineModel::DebugLength(input.text.len() as usize),
            LineModel::DebugConfigHeader,
        ] + Seq::new(
            config.len(),
            |i: int| LineModel::DebugEntry { key: config[i].0, value: config[i].1 },
        )
    } else {
        Seq::empty()
    }
}

/// Whether the completion is shown: it is switched on and the viewport is high enough.
pub open spec fn completing(enabled: bool, rows: int) -> bool {
    enabled && rows >= COMPLETION_ROWS
}

/// The display of a state in a viewport of `rows` rows. `valid` tells whether the
/// command that Enter would launch is well quoted, and `matches` are the candidates
/// that match the text.
pub open spec fn frame(
    config: Seq<(Seq<char>, Seq<char>)>,
    input: BufferModel,
    enabled: bool,
    best: Option<Seq<char>>,
    matches: Seq<Seq<char>>,
    valid: bool,
    rows: int,
) -> Seq<LineModel> {
    if !config_complete(config) {
        seq![LineModel::ConfigError]
    } else if rows < MIN_ROWS {
        seq![validation_line(valid), prompt_line(input, false)]
    } else {
        seq![validation_line(valid), prompt_line(input, completing(enabled, rows))] + (if completing(
            enabled,
            rows,
        ) {
            completion_lines(best, matches, rows)
        } else {
            Seq::empty()
        }) + cwd_lines(config) + seq![LineModel::Blank, LineModel::KeyHelp] + debug_lines(
            config,
            input,
        )
    }
}

/// Whether the completion is still switched on once the display was made: a viewport
/// too low for it switches it off, unless the configuration is incomplete and nothing
/// but the error is shown.
pub open spec fn enabled_after(
    config: Seq<(Seq<char>, Seq<char>)>,
    enabled: bool,
    rows: int,
) -> bool {
    if config_complete(config) && rows < COMPLETION_ROWS {
        false
    } else {
        enabled
    }
}

/// In a viewport too low for anything else, a complete configuration shows two lines,
/// the validation line and the prompt without completion, and the completion is off
/// afterwards, whatever it was before.
pub proof fn lemma_low_viewport(
    config: Seq<(Seq<char>, Seq<char>)>,
    input: BufferModel,
    enabled: bool,
    best: Option<Seq<char>>,
    matches: Seq<Seq<char>>,
    valid: bool,
    rows: int,
)
    requires
        config_complete(config),
        rows < MIN_ROWS,
    ensures
        frame(config, input, enabled, best, matches, valid, rows) == seq![
            validation_line(valid),
            prompt_line(input, false),
        ],
        !enabled_after(config, enabled, rows),
{
}

/// Where the completion has room and no diagnosis is asked for, the display is never
/// higher than the viewport, however many candidates match.
pub proof fn lemma_frame_fits(
    config: Seq<(Seq<char>, Seq<char>)>,
    input: BufferModel,
    enabled: bool,
    best: Option<Seq<char>>,
    matches: Seq<Seq<char>>,
    valid: bool,
    rows: int,
)
    requires
        rows >= COMPLETION_ROWS,
        !is_set(config, KEY_DEBUG@),
    ensures
        frame(config, input, enabled, best, matches, valid, rows).len() <= rows,
{
}

/// Adds a line at the end.
fn push_line(out: &mut Vec<Line>, line: Line)
    ensures
        lines_view(final(out)@) == lines_view(old(out)@).push(line@),
{
    out.push(line);
    assert(lines_view(out@) =~= lines_view(old(out)@).push(line@));
}

/// The prompt line for the text under edit.
pub fn prompt(input: &InputBuffer, completing: bool) -> (line: Line)
    ensures
        line@ == prompt_line(input@, completing),
{
    if input.is_empty() {
        Line::PromptHint { completing }
    } else {
        let (before, after) = input.split_at_cursor();
        Line::Prompt { completing, before, after }
    }
}

/// Adds the list of matching candidates, cut to the room there is.
fn push_listing(out: &mut Vec<Line>, matches: &Vec<String>, rows: usize)
    ensures
        lines_view(final(out)@) == lines_view(old(out)@) + listing(
            matches.deep_view(),
            list_room(rows as int),
        ),
{
    let room: usize = if rows > LIST_RESERVE {
        rows - LIST_RESERVE
    } else {
        0
    };
    let shown: usize = if matches.len() <= room {
        matches.len()
    } else {
        room
    };
    let ghost start = lines_view(out@);
    let ghost all = matches.deep_view();
    let mut i: usize = 0;
    assert(start + Seq::new(0nat, |k: int| LineModel::Candidate(all[k])) =~= start);
    while i < shown
        invariant
            i <= shown <= matches.len(),
            all == matches.deep_view(),
            lines_view(out@) == start + Seq::new(i as nat, |k: int| LineModel::Candidate(all[k])),
        decreases shown - i,
    {
        let entry: String = matches[i].clone();
        assert(entry@ == all[i as int]);
        push_line(out, Line::Candidate(entry));
        assert(lines_view(out@) =~= start + Seq::new(
            (i + 1) as nat,
            |k: int| LineModel::Candidate(all[k]),
        ));
        i = i + 1;
    }
    if matches.len() > room {
        push_line(out, Line::Truncated);
        assert(lines_view(out@) =~= start + listing(all, list_room(rows as int)));
    }
}

/// Adds the diagnostic lines.
fn push_debug(out: &mut Vec<Line>, config: &Config, input: &InputBuffer)
    ensures
        lines_view(final(out)@) == lines_view(old(out)@) + debug_lines(config@, input@),
{
    let ghost start = lines_view(out@);
    if config.flag(KEY_DEBUG) {
        let cursor: usize = input.cursor();
        let len: usize = input.len();
        push_line(out, Line::DebugInput(input.text()));
        push_line(out, Line::DebugCursor(cursor));
        push_line(out, Line::DebugLength(len));
        push_line(out, Line::DebugConfigHeader);
        let ghost head = lines_view(out@);
        let ghost cfg = config@;
        let mut i: usize = 0;
        assert(head + Seq::new(
            0nat,
            |k: int| LineModel::DebugEntry { key: cfg[k].0, value: cfg[k].1 },
        ) =~= head);
        while i < config.entries.len()
            invariant
                i <= config.entries.len(),
                cfg == config@,
                lines_view(out@) == head + Seq::new(
                    i as nat,
                    |k: int| LineModel::DebugEntry { key: cfg[k].0, value: cfg[k].1 },
                ),
            decreases config.entries.len() - i,
        {
            let key: String = config.entries[i].key.clone();
            let value: String = config.entries[i].value.clone();
            push_line(out, Line::DebugEntry { key, value });
            assert(lines_view(out@) =~= head + Seq::new(
                (i + 1) as nat,
                |k: int| LineModel::DebugEntry { key: cfg[k].0, value: cfg[k].1 },
            ));
            i = i + 1;
        }
        assert(lines_view(out@) =~= start + debug_lines(config@, input@));
    } else {
        assert(start + debug_lines(config@, input@) =~= start);
    }
}

/// The display of a state in a viewport of `rows` rows, given whether the command that
/// Enter would launch is well quoted and which candidates match the text.
pub fn compose_frame(
    config: &Config,
    input: &InputBuffer,
    enabled: bool,
    best: &Option<String>,
    matches: &Vec<String>,
    valid: bool,
    rows: usize,
) -> (out: Vec<Line>)
    ensures
        lines_view(out@) == frame(
            config@,
            input@,
            enabled,
            best.deep_view(),
            matches.deep_view(),
            valid,
            rows as int,
        ),
{
    let mut out: Vec<Line> = Vec::new();
    assert(lines_view(out@) =~= Seq::<LineModel>::empty());
    if !is_config_complete(config) {
        push_line(&mut out, Line::ConfigError);
        assert(lines_view(out@) =~= seq![LineModel::ConfigError]);
        return out;
    }
    push_line(
        &mut out,
        if valid {
            Line::CommandValid
        } else {
            Line::CommandInvalid
        },
    );
    if rows < MIN_ROWS {
        push_line(&mut out, prompt(input, false));
        assert(lines_view(out@) =~= seq![validation_line(valid), prompt_line(input@, false)]);
        return out;
    }
    let showing: bool = enabled && rows >= COMPLETION_ROWS;
    push_line(&mut out, prompt(input, showing));
    let ghost head = seq![validation_line(valid), prompt_line(input@, showing)];
    assert(lines_view(out@) =~= head);
    let ghost middle = if showing {
        completion_lines(best.deep_view(), matches.deep_view(), rows as int)
    } else {
        Seq::<LineModel>::empty()
    };
    if showing {
        push_line(
            &mut out,
            match best {
                Some(m) => Line::Match(m.clone()),
                None => Line::NoMatch,
            },
        );
        push_line(&mut out, Line::Blank);
        push_line(&mut out, Line::ListHeader);
        push_listing(&mut out, matches, rows);
    }
    assert(lines_view(out@) =~= head + middle);
    match configured_cwd(config) {
        Some(dir) => {
            push_line(&mut out, Line::Blank);
            push_line(&mut out, Line::WorkingDir(dir));
        },
        None => {},
    }
    assert(lines_view(out@) =~= head + middle + cwd_lines(config@));
    push_line(&mut out, Line::Blank);
    push_line(&mut out, Line::KeyHelp);
    assert(lines_view(out@) =~= head + middle + cwd_lines(config@) + seq![
        LineModel::Blank,
        LineModel::KeyHelp,
    ]);
    push_debug(&mut out, config, input);
    out
}

} // verus!
