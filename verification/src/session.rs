//! The capture session: the marker that says one is running, and the
//! controller that decides, step by step, what one invocation does.
//!
//! The controller performs nothing itself. It is handed what happened and
//! answers with what to do next; whoever drives it performs that and
//! reports back. It keeps no state between invocations: each one starts
//! from the marker that it is told of and from whether the process that
//! the marker names is alive.

use crate::config::{Config, Settings};
use crate::decimal::{
    decimal_u32, integer_text, is_digit, lemma_integer_text_reads_back,
    lemma_natural_text_reads_back, push_integer, read_u32,
};
use crate::geometry::{
    monitor_for_selection, owner_of, resolution, resolve, Monitor, Rect, RegionError,
    SNAP_MARGIN_PX,
};
use crate::launcher::{build_capture_args, capture_args};
use crate::monitors::{
    layout_monitors, parse_display_dimensions, parse_monitor_layout, virtual_bounds,
    MonitorQueryError,
};
use crate::selection::{read_selection, selection, GeometryError};
use crate::text::{chars_of, lemma_trim_keeps_tight, texts, trim, trim_slice};
use vstd::prelude::*;

verus! {

/// How long, in milliseconds, an interrupted capture is given to end
/// before its marker is cleared.
pub const STOP_GRACE_MS: u64 = 250;

/// How long, in milliseconds, a started encoder is given before it is
/// asked whether it is still alive.
pub const START_GRACE_MS: u64 = 500;

/// The process that the text of a marker names: the unsigned 32-bit
/// integer that it writes, with any white space round it. A text that
/// writes none names no process.
pub open spec fn marker_pid(content: Seq<char>) -> Option<u32> {
    decimal_u32(trim(content))
}

/// The text of the marker for the process `pid`: its number in base ten.
pub open spec fn marker_text(pid: u32) -> Seq<char> {
    integer_text(pid as int)
}

/// Where the operating system shows the process `pid`, if it runs.
pub open spec fn process_path(pid: u32) -> Seq<char> {
    "/proc/"@ + integer_text(pid as int)
}

/// Reads the process that the text of a marker names.
pub fn parse_marker(content: &str) -> (pid: Option<u32>)
    ensures
        pid == marker_pid(content@),
{
    let chars = chars_of(content);
    read_u32(trim_slice(chars.as_slice()))
}

/// Writes the text of the marker for the process `pid`.
pub fn format_marker(pid: u32) -> (text: String)
    ensures
        text@ == marker_text(pid),
{
    let mut text = String::new();
    push_integer(&mut text, pid as i64);
    assert(text@ =~= marker_text(pid));
    text
}

/// Names the place where the operating system shows the process `pid`.
pub fn process_path_of(pid: u32) -> (path: String)
    ensures
        path@ == process_path(pid),
{
    let mut path: String = "/proc/".to_owned();
    push_integer(&mut path, pid as i64);
    path
}

/// Asks the file system whether anything stands at `path`, through
/// `std::path::Path::exists`. The answer is that of the machine at the
/// moment of asking: nothing is claimed of it.
#[verifier::external_body]
fn path_exists(path: &str) -> bool {
    std::path::Path::new(path).exists()
}

/// Asks the operating system whether it hosts a process `pid`: whether
/// the place where it would show one exists. The answer holds for the
/// moment of asking only, so nothing is promised of it.
pub fn process_exists(pid: u32) -> bool {
    let path = process_path_of(pid);
    path_exists(path.as_str())
}

/// Why an invocation failed.
#[derive(Clone, Copy, Debug, PartialEq, Eq, Structural)]
pub enum Failure {
    /// The interrupt could not be sent to the running capture.
    Signal,
    /// The selection tool could not be run.
    Selection,
    /// The selection tool printed no geometry.
    Geometry(GeometryError),
    /// No display owns the selection, and the bounds of the whole display
    /// could not be had either.
    Display(MonitorQueryError),
    /// The selection resolves to no rectangle that can be captured.
    InvalidRegion(RegionError),
    /// The place of the output file could not be prepared.
    Output,
    /// The encoder could not be started.
    Spawn,
    /// The encoder ended within the grace window after its start.
    Launch,
    /// The marker could not be written.
    Marker,
    /// What was reported does not answer what was asked for.
    Protocol,
}

/// How an invocation ended.
#[derive(Clone, Copy, Debug, PartialEq, Eq, Structural)]
pub enum Outcome {
    /// A running capture was stopped.
    Stopped,
    /// A capture was started; `pid` is its process.
    Started { pid: u32 },
    /// The user gave up the selection; nothing was done.
    Cancelled,
    /// The invocation failed.
    Failed(Failure),
}

impl Outcome {
    /// The exit code of an invocation that ended so: 1 for a failure, 0
    /// otherwise.
    pub open spec fn exit_status(self) -> int {
        if self is Failed {
            1
        } else {
            0
        }
    }

    /// Gives the exit code of an invocation that ended so.
    pub fn exit_code(&self) -> (code: u8)
        ensures
            code == self.exit_status(),
    {
        match self {
            Outcome::Failed(_) => 1,
            _ => 0,
        }
    }
}

/// Where an invocation stands: what it asked for last.
#[derive(Clone, Copy, Debug, PartialEq, Eq, Structural)]
pub enum Stage {
    /// Nothing was asked for yet.
    Idle,
    /// The marker is being read.
    ReadingMarker,
    /// The process of the marker is being probed.
    Probing { pid: u32 },
    /// The running capture is being interrupted.
    Interrupting { pid: u32 },
    /// The interrupted capture is given time to end.
    Settling,
    /// The marker of the stopped capture is being cleared.
    Forgetting,
    /// The marker of a dead process is being cleared.
    Discarding,
    /// The user is selecting a rectangle.
    Selecting,
    /// The displays are being listed, to find the one that owns the
    /// selection.
    Locating { selected: Rect },
    /// The bounds of the whole display are being asked for, since no
    /// display owns the selection.
    Measuring { selected: Rect },
    /// The place of the output file is being prepared.
    Preparing { region: Rect },
    /// The encoder is being started.
    Launching,
    /// The started encoder is given time to fail.
    Warming { pid: u32 },
    /// The started encoder is being probed.
    Confirming { pid: u32 },
    /// The marker of the started capture is being written.
    Persisting { pid: u32 },
    /// The invocation is over.
    Done,
}

/// What happened, as the controller is told.
#[derive(Clone, Debug, PartialEq, Eq)]
pub enum Event {
    /// The program was invoked.
    Invoked,
    /// The marker was read: its text, or nothing where there is none.
    MarkerRead { content: Option<String> },
    /// The process was probed.
    Probed { alive: bool },
    /// The interrupt was sent, or could not be.
    Interrupted { sent: bool },
    /// The time asked for has passed.
    Waited,
    /// The marker is gone.
    MarkerCleared,
    /// The selection tool ended: whether it could be run at all, whether
    /// it ended well, and what it printed.
    Selected { ran: bool, succeeded: bool, output: String },
    /// The layout query ended: whether it ran and ended well, and what it
    /// printed.
    MonitorsListed { succeeded: bool, output: String },
    /// The display query ended: whether it ran and ended well, and what it
    /// printed.
    DisplayReported { succeeded: bool, output: String },
    /// The place of the output file was prepared: its path, or nothing
    /// where that failed.
    OutputPrepared { path: Option<String> },
    /// The encoder was started: its process, or nothing where that failed.
    Launched { pid: Option<u32> },
    /// The marker was written, or could not be.
    MarkerWritten { saved: bool },
}

/// What to do next, as the controller answers.
#[derive(Clone, Debug, PartialEq, Eq)]
pub enum Action {
    /// Read the marker.
    ReadMarker,
    /// Ask whether the process is alive.
    ProbeProcess { pid: u32 },
    /// Send the process an interrupt.
    Interrupt { pid: u32 },
    /// Let this many milliseconds pass.
    Wait { millis: u64 },
    /// Remove the marker.
    ClearMarker,
    /// Let the user select a rectangle.
    SelectRegion,
    /// List the displays.
    QueryMonitors,
    /// Ask for the extent of the whole display.
    QueryDisplay,
    /// Prepare the place of an output file in this format.
    PrepareOutput { format: String },
    /// Start the encoder with these arguments.
    Launch { args: Vec<String> },
    /// Write the marker for this process.
    WriteMarker { pid: u32 },
    /// End the invocation.
    Finish { outcome: Outcome },
}

/// The controller of one invocation: where it stands, and the settings it
/// works under.
#[derive(Clone, Debug, PartialEq, Eq)]
pub struct Session {
    pub stage: Stage,
    pub config: Config,
}

/// What an `Event` says.
pub enum EventView {
    Invoked,
    MarkerRead { content: Option<Seq<char>> },
    Probed { alive: bool },
    Interrupted { sent: bool },
    Waited,
    MarkerCleared,
    Selected { ran: bool, succeeded: bool, output: Seq<char> },
    MonitorsListed { succeeded: bool, output: Seq<char> },
    DisplayReported { succeeded: bool, output: Seq<char> },
    OutputPrepared { path: Option<Seq<char>> },
    Launched { pid: Option<u32> },
    MarkerWritten { saved: bool },
}

/// What an `Action` says.
pub enum ActionView {
    ReadMarker,
    ProbeProcess { pid: u32 },
    Interrupt { pid: u32 },
    Wait { millis: u64 },
    ClearMarker,
    SelectRegion,
    QueryMonitors,
    QueryDisplay,
    PrepareOutput { format: Seq<char> },
    Launch { args: Seq<Seq<char>> },
    WriteMarker { pid: u32 },
    Finish { outcome: Outcome },
}

/// What a `Session` says.
pub struct SessionView {
    pub stage: Stage,
    pub settings: Settings,
}

/// The text that an optional string holds.
pub open spec fn text_of(s: Option<String>) -> Option<Seq<char>> {
    match s {
        Some(s) => Some(s@),
        None => None,
    }
}

impl View for Event {
    type V = EventView;

    open spec fn view(&self) -> EventView {
        match *self {
            Event::Invoked => EventView::Invoked,
            Event::MarkerRead { content } => EventView::MarkerRead { content: text_of(content) },
            Event::Probed { alive } => EventView::Probed { alive },
            Event::Interrupted { sent } => EventView::Interrupted { sent },
            Event::Waited => EventView::Waited,
            Event::MarkerCleared => EventView::MarkerCleared,
            Event::Selected { ran, succeeded, output } => EventView::Selected {
                ran,
                succeeded,
                output: output@,
            },
            Event::MonitorsListed { succeeded, output } => EventView::MonitorsListed {
                succeeded,
                output: output@,
            },
            Event::DisplayReported { succeeded, output } => EventView::DisplayReported {
                succeeded,
                output: output@,
            },
            Event::OutputPrepared { path } => EventView::OutputPrepared { path: text_of(path) },
            Event::Launched { pid } => EventView::Launched { pid },
            Event::MarkerWritten { saved } => EventView::MarkerWritten { saved },
        }
    }
}

impl View for Action {
    type V = ActionView;

    open spec fn view(&self) -> ActionView {
        match *self {
            Action::ReadMarker => ActionView::ReadMarker,
            Action::ProbeProcess { pid } => ActionView::ProbeProcess { pid },
            Action::Interrupt { pid } => ActionView::Interrupt { pid },
            Action::Wait { millis } => ActionView::Wait { millis },
            Action::ClearMarker => ActionView::ClearMarker,
            Action::SelectRegion => ActionView::SelectRegion,
            Action::QueryMonitors => ActionView::QueryMonitors,
            Action::QueryDisplay => ActionView::QueryDisplay,
            Action::PrepareOutput { format } => ActionView::PrepareOutput { format: format@ },
            Action::Launch { args } => ActionView::Launch { args: texts(args@) },
            Action::WriteMarker { pid } => ActionView::WriteMarker { pid },
            Action::Finish { outcome } => ActionView::Finish { outcome },
        }
    }
}

impl View for Session {
    type V = SessionView;

    open spec fn view(&self) -> SessionView {
        SessionView { stage: self.stage, settings: self.config@ }
    }
}

/// The controller at the start of an invocation.
pub open spec fn fresh(settings: Settings) -> SessionView {
    SessionView { stage: Stage::Idle, settings }
}

/// The step that goes on: to `stage`, asking for `action`.
pub open spec fn proceed(settings: Settings, stage: Stage, action: ActionView) -> (
    SessionView,
    ActionView,
) {
    (SessionView { stage, settings }, action)
}

/// The step that ends the invocation with `outcome`.
pub open spec fn conclude(settings: Settings, outcome: Outcome) -> (SessionView, ActionView) {
    (SessionView { stage: Stage::Done, settings }, ActionView::Finish { outcome })
}

/// The step that ends the invocation in failure.
pub open spec fn give_up(settings: Settings, failure: Failure) -> (SessionView, ActionView) {
    conclude(settings, Outcome::Failed(failure))
}

/// The step that opens the start path: the user selects a rectangle.
pub open spec fn begin_start(settings: Settings) -> (SessionView, ActionView) {
    proceed(settings, Stage::Selecting, ActionView::SelectRegion)
}

/// The display that owns `selected` according to a layout query, if the
/// query ended well and one of the displays it lists owns it.
pub open spec fn located(selected: Rect, succeeded: bool, output: Seq<char>) -> Option<Monitor> {
    if succeeded {
        owner_of(layout_monitors(output), selected@)
    } else {
        None
    }
}

/// The step once the bounds for `selected` are known: the selection is
/// resolved, and either the output file is prepared for the rectangle to
/// capture or the invocation fails with the extents that rule it out.
pub open spec fn with_bounds(settings: Settings, selected: Rect, bounds: Monitor) -> (
    SessionView,
    ActionView,
) {
    match resolution(selected@, bounds@, SNAP_MARGIN_PX as int) {
        Ok(region) => proceed(
            settings,
            Stage::Preparing { region },
            ActionView::PrepareOutput { format: settings.video.format },
        ),
        Err(e) => give_up(settings, Failure::InvalidRegion(e)),
    }
}

/// What the controller does when `event` happens to it in `session`:
/// where it stands afterwards, and what it asks for.
///
/// An invocation reads the marker first. A marker whose process is alive
/// means a capture is running: it is interrupted, given the stop grace,
/// and its marker cleared. Any other marker means none is running: a
/// marker whose process is dead is cleared, and the start path runs. On
/// the start path the user selects a rectangle; it is resolved against
/// the display that owns it, or against the whole display where none
/// does; the encoder is started, and never for a rectangle that cannot be
/// captured; it is given the start grace and probed, and only if it is
/// alive then is the marker written. An event that does not answer what
/// was asked for ends the invocation in failure.
pub open spec fn step(session: SessionView, event: EventView) -> (SessionView, ActionView) {
    let settings = session.settings;
    match (session.stage, event) {
        (Stage::Idle, EventView::Invoked) => proceed(
            settings,
            Stage::ReadingMarker,
            ActionView::ReadMarker,
        ),
        (Stage::ReadingMarker, EventView::MarkerRead { content: Some(text) }) => match marker_pid(
            text,
        ) {
            Some(pid) => proceed(settings, Stage::Probing { pid }, ActionView::ProbeProcess { pid }),
            None => begin_start(settings),
        },
        (Stage::ReadingMarker, EventView::MarkerRead { content: None }) => begin_start(settings),
        (Stage::Probing { pid }, EventView::Probed { alive }) => if alive {
            proceed(settings, Stage::Interrupting { pid }, ActionView::Interrupt { pid })
        } else {
            proceed(settings, Stage::Discarding, ActionView::ClearMarker)
        },
        (Stage::Interrupting { pid }, EventView::Interrupted { sent }) => if sent {
            proceed(settings, Stage::Settling, ActionView::Wait { millis: STOP_GRACE_MS })
        } else {
            give_up(settings, Failure::Signal)
        },
        (Stage::Settling, EventView::Waited) => proceed(
            settings,
            Stage::Forgetting,
            ActionView::ClearMarker,
        ),
        (Stage::Forgetting, EventView::MarkerCleared) => conclude(settings, Outcome::Stopped),
        (Stage::Discarding, EventView::MarkerCleared) => begin_start(settings),
        (Stage::Selecting, EventView::Selected { ran, succeeded, output }) => if !ran {
            give_up(settings, Failure::Selection)
        } else {
            match selection(succeeded, output) {
                Ok(Some(selected)) => proceed(
                    settings,
                    Stage::Locating { selected },
                    ActionView::QueryMonitors,
                ),
                Ok(None) => conclude(settings, Outcome::Cancelled),
                Err(e) => give_up(settings, Failure::Geometry(e)),
            }
        },
        (Stage::Locating { selected }, EventView::MonitorsListed { succeeded, output }) => match located(
            selected,
            succeeded,
            output,
        ) {
            Some(bounds) => with_bounds(settings, selected, bounds),
            None => proceed(settings, Stage::Measuring { selected }, ActionView::QueryDisplay),
        },
        (Stage::Measuring { selected }, EventView::DisplayReported { succeeded, output }) => if !succeeded {
            give_up(settings, Failure::Display(MonitorQueryError::QueryFailed))
        } else {
            match virtual_bounds(output) {
                Ok(bounds) => with_bounds(settings, selected, bounds),
                Err(e) => give_up(settings, Failure::Display(e)),
            }
        },
        (Stage::Preparing { region }, EventView::OutputPrepared { path: Some(path) }) => if region@.is_capturable() {
            proceed(
                settings,
                Stage::Launching,
                ActionView::Launch { args: capture_args(region@, settings, path) },
            )
        } else {
            give_up(
                settings,
                Failure::InvalidRegion(RegionError { w: region.w as i64, h: region.h as i64 }),
            )
        },
        (Stage::Preparing { region }, EventView::OutputPrepared { path: None }) => give_up(
            settings,
            Failure::Output,
        ),
        (Stage::Launching, EventView::Launched { pid: Some(pid) }) => proceed(
            settings,
            Stage::Warming { pid },
            ActionView::Wait { millis: START_GRACE_MS },
        ),
        (Stage::Launching, EventView::Launched { pid: None }) => give_up(settings, Failure::Spawn),
        (Stage::Warming { pid }, EventView::Waited) => proceed(
            settings,
            Stage::Confirming { pid },
            ActionView::ProbeProcess { pid },
        ),
        (Stage::Confirming { pid }, EventView::Probed { alive }) => if alive {
            proceed(settings, Stage::Persisting { pid }, ActionView::WriteMarker { pid })
        } else {
            give_up(settings, Failure::Launch)
        },
        (Stage::Persisting { pid }, EventView::MarkerWritten { saved }) => if saved {
            conclude(settings, Outcome::Started { pid })
        } else {
            give_up(settings, Failure::Marker)
        },
        _ => give_up(settings, Failure::Protocol),
    }
}

impl Session {
    /// The controller at the start of an invocation under `config`.
    pub fn new(config: Config) -> (session: Session)
        ensures
            session@ == fresh(config@),
    {
        Session { stage: Stage::Idle, config }
    }

    /// Tests whether the invocation is over.
    pub fn is_done(&self) -> (done: bool)
        ensures
            done == (self.stage == Stage::Done),
    {
        match self.stage {
            Stage::Done => true,
            _ => false,
        }
    }
}

/// Goes on to `stage`, asking for `action`.
fn go(config: Config, stage: Stage, action: Action) -> (r: (Session, Action))
    ensures
        (r.0@, r.1@) == proceed(config@, stage, action@),
{
    (Session { stage, config }, action)
}

/// Ends the invocation with `outcome`.
fn end(config: Config, outcome: Outcome) -> (r: (Session, Action))
    ensures
        (r.0@, r.1@) == conclude(config@, outcome),
{
    (Session { stage: Stage::Done, config }, Action::Finish { outcome })
}

/// Ends the invocation in failure.
fn fail(config: Config, failure: Failure) -> (r: (Session, Action))
    ensures
        (r.0@, r.1@) == give_up(config@, failure),
{
    end(config, Outcome::Failed(failure))
}

/// Opens the start path.
fn start(config: Config) -> (r: (Session, Action))
    ensures
        (r.0@, r.1@) == begin_start(config@),
{
    go(config, Stage::Selecting, Action::SelectRegion)
}

/// Resolves `selected` within `bounds` and goes on from there.
fn resolve_within(config: Config, selected: Rect, bounds: Monitor) -> (r: (Session, Action))
    ensures
        (r.0@, r.1@) == with_bounds(config@, selected, bounds),
{
    match resolve(selected, bounds, SNAP_MARGIN_PX) {
        Ok(region) => {
            let format = config.video.format.clone();
            go(config, Stage::Preparing { region }, Action::PrepareOutput { format })
        },
        Err(e) => fail(config, Failure::InvalidRegion(e)),
    }
}

/// Finds the display that owns `selected` in what a layout query printed.
fn locate(selected: Rect, succeeded: bool, output: &str) -> (r: Option<Monitor>)
    ensures
        r == located(selected, succeeded, output@),
{
    if !succeeded {
        return None;
    }
    match parse_monitor_layout(output) {
        Ok(monitors) => monitor_for_selection(selected, &monitors),
        Err(_) => None,
    }
}

/// Runs one step of the capture toggle: takes what happened, and answers
/// with where the invocation stands now and what is to be done next.
pub fn run_record_action(session: Session, event: Event) -> (r: (Session, Action))
    ensures
        (r.0@, r.1@) == step(session@, event@),
{
    let Session { stage, config } = session;
    match stage {
        Stage::Idle => match event {
            Event::Invoked => go(config, Stage::ReadingMarker, Action::ReadMarker),
            _ => fail(config, Failure::Protocol),
        },
        Stage::ReadingMarker => match event {
            Event::MarkerRead { content } => match content {
                Some(text) => match parse_marker(text.as_str()) {
                    Some(pid) => go(config, Stage::Probing { pid }, Action::ProbeProcess { pid }),
                    None => start(config),
                },
                None => start(config),
            },
            _ => fail(config, Failure::Protocol),
        },
        Stage::Probing { pid } => match event {
            Event::Probed { alive } => if alive {
                go(config, Stage::Interrupting { pid }, Action::Interrupt { pid })
            } else {
                go(config, Stage::Discarding, Action::ClearMarker)
            },
            _ => fail(config, Failure::Protocol),
        },
        Stage::Interrupting { pid } => match event {
            Event::Interrupted { sent } => if sent {
                go(config, Stage::Settling, Action::Wait { millis: STOP_GRACE_MS })
            } else {
                fail(config, Failure::Signal)
            },
            _ => fail(config, Failure::Protocol),
        },
        Stage::Settling => match event {
            Event::Waited => go(config, Stage::Forgetting, Action::ClearMarker),
            _ => fail(config, Failure::Protocol),
        },
        Stage::Forgetting => match event {
            Event::MarkerCleared => end(config, Outcome::Stopped),
            _ => fail(config, Failure::Protocol),
        },
        Stage::Discarding => match event {
            Event::MarkerCleared => start(config),
            _ => fail(config, Failure::Protocol),
        },
        Stage::Selecting => match event {
            Event::Selected { ran, succeeded, output } => if !ran {
                fail(config, Failure::Selection)
            } else {
                match read_selection(succeeded, output.as_str()) {
                    Ok(Some(selected)) => go(
                        config,
                        Stage::Locating { selected },
                        Action::QueryMonitors,
                    ),
                    Ok(None) => end(config, Outcome::Cancelled),
                    Err(e) => fail(config, Failure::Geometry(e)),
                }
            },
            _ => fail(config, Failure::Protocol),
        },
        Stage::Locating { selected } => match event {
            Event::MonitorsListed { succeeded, output } => match locate(
                selected,
                succeeded,
                output.as_str(),
            ) {
                Some(bounds) => resolve_within(config, selected, bounds),
                None => go(config, Stage::Measuring { selected }, Action::QueryDisplay),
            },
            _ => fail(config, Failure::Protocol),
        },
        Stage::Measuring { selected } => match event {
            Event::DisplayReported { succeeded, output } => if !succeeded {
                fail(config, Failure::Display(MonitorQueryError::QueryFailed))
            } else {
                match parse_display_dimensions(output.as_str()) {
                    Ok(bounds) => resolve_within(config, selected, bounds),
                    Err(e) => fail(config, Failure::Display(e)),
                }
            },
            _ => fail(config, Failure::Protocol),
        },
        Stage::Preparing { region } => match event {
            Event::OutputPrepared { path } => match path {
                Some(path) => if region.is_capturable() {
                    let args = build_capture_args(region, &config, path.as_str());
                    go(config, Stage::Launching, Action::Launch { args })
                } else {
                    fail(
                        config,
                        Failure::InvalidRegion(RegionError { w: region.w as i64, h: region.h as i64 }),
                    )
                },
                None => fail(config, Failure::Output),
            },
            _ => fail(config, Failure::Protocol),
        },
        Stage::Launching => match event {
            Event::Launched { pid } => match pid {
                Some(pid) => go(
                    config,
                    Stage::Warming { pid },
                    Action::Wait { millis: START_GRACE_MS },
                ),
                None => fail(config, Failure::Spawn),
            },
            _ => fail(config, Failure::Protocol),
        },
        Stage::Warming { pid } => match event {
            Event::Waited => go(config, Stage::Confirming { pid }, Action::ProbeProcess { pid }),
            _ => fail(config, Failure::Protocol),
        },
        Stage::Confirming { pid } => match event {
            Event::Probed { alive } => if alive {
                go(config, Stage::Persisting { pid }, Action::WriteMarker { pid })
            } else {
                fail(config, Failure::Launch)
            },
            _ => fail(config, Failure::Protocol),
        },
        Stage::Persisting { pid } => match event {
            Event::MarkerWritten { saved } => if saved {
                end(config, Outcome::Started { pid })
            } else {
                fail(config, Failure::Marker)
            },
            _ => fail(config, Failure::Protocol),
        },
        Stage::Done => fail(config, Failure::Protocol),
    }
}

/// What `action` does to the marker: writing sets it, clearing removes
/// it, and nothing else touches it.
pub open spec fn marker_left(marker: Option<u32>, action: ActionView) -> Option<u32> {
    match action {
        ActionView::WriteMarker { pid } => Some(pid),
        ActionView::ClearMarker => None,
        _ => marker,
    }
}

/// The step that follows the step `before` when `event` answers it.
pub open spec fn followed_by(before: (SessionView, ActionView), event: EventView) -> (
    SessionView,
    ActionView,
) {
    step(before.0, event)
}

/// The marker that was written for a process names that process when it
/// is read again.
pub proof fn lemma_marker_reads_back(pid: u32)
    ensures
        marker_pid(marker_text(pid)) == Some(pid),
{
    let text = marker_text(pid);
    lemma_natural_text_reads_back(pid as nat);
    lemma_integer_text_reads_back(pid as int);
    assert(is_digit(text.first()));
    assert(is_digit(text.last()));
    lemma_trim_keeps_tight(text);
}

/// The settings of a session never change, and the rectangle for which an
/// output file is prepared is always one that resolving gave.
pub proof fn lemma_step_keeps_session(session: SessionView, event: EventView)
    ensures
        step(session, event).0.settings == session.settings,
        step(session, event).0.stage matches Stage::Preparing { region }
            ==> region@.is_capturable(),
{
}

/// An invocation starts by reading the marker, whatever the settings.
pub proof fn lemma_invocation_reads_marker(settings: Settings)
    ensures
        step(fresh(settings), EventView::Invoked) == proceed(
            settings,
            Stage::ReadingMarker,
            ActionView::ReadMarker,
        ),
{
}

/// A marker whose process is alive stops the capture: the process is
/// probed and interrupted, the stop grace passes, the marker is cleared,
/// and the invocation ends well, in this order and with nothing else
/// asked for. Whatever the marker was, none is left.
pub proof fn lemma_live_marker_stops(settings: Settings, content: Seq<char>, pid: u32)
    requires
        marker_pid(content) == Some(pid),
    ensures
        ({
            let read = step(fresh(settings), EventView::Invoked);
            let probe = followed_by(read, EventView::MarkerRead { content: Some(content) });
            let interrupt = followed_by(probe, EventView::Probed { alive: true });
            let wait = followed_by(interrupt, EventView::Interrupted { sent: true });
            let clear = followed_by(wait, EventView::Waited);
            let finish = followed_by(clear, EventView::MarkerCleared);
            &&& probe.1 == ActionView::ProbeProcess { pid }
            &&& interrupt.1 == ActionView::Interrupt { pid }
            &&& wait.1 == ActionView::Wait { millis: STOP_GRACE_MS }
            &&& clear.1 == ActionView::ClearMarker
            &&& finish.1 == ActionView::Finish { outcome: Outcome::Stopped }
            &&& finish.0.stage == Stage::Done
            &&& forall|marker: Option<u32>|
                marker_left(
                    marker_left(
                        marker_left(
                            marker_left(marker_left(marker_left(marker, read.1), probe.1), interrupt.1),
                            wait.1,
                        ),
                        clear.1,
                    ),
                    finish.1,
                ) is None
        }),
{
}

/// With no marker, or with one that names no process, the start path
/// runs at once: the next thing asked for is the selection.
pub proof fn lemma_no_marker_starts(settings: Settings, content: Option<Seq<char>>)
    requires
        content matches Some(text) ==> marker_pid(text) is None,
    ensures
        followed_by(step(fresh(settings), EventView::Invoked), EventView::MarkerRead { content })
            == begin_start(settings),
{
}

/// A marker whose process is dead counts as no marker: it is cleared
/// first, and then the invocation goes on exactly as one that found no
/// marker.
pub proof fn lemma_dead_marker_starts(settings: Settings, content: Seq<char>, pid: u32)
    requires
        marker_pid(content) == Some(pid),
    ensures
        ({
            let read = step(fresh(settings), EventView::Invoked);
            let probe = followed_by(read, EventView::MarkerRead { content: Some(content) });
            let discard = followed_by(probe, EventView::Probed { alive: false });
            let go_on = followed_by(discard, EventView::MarkerCleared);
            &&& probe.1 == ActionView::ProbeProcess { pid }
            &&& discard.1 == ActionView::ClearMarker
            &&& forall|marker: Option<u32>| marker_left(marker, discard.1) is None
            &&& go_on == followed_by(read, EventView::MarkerRead { content: None })
            &&& go_on == begin_start(settings)
        }),
{
}

/// The marker is written for a process only in answer to a probe that
/// found this process alive after its start grace.
pub proof fn lemma_marker_written_only_when_alive(session: SessionView, event: EventView, pid: u32)
    requires
        step(session, event).1 == (ActionView::WriteMarker { pid }),
    ensures
        session.stage == (Stage::Confirming { pid }),
        event == (EventView::Probed { alive: true }),
{
}

/// The stage that probes a started encoder is reached only through the
/// start grace, which follows the start of the encoder with this process.
pub proof fn lemma_confirming_follows_grace(session: SessionView, event: EventView, pid: u32)
    requires
        step(session, event).0.stage == (Stage::Confirming { pid }),
    ensures
        session.stage == (Stage::Warming { pid }),
        event == EventView::Waited,
        step(session, event).1 == (ActionView::ProbeProcess { pid }),
{
}

/// An encoder that is dead after its start grace leaves no marker: the
/// invocation fails, and nothing is written.
pub proof fn lemma_dead_encoder_leaves_no_marker(settings: Settings, pid: u32, marker: Option<u32>)
    ensures
        ({
            let verdict = step(
                SessionView { stage: Stage::Confirming { pid }, settings },
                EventView::Probed { alive: false },
            );
            &&& verdict.1 == ActionView::Finish { outcome: Outcome::Failed(Failure::Launch) }
            &&& verdict.0.stage == Stage::Done
            &&& marker_left(marker, verdict.1) == marker
        }),
{
}

/// The encoder is started only for a rectangle that can be captured: a
/// start is asked for only while the output of such a rectangle was being
/// prepared, and with the command line for it.
pub proof fn lemma_launch_only_capturable(session: SessionView, event: EventView)
    requires
        step(session, event).1 is Launch,
    ensures
        session.stage is Preparing,
        session.stage->region@.is_capturable(),
        event matches EventView::OutputPrepared { path: Some(path) } && step(session, event).1 == (
        ActionView::Launch { args: capture_args(session.stage->region@, session.settings, path) }),
{
}

/// A selection that resolves to nothing that can be captured ends the
/// invocation in failure, with the extents that rule it out; no output is
/// prepared and no encoder is started.
pub proof fn lemma_invalid_region_fails(settings: Settings, selected: Rect, bounds: Monitor)
    requires
        ({
            let area = selected@.resolved(bounds@, SNAP_MARGIN_PX as int);
            area.w <= 0 || area.h <= 0
        }),
    ensures
        with_bounds(settings, selected, bounds).0.stage == Stage::Done,
        with_bounds(settings, selected, bounds).1 matches ActionView::Finish {
            outcome: Outcome::Failed(Failure::InvalidRegion(e)),
        } && (e.w <= 0 || e.h <= 0),
{
}

/// The toggle comes round. A capture that was started leaves the marker
/// of its process. The next invocation reads that marker, finds the
/// process alive, stops it and leaves no marker. The invocation after
/// that finds none and runs the start path, as if there had never been
/// one.
pub proof fn lemma_toggle_comes_round(settings: Settings, pid: u32, marker: Option<u32>)
    ensures
        ({
            let confirmed = step(
                SessionView { stage: Stage::Confirming { pid }, settings },
                EventView::Probed { alive: true },
            );
            let started = followed_by(confirmed, EventView::MarkerWritten { saved: true });
            let left = marker_left(marker_left(marker, confirmed.1), started.1);
            let read = step(fresh(settings), EventView::Invoked);
            let probe = followed_by(read, EventView::MarkerRead { content: Some(marker_text(pid)) });
            let interrupt = followed_by(probe, EventView::Probed { alive: true });
            let wait = followed_by(interrupt, EventView::Interrupted { sent: true });
            let clear = followed_by(wait, EventView::Waited);
            let stopped = followed_by(clear, EventView::MarkerCleared);
            let again = followed_by(read, EventView::MarkerRead { content: None });
            &&& started.1 == ActionView::Finish { outcome: Outcome::Started { pid } }
            &&& left == Some(pid)
            &&& probe.1 == ActionView::ProbeProcess { pid }
            &&& interrupt.1 == ActionView::Interrupt { pid }
            &&& clear.1 == ActionView::ClearMarker
            &&& marker_left(left, clear.1) is None
            &&& stopped.1 == ActionView::Finish { outcome: Outcome::Stopped }
            &&& again == begin_start(settings)
        }),
{
    lemma_marker_reads_back(pid);
}

/// Once an invocation is over, nothing more is asked for.
pub proof fn lemma_done_is_final(settings: Settings, event: EventView)
    ensures
        step(SessionView { stage: Stage::Done, settings }, event) == give_up(
            settings,
            Failure::Protocol,
        ),
{
}

} // verus!
