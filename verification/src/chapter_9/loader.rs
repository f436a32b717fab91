use crate::chapter_9::storage::{Failure, FailureView, MemStore, StoreView};
use crate::text::texts;
use vstd::prelude::*;

verus! {

/// Why a load ended without a content.
#[derive(Debug, PartialEq, Eq)]
pub enum LoadError {
    /// The resource could not be read and could not be created.
    CreateFailed(Failure),
    /// The resource was created and the default line could not be written.
    WriteFailed(Failure),
    /// The resource was created and written and could not be read back.
    ReadFailed(Failure),
}

/// A `LoadError` as a mathematical value.
pub enum LoadErrorView {
    CreateFailed(FailureView),
    WriteFailed(FailureView),
    ReadFailed(FailureView),
}

impl View for LoadError {
    type V = LoadErrorView;

    open spec fn view(&self) -> LoadErrorView {
        match self {
            LoadError::CreateFailed(f) => LoadErrorView::CreateFailed(f@),
            LoadError::WriteFailed(f) => LoadErrorView::WriteFailed(f@),
            LoadError::ReadFailed(f) => LoadErrorView::ReadFailed(f@),
        }
    }
}

impl Clone for LoadError {
    fn clone(&self) -> (e: LoadError)
        ensures
            e@ == self@,
    {
        match self {
            LoadError::CreateFailed(f) => LoadError::CreateFailed(f.clone()),
            LoadError::WriteFailed(f) => LoadError::WriteFailed(f.clone()),
            LoadError::ReadFailed(f) => LoadError::ReadFailed(f.clone()),
        }
    }
}

/// How a load ended, as a mathematical value.
pub type ResultView = Result<Seq<char>, LoadErrorView>;

/// The result of a load as a mathematical value.
pub open spec fn result_view(r: Result<String, LoadError>) -> ResultView {
    match r {
        Ok(content) => Ok(content@),
        Err(e) => Err(e@),
    }
}

/// Where a load stands: which answer of the storage medium it waits for.
#[derive(Debug, PartialEq, Eq)]
pub enum Phase {
    /// Waiting for the first read of the resource.
    FirstRead,
    /// The first read failed; waiting for the creation.
    Create,
    /// The resource was created; waiting for the write of the default line.
    Write,
    /// The default line was written; waiting for the second read.
    Reread,
    /// The load has ended with this result.
    Finished(Result<String, LoadError>),
}

/// A `Phase` as a mathematical value.
pub enum PhaseView {
    FirstRead,
    Create,
    Write,
    Reread,
    Finished(ResultView),
}

impl View for Phase {
    type V = PhaseView;

    open spec fn view(&self) -> PhaseView {
        match self {
            Phase::FirstRead => PhaseView::FirstRead,
            Phase::Create => PhaseView::Create,
            Phase::Write => PhaseView::Write,
            Phase::Reread => PhaseView::Reread,
            Phase::Finished(r) => PhaseView::Finished(result_view(*r)),
        }
    }
}

impl PhaseView {
    /// The number of answers that the load may still wait for.
    pub open spec fn rank(self) -> nat {
        match self {
            PhaseView::FirstRead => 4,
            PhaseView::Create => 3,
            PhaseView::Write => 2,
            PhaseView::Reread => 1,
            PhaseView::Finished(_) => 0,
        }
    }
}

/// One load in progress: the resource's name and the phase.
#[derive(Debug, PartialEq, Eq)]
pub struct LoadState {
    pub name: String,
    pub phase: Phase,
}

/// A `LoadState` as a mathematical value.
pub struct LoadStateView {
    pub name: Seq<char>,
    pub phase: PhaseView,
}

impl View for LoadState {
    type V = LoadStateView;

    open spec fn view(&self) -> LoadStateView {
        LoadStateView { name: self.name@, phase: self.phase@ }
    }
}

/// What the storage medium answered to the action that a load asked for.
#[derive(Debug, PartialEq, Eq)]
pub enum Event {
    /// The answer to a read: the whole content, or the failure.
    Read(Result<String, Failure>),
    /// The answer to a creation.
    Create(Result<(), Failure>),
    /// The answer to a write.
    Write(Result<(), Failure>),
}

/// An `Event` as a mathematical value.
pub enum EventView {
    Read(Result<Seq<char>, FailureView>),
    Create(Result<(), FailureView>),
    Write(Result<(), FailureView>),
}

impl View for Event {
    type V = EventView;

    open spec fn view(&self) -> EventView {
        match self {
            Event::Read(Ok(content)) => EventView::Read(Ok(content@)),
            Event::Read(Err(f)) => EventView::Read(Err(f@)),
            Event::Create(Ok(_)) => EventView::Create(Ok(())),
            Event::Create(Err(f)) => EventView::Create(Err(f@)),
            Event::Write(Ok(_)) => EventView::Write(Ok(())),
            Event::Write(Err(f)) => EventView::Write(Err(f@)),
        }
    }
}

/// What a load asks its driver to do next.
#[derive(Debug, PartialEq, Eq)]
pub enum Action {
    /// Read the whole resource of that name and answer with `Event::Read`.
    Read { name: String },
    /// Create the resource of that name for writing and answer with `Event::Create`.
    Create { name: String },
    /// Write that line to the created resource and answer with `Event::Write`.
    WriteLine { name: String, line: String },
    /// Nothing more: the load has ended with this result.
    Return(Result<String, LoadError>),
}

/// An `Action` as a mathematical value.
pub enum ActionView {
    Read { name: Seq<char> },
    Create { name: Seq<char> },
    WriteLine { name: Seq<char>, line: Seq<char> },
    Return(ResultView),
}

impl View for Action {
    type V = ActionView;

    open spec fn view(&self) -> ActionView {
        match self {
            Action::Read { name } => ActionView::Read { name: name@ },
            Action::Create { name } => ActionView::Create { name: name@ },
            Action::WriteLine { name, line } => ActionView::WriteLine { name: name@, line: line@ },
            Action::Return(r) => ActionView::Return(result_view(*r)),
        }
    }
}

/// The line that a load writes to a resource that it creates.
pub open spec fn default_line() -> Seq<char> {
    "Hello world!"@
}

/// The content of a resource that a load has created: the default line and a line feed.
pub open spec fn default_payload() -> Seq<char> {
    default_line() + seq!['\n']
}

/// The console line for a failed first read.
pub open spec fn read_report(message: Seq<char>) -> Seq<char> {
    "Failed to read file: "@ + message
}

/// The console line for a failed creation.
pub open spec fn create_report(message: Seq<char>) -> Seq<char> {
    "Failed to create file: "@ + message
}

/// The console line for a failed write.
pub open spec fn write_report(message: Seq<char>) -> Seq<char> {
    "Failed to write data: "@ + message
}

/// A step's outcome as a mathematical value: the next state and the line to
/// send to the console, if any.
pub struct StepView {
    pub state: LoadStateView,
    pub report: Option<Seq<char>>,
}

impl LoadStateView {
    /// The state in which a load of `name` begins.
    pub open spec fn start(name: Seq<char>) -> LoadStateView {
        LoadStateView { name, phase: PhaseView::FirstRead }
    }

    /// This state in another phase.
    pub open spec fn at(self, phase: PhaseView) -> LoadStateView {
        LoadStateView { phase, ..self }
    }

    /// What the load asks for in this state.
    pub open spec fn action(self) -> ActionView {
        match self.phase {
            PhaseView::FirstRead => ActionView::Read { name: self.name },
            PhaseView::Create => ActionView::Create { name: self.name },
            PhaseView::Write => ActionView::WriteLine { name: self.name, line: default_line() },
            PhaseView::Reread => ActionView::Read { name: self.name },
            PhaseView::Finished(result) => ActionView::Return(result),
        }
    }

    /// The transition: a successful first read ends the load with the content;
    /// a failed one, of whatever class, is reported and leads to the creation,
    /// the creation to the write, the write to the second read, whose answer
    /// ends the load; a failed creation or write is reported in its own words
    /// and ends the load. An event that does not answer the state's action
    /// changes nothing.
    pub open spec fn step(self, event: EventView) -> StepView {
        match (self.phase, event) {
            (PhaseView::FirstRead, EventView::Read(Ok(content))) => StepView {
                state: self.at(PhaseView::Finished(Ok(content))),
                report: None,
            },
            (PhaseView::FirstRead, EventView::Read(Err(failure))) => StepView {
                state: self.at(PhaseView::Create),
                report: Some(read_report(failure.message)),
            },
            (PhaseView::Create, EventView::Create(Ok(_))) => StepView {
                state: self.at(PhaseView::Write),
                report: None,
            },
            (PhaseView::Create, EventView::Create(Err(failure))) => StepView {
                state: self.at(PhaseView::Finished(Err(LoadErrorView::CreateFailed(failure)))),
                report: Some(create_report(failure.message)),
            },
            (PhaseView::Write, EventView::Write(Ok(_))) => StepView {
                state: self.at(PhaseView::Reread),
                report: None,
            },
            (PhaseView::Write, EventView::Write(Err(failure))) => StepView {
                state: self.at(PhaseView::Finished(Err(LoadErrorView::WriteFailed(failure)))),
                report: Some(write_report(failure.message)),
            },
            (PhaseView::Reread, EventView::Read(Ok(content))) => StepView {
                state: self.at(PhaseView::Finished(Ok(content))),
                report: None,
            },
            (PhaseView::Reread, EventView::Read(Err(failure))) => StepView {
                state: self.at(PhaseView::Finished(Err(LoadErrorView::ReadFailed(failure)))),
                report: None,
            },
            _ => StepView { state: self, report: None },
        }
    }
}

/// The view of an optional console line.
pub open spec fn report_view(report: Option<String>) -> Option<Seq<char>> {
    match report {
        Some(line) => Some(line@),
        None => None,
    }
}

fn labelled(label: &str, message: &String) -> (line: String)
    ensures
        line@ == label@ + message@,
{
    let mut line = label.to_owned();
    line.append(message.as_str());
    line
}

impl LoadState {
    /// The state in which a load of `name` begins.
    pub fn start(name: &str) -> (state: LoadState)
        ensures
            state@ == LoadStateView::start(name@),
    {
        LoadState { name: name.to_owned(), phase: Phase::FirstRead }
    }

    /// What the driver is to do next.
    pub fn action(&self) -> (action: Action)
        ensures
            action@ == self@.action(),
    {
        match &self.phase {
            Phase::FirstRead => Action::Read { name: self.name.clone() },
            Phase::Create => Action::Create { name: self.name.clone() },
            Phase::Write => Action::WriteLine {
                name: self.name.clone(),
                line: "Hello world!".to_owned(),
            },
            Phase::Reread => Action::Read { name: self.name.clone() },
            Phase::Finished(Ok(content)) => Action::Return(Ok(content.clone())),
            Phase::Finished(Err(e)) => Action::Return(Err(e.clone())),
        }
    }
}

/// Takes a load one step on: from the state and the medium's answer to the
/// next state and the line to send to the console, if any.
pub fn step(state: LoadState, event: Event) -> (next: (LoadState, Option<String>))
    ensures
        next.0@ == state@.step(event@).state,
        report_view(next.1) == state@.step(event@).report,
{
    let LoadState { name, phase } = state;
    match (phase, event) {
        (Phase::FirstRead, Event::Read(Ok(content))) => (
            LoadState { name, phase: Phase::Finished(Ok(content)) },
            None,
        ),
        (Phase::FirstRead, Event::Read(Err(failure))) => {
            let report = labelled("Failed to read file: ", &failure.message);
            (LoadState { name, phase: Phase::Create }, Some(report))
        },
        (Phase::Create, Event::Create(Ok(_))) => (LoadState { name, phase: Phase::Write }, None),
        (Phase::Create, Event::Create(Err(failure))) => {
            let report = labelled("Failed to create file: ", &failure.message);
            (
                LoadState { name, phase: Phase::Finished(Err(LoadError::CreateFailed(failure))) },
                Some(report),
            )
        },
        (Phase::Write, Event::Write(Ok(_))) => (LoadState { name, phase: Phase::Reread }, None),
        (Phase::Write, Event::Write(Err(failure))) => {
            let report = labelled("Failed to write data: ", &failure.message);
            (
                LoadState { name, phase: Phase::Finished(Err(LoadError::WriteFailed(failure))) },
                Some(report),
            )
        },
        (Phase::Reread, Event::Read(Ok(content))) => (
            LoadState { name, phase: Phase::Finished(Ok(content)) },
            None,
        ),
        (Phase::Reread, Event::Read(Err(failure))) => (
            LoadState { name, phase: Phase::Finished(Err(LoadError::ReadFailed(failure))) },
            None,
        ),
        (phase, _) => (LoadState { name, phase }, None),
    }
}

/// How a load ends on a medium: what the medium has become, the result, the
/// lines sent to the console, and how often a creation was asked for.
pub struct Outcome {
    pub store: StoreView,
    pub result: ResultView,
    pub reports: Seq<Seq<char>>,
    pub creations: nat,
}

/// A load of `name` on a medium, step by step: the first read's content where
/// it succeeds, with the medium untouched and nothing reported; else the
/// failed read reported, one creation, the default line written to it, and
/// the content that the second read finds. A failed creation or write is
/// reported in its own words and ends the load at once, with what the medium
/// is by then.
pub open spec fn load_spec(store: StoreView, name: Seq<char>) -> Outcome {
    match store.read(name) {
        Ok(content) => Outcome { store, result: Ok(content), reports: seq![], creations: 0 },
        Err(cause) => {
            let (created, creation) = store.create(name);
            match creation {
                Err(failure) => Outcome {
                    store: created,
                    result: Err(LoadErrorView::CreateFailed(failure)),
                    reports: seq![read_report(cause.message), create_report(failure.message)],
                    creations: 1,
                },
                Ok(_) => match created.write_line(name, default_line()) {
                    Err(failure) => Outcome {
                        store: created,
                        result: Err(LoadErrorView::WriteFailed(failure)),
                        reports: seq![read_report(cause.message), write_report(failure.message)],
                        creations: 1,
                    },
                    Ok(written) => Outcome {
                        store: written,
                        result: match written.read(name) {
                            Ok(content) => Ok(content),
                            Err(failure) => Err(LoadErrorView::ReadFailed(failure)),
                        },
                        reports: seq![read_report(cause.message)],
                        creations: 1,
                    },
                },
            }
        },
    }
}

/// An optional console line as a sequence of lines.
pub open spec fn lines(report: Option<Seq<char>>) -> Seq<Seq<char>> {
    match report {
        Some(line) => seq![line],
        None => seq![],
    }
}

/// What the write of a line makes of a medium, and the medium's answer to it.
pub open spec fn written(store: StoreView, name: Seq<char>, line: Seq<char>) -> (
    StoreView,
    Result<(), FailureView>,
) {
    match store.write_line(name, line) {
        Ok(after) => (after, Ok(())),
        Err(failure) => (store, Err(failure)),
    }
}

/// The outcome of a load whose step sent `report` to the console, asked for
/// `creations` creations, and went on to `rest`.
pub open spec fn after(report: Option<Seq<char>>, creations: nat, rest: Outcome) -> Outcome {
    Outcome {
        reports: lines(report) + rest.reports,
        creations: creations + rest.creations,
        ..rest
    }
}

/// The rest of a load from `state` when a driver performs every action on
/// `store` and hands back the medium's answer.
pub open spec fn drive(store: StoreView, state: LoadStateView) -> Outcome
    decreases state.phase.rank(),
{
    match state.action() {
        ActionView::Read { name } => {
            let next = state.step(EventView::Read(store.read(name)));
            after(next.report, 0, drive(store, next.state))
        },
        ActionView::Create { name } => {
            let (then, answer) = store.create(name);
            let next = state.step(EventView::Create(answer));
            after(next.report, 1, drive(then, next.state))
        },
        ActionView::WriteLine { name, line } => {
            let (then, answer) = written(store, name, line);
            let next = state.step(EventView::Write(answer));
            after(next.report, 0, drive(then, next.state))
        },
        ActionView::Return(result) => Outcome { store, result, reports: seq![], creations: 0 },
    }
}

/// A step either leaves the state as it is or brings the load nearer its
/// end: no load takes more than four answers.
pub proof fn lemma_step_descends(state: LoadStateView, event: EventView)
    ensures
        state.step(event).state == state || state.step(event).state.phase.rank()
            < state.phase.rank(),
        state.step(event).state.name == state.name,
{
}

/// Driving the state machine on a medium is the load that `load_spec`
/// describes, and the medium has counted every creation that was asked of it.
pub proof fn lemma_drive_is_load(store: StoreView, name: Seq<char>)
    ensures
        drive(store, LoadStateView::start(name)) == load_spec(store, name),
        load_spec(store, name).store.creations == store.creations + load_spec(
            store,
            name,
        ).creations,
{
    reveal_with_fuel(drive, 6);
    let driven = drive(store, LoadStateView::start(name));
    let direct = load_spec(store, name);
    assert(driven.reports =~= direct.reports);
}

/// Loads the resource `name` from `store`: its content where it can be read,
/// else the content read back after creating it with the default line. Lines
/// that report failures are added to `console`. The medium is asked for a
/// creation once where the first read fails, and not at all where it
/// succeeds; where it is asked, its count of creations has room for it.
pub fn load(store: &mut MemStore, console: &mut Vec<String>, name: &str) -> (result: Result<
    String,
    LoadError,
>)
    requires
        old(store)@.read(name@) is Err ==> old(store)@.creations < u64::MAX,
    ensures
        final(store)@ == load_spec(old(store)@, name@).store,
        result_view(result) == load_spec(old(store)@, name@).result,
        texts(final(console)@) == texts(old(console)@) + load_spec(old(store)@, name@).reports,
        final(store)@.creations == old(store)@.creations + load_spec(old(store)@, name@).creations,
{
    let ghost goal = load_spec(store@, name@);
    let ghost shown = texts(console@);
    proof {
        lemma_drive_is_load(store@, name@);
    }
    let mut state = LoadState::start(name);
    loop
        invariant
            goal == load_spec(old(store)@, name@),
            goal.store.creations == old(store)@.creations + goal.creations,
            shown == texts(old(console)@),
            drive(store@, state@).store == goal.store,
            drive(store@, state@).result == goal.result,
            texts(console@) + drive(store@, state@).reports == shown + goal.reports,
            state@.name == name@,
            state@.phase is FirstRead && store@.read(name@) is Err ==> store@.creations
                < u64::MAX,
            state@.phase is Create ==> store@.creations < u64::MAX,
        decreases state@.phase.rank(),
    {
        let ghost told = texts(console@);
        let event = match state.action() {
            Action::Read { name } => Event::Read(store.read(name.as_str())),
            Action::Create { name } => Event::Create(store.create(name.as_str())),
            Action::WriteLine { name, line } => Event::Write(
                store.write_line(name.as_str(), line.as_str()),
            ),
            Action::Return(result) => {
                assert(texts(console@) + Seq::<Seq<char>>::empty() =~= texts(console@));
                return result;
            },
        };
        let ghost step_view = state@.step(event@);
        let (next, report) = step(state, event);
        if let Some(line) = report {
            console.push(line);
        }
        proof {
            assert(texts(console@) =~= told + lines(step_view.report));
            assert((told + lines(step_view.report)) + drive(store@, next@).reports =~= told + (
                lines(step_view.report) + drive(store@, next@).reports));
        }
        state = next;
    }
}

} // verus!
