//! Reports and report runs: two event-sourced entities, the events the
//! module announces, the lookup of a report's file, and the decision step of
//! the job that follows a run in the data pipeline.

use vstd::prelude::*;

use crate::primitives::{
    now, str_eq, BuilderError, EntityError, EntityId, ReportId, ReportRunId, Timestamp,
};

verus! {

// ---------------------------------------------------------------------------
// Reports
// ---------------------------------------------------------------------------

#[derive(Debug)]
pub struct ReportFile {
    pub extension: String,
    pub path_in_bucket: String,
}

impl Clone for ReportFile {
    fn clone(&self) -> (r: ReportFile)
        ensures
            r == *self,
    {
        ReportFile { extension: self.extension.clone(), path_in_bucket: self.path_in_bucket.clone() }
    }
}

#[derive(Debug)]
pub enum ReportEvent {
    Initialized {
        id: ReportId,
        external_id: String,
        run_id: ReportRunId,
        name: String,
        norm: String,
        files: Vec<ReportFile>,
    },
}

pub struct Report {
    pub id: ReportId,
    pub run_id: ReportRunId,
    pub external_id: String,
    pub name: String,
    pub norm: String,
    pub files: Vec<ReportFile>,
    pub events: Vec<ReportEvent>,
}

#[derive(Clone, Copy, Debug, PartialEq, Eq, Structural)]
pub enum ReportError {
    NotFound,
    Disabled,
}

/// What `str::to_lowercase` returns for a text.
pub uninterp spec fn lowercase_text(s: Seq<char>) -> Seq<char>;

/// Calls `str::to_lowercase`. The result depends on the text alone; the
/// contract names it.
#[verifier::external_body]
fn to_lowercase(s: &str) -> (r: String)
    ensures
        r@ == lowercase_text(s@),
{
    s.to_lowercase()
}

/// Whether reports are produced.
#[derive(Clone, Copy, Debug, PartialEq, Eq, Structural)]
pub struct ReportConfig {
    pub enabled: bool,
}

impl ReportConfig {
    /// The configuration from the data-pipeline setting (the value of the
    /// `DATA_PIPELINE` environment variable, if set): enabled exactly when
    /// the value, lowercased, is `true`.
    pub fn from_data_pipeline_setting(setting: Option<String>) -> (c: ReportConfig)
        ensures
            c.enabled == (setting matches Some(v) && lowercase_text(v@) == "true"@),
    {
        let enabled = match &setting {
            Some(v) => {
                let lowered = to_lowercase(v.as_str());
                str_eq(lowered.as_str(), "true")
            },
            None => false,
        };
        ReportConfig { enabled }
    }

    /// Producing a report run is refused when reports are disabled.
    pub fn check_enabled(&self) -> (r: Result<(), ReportError>)
        ensures
            r is Ok <==> self.enabled,
            r is Err ==> r == Err::<(), ReportError>(ReportError::Disabled),
    {
        if !self.enabled {
            return Err(ReportError::Disabled);
        }
        Ok(())
    }
}

fn clone_files(files: &Vec<ReportFile>) -> (r: Vec<ReportFile>)
    ensures
        r@ == files@,
{
    let mut r: Vec<ReportFile> = Vec::new();
    let mut i: usize = 0;
    while i < files.len()
        invariant
            i <= files.len(),
            r@ == files@.take(i as int),
        decreases files.len() - i,
    {
        r.push(files[i].clone());
        assert(files@.take(i + 1) =~= files@.take(i as int).push(files@[i as int]));
        i += 1;
    }
    assert(files@.take(files@.len() as int) =~= files@);
    r
}

impl Report {
    /// The fields are those of the newest `Initialized` event (every event
    /// is one).
    pub open spec fn is_replay_of(&self, events: Seq<ReportEvent>) -> bool {
        events.len() > 0 && match events.last() {
            ReportEvent::Initialized { id, external_id, run_id, name, norm, files } => {
                &&& self.id == id
                &&& self.external_id@ == external_id@
                &&& self.run_id == run_id
                &&& self.name@ == name@
                &&& self.norm@ == norm@
                &&& self.files@ == files@
            },
        }
    }

    /// Rebuilds a report from its events. Fails when there are none.
    pub fn try_from_events(events: Vec<ReportEvent>) -> (r: Result<Report, EntityError>)
        ensures
            r is Ok <==> events@.len() > 0,
            r matches Ok(rep) ==> rep.is_replay_of(events@) && rep.events@ == events@,
    {
        let n = events.len();
        if n == 0 {
            return Err(EntityError::UninitializedField);
        }
        let (id, external_id, run_id, name, norm, files) = match &events[n - 1] {
            ReportEvent::Initialized { id, external_id, run_id, name, norm, files } => (
                *id,
                external_id.clone(),
                *run_id,
                name.clone(),
                norm.clone(),
                clone_files(files),
            ),
        };
        Ok(Report { id, run_id, external_id, name, norm, files, events })
    }

    /// The first of the report's files with the given extension.
    pub fn file_with_extension(&self, extension: &str) -> (r: Result<&ReportFile, ReportError>)
        ensures
            r is Err <==> forall|i: int|
                0 <= i < self.files@.len() ==> #[trigger] self.files@[i].extension@ != extension@,
            r is Err ==> r == Err::<&ReportFile, ReportError>(ReportError::NotFound),
            r matches Ok(f) ==> exists|i: int|
                0 <= i < self.files@.len() && #[trigger] self.files@[i] == *f && f.extension@
                    == extension@ && forall|j: int|
                    0 <= j < i ==> self.files@[j].extension@ != extension@,
    {
        let mut i: usize = 0;
        while i < self.files.len()
            invariant
                i <= self.files.len(),
                forall|j: int|
                    0 <= j < i ==> #[trigger] self.files@[j].extension@ != extension@,
            decreases self.files.len() - i,
        {
            if str_eq(self.files[i].extension.as_str(), extension) {
                return Ok(&self.files[i]);
            }
            i += 1;
        }
        Err(ReportError::NotFound)
    }
}

/// The request that creates a report.
pub struct NewReport {
    pub id: ReportId,
    pub external_id: String,
    pub run_id: ReportRunId,
    pub name: String,
    pub norm: String,
    pub files: Vec<ReportFile>,
}

pub type NewReportBuilderError = BuilderError;

/// Collects the fields of a `NewReport`; the id starts fresh, every other
/// field must be set.
pub struct NewReportBuilder {
    pub id: Option<ReportId>,
    pub external_id: Option<String>,
    pub run_id: Option<ReportRunId>,
    pub name: Option<String>,
    pub norm: Option<String>,
    pub files: Option<Vec<ReportFile>>,
}

impl NewReport {
    /// A builder whose id is a fresh random id.
    pub fn builder() -> (b: NewReportBuilder)
        ensures
            b.id is Some && b.external_id is None && b.run_id is None && b.name is None
                && b.norm is None && b.files is None,
    {
        NewReportBuilder {
            id: Some(EntityId::new()),
            external_id: None,
            run_id: None,
            name: None,
            norm: None,
            files: None,
        }
    }

    /// The single `Initialized` event of a new report.
    pub fn into_events(self) -> (events: Vec<ReportEvent>)
        ensures
            events@ == seq![
                ReportEvent::Initialized {
                    id: self.id,
                    external_id: self.external_id,
                    run_id: self.run_id,
                    name: self.name,
                    norm: self.norm,
                    files: self.files,
                },
            ],
    {
        let mut v = Vec::new();
        v.push(
            ReportEvent::Initialized {
                id: self.id,
                external_id: self.external_id,
                run_id: self.run_id,
                name: self.name,
                norm: self.norm,
                files: self.files,
            },
        );
        v
    }
}

impl NewReportBuilder {
    pub fn id(self, id: ReportId) -> (b: Self)
        ensures
            b == (NewReportBuilder { id: Some(id), ..self }),
    {
        NewReportBuilder { id: Some(id), ..self }
    }

    pub fn external_id(self, external_id: String) -> (b: Self)
        ensures
            b == (NewReportBuilder { external_id: Some(external_id), ..self }),
    {
        NewReportBuilder { external_id: Some(external_id), ..self }
    }

    pub fn run_id(self, run_id: ReportRunId) -> (b: Self)
        ensures
            b == (NewReportBuilder { run_id: Some(run_id), ..self }),
    {
        NewReportBuilder { run_id: Some(run_id), ..self }
    }

    pub fn name(self, name: String) -> (b: Self)
        ensures
            b == (NewReportBuilder { name: Some(name), ..self }),
    {
        NewReportBuilder { name: Some(name), ..self }
    }

    pub fn norm(self, norm: String) -> (b: Self)
        ensures
            b == (NewReportBuilder { norm: Some(norm), ..self }),
    {
        NewReportBuilder { norm: Some(norm), ..self }
    }

    pub fn files(self, files: Vec<ReportFile>) -> (b: Self)
        ensures
            b == (NewReportBuilder { files: Some(files), ..self }),
    {
        NewReportBuilder { files: Some(files), ..self }
    }

    /// Builds the request; fails exactly when a field is unset.
    pub fn build(self) -> (r: Result<NewReport, NewReportBuilderError>)
        ensures
            r is Ok <==> (self.id is Some && self.external_id is Some && self.run_id is Some
                && self.name is Some && self.norm is Some && self.files is Some),
            r matches Err(e) ==> e is UninitializedField,
            r matches Ok(n) ==> n == (NewReport {
                id: self.id->0,
                external_id: self.external_id->0,
                run_id: self.run_id->0,
                name: self.name->0,
                norm: self.norm->0,
                files: self.files->0,
            }),
    {
        match (self.id, self.external_id, self.run_id, self.name, self.norm, self.files) {
            (Some(id), Some(external_id), Some(run_id), Some(name), Some(norm), Some(files)) => Ok(
                NewReport { id, external_id, run_id, name, norm, files },
            ),
            _ => Err(BuilderError::UninitializedField("report field")),
        }
    }
}

// ---------------------------------------------------------------------------
// Report runs
// ---------------------------------------------------------------------------

#[derive(Clone, Copy, Debug, PartialEq, Eq, Structural)]
pub enum ReportRunState {
    Queued,
    Running,
    Success,
    Failed,
}

#[derive(Clone, Copy, Debug, PartialEq, Eq, Structural)]
pub enum ReportRunType {
    Scheduled,
    Manual,
}

#[derive(Debug)]
pub enum ReportRunEvent {
    Initialized {
        id: ReportRunId,
        external_id: String,
        execution_date: Timestamp,
        state: ReportRunState,
        run_type: ReportRunType,
    },
    StateUpdated {
        execution_date: Timestamp,
        state: ReportRunState,
        run_type: ReportRunType,
        start_date: Timestamp,
        end_date: Option<Timestamp>,
    },
}

pub struct ReportRun {
    pub id: ReportRunId,
    pub external_id: String,
    pub execution_date: Timestamp,
    pub state: ReportRunState,
    pub run_type: ReportRunType,
    pub start_date: Option<Timestamp>,
    pub end_date: Option<Timestamp>,
    pub events: Vec<ReportRunEvent>,
}

/// The fields that replaying report-run events has set so far.
pub struct ReportRunReplay {
    pub id: Option<ReportRunId>,
    pub external_id: Option<Seq<char>>,
    pub execution_date: Option<Timestamp>,
    pub state: Option<ReportRunState>,
    pub run_type: Option<ReportRunType>,
    pub start_date: Option<Timestamp>,
    pub end_date: Option<Timestamp>,
}

/// Replays report-run events from the oldest. A state update without an end
/// date keeps the end date set before.
pub open spec fn replay_run(events: Seq<ReportRunEvent>) -> ReportRunReplay
    decreases events.len(),
{
    if events.len() == 0 {
        ReportRunReplay {
            id: None,
            external_id: None,
            execution_date: None,
            state: None,
            run_type: None,
            start_date: None,
            end_date: None,
        }
    } else {
        let r = replay_run(events.drop_last());
        match events.last() {
            ReportRunEvent::Initialized { id, external_id, execution_date, state, run_type } =>
                ReportRunReplay {
                id: Some(id),
                external_id: Some(external_id@),
                execution_date: Some(execution_date),
                state: Some(state),
                run_type: Some(run_type),
                ..r
            },
            ReportRunEvent::StateUpdated { execution_date, state, run_type, start_date, end_date } =>
                ReportRunReplay {
                execution_date: Some(execution_date),
                state: Some(state),
                run_type: Some(run_type),
                start_date: Some(start_date),
                end_date: match end_date {
                    Some(e) => Some(e),
                    None => r.end_date,
                },
                ..r
            },
        }
    }
}

impl ReportRun {
    pub open spec fn is_replay_of(&self, events: Seq<ReportRunEvent>) -> bool {
        let r = replay_run(events);
        &&& r.id == Some(self.id)
        &&& r.external_id == Some(self.external_id@)
        &&& r.execution_date == Some(self.execution_date)
        &&& r.state == Some(self.state)
        &&& r.run_type == Some(self.run_type)
        &&& r.start_date == self.start_date
        &&& r.end_date == self.end_date
    }

    pub open spec fn is_consistent(&self) -> bool {
        self.is_replay_of(self.events@)
    }

    /// Rebuilds a report run from its events. Fails when no event
    /// initialised it.
    pub fn try_from_events(events: Vec<ReportRunEvent>) -> (r: Result<ReportRun, EntityError>)
        ensures
            r is Ok <==> replay_run(events@).id is Some,
            r matches Ok(run) ==> run.is_replay_of(events@) && run.events@ == events@,
    {
        let mut id: Option<ReportRunId> = None;
        let mut external_id: Option<String> = None;
        let mut execution_date: Option<Timestamp> = None;
        let mut state: Option<ReportRunState> = None;
        let mut run_type: Option<ReportRunType> = None;
        let mut start_date: Option<Timestamp> = None;
        let mut end_date: Option<Timestamp> = None;
        let n = events.len();
        let mut i: usize = 0;
        while i < n
            invariant
                n == events.len(),
                i <= n,
                ({
                    let r = replay_run(events@.take(i as int));
                    &&& r.id == id
                    &&& r.external_id == match external_id {
                        Some(s) => Some(s@),
                        None => None,
                    }
                    &&& r.execution_date == execution_date
                    &&& r.state == state
                    &&& r.run_type == run_type
                    &&& r.start_date == start_date
                    &&& r.end_date == end_date
                    &&& r.id is Some ==> (r.external_id is Some && r.execution_date is Some
                        && r.state is Some && r.run_type is Some)
                }),
            decreases n - i,
        {
            assert(events@.take(i + 1).drop_last() =~= events@.take(i as int));
            assert(events@.take(i + 1).last() == events@[i as int]);
            match &events[i] {
                ReportRunEvent::Initialized {
                    id: e_id,
                    external_id: e_external_id,
                    execution_date: e_execution_date,
                    state: e_state,
                    run_type: e_run_type,
                } => {
                    id = Some(*e_id);
                    external_id = Some(e_external_id.clone());
                    execution_date = Some(*e_execution_date);
                    state = Some(*e_state);
                    run_type = Some(*e_run_type);
                },
                ReportRunEvent::StateUpdated {
                    execution_date: e_execution_date,
                    state: e_state,
                    run_type: e_run_type,
                    start_date: e_start_date,
                    end_date: e_end_date,
                } => {
                    execution_date = Some(*e_execution_date);
                    state = Some(*e_state);
                    run_type = Some(*e_run_type);
                    start_date = Some(*e_start_date);
                    if let Some(e) = e_end_date {
                        end_date = Some(*e);
                    }
                },
            }
            i += 1;
        }
        assert(events@.take(n as int) =~= events@);
        match (id, external_id, execution_date, state, run_type) {
            (Some(id), Some(external_id), Some(execution_date), Some(state), Some(run_type)) => Ok(
                ReportRun {
                    id,
                    external_id,
                    execution_date,
                    state,
                    run_type,
                    start_date,
                    end_date,
                    events,
                },
            ),
            _ => Err(EntityError::UninitializedField),
        }
    }

    /// Records the run's state as the pipeline reports it. The end date is
    /// set to the given one, also when none is given (replaying the events
    /// keeps an earlier end date in that case).
    pub fn update_state(
        &mut self,
        state: ReportRunState,
        run_type: ReportRunType,
        execution_date: Timestamp,
        start_date: Timestamp,
        end_date: Option<Timestamp>,
    )
        ensures
            final(self).events@ == old(self).events@.push(
                ReportRunEvent::StateUpdated { execution_date, state, run_type, start_date, end_date },
            ),
            final(self).state == state,
            final(self).run_type == run_type,
            final(self).execution_date == execution_date,
            final(self).start_date == Some(start_date),
            final(self).end_date == end_date,
            final(self).id == old(self).id,
            final(self).external_id == old(self).external_id,
            old(self).is_consistent() && (end_date is Some || old(self).end_date is None)
                ==> final(self).is_consistent(),
    {
        self.state = state;
        self.run_type = run_type;
        self.execution_date = execution_date;
        self.start_date = Some(start_date);
        self.end_date = end_date;
        let e = ReportRunEvent::StateUpdated { state, run_type, execution_date, start_date, end_date };
        proof {
            assert(self.events@.push(e).drop_last() =~= self.events@);
        }
        self.events.push(e);
    }
}

/// The request that creates a report run.
pub struct NewReportRun {
    pub id: ReportRunId,
    pub external_id: String,
    pub execution_date: Timestamp,
    pub state: ReportRunState,
    pub run_type: ReportRunType,
}

pub type NewReportRunBuilderError = BuilderError;

/// Collects the fields of a `NewReportRun`. A fresh builder has a fresh id,
/// the current instant as execution date, state `Queued` and type `Manual`;
/// the external id must be set.
pub struct NewReportRunBuilder {
    pub id: Option<ReportRunId>,
    pub external_id: Option<String>,
    pub execution_date: Option<Timestamp>,
    pub state: Option<ReportRunState>,
    pub run_type: Option<ReportRunType>,
}

impl NewReportRun {
    pub fn builder() -> (b: NewReportRunBuilder)
        ensures
            b.id is Some && b.external_id is None && b.execution_date is Some && b.state == Some(
                ReportRunState::Queued,
            ) && b.run_type == Some(ReportRunType::Manual),
    {
        NewReportRunBuilder {
            id: Some(EntityId::new()),
            external_id: None,
            execution_date: Some(now()),
            state: Some(ReportRunState::Queued),
            run_type: Some(ReportRunType::Manual),
        }
    }

    /// The single `Initialized` event of a new report run.
    pub fn into_events(self) -> (events: Vec<ReportRunEvent>)
        ensures
            events@ == seq![
                ReportRunEvent::Initialized {
                    id: self.id,
                    external_id: self.external_id,
                    execution_date: self.execution_date,
                    state: self.state,
                    run_type: self.run_type,
                },
            ],
    {
        let mut v = Vec::new();
        v.push(
            ReportRunEvent::Initialized {
                id: self.id,
                external_id: self.external_id,
                execution_date: self.execution_date,
                state: self.state,
                run_type: self.run_type,
            },
        );
        v
    }
}

impl NewReportRunBuilder {
    pub fn external_id(self, external_id: String) -> (b: Self)
        ensures
            b == (NewReportRunBuilder { external_id: Some(external_id), ..self }),
    {
        NewReportRunBuilder { external_id: Some(external_id), ..self }
    }

    pub fn execution_date(self, execution_date: Timestamp) -> (b: Self)
        ensures
            b == (NewReportRunBuilder { execution_date: Some(execution_date), ..self }),
    {
        NewReportRunBuilder { execution_date: Some(execution_date), ..self }
    }

    pub fn state(self, state: ReportRunState) -> (b: Self)
        ensures
            b == (NewReportRunBuilder { state: Some(state), ..self }),
    {
        NewReportRunBuilder { state: Some(state), ..self }
    }

    pub fn run_type(self, run_type: ReportRunType) -> (b: Self)
        ensures
            b == (NewReportRunBuilder { run_type: Some(run_type), ..self }),
    {
        NewReportRunBuilder { run_type: Some(run_type), ..self }
    }

    /// Builds the request; fails exactly when a field is unset.
    pub fn build(self) -> (r: Result<NewReportRun, NewReportRunBuilderError>)
        ensures
            r is Ok <==> (self.id is Some && self.external_id is Some && self.execution_date is Some
                && self.state is Some && self.run_type is Some),
            r matches Err(e) ==> e is UninitializedField,
            r matches Ok(n) ==> n == (NewReportRun {
                id: self.id->0,
                external_id: self.external_id->0,
                execution_date: self.execution_date->0,
                state: self.state->0,
                run_type: self.run_type->0,
            }),
    {
        match (self.id, self.external_id, self.execution_date, self.state, self.run_type) {
            (Some(id), Some(external_id), Some(execution_date), Some(state), Some(run_type)) => Ok(
                NewReportRun { id, external_id, execution_date, state, run_type },
            ),
            _ => Err(BuilderError::UninitializedField("report run field")),
        }
    }
}

// ---------------------------------------------------------------------------
// Announcements
// ---------------------------------------------------------------------------

/// What the report module announces to other modules.
#[derive(Clone, Copy, Debug, PartialEq, Eq, Structural)]
pub enum CoreReportEvent {
    ReportCreated { id: ReportId },
    ReportRunCreated { id: ReportRunId },
    ReportRunStateUpdated { id: ReportRunId },
}

/// The announcements for a report's newly persisted events: one
/// `ReportCreated` per event.
pub fn report_events_to_publish(report: &Report, new_events: &[ReportEvent]) -> (out: Vec<
    CoreReportEvent,
>)
    ensures
        out@ == Seq::new(new_events@.len(), |i: int| CoreReportEvent::ReportCreated { id: report.id }),
{
    let mut out: Vec<CoreReportEvent> = Vec::new();
    let mut i: usize = 0;
    while i < new_events.len()
        invariant
            i <= new_events@.len(),
            out@ == Seq::new(i as nat, |k: int| CoreReportEvent::ReportCreated { id: report.id }),
        decreases new_events@.len() - i,
    {
        out.push(CoreReportEvent::ReportCreated { id: report.id });
        assert(out@ =~= Seq::new(
            (i + 1) as nat,
            |k: int| CoreReportEvent::ReportCreated { id: report.id },
        ));
        i += 1;
    }
    out
}

/// The announcement for one report-run event.
pub open spec fn run_announcement(id: ReportRunId, e: ReportRunEvent) -> CoreReportEvent {
    match e {
        ReportRunEvent::Initialized { .. } => CoreReportEvent::ReportRunCreated { id },
        ReportRunEvent::StateUpdated { .. } => CoreReportEvent::ReportRunStateUpdated { id },
    }
}

/// The announcements for a report run's newly persisted events, one per
/// event, in order.
pub fn report_run_events_to_publish(run: &ReportRun, new_events: &[ReportRunEvent]) -> (out: Vec<
    CoreReportEvent,
>)
    ensures
        out@ == new_events@.map_values(|e: ReportRunEvent| run_announcement(run.id, e)),
{
    let mut out: Vec<CoreReportEvent> = Vec::new();
    let mut i: usize = 0;
    while i < new_events.len()
        invariant
            i <= new_events@.len(),
            out@ == new_events@.take(i as int).map_values(
                |e: ReportRunEvent| run_announcement(run.id, e),
            ),
        decreases new_events@.len() - i,
    {
        let a = match &new_events[i] {
            ReportRunEvent::Initialized { .. } => CoreReportEvent::ReportRunCreated { id: run.id },
            ReportRunEvent::StateUpdated { .. } => CoreReportEvent::ReportRunStateUpdated {
                id: run.id,
            },
        };
        out.push(a);
        assert(new_events@.take(i + 1).map_values(|e: ReportRunEvent| run_announcement(run.id, e))
            =~= new_events@.take(i as int).map_values(
            |e: ReportRunEvent| run_announcement(run.id, e),
        ).push(run_announcement(run.id, new_events@[i as int])));
        i += 1;
    }
    assert(new_events@.take(new_events@.len() as int) =~= new_events@);
    out
}

// ---------------------------------------------------------------------------
// Following a run in the data pipeline
// ---------------------------------------------------------------------------

/// A report that the pipeline produced.
#[derive(Debug)]
pub struct PipelineReport {
    pub id: String,
    pub name: String,
    pub norm: String,
    pub files: Vec<ReportFile>,
}

/// What the pipeline tells of a run.
#[derive(Debug)]
pub struct PipelineRunDetails {
    pub state: ReportRunState,
    pub run_type: ReportRunType,
    pub execution_date: Timestamp,
    pub start_date: Timestamp,
    pub end_date: Option<Timestamp>,
    pub reports: Option<Vec<PipelineReport>>,
}

#[derive(Clone, Copy, Debug, PartialEq, Eq, Structural)]
pub enum JobCompletion {
    Complete,
    RescheduleNow,
}

/// What one step of following a run decided: whether the job is done, and
/// which reports to create.
pub struct MonitorOutcome {
    pub completion: JobCompletion,
    pub new_reports: Vec<NewReport>,
}

pub open spec fn is_final_state(s: ReportRunState) -> bool {
    s == ReportRunState::Failed || s == ReportRunState::Success
}

/// One step of following a run. Without details, or when the state did not
/// change, nothing happens and the job runs again. Otherwise the run's state
/// is updated; a run that ended (failed or succeeded) gets one new report per
/// report the pipeline produced, and the job completes.
pub fn monitor_report_run_step(run: &mut ReportRun, details: Option<PipelineRunDetails>) -> (out:
    MonitorOutcome)
    ensures
        details is None ==> *final(run) == *old(run) && out.completion
            == JobCompletion::RescheduleNow && out.new_reports@.len() == 0,
        details is Some && details->0.state == old(run).state ==> *final(run) == *old(run)
            && out.completion == JobCompletion::RescheduleNow && out.new_reports@.len() == 0,
        details is Some && details->0.state != old(run).state ==> {
            let d = details->0;
            &&& final(run).events@ == old(run).events@.push(
                ReportRunEvent::StateUpdated {
                    execution_date: d.execution_date,
                    state: d.state,
                    run_type: d.run_type,
                    start_date: d.start_date,
                    end_date: d.end_date,
                },
            )
            &&& final(run).state == d.state
            &&& final(run).run_type == d.run_type
            &&& final(run).execution_date == d.execution_date
            &&& final(run).start_date == Some(d.start_date)
            &&& final(run).end_date == d.end_date
            &&& final(run).id == old(run).id
            &&& final(run).external_id == old(run).external_id
            &&& (old(run).is_consistent() && (d.end_date is Some || old(run).end_date is None)
                ==> final(run).is_consistent())
            &&& (out.completion == JobCompletion::Complete <==> is_final_state(d.state))
            &&& out.new_reports@.len() == if is_final_state(d.state) && d.reports is Some {
                d.reports->0@.len()
            } else {
                0
            }
            &&& forall|i: int|
                0 <= i < out.new_reports@.len() ==> {
                    let r = d.reports->0@[i];
                    let n = #[trigger] out.new_reports@[i];
                    &&& n.external_id == r.id
                    &&& n.run_id == old(run).id
                    &&& n.name == r.name
                    &&& n.norm == r.norm
                    &&& n.files == r.files
                }
        },
{
    let mut new_reports: Vec<NewReport> = Vec::new();
    match details {
        None => MonitorOutcome { completion: JobCompletion::RescheduleNow, new_reports },
        Some(d) => {
            if run.state == d.state {
                return MonitorOutcome { completion: JobCompletion::RescheduleNow, new_reports };
            }
            run.update_state(d.state, d.run_type, d.execution_date, d.start_date, d.end_date);
            if run.state == ReportRunState::Failed || run.state == ReportRunState::Success {
                if let Some(reports) = d.reports {
                    let ghost produced = reports@;
                    let mut reports = reports;
                    let mut k: usize = 0;
                    let total = reports.len();
                    while reports.len() > 0
                        invariant
                            total == produced.len(),
                            reports@.len() + k == total,
                            reports@ == produced.skip(k as int),
                            new_reports@.len() == k,
                            forall|i: int|
                                0 <= i < k ==> {
                                    let r = produced[i];
                                    let n = #[trigger] new_reports@[i];
                                    &&& n.external_id == r.id
                                    &&& n.run_id == run.id
                                    &&& n.name == r.name
                                    &&& n.norm == r.norm
                                    &&& n.files == r.files
                                },
                        decreases reports@.len(),
                    {
                        let r = reports.remove(0);
                        assert(r == produced[k as int]);
                        assert(reports@ =~= produced.skip(k + 1));
                        let built = NewReport::builder().external_id(r.id).run_id(run.id).name(
                            r.name,
                        ).norm(r.norm).files(r.files).build();
                        match built {
                            Ok(n) => {
                                new_reports.push(n);
                            },
                            Err(_) => {
                                proof {
                                    assert(false);
                                }
                            },
                        }
                        k += 1;
                    }
                }
                MonitorOutcome { completion: JobCompletion::Complete, new_reports }
            } else {
                MonitorOutcome { completion: JobCompletion::RescheduleNow, new_reports }
            }
        },
    }
}

/// A report run rebuilt from the events of a new request (what
/// `into_events` gives) exists, has the request's id, external id,
/// execution date, state and type, and has neither started nor ended.
pub proof fn new_report_run_round_trip(request: NewReportRun, run: ReportRun)
    ensures
        ({
            let events = seq![
                ReportRunEvent::Initialized {
                    id: request.id,
                    external_id: request.external_id,
                    execution_date: request.execution_date,
                    state: request.state,
                    run_type: request.run_type,
                },
            ];
            &&& replay_run(events).id is Some
            &&& run.is_replay_of(events) ==> {
                &&& run.id == request.id
                &&& run.external_id@ == request.external_id@
                &&& run.execution_date == request.execution_date
                &&& run.state == request.state
                &&& run.run_type == request.run_type
                &&& run.start_date is None
                &&& run.end_date is None
            }
        }),
{
    let events = seq![
        ReportRunEvent::Initialized {
            id: request.id,
            external_id: request.external_id,
            execution_date: request.execution_date,
            state: request.state,
            run_type: request.run_type,
        },
    ];
    assert(events.drop_last() =~= Seq::<ReportRunEvent>::empty());
    assert(events.last() is Initialized);
    assert(replay_run(events.drop_last()).start_date is None);
    assert(replay_run(events.drop_last()).end_date is None);
}

/// A report rebuilt from the events of a new request (what `into_events`
/// gives) exists and has the request's fields and files.
pub proof fn new_report_round_trip(request: NewReport, report: Report)
    ensures
        ({
            let events = seq![
                ReportEvent::Initialized {
                    id: request.id,
                    external_id: request.external_id,
                    run_id: request.run_id,
                    name: request.name,
                    norm: request.norm,
                    files: request.files,
                },
            ];
            &&& events.len() > 0
            &&& report.is_replay_of(events) ==> {
                &&& report.id == request.id
                &&& report.external_id@ == request.external_id@
                &&& report.run_id == request.run_id
                &&& report.name@ == request.name@
                &&& report.norm@ == request.norm@
                &&& report.files@ == request.files@
            }
        }),
{
}

} // verus!
