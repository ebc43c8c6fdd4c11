//! The pipeline that a driver runs: it gives a command, the driver carries
//! it out and hands back what came of it, and the pipeline gives the next
//! command, until the run is complete or has failed.

use crate::endpoint::Endpoint;
use crate::events::{Command, CommandView, Event, EventView, Report, ReportView, POLL_SECONDS};
use crate::gateway::{is_ready, patient_from, stored};
use crate::mainzelliste::{token_request, Category};
use crate::model::{PipelineView, StageView, TransitionView};
use crate::project::Project;
use crate::registry::{patients_from, session_from, token_from};
use crate::reply::{ClinicalReply, RegistryReply};
use crate::tagging::tag_project;
use vstd::prelude::*;

verus! {

/// What the pipeline waits for.
enum Stage {
    AwaitReady,
    SessionOpen,
    Token { session: String, project: usize, category: Category },
    Patients { session: String, project: usize, category: Category },
    Fetch {
        session: String,
        project: usize,
        category: Category,
        pseudonyms: Vec<String>,
        patient: usize,
    },
    Store {
        session: String,
        project: usize,
        category: Category,
        pseudonyms: Vec<String>,
        patient: usize,
    },
    Completed,
    Aborted,
}

/// A run of the tagging pipeline: the site, the projects in the order in
/// which they are taken up, and the stage that the run has reached.
pub struct Pipeline {
    site: String,
    projects: Vec<Project>,
    stage: Stage,
}

/// What an event leads to: the pipeline after it, the lines to report, in
/// their order, and the command to carry out.
pub struct Transition {
    pub pipeline: Pipeline,
    pub reports: Vec<Report>,
    pub command: Command,
}

impl Stage {
    spec fn model(self) -> StageView {
        match self {
            Stage::AwaitReady => StageView::AwaitReady,
            Stage::SessionOpen => StageView::SessionOpen,
            Stage::Token { session, project, category } => StageView::Token {
                session: session@,
                project: project as nat,
                category,
            },
            Stage::Patients { session, project, category } => StageView::Patients {
                session: session@,
                project: project as nat,
                category,
            },
            Stage::Fetch { session, project, category, pseudonyms, patient } => StageView::Fetch {
                session: session@,
                project: project as nat,
                category,
                pseudonyms: pseudonyms.deep_view(),
                patient: patient as nat,
            },
            Stage::Store { session, project, category, pseudonyms, patient } => StageView::Store {
                session: session@,
                project: project as nat,
                category,
                pseudonyms: pseudonyms.deep_view(),
                patient: patient as nat,
            },
            Stage::Completed => StageView::Completed,
            Stage::Aborted => StageView::Aborted,
        }
    }
}

impl View for Pipeline {
    type V = PipelineView;

    closed spec fn view(&self) -> PipelineView {
        PipelineView {
            site: self.site@,
            projects: self.projects.deep_view(),
            stage: self.stage.model(),
        }
    }
}

impl View for Transition {
    type V = TransitionView;

    open spec fn view(&self) -> TransitionView {
        TransitionView {
            pipeline: self.pipeline@,
            reports: self.reports.deep_view(),
            command: self.command@,
        }
    }
}

/// The reports of a list with one more line at its end.
proof fn lemma_pushed(before: Vec<Report>, after: Vec<Report>, line: Report)
    requires
        after@ == before@.push(line),
    ensures
        after.deep_view() == before.deep_view() + seq![line@],
{
    assert(after.deep_view() =~= before.deep_view() + seq![line@]);
}

/// Takes up a unit, after the lines that are reported already.
fn enter(
    site: String,
    projects: Vec<Project>,
    session: String,
    project: usize,
    category: Category,
    earlier: Vec<Report>,
) -> (next: Transition)
    ensures
        next@ == PipelineView::initial(site@, projects.deep_view()).enter(
            session@,
            project as nat,
            category,
        ).after(earlier.deep_view()),
{
    let mut reports = earlier;
    if project < projects.len() {
        let chosen = &projects[project];
        assert(projects.deep_view()[project as int] == chosen@);
        match category {
            Category::Local => {
                let line = Report::ProjectStarted { project: chosen.name.clone() };
                reports.push(line);
                proof {
                    lemma_pushed(earlier, reports, line);
                }
            },
            Category::Global => {
                assert(reports.deep_view() =~= earlier.deep_view() + Seq::empty());
            },
        }
        let command = Command::RequestToken {
            endpoint: Endpoint::tokens(session.as_str()),
            body: token_request(chosen, site.as_str(), category),
        };
        let stage = Stage::Token { session, project, category };
        let pipeline = Pipeline { site, projects, stage };
        Transition { pipeline, reports, command }
    } else {
        assert(reports.deep_view() =~= earlier.deep_view() + Seq::empty());
        let pipeline = Pipeline { site, projects, stage: Stage::Completed };
        Transition { pipeline, reports, command: Command::Finish }
    }
}

/// Leaves a unit for the one that follows it, after the lines that are
/// reported already.
fn leave(
    site: String,
    projects: Vec<Project>,
    session: String,
    project: usize,
    category: Category,
    earlier: Vec<Report>,
) -> (next: Transition)
    requires
        project < projects.len(),
    ensures
        next@ == PipelineView::initial(site@, projects.deep_view()).leave(
            session@,
            project as nat,
            category,
        ).after(earlier.deep_view()),
{
    match category {
        Category::Local => enter(site, projects, session, project, Category::Global, earlier),
        Category::Global => enter(site, projects, session, project + 1, Category::Local, earlier),
    }
}

/// Goes on after a patient, after the lines that are reported already.
fn next_patient(
    site: String,
    projects: Vec<Project>,
    session: String,
    project: usize,
    category: Category,
    pseudonyms: Vec<String>,
    patient: usize,
    earlier: Vec<Report>,
) -> (next: Transition)
    requires
        project < projects.len(),
        patient < pseudonyms.len(),
    ensures
        next@ == PipelineView::initial(site@, projects.deep_view()).next_patient(
            session@,
            project as nat,
            category,
            pseudonyms.deep_view(),
            patient as nat,
        ).after(earlier.deep_view()),
{
    if patient + 1 < pseudonyms.len() {
        assert(earlier.deep_view() =~= earlier.deep_view() + Seq::empty());
        let command = Command::FetchPatient {
            endpoint: Endpoint::patient_search(pseudonyms[patient + 1].as_str()),
        };
        let pipeline = Pipeline {
            site,
            projects,
            stage: Stage::Fetch { session, project, category, pseudonyms, patient: patient + 1 },
        };
        Transition { pipeline, reports: earlier, command }
    } else {
        leave(site, projects, session, project, category, earlier)
    }
}

/// Leaves the pipeline as it is: the event answers no request.
fn ignore(site: String, projects: Vec<Project>, stage: Stage) -> (next: Transition)
    requires
        assembled(site, projects, stage).well_formed(),
    ensures
        next@ == (TransitionView {
            pipeline: assembled(site, projects, stage),
            reports: Seq::empty(),
            command: CommandView::Ignore,
        }),
{
    let reports: Vec<Report> = Vec::new();
    assert(reports.deep_view() =~= Seq::empty());
    Transition { pipeline: Pipeline { site, projects, stage }, reports, command: Command::Ignore }
}

/// A list that holds one line.
fn one(line: Report) -> (reports: Vec<Report>)
    ensures
        reports.deep_view() == seq![line@],
{
    let mut reports: Vec<Report> = Vec::new();
    reports.push(line);
    assert(reports.deep_view() =~= seq![line@]);
    reports
}

/// A list that holds no line.
fn none() -> (reports: Vec<Report>)
    ensures
        reports.deep_view() == Seq::<ReportView>::empty(),
{
    let reports: Vec<Report> = Vec::new();
    assert(reports.deep_view() =~= Seq::empty());
    reports
}

/// The model of a pipeline that is made of these parts.
spec fn assembled(site: String, projects: Vec<Project>, stage: Stage) -> PipelineView {
    PipelineView { site: site@, projects: projects.deep_view(), stage: stage.model() }
}

/// Takes the answer to a probe.
fn on_probed(site: String, projects: Vec<Project>, reply: ClinicalReply) -> (next: Transition)
    ensures
        next@ == assembled(site, projects, Stage::AwaitReady).step(EventView::Probed(reply@)),
{
    if is_ready(&reply) {
        let command = Command::OpenSession { endpoint: Endpoint::sessions() };
        let pipeline = Pipeline { site, projects, stage: Stage::SessionOpen };
        Transition { pipeline, reports: none(), command }
    } else {
        let command = Command::Probe {
            endpoint: Endpoint::metadata(),
            delay_seconds: POLL_SECONDS,
        };
        let pipeline = Pipeline { site, projects, stage: Stage::AwaitReady };
        Transition { pipeline, reports: one(Report::WaitingForServer), command }
    }
}

/// Takes the answer to the session request.
fn on_session_opened(site: String, projects: Vec<Project>, reply: RegistryReply) -> (next:
    Transition)
    ensures
        next@ == assembled(site, projects, Stage::SessionOpen).step(
            EventView::SessionOpened(reply@),
        ),
{
    match session_from(&reply) {
        Ok(session) => enter(site, projects, session, 0, Category::Local, none()),
        Err(cause) => {
            let pipeline = Pipeline { site, projects, stage: Stage::Aborted };
            Transition {
                pipeline,
                reports: one(Report::SessionFailed { cause }),
                command: Command::Abort,
            }
        },
    }
}

/// Takes the answer to the token request of a unit.
fn on_token_issued(
    site: String,
    projects: Vec<Project>,
    session: String,
    project: usize,
    category: Category,
    reply: RegistryReply,
) -> (next: Transition)
    requires
        project < projects.len(),
    ensures
        next@ == assembled(site, projects, Stage::Token { session, project, category }).step(
            EventView::TokenIssued(reply@),
        ),
{
    match token_from(&reply) {
        Ok(token) => {
            let command = Command::ResolvePatients { endpoint: Endpoint::patients(token.as_str()) };
            let pipeline = Pipeline {
                site,
                projects,
                stage: Stage::Patients { session, project, category },
            };
            Transition { pipeline, reports: none(), command }
        },
        Err(cause) => {
            let line = Report::NotConfigured {
                project: projects[project].name.clone(),
                category,
                cause,
            };
            leave(site, projects, session, project, category, one(line))
        },
    }
}

/// Takes the answer to the request for the patients of a unit.
fn on_patients_resolved(
    site: String,
    projects: Vec<Project>,
    session: String,
    project: usize,
    category: Category,
    reply: RegistryReply,
) -> (next: Transition)
    requires
        project < projects.len(),
    ensures
        next@ == assembled(site, projects, Stage::Patients { session, project, category }).step(
            EventView::PatientsResolved(reply@),
        ),
{
    match patients_from(&reply) {
        Ok(pseudonyms) => {
            let found = one(
                Report::PatientsFound {
                    count: pseudonyms.len(),
                    project: projects[project].name.clone(),
                    category,
                },
            );
            if pseudonyms.len() == 0 {
                leave(site, projects, session, project, category, found)
            } else {
                let command = Command::FetchPatient {
                    endpoint: Endpoint::patient_search(pseudonyms[0].as_str()),
                };
                let pipeline = Pipeline {
                    site,
                    projects,
                    stage: Stage::Fetch { session, project, category, pseudonyms, patient: 0 },
                };
                Transition { pipeline, reports: found, command }
            }
        },
        Err(cause) => {
            let line = Report::NoPatients {
                project: projects[project].name.clone(),
                category,
                cause,
            };
            leave(site, projects, session, project, category, one(line))
        },
    }
}

/// Takes the answer to the search for a patient of a unit.
fn on_patient_fetched(
    site: String,
    projects: Vec<Project>,
    session: String,
    project: usize,
    category: Category,
    pseudonyms: Vec<String>,
    patient: usize,
    reply: ClinicalReply,
) -> (next: Transition)
    requires
        project < projects.len(),
        patient < pseudonyms.len(),
    ensures
        next@ == assembled(
            site,
            projects,
            Stage::Fetch { session, project, category, pseudonyms, patient },
        ).step(EventView::PatientFetched(reply@)),
{
    match patient_from(reply) {
        Ok(resource) => {
            let resource = tag_project(resource, &projects[project]);
            let command = Command::StorePatient {
                endpoint: Endpoint::patient(resource.id.as_str()),
                resource,
            };
            let pipeline = Pipeline {
                site,
                projects,
                stage: Stage::Store { session, project, category, pseudonyms, patient },
            };
            Transition { pipeline, reports: none(), command }
        },
        Err(cause) => {
            let line = Report::PatientNotFound { pseudonym: pseudonyms[patient].clone(), cause };
            next_patient(site, projects, session, project, category, pseudonyms, patient, one(line))
        },
    }
}

/// Takes the answer to the write of a patient of a unit.
fn on_patient_stored(
    site: String,
    projects: Vec<Project>,
    session: String,
    project: usize,
    category: Category,
    pseudonyms: Vec<String>,
    patient: usize,
    reply: ClinicalReply,
) -> (next: Transition)
    requires
        project < projects.len(),
        patient < pseudonyms.len(),
    ensures
        next@ == assembled(
            site,
            projects,
            Stage::Store { session, project, category, pseudonyms, patient },
        ).step(EventView::PatientStored(reply@)),
{
    let line = match stored(&reply) {
        Ok(_) => Report::PatientTagged { pseudonym: pseudonyms[patient].clone() },
        Err(cause) => Report::StoreFailed { pseudonym: pseudonyms[patient].clone(), cause },
    };
    next_patient(site, projects, session, project, category, pseudonyms, patient, one(line))
}

impl Pipeline {
    #[verifier::type_invariant]
    spec fn sound(self) -> bool {
        self@.well_formed()
    }

    /// Starts a run at a site, over the projects in the order given: the
    /// run is announced, and the clinical data server is probed at once.
    pub fn start(site: String, projects: Vec<Project>) -> (first: Transition)
        ensures
            first@ == PipelineView::start(site@, projects.deep_view()),
    {
        let pipeline = Pipeline { site, projects, stage: Stage::AwaitReady };
        let command = Command::Probe { endpoint: Endpoint::metadata(), delay_seconds: 0 };
        Transition { pipeline, reports: one(Report::Starting), command }
    }

    /// Tells whether the run is over, complete or failed.
    pub fn is_over(&self) -> (over: bool)
        ensures
            over == (self@.stage is Completed || self@.stage is Aborted),
    {
        match self.stage {
            Stage::Completed => true,
            Stage::Aborted => true,
            _ => false,
        }
    }

    /// Takes the answer to the command that was given last, and gives the
    /// lines to report and the next command.
    ///
    /// A server that is not ready is probed again after a pause, without
    /// end. A session that cannot be opened ends the run. Every other
    /// failure is reported and passed over: the run goes on with the next
    /// patient, or with the next project and category. An event that
    /// answers no request of the pipeline changes nothing.
    pub fn step(self, event: Event) -> (next: Transition)
        ensures
            next@ == self@.step(event@),
    {
        proof {
            use_type_invariant(&self);
        }
        let Pipeline { site, projects, stage } = self;
        match stage {
            Stage::AwaitReady => match event {
                Event::Probed(reply) => on_probed(site, projects, reply),
                _ => ignore(site, projects, Stage::AwaitReady),
            },
            Stage::SessionOpen => match event {
                Event::SessionOpened(reply) => on_session_opened(site, projects, reply),
                _ => ignore(site, projects, Stage::SessionOpen),
            },
            Stage::Token { session, project, category } => match event {
                Event::TokenIssued(reply) => on_token_issued(
                    site,
                    projects,
                    session,
                    project,
                    category,
                    reply,
                ),
                _ => ignore(site, projects, Stage::Token { session, project, category }),
            },
            Stage::Patients { session, project, category } => match event {
                Event::PatientsResolved(reply) => on_patients_resolved(
                    site,
                    projects,
                    session,
                    project,
                    category,
                    reply,
                ),
                _ => ignore(site, projects, Stage::Patients { session, project, category }),
            },
            Stage::Fetch { session, project, category, pseudonyms, patient } => match event {
                Event::PatientFetched(reply) => on_patient_fetched(
                    site,
                    projects,
                    session,
                    project,
                    category,
                    pseudonyms,
                    patient,
                    reply,
                ),
                _ => ignore(
                    site,
                    projects,
                    Stage::Fetch { session, project, category, pseudonyms, patient },
                ),
            },
            Stage::Store { session, project, category, pseudonyms, patient } => match event {
                Event::PatientStored(reply) => on_patient_stored(
                    site,
                    projects,
                    session,
                    project,
                    category,
                    pseudonyms,
                    patient,
                    reply,
                ),
                _ => ignore(
                    site,
                    projects,
                    Stage::Store { session, project, category, pseudonyms, patient },
                ),
            },
            Stage::Completed => ignore(site, projects, Stage::Completed),
            Stage::Aborted => ignore(site, projects, Stage::Aborted),
        }
    }
}

} // verus!
