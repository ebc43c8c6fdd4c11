//! The pipeline as a state machine over mathematical values: what it waits
//! for, and what each answer makes it report, command and wait for next.
//!
//! A run waits for the clinical data server, opens one session, and then takes
//! up the projects in their order, each in the local category and then in the
//! global one. For each such unit it asks for a token and for the patients
//! that the token covers, and for each patient it fetches the resource, tags
//! it and stores it. Only a session that cannot be opened ends the run; every
//! other failure is reported, and the run goes on with the next patient or
//! the next unit.

use crate::endpoint::{
    metadata_of, patient_of, patient_search_of, patients_of, sessions_of, tokens_of,
};
use crate::events::{CommandView, EventView, ReportView, POLL_SECONDS};
use crate::gateway::{patient_outcome, ready, store_outcome};
use crate::mainzelliste::{token_request_of, Category};
use crate::project::ProjectView;
use crate::registry::{patients_outcome, session_outcome, token_outcome};
use crate::tagging::tagged;
use vstd::prelude::*;

verus! {

/// What the pipeline waits for.
pub ghost enum StageView {
    /// The answer to a probe of the clinical data server.
    AwaitReady,
    /// The answer to the session request.
    SessionOpen,
    /// The answer to the token request of a unit.
    Token { session: Seq<char>, project: nat, category: Category },
    /// The answer to the request for the patients of a unit.
    Patients { session: Seq<char>, project: nat, category: Category },
    /// The answer to the search for one patient of a unit.
    Fetch {
        session: Seq<char>,
        project: nat,
        category: Category,
        pseudonyms: Seq<Seq<char>>,
        patient: nat,
    },
    /// The answer to the write of one patient of a unit.
    Store {
        session: Seq<char>,
        project: nat,
        category: Category,
        pseudonyms: Seq<Seq<char>>,
        patient: nat,
    },
    /// Nothing: the run is complete.
    Completed,
    /// Nothing: the run has failed.
    Aborted,
}

/// Mathematical model of a pipeline: the site, the projects in the order in
/// which they are taken up, and the stage that the run has reached.
pub ghost struct PipelineView {
    pub site: Seq<char>,
    pub projects: Seq<ProjectView>,
    pub stage: StageView,
}

/// What an event leads to: the pipeline after it, the lines to report, in
/// their order, and the command to carry out.
pub ghost struct TransitionView {
    pub pipeline: PipelineView,
    pub reports: Seq<ReportView>,
    pub command: CommandView,
}

impl TransitionView {
    /// The same transition with more lines reported before its own.
    pub open spec fn after(self, earlier: Seq<ReportView>) -> TransitionView {
        TransitionView { reports: earlier + self.reports, ..self }
    }
}

impl StageView {
    /// Whether the stage waits for the event.
    pub open spec fn awaits(self, event: EventView) -> bool {
        match (self, event) {
            (StageView::AwaitReady, EventView::Probed(_)) => true,
            (StageView::SessionOpen, EventView::SessionOpened(_)) => true,
            (StageView::Token { .. }, EventView::TokenIssued(_)) => true,
            (StageView::Patients { .. }, EventView::PatientsResolved(_)) => true,
            (StageView::Fetch { .. }, EventView::PatientFetched(_)) => true,
            (StageView::Store { .. }, EventView::PatientStored(_)) => true,
            _ => false,
        }
    }
}

impl PipelineView {
    /// The same pipeline at another stage.
    pub open spec fn at(self, stage: StageView) -> PipelineView {
        PipelineView { stage, ..self }
    }

    /// The stage speaks of a project that there is, and of a patient that
    /// there is.
    pub open spec fn well_formed(self) -> bool {
        match self.stage {
            StageView::Token { project, .. } => project < self.projects.len(),
            StageView::Patients { project, .. } => project < self.projects.len(),
            StageView::Fetch { project, pseudonyms, patient, .. } => project < self.projects.len()
                && patient < pseudonyms.len(),
            StageView::Store { project, pseudonyms, patient, .. } => project < self.projects.len()
                && patient < pseudonyms.len(),
            _ => true,
        }
    }

    /// A pipeline at its start.
    pub open spec fn initial(site: Seq<char>, projects: Seq<ProjectView>) -> PipelineView {
        PipelineView { site, projects, stage: StageView::AwaitReady }
    }

    /// The transition that starts a run: the clinical data server is probed
    /// at once.
    pub open spec fn start(site: Seq<char>, projects: Seq<ProjectView>) -> TransitionView {
        TransitionView {
            pipeline: PipelineView::initial(site, projects),
            reports: seq![ReportView::Starting],
            command: CommandView::Probe { endpoint: metadata_of(), delay_seconds: 0 },
        }
    }

    /// Takes up a unit: asks for its token, and reports the project where
    /// the unit is the first of its project. Past the last project the run
    /// is complete.
    pub open spec fn enter(
        self,
        session: Seq<char>,
        project: nat,
        category: Category,
    ) -> TransitionView {
        if project < self.projects.len() {
            TransitionView {
                pipeline: self.at(StageView::Token { session, project, category }),
                reports: if category == Category::Local {
                    seq![ReportView::ProjectStarted { project: self.projects[project as int].name }]
                } else {
                    Seq::empty()
                },
                command: CommandView::RequestToken {
                    endpoint: tokens_of(session),
                    body: token_request_of(self.projects[project as int].id, self.site, category),
                },
            }
        } else {
            TransitionView {
                pipeline: self.at(StageView::Completed),
                reports: Seq::empty(),
                command: CommandView::Finish,
            }
        }
    }

    /// Leaves a unit for the one that follows it: the global category of the
    /// same project after the local one, the local category of the next
    /// project after the global one.
    pub open spec fn leave(
        self,
        session: Seq<char>,
        project: nat,
        category: Category,
    ) -> TransitionView {
        match category {
            Category::Local => self.enter(session, project, Category::Global),
            Category::Global => self.enter(session, project + 1, Category::Local),
        }
    }

    /// Goes on after a patient: to the search for the next patient of the
    /// unit, or, after its last patient, to the next unit.
    pub open spec fn next_patient(
        self,
        session: Seq<char>,
        project: nat,
        category: Category,
        pseudonyms: Seq<Seq<char>>,
        patient: nat,
    ) -> TransitionView {
        if patient + 1 < pseudonyms.len() {
            TransitionView {
                pipeline: self.at(
                    StageView::Fetch {
                        session,
                        project,
                        category,
                        pseudonyms,
                        patient: patient + 1,
                    },
                ),
                reports: Seq::empty(),
                command: CommandView::FetchPatient {
                    endpoint: patient_search_of(pseudonyms[(patient + 1) as int]),
                },
            }
        } else {
            self.leave(session, project, category)
        }
    }

    /// What an event leads to.
    pub open spec fn step(self, event: EventView) -> TransitionView {
        match (self.stage, event) {
            (StageView::AwaitReady, EventView::Probed(reply)) => if ready(reply) {
                TransitionView {
                    pipeline: self.at(StageView::SessionOpen),
                    reports: Seq::empty(),
                    command: CommandView::OpenSession { endpoint: sessions_of() },
                }
            } else {
                TransitionView {
                    pipeline: self,
                    reports: seq![ReportView::WaitingForServer],
                    command: CommandView::Probe {
                        endpoint: metadata_of(),
                        delay_seconds: POLL_SECONDS,
                    },
                }
            },
            (StageView::SessionOpen, EventView::SessionOpened(reply)) => match session_outcome(
                reply,
            ) {
                Ok(session) => self.enter(session, 0, Category::Local),
                Err(cause) => TransitionView {
                    pipeline: self.at(StageView::Aborted),
                    reports: seq![ReportView::SessionFailed { cause }],
                    command: CommandView::Abort,
                },
            },
            (
                StageView::Token { session, project, category },
                EventView::TokenIssued(reply),
            ) => match token_outcome(reply) {
                Ok(token) => TransitionView {
                    pipeline: self.at(StageView::Patients { session, project, category }),
                    reports: Seq::empty(),
                    command: CommandView::ResolvePatients { endpoint: patients_of(token) },
                },
                Err(cause) => self.leave(session, project, category).after(
                    seq![
                        ReportView::NotConfigured {
                            project: self.projects[project as int].name,
                            category,
                            cause,
                        },
                    ],
                ),
            },
            (
                StageView::Patients { session, project, category },
                EventView::PatientsResolved(reply),
            ) => match patients_outcome(reply) {
                Ok(pseudonyms) => {
                    let found = seq![
                        ReportView::PatientsFound {
                            count: pseudonyms.len(),
                            project: self.projects[project as int].name,
                            category,
                        },
                    ];
                    if pseudonyms.len() == 0 {
                        self.leave(session, project, category).after(found)
                    } else {
                        TransitionView {
                            pipeline: self.at(
                                StageView::Fetch {
                                    session,
                                    project,
                                    category,
                                    pseudonyms,
                                    patient: 0,
                                },
                            ),
                            reports: found,
                            command: CommandView::FetchPatient {
                                endpoint: patient_search_of(pseudonyms[0]),
                            },
                        }
                    }
                },
                Err(cause) => self.leave(session, project, category).after(
                    seq![
                        ReportView::NoPatients {
                            project: self.projects[project as int].name,
                            category,
                            cause,
                        },
                    ],
                ),
            },
            (
                StageView::Fetch { session, project, category, pseudonyms, patient },
                EventView::PatientFetched(reply),
            ) => match patient_outcome(reply) {
                Ok(resource) => TransitionView {
                    pipeline: self.at(
                        StageView::Store { session, project, category, pseudonyms, patient },
                    ),
                    reports: Seq::empty(),
                    command: CommandView::StorePatient {
                        endpoint: patient_of(resource.id),
                        resource: tagged(resource, self.projects[project as int].id),
                    },
                },
                Err(cause) => self.next_patient(
                    session,
                    project,
                    category,
                    pseudonyms,
                    patient,
                ).after(
                    seq![
                        ReportView::PatientNotFound {
                            pseudonym: pseudonyms[patient as int],
                            cause,
                        },
                    ],
                ),
            },
            (
                StageView::Store { session, project, category, pseudonyms, patient },
                EventView::PatientStored(reply),
            ) => self.next_patient(session, project, category, pseudonyms, patient).after(
                seq![
                    match store_outcome(reply) {
                        Ok(_) => ReportView::PatientTagged {
                            pseudonym: pseudonyms[patient as int],
                        },
                        Err(cause) => ReportView::StoreFailed {
                            pseudonym: pseudonyms[patient as int],
                            cause,
                        },
                    },
                ],
            ),
            _ => TransitionView {
                pipeline: self,
                reports: Seq::empty(),
                command: CommandView::Ignore,
            },
        }
    }
}

} // verus!
