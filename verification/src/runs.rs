//! Whole runs of the pipeline: what a sequence of events leads to, and what
//! holds of every run.
//!
//! The pipeline itself takes one event at a time. What is stated here of
//! sequences of events holds of any driver that hands the pipeline the
//! answers to its commands in their order.

use crate::endpoint::{patient_of, patient_search_of, tokens_of};
use crate::error::RegistryError;
use crate::events::{CommandView, EventView, ReportView};
use crate::gateway::{patient_outcome, ready, store_outcome};
use crate::mainzelliste::{token_request_of, Category};
use crate::model::{PipelineView, StageView};
use crate::registry::{patients_outcome, session_outcome, token_outcome};
use crate::reply::{ClinicalReplyView, RegistryReplyView};
use crate::tagging::tagged;
use vstd::prelude::*;

verus! {

/// What a sequence of events leads to: the pipeline after them, and all the
/// lines reported and all the commands given on the way, in their order.
pub ghost struct RunView {
    pub pipeline: PipelineView,
    pub reports: Seq<ReportView>,
    pub commands: Seq<CommandView>,
}

/// What came back for one patient: the answer to the search, and the answer
/// to the write that follows where the search gave a patient.
pub ghost struct PatientOutcome {
    pub fetched: ClinicalReplyView,
    pub stored: ClinicalReplyView,
}

impl PatientOutcome {
    /// The events that the outcome consists of: the answer to the search,
    /// and, where it gave a patient, the answer to the write.
    pub open spec fn events(self) -> Seq<EventView> {
        if patient_outcome(self.fetched) is Ok {
            seq![EventView::PatientFetched(self.fetched), EventView::PatientStored(self.stored)]
        } else {
            seq![EventView::PatientFetched(self.fetched)]
        }
    }

    /// The one line that is reported of a patient with this outcome: that
    /// the patient was not found, that the patient could not be stored, or
    /// that the patient is tagged.
    pub open spec fn line(self, pseudonym: Seq<char>) -> ReportView {
        match patient_outcome(self.fetched) {
            Err(cause) => ReportView::PatientNotFound { pseudonym, cause },
            Ok(_) => match store_outcome(self.stored) {
                Err(cause) => ReportView::StoreFailed { pseudonym, cause },
                Ok(_) => ReportView::PatientTagged { pseudonym },
            },
        }
    }

    /// The writes that are commanded for a patient with this outcome: that
    /// of the tagged resource where the search gave a patient, none
    /// otherwise.
    pub open spec fn writes(self, code: Seq<char>) -> Seq<CommandView> {
        match patient_outcome(self.fetched) {
            Ok(resource) => seq![
                CommandView::StorePatient {
                    endpoint: patient_of(resource.id),
                    resource: tagged(resource, code),
                },
            ],
            Err(_) => Seq::empty(),
        }
    }
}

/// The events of the outcomes of a batch of patients, one patient after the
/// other.
pub open spec fn batch_events(outcomes: Seq<PatientOutcome>) -> Seq<EventView>
    decreases outcomes.len(),
{
    if outcomes.len() == 0 {
        Seq::empty()
    } else {
        batch_events(outcomes.drop_last()) + outcomes.last().events()
    }
}

/// The unit that follows a unit: the global category of the same project
/// after the local one, the local category of the next project after the
/// global one.
pub open spec fn following(project: nat, category: Category) -> (nat, Category) {
    match category {
        Category::Local => (project, Category::Global),
        Category::Global => (project + 1, Category::Local),
    }
}

impl PipelineView {
    /// What a sequence of events leads to.
    pub open spec fn run(self, events: Seq<EventView>) -> RunView
        decreases events.len(),
    {
        if events.len() == 0 {
            RunView { pipeline: self, reports: Seq::empty(), commands: Seq::empty() }
        } else {
            let before = self.run(events.drop_last());
            let last = before.pipeline.step(events.last());
            RunView {
                pipeline: last.pipeline,
                reports: before.reports + last.reports,
                commands: before.commands.push(last.command),
            }
        }
    }

    /// The pipeline in the middle of a batch: it waits for the answer to the
    /// search for one patient of a unit.
    pub open spec fn fetching(
        self,
        session: Seq<char>,
        project: nat,
        category: Category,
        pseudonyms: Seq<Seq<char>>,
        patient: nat,
    ) -> PipelineView {
        self.at(StageView::Fetch { session, project, category, pseudonyms, patient })
    }

    /// The commands that are given while the first `done` patients of a
    /// batch are worked off: for each of them its write, where there is
    /// one, and then the search for the next patient or, after the last
    /// patient, the command that takes up the next unit.
    pub open spec fn batch_commands(
        self,
        session: Seq<char>,
        project: nat,
        category: Category,
        pseudonyms: Seq<Seq<char>>,
        outcomes: Seq<PatientOutcome>,
        done: nat,
    ) -> Seq<CommandView>
        decreases done,
    {
        if done == 0 {
            Seq::empty()
        } else {
            let patient = (done - 1) as nat;
            self.batch_commands(session, project, category, pseudonyms, outcomes, patient)
                + outcomes[patient as int].writes(self.projects[project as int].id).push(
                self.next_patient(session, project, category, pseudonyms, patient).command,
            )
        }
    }
}

/// No event changes the site or the projects of a pipeline, and none leads
/// to a stage that speaks of a project or a patient that there is not.
pub proof fn lemma_step_keeps_well_formed(pipeline: PipelineView, event: EventView)
    requires
        pipeline.well_formed(),
    ensures
        pipeline.step(event).pipeline.well_formed(),
        pipeline.step(event).pipeline.site == pipeline.site,
        pipeline.step(event).pipeline.projects == pipeline.projects,
{
}

/// Only a session that cannot be opened makes a run fail: an event leads to
/// the failed stage only where the pipeline waits for the answer to the
/// session request and that answer opens no session. A server that is not
/// ready never does; the pipeline goes on waiting for it.
pub proof fn lemma_only_a_session_failure_ends_the_run(pipeline: PipelineView, event: EventView)
    requires
        pipeline.well_formed(),
        pipeline.stage !is Aborted,
    ensures
        pipeline.step(event).pipeline.stage is Aborted <==> pipeline.stage is SessionOpen
            && event is SessionOpened && session_outcome(event->SessionOpened_0) is Err,
        pipeline.step(event).command == CommandView::Abort <==> pipeline.step(
            event,
        ).pipeline.stage is Aborted,
        pipeline.stage is AwaitReady && event is Probed && !ready(event->Probed_0)
            ==> pipeline.step(event).pipeline == pipeline,
{
}

/// A run over two sequences of events, one after the other, is the run over
/// the first followed by the run over the second.
pub proof fn lemma_run_in_two_parts(
    pipeline: PipelineView,
    first: Seq<EventView>,
    second: Seq<EventView>,
)
    ensures
        pipeline.run(first + second).pipeline == pipeline.run(first).pipeline.run(second).pipeline,
        pipeline.run(first + second).reports == pipeline.run(first).reports + pipeline.run(
            first,
        ).pipeline.run(second).reports,
        pipeline.run(first + second).commands == pipeline.run(first).commands + pipeline.run(
            first,
        ).pipeline.run(second).commands,
    decreases second.len(),
{
    let middle = pipeline.run(first).pipeline;
    if second.len() == 0 {
        assert(first + second =~= first);
        assert(pipeline.run(first).reports + middle.run(second).reports =~= pipeline.run(
            first,
        ).reports);
        assert(pipeline.run(first).commands + middle.run(second).commands =~= pipeline.run(
            first,
        ).commands);
    } else {
        lemma_run_in_two_parts(pipeline, first, second.drop_last());
        assert((first + second).drop_last() =~= first + second.drop_last());
        assert((first + second).last() == second.last());
        let before = middle.run(second.drop_last());
        let last = before.pipeline.step(second.last());
        assert(pipeline.run(first + second).reports =~= pipeline.run(first).reports + (
        before.reports + last.reports));
        assert(pipeline.run(first + second).commands =~= pipeline.run(first).commands
            + before.commands.push(last.command));
    }
}

/// A project and category for which the registry gives no token does not
/// stop the run: the failure is reported in one line, and the run goes on
/// with the unit that follows, whose token is asked for next, or is
/// complete where no unit follows.
pub proof fn lemma_token_failure_is_passed_over(
    pipeline: PipelineView,
    session: Seq<char>,
    project: nat,
    category: Category,
    reply: RegistryReplyView,
    cause: RegistryError,
)
    requires
        pipeline.well_formed(),
        pipeline.stage == (StageView::Token { session, project, category }),
        token_outcome(reply) == Err::<Seq<char>, RegistryError>(cause),
    ensures
        ({
            let next = pipeline.step(EventView::TokenIssued(reply));
            let (then_project, then_category) = following(project, category);
            &&& next.pipeline.stage !is Aborted
            &&& next.command != CommandView::Abort
            &&& next.reports[0] == ReportView::NotConfigured {
                project: pipeline.projects[project as int].name,
                category,
                cause,
            }
            &&& forall|i: int| 0 < i < next.reports.len() ==> next.reports[i] is ProjectStarted
            &&& then_project < pipeline.projects.len() ==> {
                &&& next.pipeline == pipeline.at(
                    StageView::Token { session, project: then_project, category: then_category },
                )
                &&& next.command == CommandView::RequestToken {
                    endpoint: tokens_of(session),
                    body: token_request_of(
                        pipeline.projects[then_project as int].id,
                        pipeline.site,
                        then_category,
                    ),
                }
            }
            &&& then_project >= pipeline.projects.len() ==> {
                &&& next.pipeline == pipeline.at(StageView::Completed)
                &&& next.command == CommandView::Finish
            }
        }),
{
}

/// A project and category for which the registry gives no patients, or
/// gives an empty list, does not stop the run either: one line is reported
/// of it, and the run goes on with the unit that follows.
pub proof fn lemma_unit_without_patients_is_passed_over(
    pipeline: PipelineView,
    session: Seq<char>,
    project: nat,
    category: Category,
    reply: RegistryReplyView,
)
    requires
        pipeline.well_formed(),
        pipeline.stage == (StageView::Patients { session, project, category }),
        patients_outcome(reply) is Err || patients_outcome(reply) == Ok::<
            Seq<Seq<char>>,
            RegistryError,
        >(Seq::empty()),
    ensures
        ({
            let next = pipeline.step(EventView::PatientsResolved(reply));
            let (then_project, then_category) = following(project, category);
            &&& next.pipeline == pipeline.enter(session, then_project, then_category).pipeline
            &&& next.command == pipeline.enter(session, then_project, then_category).command
            &&& next.pipeline.stage !is Aborted
            &&& next.command != CommandView::Abort
            &&& next.reports[0] == match patients_outcome(reply) {
                Ok(_) => ReportView::PatientsFound {
                    count: 0,
                    project: pipeline.projects[project as int].name,
                    category,
                },
                Err(cause) => ReportView::NoPatients {
                    project: pipeline.projects[project as int].name,
                    category,
                    cause,
                },
            }
        }),
{
}

/// One patient, whatever comes back for it: exactly one line is reported of
/// the patient, the tagged resource is written where the search gave one,
/// and the pipeline then is where it would be after any other outcome, at
/// the next patient of the batch or at the next unit.
pub proof fn lemma_patient_in_isolation(
    pipeline: PipelineView,
    session: Seq<char>,
    project: nat,
    category: Category,
    pseudonyms: Seq<Seq<char>>,
    patient: nat,
    outcome: PatientOutcome,
)
    requires
        pipeline.well_formed(),
        pipeline.stage == (StageView::Fetch { session, project, category, pseudonyms, patient }),
    ensures
        ({
            let run = pipeline.run(outcome.events());
            let onward = pipeline.next_patient(session, project, category, pseudonyms, patient);
            &&& run.pipeline == onward.pipeline
            &&& run.reports == seq![outcome.line(pseudonyms[patient as int])] + onward.reports
            &&& run.commands == outcome.writes(pipeline.projects[project as int].id).push(
                onward.command,
            )
        }),
{
    let fetched = EventView::PatientFetched(outcome.fetched);
    let stored = EventView::PatientStored(outcome.stored);
    let onward = pipeline.next_patient(session, project, category, pseudonyms, patient);
    reveal_with_fuel(PipelineView::run, 3);
    if patient_outcome(outcome.fetched) is Ok {
        let events = seq![fetched, stored];
        assert(events.drop_last() =~= seq![fetched]);
        assert(seq![fetched].drop_last() =~= Seq::<EventView>::empty());
        assert(events.last() == stored);
        assert(seq![fetched].last() == fetched);
        let first = pipeline.step(fetched);
        assert(pipeline.run(seq![fetched]).pipeline == first.pipeline);
        let second = first.pipeline.step(stored);
        assert(second.pipeline == onward.pipeline);
        assert(pipeline.run(events).reports =~= seq![outcome.line(pseudonyms[patient as int])]
            + onward.reports);
        assert(pipeline.run(events).commands =~= outcome.writes(
            pipeline.projects[project as int].id,
        ).push(onward.command));
    } else {
        let events = seq![fetched];
        assert(events.drop_last() =~= Seq::<EventView>::empty());
        assert(events.last() == fetched);
        assert(pipeline.run(events).reports =~= seq![outcome.line(pseudonyms[patient as int])]
            + onward.reports);
        assert(pipeline.run(events).commands =~= outcome.writes(
            pipeline.projects[project as int].id,
        ).push(onward.command));
    }
}

/// The commands of the first patients of a batch depend on the outcomes of
/// those patients alone.
pub proof fn lemma_batch_commands_of_prefix(
    pipeline: PipelineView,
    session: Seq<char>,
    project: nat,
    category: Category,
    pseudonyms: Seq<Seq<char>>,
    outcomes: Seq<PatientOutcome>,
    others: Seq<PatientOutcome>,
    done: nat,
)
    requires
        done <= outcomes.len(),
        done <= others.len(),
        forall|i: int| 0 <= i < done ==> outcomes[i] == others[i],
    ensures
        pipeline.batch_commands(session, project, category, pseudonyms, outcomes, done)
            == pipeline.batch_commands(session, project, category, pseudonyms, others, done),
    decreases done,
{
    if done > 0 {
        lemma_batch_commands_of_prefix(
            pipeline,
            session,
            project,
            category,
            pseudonyms,
            outcomes,
            others,
            (done - 1) as nat,
        );
    }
}

/// A batch of patients, whatever comes back for each of them: one line has
/// been reported of each patient that is done, which says what became of
/// that patient and of no other, and the commands given are, patient by
/// patient, the write of the tagged resource where the search gave one and
/// then the search for the next patient. As long as patients are left the
/// pipeline waits for the next patient of the same batch, and after the last
/// patient it is at the unit that follows. A failure for one patient thus
/// changes nothing for the others.
pub proof fn lemma_batch_in_isolation(
    pipeline: PipelineView,
    session: Seq<char>,
    project: nat,
    category: Category,
    pseudonyms: Seq<Seq<char>>,
    outcomes: Seq<PatientOutcome>,
)
    requires
        pipeline.well_formed(),
        pipeline.stage == (StageView::Fetch { session, project, category, pseudonyms, patient: 0 }),
        outcomes.len() <= pseudonyms.len(),
    ensures
        ({
            let run = pipeline.run(batch_events(outcomes));
            let onward = pipeline.leave(session, project, category);
            let lines = Seq::new(outcomes.len(), |i: int| outcomes[i].line(pseudonyms[i]));
            &&& run.commands == pipeline.batch_commands(
                session,
                project,
                category,
                pseudonyms,
                outcomes,
                outcomes.len(),
            )
            &&& outcomes.len() < pseudonyms.len() ==> {
                &&& run.reports == lines
                &&& run.pipeline == pipeline.fetching(
                    session,
                    project,
                    category,
                    pseudonyms,
                    outcomes.len(),
                )
            }
            &&& outcomes.len() == pseudonyms.len() ==> {
                &&& run.reports == lines + onward.reports
                &&& run.pipeline == onward.pipeline
                &&& run.pipeline.stage !is Aborted
            }
        }),
    decreases outcomes.len(),
{
    let lines = Seq::new(outcomes.len(), |i: int| outcomes[i].line(pseudonyms[i]));
    let run = pipeline.run(batch_events(outcomes));
    if outcomes.len() == 0 {
        assert(run.reports =~= lines);
        assert(pipeline.fetching(session, project, category, pseudonyms, 0) == pipeline);
    } else {
        let front = outcomes.drop_last();
        let last = outcomes.last();
        let patient = front.len();
        lemma_batch_in_isolation(pipeline, session, project, category, pseudonyms, front);
        lemma_run_in_two_parts(pipeline, batch_events(front), last.events());
        let middle = pipeline.fetching(session, project, category, pseudonyms, patient);
        lemma_patient_in_isolation(middle, session, project, category, pseudonyms, patient, last);
        let onward = middle.next_patient(session, project, category, pseudonyms, patient);
        assert(onward == pipeline.next_patient(session, project, category, pseudonyms, patient));
        let front_lines = Seq::new(front.len(), |i: int| front[i].line(pseudonyms[i]));
        assert(front_lines + seq![last.line(pseudonyms[patient as int])] =~= lines);
        assert(run.reports =~= lines + onward.reports);
        if outcomes.len() < pseudonyms.len() {
            assert(lines + onward.reports =~= lines);
        }
        lemma_batch_commands_of_prefix(
            pipeline,
            session,
            project,
            category,
            pseudonyms,
            outcomes,
            front,
            patient,
        );
    }
}

/// The commands of a batch hold the search for each patient but the first,
/// and, for each patient for whom the search gave a resource, the write of
/// that resource with the marker of the project.
pub proof fn lemma_batch_commands_hold(
    pipeline: PipelineView,
    session: Seq<char>,
    project: nat,
    category: Category,
    pseudonyms: Seq<Seq<char>>,
    outcomes: Seq<PatientOutcome>,
    done: nat,
)
    requires
        done <= outcomes.len() <= pseudonyms.len(),
    ensures
        ({
            let commands = pipeline.batch_commands(
                session,
                project,
                category,
                pseudonyms,
                outcomes,
                done,
            );
            let code = pipeline.projects[project as int].id;
            &&& forall|i: int|
                0 < i <= done && i < pseudonyms.len() ==> commands.contains(
                    CommandView::FetchPatient { endpoint: patient_search_of(pseudonyms[i]) },
                )
            &&& forall|i: int|
                0 <= i < done && patient_outcome(outcomes[i].fetched) is Ok ==> commands.contains(
                    #[trigger] outcomes[i].writes(code)[0],
                )
        }),
    decreases done,
{
    let code = pipeline.projects[project as int].id;
    let commands = pipeline.batch_commands(session, project, category, pseudonyms, outcomes, done);
    if done > 0 {
        let patient = (done - 1) as nat;
        lemma_batch_commands_hold(
            pipeline,
            session,
            project,
            category,
            pseudonyms,
            outcomes,
            patient,
        );
        let before = pipeline.batch_commands(
            session,
            project,
            category,
            pseudonyms,
            outcomes,
            patient,
        );
        let writes = outcomes[patient as int].writes(code);
        let onward = pipeline.next_patient(session, project, category, pseudonyms, patient).command;
        assert(commands == before + writes.push(onward));
        assert forall|i: int| 0 < i <= done && i < pseudonyms.len() implies commands.contains(
            CommandView::FetchPatient { endpoint: patient_search_of(pseudonyms[i]) },
        ) by {
            let wanted = CommandView::FetchPatient { endpoint: patient_search_of(pseudonyms[i]) };
            if i <= patient {
                let at = choose|at: int| 0 <= at < before.len() && before[at] == wanted;
                assert(commands[at] == wanted);
            } else {
                assert(commands[(before.len() + writes.len()) as int] == wanted);
            }
        }
        assert forall|i: int|
            0 <= i < done && patient_outcome(
                outcomes[i].fetched,
            ) is Ok implies commands.contains(#[trigger] outcomes[i].writes(code)[0]) by {
            let wanted = outcomes[i].writes(code)[0];
            if i < patient {
                let at = choose|at: int| 0 <= at < before.len() && before[at] == wanted;
                assert(commands[at] == wanted);
            } else {
                assert(commands[before.len() as int] == wanted);
            }
        }
    }
}

/// Where the search fails for one patient of a batch and gives a resource
/// for every other, every other patient is still searched for, tagged and
/// written, and the failure is reported in the one line of the patient for
/// whom the search failed.
pub proof fn lemma_one_failure_leaves_the_others(
    pipeline: PipelineView,
    session: Seq<char>,
    project: nat,
    category: Category,
    pseudonyms: Seq<Seq<char>>,
    outcomes: Seq<PatientOutcome>,
    failing: int,
)
    requires
        pipeline.well_formed(),
        pipeline.stage == (StageView::Fetch { session, project, category, pseudonyms, patient: 0 }),
        outcomes.len() == pseudonyms.len(),
        0 <= failing < outcomes.len(),
        patient_outcome(outcomes[failing].fetched) is Err,
        forall|i: int|
            0 <= i < outcomes.len() && i != failing ==> patient_outcome(outcomes[i].fetched) is Ok,
    ensures
        ({
            let run = pipeline.run(batch_events(outcomes));
            let code = pipeline.projects[project as int].id;
            &&& forall|i: int|
                0 < i < pseudonyms.len() ==> run.commands.contains(
                    CommandView::FetchPatient { endpoint: patient_search_of(pseudonyms[i]) },
                )
            &&& forall|i: int|
                0 <= i < outcomes.len() && i != failing ==> run.commands.contains(
                    CommandView::StorePatient {
                        endpoint: patient_of(patient_outcome(outcomes[i].fetched)->Ok_0.id),
                        resource: tagged(patient_outcome(outcomes[i].fetched)->Ok_0, code),
                    },
                )
            &&& forall|i: int|
                0 <= i < outcomes.len() ==> (run.reports[i] is PatientNotFound <==> i == failing)
            &&& run.reports[failing] == ReportView::PatientNotFound {
                pseudonym: pseudonyms[failing],
                cause: patient_outcome(outcomes[failing].fetched)->Err_0,
            }
        }),
{
    let run = pipeline.run(batch_events(outcomes));
    let code = pipeline.projects[project as int].id;
    lemma_batch_in_isolation(pipeline, session, project, category, pseudonyms, outcomes);
    lemma_batch_commands_hold(
        pipeline,
        session,
        project,
        category,
        pseudonyms,
        outcomes,
        outcomes.len(),
    );
    let lines = Seq::new(outcomes.len(), |i: int| outcomes[i].line(pseudonyms[i]));
    assert forall|i: int| 0 <= i < outcomes.len() implies run.reports[i] == lines[i] by {}
    assert forall|i: int| 0 <= i < outcomes.len() && i != failing implies run.commands.contains(
        CommandView::StorePatient {
            endpoint: patient_of(patient_outcome(outcomes[i].fetched)->Ok_0.id),
            resource: tagged(patient_outcome(outcomes[i].fetched)->Ok_0, code),
        },
    ) by {
        assert(run.commands.contains(outcomes[i].writes(code)[0]));
    }
}

} // verus!
