//! The polling loop as a state machine.
//!
//! The host does the work that takes time: it builds and searches the matrix
//! of a triple, it sleeps, it listens for a stop request. After each piece of
//! work it tells the orchestrator what happened and is told what to do next
//! and what to put on record.

use vstd::prelude::*;
use vstd::string::StringExecFns;
use crate::amount::Amount;
use crate::arbitrage::{ArbitrageOpportunity, Finding};
use crate::config::{assets_of, names, Config, Settings};
use crate::matrix::{ValidationError, ASSETS};
use crate::oracle::OracleError;

verus! {

/// Where a run stands.
#[derive(Clone, Copy, Debug, PartialEq, Eq, Structural)]
pub enum Phase {
    /// Not started.
    Idle,
    /// The host is at work on the triple at this position of the list.
    Scanning { triple: usize },
    /// A pass found nothing; the host sleeps before the next pass.
    Waiting,
    /// An opportunity was found or a stop was requested. Nothing follows.
    Finished,
}

/// What the host reports back.
#[derive(Clone, Debug, PartialEq, Eq)]
pub enum Event {
    /// The run begins.
    Started,
    /// The matrix of the current triple could not be built.
    BuildFailed(OracleError),
    /// The matrix of the current triple failed validation.
    MatrixRejected(ValidationError),
    /// The matrix of the current triple was searched.
    Searched(ArbitrageOpportunity),
    /// The pause between two passes is over.
    DelayElapsed,
    /// The run is to end.
    StopRequested,
}

/// An `Event` as a mathematical value.
pub enum Happening {
    Started,
    BuildFailed(OracleError),
    MatrixRejected(ValidationError),
    Searched(Finding),
    DelayElapsed,
    StopRequested,
}

impl View for Event {
    type V = Happening;

    open spec fn view(&self) -> Happening {
        match *self {
            Event::Started => Happening::Started,
            Event::BuildFailed(error) => Happening::BuildFailed(error),
            Event::MatrixRejected(fault) => Happening::MatrixRejected(fault),
            Event::Searched(found) => Happening::Searched(found@),
            Event::DelayElapsed => Happening::DelayElapsed,
            Event::StopRequested => Happening::StopRequested,
        }
    }
}

/// What the host is to do next.
#[derive(Clone, Copy, Debug, PartialEq, Eq, Structural)]
pub enum Command {
    /// Nothing, until the run is started.
    Standby,
    /// Build the matrix of the triple at this position and search it.
    Scan { triple: usize },
    /// Sleep for this many seconds.
    Wait { seconds: u64 },
    /// Stop.
    Halt,
}

/// Why a triple was passed over.
#[derive(Clone, Copy, Debug, PartialEq, Eq, Structural)]
pub enum SkipCause {
    Oracle(OracleError),
    Validation(ValidationError),
}

/// What the host is to put on record.
#[derive(Clone, Debug, PartialEq, Eq)]
pub enum Report {
    Nothing,
    /// The triple at this position was passed over in this pass.
    Skipped { triple: usize, cause: SkipCause },
    /// A profitable cycle among the assets of the triple at this position.
    Opportunity {
        triple: usize,
        /// The assets in the order of the conversions; none where the
        /// indices reported by the search do not all lie in the triple.
        cycle: Option<Vec<String>>,
        profit: Amount,
        /// The amount that the profit was measured on.
        investment: Amount,
    },
}

/// A `Report` as a mathematical value.
pub enum Record {
    Nothing,
    Skipped { triple: usize, cause: SkipCause },
    Opportunity { triple: usize, cycle: Option<Seq<Seq<char>>>, profit: Amount, investment: Amount },
}

impl View for Report {
    type V = Record;

    open spec fn view(&self) -> Record {
        match *self {
            Report::Nothing => Record::Nothing,
            Report::Skipped { triple, cause } => Record::Skipped { triple, cause },
            Report::Opportunity { triple, cycle, profit, investment } => Record::Opportunity {
                triple,
                cycle: match cycle {
                    Some(assets) => Some(names(assets@)),
                    None => None,
                },
                profit,
                investment,
            },
        }
    }
}

/// The orchestrator's answer to an event.
#[derive(Clone, Debug, PartialEq, Eq)]
pub struct Transition {
    pub report: Report,
    pub command: Command,
}

/// The answer to an event as a mathematical value, with the phase that
/// follows.
pub struct Reaction {
    pub phase: Phase,
    pub record: Record,
    pub command: Command,
}

/// The assets that a cycle's indices stand for.
pub open spec fn named_cycle(triple: Seq<Seq<char>>, indices: Seq<usize>) -> Option<Seq<Seq<char>>> {
    if forall|k: int| 0 <= k < indices.len() ==> indices[k] < ASSETS {
        Some(assets_of(triple, indices))
    } else {
        None
    }
}

/// What a phase asks of the host while nothing new has happened.
pub open spec fn standing_command(settings: Settings, phase: Phase) -> Command {
    match phase {
        Phase::Idle => Command::Standby,
        Phase::Scanning { triple } => Command::Scan { triple },
        Phase::Waiting => Command::Wait { seconds: settings.delay_seconds },
        Phase::Finished => Command::Halt,
    }
}

/// Turning to the triple at position `next`: scan it if the list reaches
/// that far, else the pass is over and the host waits.
pub open spec fn turn_to(settings: Settings, next: int, record: Record) -> Reaction {
    let phase = if next < settings.triples.len() {
        Phase::Scanning { triple: next as usize }
    } else {
        Phase::Waiting
    };
    Reaction { phase, record, command: standing_command(settings, phase) }
}

/// The whole behaviour of the orchestrator.
///
/// A finished run stays finished. A stop request finishes any run. A pass
/// starts at the first triple, when the run starts and after each wait. A
/// triple whose matrix cannot be built or fails validation is put on record
/// as skipped and the pass goes on. A search that finds an opportunity
/// finishes the run with the opportunity on record; one that finds none lets
/// the pass go on. An event that does not fit the phase changes nothing.
pub open spec fn react(settings: Settings, phase: Phase, event: Happening) -> Reaction {
    let unchanged = Reaction {
        phase,
        record: Record::Nothing,
        command: standing_command(settings, phase),
    };
    let finished = |record: Record| Reaction { phase: Phase::Finished, record, command: Command::Halt };
    match phase {
        Phase::Finished => unchanged,
        Phase::Idle => match event {
            Happening::StopRequested => finished(Record::Nothing),
            Happening::Started => turn_to(settings, 0, Record::Nothing),
            _ => unchanged,
        },
        Phase::Waiting => match event {
            Happening::StopRequested => finished(Record::Nothing),
            Happening::DelayElapsed => turn_to(settings, 0, Record::Nothing),
            _ => unchanged,
        },
        Phase::Scanning { triple } => match event {
            Happening::StopRequested => finished(Record::Nothing),
            Happening::BuildFailed(error) => turn_to(
                settings,
                triple + 1,
                Record::Skipped { triple, cause: SkipCause::Oracle(error) },
            ),
            Happening::MatrixRejected(fault) => turn_to(
                settings,
                triple + 1,
                Record::Skipped { triple, cause: SkipCause::Validation(fault) },
            ),
            Happening::Searched(found) => if found.has_opportunity {
                finished(
                    Record::Opportunity {
                        triple,
                        cycle: named_cycle(settings.triples[triple as int], found.indices),
                        profit: found.profit,
                        investment: settings.investment,
                    },
                )
            } else {
                turn_to(settings, triple + 1, Record::Nothing)
            },
            _ => unchanged,
        },
    }
}

/// A run as a mathematical value.
pub struct Run {
    pub settings: Settings,
    pub phase: Phase,
}

impl Run {
    /// A scan is always of a triple on the list.
    pub open spec fn in_range(self) -> bool {
        match self.phase {
            Phase::Scanning { triple } => triple < self.settings.triples.len(),
            _ => true,
        }
    }
}

/// A finished run accepts no further work: every event leaves it finished
/// and is answered with a halt.
pub proof fn finished_is_final(settings: Settings, event: Happening)
    ensures
        react(settings, Phase::Finished, event).phase == Phase::Finished,
        react(settings, Phase::Finished, event).command == Command::Halt,
        react(settings, Phase::Finished, event).record == Record::Nothing,
{
}

/// A stop request ends a run from any phase.
pub proof fn stop_request_halts(settings: Settings, phase: Phase)
    ensures
        react(settings, phase, Happening::StopRequested).phase == Phase::Finished,
        react(settings, phase, Happening::StopRequested).command == Command::Halt,
{
}

/// A triple whose matrix cannot be built or is rejected never ends the run:
/// it is put on record as skipped, and the host is sent to the next triple
/// or, after the last one, to wait.
pub proof fn failure_skips_one_triple(settings: Settings, triple: usize, event: Happening)
    requires
        triple < settings.triples.len(),
        event is BuildFailed || event is MatrixRejected,
    ensures
        react(settings, Phase::Scanning { triple }, event).record is Skipped,
        react(settings, Phase::Scanning { triple }, event).record->Skipped_triple == triple,
        triple + 1 < settings.triples.len() ==> react(
            settings,
            Phase::Scanning { triple },
            event,
        ).command == (Command::Scan { triple: (triple + 1) as usize }),
        triple + 1 == settings.triples.len() ==> react(
            settings,
            Phase::Scanning { triple },
            event,
        ).command == (Command::Wait { seconds: settings.delay_seconds }),
{
}

/// A run that was not finished finishes only on a stop request or on a
/// search that found an opportunity, and only the latter puts an
/// opportunity on record.
pub proof fn halts_only_on_stop_or_opportunity(settings: Settings, phase: Phase, event: Happening)
    requires
        phase != Phase::Finished,
        react(settings, phase, event).phase == Phase::Finished,
    ensures
        event is StopRequested || (phase is Scanning && event is Searched
            && event->Searched_0.has_opportunity),
        react(settings, phase, event).record is Opportunity <==> event is Searched,
{
}

/// Every reaction keeps a scan on the list of triples.
pub proof fn reaction_stays_in_range(run: Run, event: Happening)
    requires
        run.in_range(),
    ensures
        (Run { settings: run.settings, phase: react(run.settings, run.phase, event).phase }).in_range(),
{
}

/// The texts of a list, in order, with a separator between neighbours.
pub open spec fn joined(parts: Seq<Seq<char>>, separator: Seq<char>) -> Seq<char>
    decreases parts.len(),
{
    if parts.len() == 0 {
        Seq::empty()
    } else if parts.len() == 1 {
        parts[0]
    } else {
        joined(parts.drop_last(), separator) + separator + parts.last()
    }
}

/// A cycle for the eye: its assets in order, an arrow between neighbours.
pub fn sequence_label(assets: &Vec<String>) -> (r: String)
    ensures
        r@ == joined(names(assets@), " -> "@),
{
    let mut label = String::new();
    let mut i: usize = 0;
    while i < assets.len()
        invariant
            i <= assets@.len(),
            label@ == joined(names(assets@).take(i as int), " -> "@),
        decreases assets@.len() - i,
    {
        let ghost before = names(assets@).take(i as int);
        let ghost after = names(assets@).take(i + 1);
        assert(after.drop_last() =~= before);
        assert(after.last() == assets@[i as int]@);
        if i > 0 {
            label.append(" -> ");
        }
        label.append(assets[i].as_str());
        assert(label@ =~= joined(after, " -> "@));
        i += 1;
    }
    assert(names(assets@).take(assets@.len() as int) =~= names(assets@));
    label
}

impl Event {
    /// The event that the outcome of a search amounts to.
    pub fn from_search(outcome: Result<ArbitrageOpportunity, ValidationError>) -> (r: Event)
        ensures
            r@ == match outcome {
                Ok(found) => Happening::Searched(found@),
                Err(fault) => Happening::MatrixRejected(fault),
            },
    {
        match outcome {
            Ok(found) => Event::Searched(found),
            Err(fault) => Event::MatrixRejected(fault),
        }
    }
}

/// Drives the polling loop.
#[derive(Debug)]
pub struct PollingOrchestrator {
    config: Config,
    phase: Phase,
}

impl PollingOrchestrator {
    #[verifier::type_invariant]
    spec fn scan_on_list(self) -> bool {
        match self.phase {
            Phase::Scanning { triple } => triple < self.config@.triples.len(),
            _ => true,
        }
    }

    pub closed spec fn view(&self) -> Run {
        Run { settings: self.config@, phase: self.phase }
    }

    /// An orchestrator that has not started.
    pub fn new(config: Config) -> (r: Self)
        ensures
            r@ == (Run { settings: config@, phase: Phase::Idle }),
    {
        PollingOrchestrator { config, phase: Phase::Idle }
    }

    pub fn phase(&self) -> (r: Phase)
        ensures
            r == self@.phase,
            self@.in_range(),
    {
        proof {
            use_type_invariant(self);
        }
        self.phase
    }

    pub fn config(&self) -> (r: &Config)
        ensures
            r@ == self@.settings,
    {
        &self.config
    }

    fn turn_to(self, next: usize, report: Report) -> (r: (Self, Transition))
        ensures
            r.0@.settings == self@.settings,
            (Reaction { phase: r.0@.phase, record: r.1.report@, command: r.1.command }) == turn_to(
                self@.settings,
                next as int,
                report@,
            ),
    {
        if next < self.config.triple_count() {
            (
                PollingOrchestrator { config: self.config, phase: Phase::Scanning { triple: next } },
                Transition { report, command: Command::Scan { triple: next } },
            )
        } else {
            let seconds = self.config.delay_seconds();
            (
                PollingOrchestrator { config: self.config, phase: Phase::Waiting },
                Transition { report, command: Command::Wait { seconds } },
            )
        }
    }

    fn finish(self, report: Report) -> (r: (Self, Transition))
        ensures
            r.0@ == (Run { settings: self@.settings, phase: Phase::Finished }),
            r.1.report@ == report@,
            r.1.command == Command::Halt,
    {
        (
            PollingOrchestrator { config: self.config, phase: Phase::Finished },
            Transition { report, command: Command::Halt },
        )
    }

    fn stay(self) -> (r: (Self, Transition))
        ensures
            r.0@ == self@,
            r.1.report@ == Record::Nothing,
            r.1.command == standing_command(self@.settings, self@.phase),
    {
        proof {
            use_type_invariant(&self);
        }
        let command = match self.phase {
            Phase::Idle => Command::Standby,
            Phase::Scanning { triple } => Command::Scan { triple },
            Phase::Waiting => Command::Wait { seconds: self.config.delay_seconds() },
            Phase::Finished => Command::Halt,
        };
        (self, Transition { report: Report::Nothing, command })
    }

    /// Takes an event and answers with what to record and what to do next.
    pub fn step(self, event: Event) -> (r: (Self, Transition))
        ensures
            r.0@.settings == self@.settings,
            (Reaction { phase: r.0@.phase, record: r.1.report@, command: r.1.command }) == react(
                self@.settings,
                self@.phase,
                event@,
            ),
    {
        proof {
            use_type_invariant(&self);
        }
        let listed = self.config.triple_count();
        match self.phase {
            Phase::Finished => self.stay(),
            Phase::Idle => match event {
                Event::StopRequested => self.finish(Report::Nothing),
                Event::Started => self.turn_to(0, Report::Nothing),
                _ => self.stay(),
            },
            Phase::Waiting => match event {
                Event::StopRequested => self.finish(Report::Nothing),
                Event::DelayElapsed => self.turn_to(0, Report::Nothing),
                _ => self.stay(),
            },
            Phase::Scanning { triple } => match event {
                Event::StopRequested => self.finish(Report::Nothing),
                Event::BuildFailed(error) => self.turn_to(
                    triple + 1,
                    Report::Skipped { triple, cause: SkipCause::Oracle(error) },
                ),
                Event::MatrixRejected(fault) => self.turn_to(
                    triple + 1,
                    Report::Skipped { triple, cause: SkipCause::Validation(fault) },
                ),
                Event::Searched(found) => {
                    if found.has_opportunity {
                        let cycle = match self.config.triple(triple) {
                            Some(assets) => assets.assets_at(&found.indices),
                            None => None,
                        };
                        let investment = self.config.investment();
                        self.finish(
                            Report::Opportunity { triple, cycle, profit: found.profit, investment },
                        )
                    } else {
                        self.turn_to(triple + 1, Report::Nothing)
                    }
                },
                _ => self.stay(),
            },
        }
    }
}

} // verus!
