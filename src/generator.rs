use vstd::prelude::*;

use crate::templates::Preset;
use crate::templates::TemplateKind;

verus! {

/// What to do when a target file already exists.
#[derive(Clone, Copy, Debug, PartialEq, Eq, Structural)]
pub enum OverwritePolicy {
    /// Leave the file alone and record it as skipped.
    Skip,
    /// Ask for confirmation before overwriting it.
    Prompt,
}

/// What an error entry of a summary refers to.
#[derive(Clone, Copy, Debug, PartialEq, Eq, Structural)]
pub enum Target {
    /// The configuration directory itself, which could not be created.
    ConfigDir,
    /// The target file of a kind.
    File(TemplateKind),
}

/// The result of one generation run, in the order the kinds were processed.
pub struct GenerationSummary {
    pub created: Vec<TemplateKind>,
    pub skipped: Vec<TemplateKind>,
    pub errors: Vec<(Target, String)>,
}

/// Where a run stands.
#[derive(Clone, Copy, Debug, PartialEq, Eq, Structural)]
pub enum Stage {
    /// The configuration directory has not been created yet.
    Setup,
    /// The current kind's target file is to be checked for existence.
    Probe,
    /// The current kind's target file exists and the user is to be asked.
    Confirm,
    /// The current kind's content is to be written.
    Write,
    /// Nothing is left to do.
    Done,
}

/// The outside work a run asks for next.
#[derive(Clone, Copy, Debug, PartialEq, Eq, Structural)]
pub enum Action {
    /// Create the configuration directory and its missing parents.
    CreateConfigDir,
    /// Report whether the kind's target file exists.
    Probe(TemplateKind),
    /// Ask whether the kind's existing target file may be overwritten.
    Confirm(TemplateKind),
    /// Write the kind's resolved content to its target file.
    Write(TemplateKind),
    /// The run is over; take the summary.
    Finish,
}

/// What came of the last action.
#[derive(Debug)]
pub enum Event {
    ConfigDirCreated,
    ConfigDirFailed(String),
    Probed(bool),
    Confirmed(bool),
    Written,
    WriteFailed(String),
}

/// How one processed kind was disposed of.
#[derive(Clone, Copy, Debug, PartialEq, Eq, Structural)]
pub enum Outcome {
    Created,
    Skipped,
    Failed,
}

/// The mathematical state of a run.
pub struct GenerationState {
    pub selected: Seq<TemplateKind>,
    pub preset: Preset,
    pub policy: OverwritePolicy,
    pub stage: Stage,
    /// Index in `selected` of the kind being processed.
    pub pos: nat,
    /// The outcome of each kind before `pos`.
    pub outcomes: Seq<Outcome>,
    pub created: Seq<TemplateKind>,
    pub skipped: Seq<TemplateKind>,
    pub errors: Seq<(Target, String)>,
}

/// The kinds among `kinds` whose outcome is `o`, in order.
pub open spec fn kinds_with(kinds: Seq<TemplateKind>, outs: Seq<Outcome>, o: Outcome) -> Seq<TemplateKind>
    decreases outs.len(),
{
    if outs.len() == 0 {
        seq![]
    } else {
        let n = outs.len() - 1;
        let prev = kinds_with(kinds, outs.take(n), o);
        if outs[n] == o {
            prev.push(kinds[n])
        } else {
            prev
        }
    }
}

/// The configuration directory failed and nothing else was attempted.
pub open spec fn dir_failed(s: GenerationState) -> bool {
    s.errors.len() > 0 && s.errors[0].0 == Target::ConfigDir
}

impl GenerationState {
    /// Every kind before `pos` stands in exactly the list its outcome names,
    /// and the stage agrees with the position.
    pub open spec fn wf(self) -> bool {
        &&& self.pos <= self.selected.len()
        &&& self.outcomes.len() == self.pos
        &&& (self.stage == Stage::Probe || self.stage == Stage::Confirm || self.stage == Stage::Write)
            ==> self.pos < self.selected.len()
        &&& self.stage == Stage::Setup ==> self.pos == 0 && self.errors.len() == 0
        &&& self.stage == Stage::Confirm ==> self.policy == OverwritePolicy::Prompt
        &&& if dir_failed(self) {
            &&& self.stage == Stage::Done
            &&& self.pos == 0
            &&& self.errors.len() == 1
            &&& self.created.len() == 0
            &&& self.skipped.len() == 0
        } else {
            &&& self.stage == Stage::Done ==> self.pos == self.selected.len()
            &&& self.created == kinds_with(self.selected, self.outcomes, Outcome::Created)
            &&& self.skipped == kinds_with(self.selected, self.outcomes, Outcome::Skipped)
            &&& self.errors.len() == kinds_with(self.selected, self.outcomes, Outcome::Failed).len()
            &&& forall|i: int|
                0 <= i < self.errors.len() ==> #[trigger] self.errors[i].0 == Target::File(
                    kinds_with(self.selected, self.outcomes, Outcome::Failed)[i],
                )
        }
    }

    /// The kind being processed.
    pub open spec fn current(self) -> TemplateKind {
        self.selected[self.pos as int]
    }

    /// The outside work asked for in this state.
    pub open spec fn action(self) -> Action {
        match self.stage {
            Stage::Setup => Action::CreateConfigDir,
            Stage::Probe => Action::Probe(self.current()),
            Stage::Confirm => Action::Confirm(self.current()),
            Stage::Write => Action::Write(self.current()),
            Stage::Done => Action::Finish,
        }
    }

    /// Records `o` for the current kind and moves to the next one.
    pub open spec fn finish_kind(self, o: Outcome) -> GenerationState {
        let pos = self.pos + 1;
        GenerationState {
            pos,
            stage: if pos < self.selected.len() { Stage::Probe } else { Stage::Done },
            outcomes: self.outcomes.push(o),
            ..self
        }
    }

    /// The state after `e` answers this state's action. An event that does not
    /// answer the action leaves the state as it is.
    pub open spec fn next(self, e: Event) -> GenerationState {
        match (self.stage, e) {
            (Stage::Setup, Event::ConfigDirCreated) => GenerationState {
                stage: if self.selected.len() == 0 { Stage::Done } else { Stage::Probe },
                ..self
            },
            (Stage::Setup, Event::ConfigDirFailed(m)) => GenerationState {
                stage: Stage::Done,
                errors: self.errors.push((Target::ConfigDir, m)),
                ..self
            },
            (Stage::Probe, Event::Probed(exists)) => if !exists {
                GenerationState { stage: Stage::Write, ..self }
            } else if self.policy == OverwritePolicy::Prompt {
                GenerationState { stage: Stage::Confirm, ..self }
            } else {
                GenerationState { skipped: self.skipped.push(self.current()), ..self }.finish_kind(
                    Outcome::Skipped,
                )
            },
            (Stage::Confirm, Event::Confirmed(yes)) => if yes {
                GenerationState { stage: Stage::Write, ..self }
            } else {
                GenerationState { skipped: self.skipped.push(self.current()), ..self }.finish_kind(
                    Outcome::Skipped,
                )
            },
            (Stage::Write, Event::Written) => GenerationState {
                created: self.created.push(self.current()),
                ..self
            }.finish_kind(Outcome::Created),
            (Stage::Write, Event::WriteFailed(m)) => GenerationState {
                errors: self.errors.push((Target::File(self.current()), m)),
                ..self
            }.finish_kind(Outcome::Failed),
            _ => self,
        }
    }
}

/// The state in which a run over `selected` begins.
pub open spec fn initial_state(
    selected: Seq<TemplateKind>,
    preset: Preset,
    policy: OverwritePolicy,
) -> GenerationState {
    GenerationState {
        selected,
        preset,
        policy,
        stage: Stage::Setup,
        pos: 0,
        outcomes: seq![],
        created: seq![],
        skipped: seq![],
        errors: seq![],
    }
}

/// One generation run over the kinds selected by the caller, in their order.
pub struct Generation {
    selected: Vec<TemplateKind>,
    preset: Preset,
    policy: OverwritePolicy,
    stage: Stage,
    pos: usize,
    outcomes: Ghost<Seq<Outcome>>,
    summary: GenerationSummary,
}

impl View for Generation {
    type V = GenerationState;

    closed spec fn view(&self) -> GenerationState {
        GenerationState {
            selected: self.selected@,
            preset: self.preset,
            policy: self.policy,
            stage: self.stage,
            pos: self.pos as nat,
            outcomes: self.outcomes@,
            created: self.summary.created@,
            skipped: self.summary.skipped@,
            errors: self.summary.errors@,
        }
    }
}

proof fn lemma_kinds_with_push(kinds: Seq<TemplateKind>, outs: Seq<Outcome>, x: Outcome, o: Outcome)
    ensures
        kinds_with(kinds, outs.push(x), o) == if x == o {
            kinds_with(kinds, outs, o).push(kinds[outs.len() as int])
        } else {
            kinds_with(kinds, outs, o)
        },
{
    assert(outs.push(x).take(outs.len() as int) =~= outs);
}

/// Proves that `s.finish_kind(o)` is well formed after the list named by `o`
/// received the current kind.
proof fn lemma_finish_kind_wf(s: GenerationState, t: GenerationState, o: Outcome)
    requires
        s.wf(),
        !dir_failed(s),
        s.stage == Stage::Probe || s.stage == Stage::Confirm || s.stage == Stage::Write,
        t.selected == s.selected,
        t.policy == s.policy,
        t.pos == s.pos,
        t.outcomes == s.outcomes,
        t.created == if o == Outcome::Created { s.created.push(s.current()) } else { s.created },
        t.skipped == if o == Outcome::Skipped { s.skipped.push(s.current()) } else { s.skipped },
        o == Outcome::Failed ==> t.errors == s.errors.push((Target::File(s.current()), t.errors.last().1)),
        o != Outcome::Failed ==> t.errors == s.errors,
    ensures
        t.finish_kind(o).wf(),
{
    let f = t.finish_kind(o);
    lemma_kinds_with_push(s.selected, s.outcomes, o, Outcome::Created);
    lemma_kinds_with_push(s.selected, s.outcomes, o, Outcome::Skipped);
    lemma_kinds_with_push(s.selected, s.outcomes, o, Outcome::Failed);
    if s.errors.len() > 0 {
        assert(s.errors[0].0 != Target::ConfigDir);
        assert(f.errors[0] == s.errors[0]);
    }
    if o == Outcome::Failed {
        if s.errors.len() == 0 {
            assert(f.errors[0].0 == Target::File(s.current()));
        }
        assert forall|i: int| 0 <= i < f.errors.len() implies #[trigger] f.errors[i].0 == Target::File(
            kinds_with(f.selected, f.outcomes, Outcome::Failed)[i],
        ) by {
            if i < s.errors.len() {
                assert(f.errors[i] == s.errors[i]);
            }
        }
    }
}

/// The run over `selected` that starts in `initial_state(selected@, preset, policy)`.
fn start(selected: &[TemplateKind], preset: Preset, policy: OverwritePolicy) -> (r: Generation)
    ensures
        r@ == initial_state(selected@, preset, policy),
        r@.wf(),
{
    let mut kinds: Vec<TemplateKind> = Vec::new();
    let mut i: usize = 0;
    while i < selected.len()
        invariant
            i <= selected@.len(),
            kinds@ == selected@.take(i as int),
        decreases selected@.len() - i,
    {
        kinds.push(selected[i]);
        i = i + 1;
        assert(kinds@ =~= selected@.take(i as int));
    }
    assert(kinds@ =~= selected@);
    let r = Generation {
        selected: kinds,
        preset,
        policy,
        stage: Stage::Setup,
        pos: 0,
        outcomes: Ghost(Seq::empty()),
        summary: GenerationSummary { created: Vec::new(), skipped: Vec::new(), errors: Vec::new() },
    };
    assert(r@ =~= initial_state(selected@, preset, policy));
    r
}

/// Begins a run that leaves existing target files alone.
pub fn generate(selected: &[TemplateKind], preset: Preset) -> (r: Generation)
    ensures
        r@ == initial_state(selected@, preset, OverwritePolicy::Skip),
        r@.wf(),
{
    start(selected, preset, OverwritePolicy::Skip)
}

/// Begins a run that asks before overwriting an existing target file.
pub fn generate_with_prompt(selected: &[TemplateKind], preset: Preset) -> (r: Generation)
    ensures
        r@ == initial_state(selected@, preset, OverwritePolicy::Prompt),
        r@.wf(),
{
    start(selected, preset, OverwritePolicy::Prompt)
}

impl Generation {
    /// The outside work the run asks for next.
    pub fn next_action(&self) -> (r: Action)
        requires
            self@.wf(),
        ensures
            r == self@.action(),
    {
        match self.stage {
            Stage::Setup => Action::CreateConfigDir,
            Stage::Probe => Action::Probe(self.selected[self.pos]),
            Stage::Confirm => Action::Confirm(self.selected[self.pos]),
            Stage::Write => Action::Write(self.selected[self.pos]),
            Stage::Done => Action::Finish,
        }
    }

    /// Whether the run is over.
    pub fn is_finished(&self) -> (r: bool)
        ensures
            r == (self@.stage == Stage::Done),
    {
        self.stage == Stage::Done
    }

    /// The preset the run draws its defaults from.
    pub fn preset(&self) -> (r: Preset)
        ensures
            r == self@.preset,
    {
        self.preset
    }

    /// The overwrite policy of the run.
    pub fn policy(&self) -> (r: OverwritePolicy)
        ensures
            r == self@.policy,
    {
        self.policy
    }

    /// Moves the current kind to the next one after its outcome was recorded.
    fn advance(&mut self, o: Outcome)
        requires
            old(self).pos < old(self).selected@.len(),
        ensures
            final(self)@ == old(self)@.finish_kind(o),
    {
        let n = self.selected.len();
        self.pos = self.pos + 1;
        self.stage = if self.pos < n { Stage::Probe } else { Stage::Done };
        self.outcomes = Ghost(self.outcomes@.push(o));
    }

    /// Takes in what came of the last action.
    pub fn step(&mut self, event: Event)
        requires
            old(self)@.wf(),
        ensures
            final(self)@ == old(self)@.next(event),
            final(self)@.wf(),
    {
        let ghost s = self@;
        match (self.stage, event) {
            (Stage::Setup, Event::ConfigDirCreated) => {
                self.stage = if self.selected.len() == 0 { Stage::Done } else { Stage::Probe };
            },
            (Stage::Setup, Event::ConfigDirFailed(m)) => {
                self.stage = Stage::Done;
                self.summary.errors.push((Target::ConfigDir, m));
            },
            (Stage::Probe, Event::Probed(exists)) => {
                if !exists {
                    self.stage = Stage::Write;
                } else if self.policy == OverwritePolicy::Prompt {
                    self.stage = Stage::Confirm;
                } else {
                    let kind = self.selected[self.pos];
                    self.summary.skipped.push(kind);
                    proof { lemma_finish_kind_wf(s, self@, Outcome::Skipped); }
                    self.advance(Outcome::Skipped);
                }
            },
            (Stage::Confirm, Event::Confirmed(yes)) => {
                if yes {
                    self.stage = Stage::Write;
                } else {
                    let kind = self.selected[self.pos];
                    self.summary.skipped.push(kind);
                    proof { lemma_finish_kind_wf(s, self@, Outcome::Skipped); }
                    self.advance(Outcome::Skipped);
                }
            },
            (Stage::Write, Event::Written) => {
                let kind = self.selected[self.pos];
                self.summary.created.push(kind);
                proof { lemma_finish_kind_wf(s, self@, Outcome::Created); }
                self.advance(Outcome::Created);
            },
            (Stage::Write, Event::WriteFailed(m)) => {
                let kind = self.selected[self.pos];
                self.summary.errors.push((Target::File(kind), m));
                proof { lemma_finish_kind_wf(s, self@, Outcome::Failed); }
                self.advance(Outcome::Failed);
            },
            _ => {},
        }
    }

    /// Ends the run and hands out its summary.
    pub fn into_summary(self) -> (r: GenerationSummary)
        ensures
            r.created@ == self@.created,
            r.skipped@ == self@.skipped,
            r.errors@ == self@.errors,
    {
        self.summary
    }
}

proof fn lemma_kinds_with_len(kinds: Seq<TemplateKind>, outs: Seq<Outcome>)
    ensures
        kinds_with(kinds, outs, Outcome::Created).len() + kinds_with(kinds, outs, Outcome::Skipped).len()
            + kinds_with(kinds, outs, Outcome::Failed).len() == outs.len(),
    decreases outs.len(),
{
    if outs.len() > 0 {
        lemma_kinds_with_len(kinds, outs.take(outs.len() - 1));
    }
}

/// Once a run is over, every selected kind stands in exactly one of the
/// created, skipped and failed lists, unless the configuration directory
/// could not be created, in which case that is the only error and no kind
/// was processed.
pub proof fn lemma_every_kind_accounted(s: GenerationState)
    requires
        s.wf(),
        s.stage == Stage::Done,
    ensures
        dir_failed(s) ==> s.created.len() == 0 && s.skipped.len() == 0 && s.errors.len() == 1,
        !dir_failed(s) ==> s.created.len() + s.skipped.len() + s.errors.len() == s.selected.len(),
{
    if dir_failed(s) {
        assert(s.outcomes =~= Seq::<Outcome>::empty());
    }
    lemma_kinds_with_len(s.selected, s.outcomes);
}

/// Every event keeps a run well formed.
pub proof fn lemma_next_wf(s: GenerationState, e: Event)
    requires
        s.wf(),
    ensures
        s.next(e).wf(),
{
    match (s.stage, e) {
        (Stage::Probe, Event::Probed(exists)) => {
            if exists && s.policy != OverwritePolicy::Prompt {
                lemma_finish_kind_wf(s, GenerationState { skipped: s.skipped.push(s.current()), ..s }, Outcome::Skipped);
            }
        },
        (Stage::Confirm, Event::Confirmed(yes)) => {
            if !yes {
                lemma_finish_kind_wf(s, GenerationState { skipped: s.skipped.push(s.current()), ..s }, Outcome::Skipped);
            }
        },
        (Stage::Write, Event::Written) => {
            lemma_finish_kind_wf(s, GenerationState { created: s.created.push(s.current()), ..s }, Outcome::Created);
        },
        (Stage::Write, Event::WriteFailed(m)) => {
            lemma_finish_kind_wf(
                s,
                GenerationState { errors: s.errors.push((Target::File(s.current()), m)), ..s },
                Outcome::Failed,
            );
        },
        _ => {},
    }
}

} // verus!
