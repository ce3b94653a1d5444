use vstd::prelude::*;

use crate::generator::Action;
use crate::generator::Event;
use crate::generator::GenerationState;
use crate::generator::OverwritePolicy;
use crate::generator::Stage;
use crate::generator::initial_state;
use crate::generator::lemma_next_wf;
use crate::templates::Preset;
use crate::templates::TemplateKind;
use crate::templates::embedded_spec;
use crate::templates::resolved_spec;

verus! {

/// A project as a run sees it, where every directory creation and every
/// write succeeds.
pub struct World {
    /// Content of each target file present in the configuration directory.
    pub files: Map<TemplateKind, Seq<char>>,
    /// Content of each file present in the override directory for the run's preset.
    pub overrides: Map<TemplateKind, Seq<char>>,
    /// The answer given to every overwrite question.
    pub answer: bool,
}

/// What reading the override for `kind` yields.
pub open spec fn override_of(w: World, kind: TemplateKind) -> Option<Seq<char>> {
    if w.overrides.contains_key(kind) {
        Some(w.overrides[kind])
    } else {
        None
    }
}

/// The event `w` answers the action of `s` with.
pub open spec fn respond(s: GenerationState, w: World) -> Event {
    match s.action() {
        Action::Probe(k) => Event::Probed(w.files.contains_key(k)),
        Action::Confirm(_) => Event::Confirmed(w.answer),
        Action::Write(_) => Event::Written,
        _ => Event::ConfigDirCreated,
    }
}

/// `w` after it carried out the action of `s`.
pub open spec fn perform(s: GenerationState, w: World) -> World {
    match s.action() {
        Action::Write(k) => World {
            files: w.files.insert(k, resolved_spec(s.preset, k, override_of(w, k))),
            ..w
        },
        _ => w,
    }
}

/// Drives `s` against `w` for at most `fuel` actions, or until it is done.
pub open spec fn run(s: GenerationState, w: World, fuel: nat) -> (GenerationState, World)
    decreases fuel,
{
    if fuel == 0 || s.stage == Stage::Done {
        (s, w)
    } else {
        run(s.next(respond(s, w)), perform(s, w), (fuel - 1) as nat)
    }
}

/// A whole run over `selected` against `w`: enough actions for every kind.
pub open spec fn full_run(
    selected: Seq<TemplateKind>,
    preset: Preset,
    policy: OverwritePolicy,
    w: World,
) -> (GenerationState, World) {
    run(initial_state(selected, preset, policy), w, 3 * selected.len() + 1)
}

/// The files a run writes for `kinds`, each with its resolved content.
pub open spec fn written(kinds: Seq<TemplateKind>, preset: Preset, w: World) -> Map<TemplateKind, Seq<char>> {
    Map::new(|k: TemplateKind| kinds.contains(k), |k: TemplateKind| resolved_spec(preset, k, override_of(w, k)))
}

/// No kind occurs twice.
pub open spec fn distinct(kinds: Seq<TemplateKind>) -> bool {
    forall|i: int, j: int| 0 <= i < j < kinds.len() ==> kinds[i] != kinds[j]
}

proof fn lemma_run_fresh(s: GenerationState, w: World, fuel: nat)
    requires
        s.wf(),
        s.stage == Stage::Probe,
        fuel >= 2 * (s.selected.len() - s.pos),
        forall|i: int, j: int| s.pos <= i < j < s.selected.len() ==> s.selected[i] != s.selected[j],
        forall|i: int| s.pos <= i < s.selected.len() ==> !w.files.contains_key(#[trigger] s.selected[i]),
    ensures
        run(s, w, fuel).0.stage == Stage::Done,
        run(s, w, fuel).0.created == s.created + s.selected.subrange(s.pos as int, s.selected.len() as int),
        run(s, w, fuel).0.skipped == s.skipped,
        run(s, w, fuel).0.errors == s.errors,
        run(s, w, fuel).1 == (World {
            files: w.files.union_prefer_right(
                written(s.selected.subrange(s.pos as int, s.selected.len() as int), s.preset, w),
            ),
            ..w
        }),
    decreases s.selected.len() - s.pos,
{
    let k = s.current();
    let s1 = s.next(respond(s, w));
    let w1 = perform(s, w);
    assert(s1.stage == Stage::Write);
    lemma_next_wf(s, respond(s, w));
    lemma_next_wf(s1, respond(s1, w1));
    let s2 = s1.next(respond(s1, w1));
    let w2 = perform(s1, w1);
    assert(w1 == w);
    assert(run(s, w, fuel) == run(s1, w1, (fuel - 1) as nat));
    assert(run(s1, w1, (fuel - 1) as nat) == run(s2, w2, (fuel - 2) as nat));
    let rest = s.selected.subrange((s.pos + 1) as int, s.selected.len() as int);
    let all = s.selected.subrange(s.pos as int, s.selected.len() as int);
    assert(all =~= seq![k] + rest);
    assert(s2.created =~= s.created.push(k));
    assert forall|x: TemplateKind| all.contains(x) <==> (x == k || rest.contains(x)) by {
        if x == k {
            assert(all[0] == x);
        }
        if all.contains(x) {
            let i = choose|i: int| 0 <= i < all.len() && all[i] == x;
            if i > 0 {
                assert(rest[i - 1] == x);
            }
        }
        if rest.contains(x) {
            let i = choose|i: int| 0 <= i < rest.len() && rest[i] == x;
            assert(all[i + 1] == x);
        }
    }
    if s2.stage == Stage::Done {
        assert(rest =~= Seq::<TemplateKind>::empty());
        assert(s2.created =~= s.created + all);
        assert(w2.files =~= w.files.union_prefer_right(written(all, s.preset, w)));
    } else {
        assert forall|i: int| s2.pos <= i < s2.selected.len() implies !w2.files.contains_key(
            #[trigger] s2.selected[i],
        ) by {
            assert(s.selected[s.pos as int] != s.selected[i]);
        }
        lemma_run_fresh(s2, w2, (fuel - 2) as nat);
        assert(s2.created + rest =~= s.created + all);
        let f = w2.files.union_prefer_right(written(rest, s.preset, w2));
        assert(f =~= w.files.union_prefer_right(written(all, s.preset, w)));
    }
}

proof fn lemma_run_skip(s: GenerationState, w: World, fuel: nat)
    requires
        s.wf(),
        s.stage == Stage::Probe,
        s.policy == OverwritePolicy::Skip,
        fuel >= s.selected.len() - s.pos,
        forall|i: int| s.pos <= i < s.selected.len() ==> w.files.contains_key(#[trigger] s.selected[i]),
    ensures
        run(s, w, fuel).0.stage == Stage::Done,
        run(s, w, fuel).0.created == s.created,
        run(s, w, fuel).0.skipped == s.skipped + s.selected.subrange(s.pos as int, s.selected.len() as int),
        run(s, w, fuel).0.errors == s.errors,
        run(s, w, fuel).1 == w,
    decreases s.selected.len() - s.pos,
{
    let s1 = s.next(respond(s, w));
    lemma_next_wf(s, respond(s, w));
    assert(run(s, w, fuel) == run(s1, w, (fuel - 1) as nat));
    let rest = s.selected.subrange((s.pos + 1) as int, s.selected.len() as int);
    let all = s.selected.subrange(s.pos as int, s.selected.len() as int);
    assert(all =~= seq![s.current()] + rest);
    if s1.stage == Stage::Done {
        assert(s1.skipped =~= s.skipped + all);
    } else {
        lemma_run_skip(s1, w, (fuel - 1) as nat);
        assert(s1.skipped + rest =~= s.skipped + all);
    }
}

/// The first action of a run creates the configuration directory; after it
/// the run stands at its first kind, or is over when nothing was selected.
proof fn lemma_run_setup(selected: Seq<TemplateKind>, preset: Preset, policy: OverwritePolicy, w: World)
    ensures
        ({
            let s0 = initial_state(selected, preset, policy);
            let s1 = s0.next(respond(s0, w));
            &&& s1.wf()
            &&& s1.stage == (if selected.len() == 0 { Stage::Done } else { Stage::Probe })
            &&& s1.pos == 0
            &&& s1.created.len() == 0
            &&& s1.skipped.len() == 0
            &&& s1.errors.len() == 0
            &&& full_run(selected, preset, policy, w) == run(s1, w, 3 * selected.len())
        }),
{
    let s0 = initial_state(selected, preset, policy);
    assert(s0.wf());
    lemma_next_wf(s0, respond(s0, w));
}

proof fn lemma_full_run_fresh(selected: Seq<TemplateKind>, preset: Preset, policy: OverwritePolicy, w: World)
    requires
        distinct(selected),
        w.files == Map::<TemplateKind, Seq<char>>::empty(),
    ensures
        full_run(selected, preset, policy, w).0.stage == Stage::Done,
        full_run(selected, preset, policy, w).0.created == selected,
        full_run(selected, preset, policy, w).0.skipped.len() == 0,
        full_run(selected, preset, policy, w).0.errors.len() == 0,
        full_run(selected, preset, policy, w).1 == (World { files: written(selected, preset, w), ..w }),
{
    lemma_run_setup(selected, preset, policy, w);
    let s0 = initial_state(selected, preset, policy);
    let s1 = s0.next(respond(s0, w));
    assert(selected.subrange(0, selected.len() as int) =~= selected);
    if selected.len() == 0 {
        assert(s1.created =~= selected);
        assert(written(selected, preset, w) =~= Map::<TemplateKind, Seq<char>>::empty());
    } else {
        lemma_run_fresh(s1, w, 3 * selected.len());
        assert(s1.created + selected =~= selected);
        assert(w.files.union_prefer_right(written(selected, preset, w)) =~= written(selected, preset, w));
    }
}

/// In an empty project every selected kind is created, none is skipped or
/// fails, and exactly the selected kinds get a file, each holding its
/// resolved content: with no override, the preset's built-in default.
pub proof fn lemma_empty_target_creates_selection(
    selected: Seq<TemplateKind>,
    preset: Preset,
    policy: OverwritePolicy,
    w: World,
)
    requires
        distinct(selected),
        w.files == Map::<TemplateKind, Seq<char>>::empty(),
    ensures
        ({
            let (s, w2) = full_run(selected, preset, policy, w);
            &&& s.stage == Stage::Done
            &&& s.created == selected
            &&& s.skipped.len() == 0
            &&& s.errors.len() == 0
            &&& forall|k: TemplateKind| #[trigger] w2.files.contains_key(k) <==> selected.contains(k)
            &&& w.overrides == Map::<TemplateKind, Seq<char>>::empty() ==> forall|k: TemplateKind|
                selected.contains(k) ==> #[trigger] w2.files[k] == embedded_spec(preset, k)
        }),
{
    lemma_full_run_fresh(selected, preset, policy, w);
}

/// An override file for a selected kind is written verbatim, whatever the
/// built-in default says.
pub proof fn lemma_override_precedence(
    selected: Seq<TemplateKind>,
    preset: Preset,
    policy: OverwritePolicy,
    w: World,
    kind: TemplateKind,
)
    requires
        distinct(selected),
        w.files == Map::<TemplateKind, Seq<char>>::empty(),
        selected.contains(kind),
        w.overrides.contains_key(kind),
    ensures
        full_run(selected, preset, policy, w).1.files[kind] == w.overrides[kind],
{
    lemma_full_run_fresh(selected, preset, policy, w);
}

/// A selected kind with no override file gets the built-in default.
pub proof fn lemma_override_fallback(
    selected: Seq<TemplateKind>,
    preset: Preset,
    policy: OverwritePolicy,
    w: World,
    kind: TemplateKind,
)
    requires
        distinct(selected),
        w.files == Map::<TemplateKind, Seq<char>>::empty(),
        selected.contains(kind),
        !w.overrides.contains_key(kind),
    ensures
        full_run(selected, preset, policy, w).1.files[kind] == embedded_spec(preset, kind),
{
    lemma_full_run_fresh(selected, preset, policy, w);
}

/// Without prompting, a second run with the same arguments skips every kind
/// the first one created and leaves every file as the first run wrote it.
pub proof fn lemma_second_run_skips_all(selected: Seq<TemplateKind>, preset: Preset, w: World)
    requires
        distinct(selected),
        w.files == Map::<TemplateKind, Seq<char>>::empty(),
    ensures
        ({
            let (s1, w1) = full_run(selected, preset, OverwritePolicy::Skip, w);
            let (s2, w2) = full_run(selected, preset, OverwritePolicy::Skip, w1);
            &&& s1.created == selected
            &&& s1.skipped.len() == 0
            &&& s2.stage == Stage::Done
            &&& s2.skipped == selected
            &&& s2.created.len() == 0
            &&& s2.errors.len() == 0
            &&& w2 == w1
        }),
{
    lemma_full_run_fresh(selected, preset, OverwritePolicy::Skip, w);
    let w1 = full_run(selected, preset, OverwritePolicy::Skip, w).1;
    lemma_run_setup(selected, preset, OverwritePolicy::Skip, w1);
    let s0 = initial_state(selected, preset, OverwritePolicy::Skip);
    let s1 = s0.next(respond(s0, w1));
    assert(selected.subrange(0, selected.len() as int) =~= selected);
    if selected.len() == 0 {
        assert(s1.skipped =~= selected);
    } else {
        assert forall|i: int| s1.pos <= i < s1.selected.len() implies w1.files.contains_key(
            #[trigger] s1.selected[i],
        ) by {
            assert(selected.contains(selected[i]));
        }
        lemma_run_skip(s1, w1, 3 * selected.len());
        assert(s1.skipped + selected =~= selected);
    }
}

} // verus!
