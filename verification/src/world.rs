//! What a run does to the files, stated over a model of its surroundings.
//!
//! A [`World`] holds the content of every file, the paths that refuse to be
//! written, and a renderer, which is any function from template text and
//! data text to a result. [`run`] drives the state machine against a world:
//! it answers each pending action as the world would and feeds the answer
//! back, until the run is over. The laws below are statements about `run`.

use vstd::prelude::*;
use crate::data::is_json;
use crate::machine::{ActionView, ErrorView, EventView, PipelineView, RenderError, StageView};
use crate::paths::template_of;

verus! {

/// The surroundings of a run.
pub struct World {
    /// The text of each file that exists, by path.
    pub files: Map<Seq<char>, Seq<char>>,
    /// The paths that cannot be written, each with the cause it reports.
    pub refusals: Map<Seq<char>, Seq<char>>,
    /// What rendering a template text against a data text gives.
    pub render: spec_fn(Seq<char>, Seq<char>) -> Result<Seq<char>, RenderError>,
}

impl World {
    /// The text of the file at `path`, if there is one.
    pub open spec fn read(self, path: Seq<char>) -> Option<Seq<char>> {
        if self.files.contains_key(path) {
            Some(self.files[path])
        } else {
            None
        }
    }

    /// The world in which the file at `path` holds `text` and nothing else.
    pub open spec fn with_file(self, path: Seq<char>, text: Seq<char>) -> World {
        World { files: self.files.insert(path, text), ..self }
    }

    /// Whether `other` differs from this world in the files at most.
    pub open spec fn same_rules(self, other: World) -> bool {
        self.refusals == other.refusals && self.render == other.render
    }

    /// What the world reports on the pending action of `state`, and the
    /// world after it.
    pub open spec fn answer(self, state: PipelineView) -> (World, EventView) {
        match state.pending() {
            ActionView::ReadData(path) => (self, EventView::DataRead(self.read(path))),
            ActionView::ReadTemplate(path) => (self, EventView::TemplateRead(self.read(path))),
            ActionView::Render(template) => (
                self,
                EventView::Rendered((self.render)(template, state.data.unwrap())),
            ),
            ActionView::Write { path, text } => {
                if self.refusals.contains_key(path) {
                    (self, EventView::Written(Err(self.refusals[path])))
                } else {
                    (self.with_file(path, text), EventView::Written(Ok(())))
                }
            },
            ActionView::Finish(_) => (self, EventView::Written(Ok(()))),
        }
    }
}

/// A bound on the actions that a run in `state` still asks for.
pub open spec fn steps_left(state: PipelineView) -> int {
    let rest = state.targets.len() - state.cursor;
    match state.stage {
        StageView::LoadingData => 3 * (state.targets.len() as int) + 1,
        StageView::ReadingTemplate => 3 * rest,
        StageView::Rendering(_) => 3 * rest - 1,
        StageView::Writing(_) => 3 * rest - 2,
        StageView::Finished(_) => 0,
    }
}

/// The world after the run in `state` has gone to its end in `world`, and
/// how the run ended.
pub open spec fn run(world: World, state: PipelineView) -> (World, Result<(), ErrorView>)
    decreases steps_left(state),
    when state.wf()
{
    match state.stage {
        StageView::Finished(outcome) => (world, outcome),
        _ => {
            let answer = world.answer(state);
            run(answer.0, state.step(answer.1))
        },
    }
}

/// The state of a run that has loaded `data` and turns to the target at
/// `cursor`; past the last target the run has ended well.
pub open spec fn before_target(
    targets: Seq<Seq<char>>,
    data_path: Seq<char>,
    data: Seq<char>,
    cursor: nat,
) -> PipelineView {
    PipelineView {
        targets,
        data_path,
        data: Some(data),
        cursor,
        stage: if cursor < targets.len() {
            StageView::ReadingTemplate
        } else {
            StageView::Finished(Ok(()))
        },
    }
}

/// The text that `target` is to be overwritten with: its template as it
/// stands in `world`, rendered against `data`.
pub open spec fn rendering(world: World, target: Seq<char>, data: Seq<char>) -> Result<
    Seq<char>,
    ErrorView,
> {
    match world.read(template_of(target)) {
        None => Err(ErrorView::TemplateMissing(target)),
        Some(template) => match (world.render)(template, data) {
            Ok(text) => Ok(text),
            Err(cause) => Err(ErrorView::RenderFailed(target, cause)),
        },
    }
}

/// What dealing with one target comes to: the target holds its rendering
/// and nothing else has changed, or nothing at all has changed and there is
/// an error.
pub open spec fn handle(world: World, target: Seq<char>, data: Seq<char>) -> (
    World,
    Result<(), ErrorView>,
) {
    match rendering(world, target, data) {
        Err(error) => (world, Err(error)),
        Ok(text) => if world.refusals.contains_key(target) {
            (world, Err(ErrorView::WriteFailed(target, world.refusals[target])))
        } else {
            (world.with_file(target, text), Ok(()))
        },
    }
}

/// A run that turns to a target deals with it as [`handle`] says, and goes
/// on to the next target if that went well.
pub proof fn law_run_handles_targets_in_turn(
    world: World,
    targets: Seq<Seq<char>>,
    data_path: Seq<char>,
    data: Seq<char>,
    cursor: nat,
)
    requires
        cursor < targets.len(),
        is_json(data),
    ensures
        run(world, before_target(targets, data_path, data, cursor)) == (match handle(
            world,
            targets[cursor as int],
            data,
        ) {
            (after, Ok(())) => run(after, before_target(targets, data_path, data, cursor + 1)),
            (after, Err(error)) => (after, Err(error)),
        }),
{
    let reading = before_target(targets, data_path, data, cursor);
    let target = targets[cursor as int];
    assert(reading.wf());
    let read = world.answer(reading);
    assert(run(world, reading) == run(read.0, reading.step(read.1)));
    match world.read(template_of(target)) {
        None => {
            assert(reading.step(read.1).wf());
        },
        Some(template) => {
            let rendering = reading.step(read.1);
            assert(rendering.wf());
            let rendered = world.answer(rendering);
            assert(run(world, rendering) == run(rendered.0, rendering.step(rendered.1)));
            match (world.render)(template, data) {
                Err(cause) => {
                    assert(rendering.step(rendered.1).wf());
                },
                Ok(text) => {
                    let writing = rendering.step(rendered.1);
                    assert(writing.wf());
                    let written = world.answer(writing);
                    assert(run(world, writing) == run(written.0, writing.step(written.1)));
                    assert(writing.step(written.1).wf());
                    if !world.refusals.contains_key(target) {
                        assert(writing.step(written.1) == before_target(
                            targets,
                            data_path,
                            data,
                            cursor + 1,
                        ));
                    }
                },
            }
        },
    }
}

/// A run starts by loading its data: if the data file is there and holds
/// JSON, the run turns to its first target, else it ends at once.
pub proof fn law_run_starts_with_the_data(
    world: World,
    targets: Seq<Seq<char>>,
    data_path: Seq<char>,
)
    ensures
        run(world, PipelineView::start(targets, data_path)) == (match world.read(data_path) {
            Some(data) if is_json(data) => run(world, before_target(targets, data_path, data, 0)),
            _ => (world, Err(ErrorView::DataLoad)),
        }),
{
    let start = PipelineView::start(targets, data_path);
    assert(start.wf());
    let read = world.answer(start);
    assert(run(world, start) == run(read.0, start.step(read.1)));
    assert(start.step(read.1).wf());
}

/// If the data file is missing or does not hold JSON, the run ends with
/// [`ErrorView::DataLoad`], and every file is as it was.
pub proof fn law_bad_data_changes_no_file(
    world: World,
    targets: Seq<Seq<char>>,
    data_path: Seq<char>,
)
    requires
        world.read(data_path) matches Some(data) ==> !is_json(data),
    ensures
        run(world, PipelineView::start(targets, data_path)) == (
            world,
            Err::<(), ErrorView>(ErrorView::DataLoad),
        ),
{
    law_run_starts_with_the_data(world, targets, data_path);
}

/// Up to target `k`, a run over all targets does what the run over the
/// first `k` targets alone does.
proof fn lemma_run_prefix(
    world: World,
    targets: Seq<Seq<char>>,
    data_path: Seq<char>,
    data: Seq<char>,
    k: nat,
    i: nat,
    world_k: World,
)
    requires
        i <= k <= targets.len(),
        is_json(data),
        run(world, before_target(targets.take(k as int), data_path, data, i)) == (
            world_k,
            Ok::<(), ErrorView>(()),
        ),
    ensures
        run(world, before_target(targets, data_path, data, i)) == run(
            world_k,
            before_target(targets, data_path, data, k),
        ),
    decreases k - i,
{
    let first = targets.take(k as int);
    if i < k {
        law_run_handles_targets_in_turn(world, first, data_path, data, i);
        law_run_handles_targets_in_turn(world, targets, data_path, data, i);
        assert(first[i as int] == targets[i as int]);
        let handled = handle(world, targets[i as int], data);
        if handled.1 is Ok {
            lemma_run_prefix(handled.0, targets, data_path, data, k, i + 1, world_k);
        }
    } else {
        assert(before_target(first, data_path, data, i).wf());
    }
}

/// The first target that fails ends the run: if the first `k` targets,
/// taken alone, run well and leave `world_k`, and dealing with target `k`
/// in `world_k` fails, then the run over all targets ends with that error
/// and leaves `world_k`. The targets before `k` hold their renderings, and
/// no target from `k` on has been written.
pub proof fn law_first_failure_ends_the_run(
    world: World,
    targets: Seq<Seq<char>>,
    data_path: Seq<char>,
    data: Seq<char>,
    k: nat,
    world_k: World,
)
    requires
        k < targets.len(),
        world.read(data_path) == Some(data),
        run(world, PipelineView::start(targets.take(k as int), data_path)) == (
            world_k,
            Ok::<(), ErrorView>(()),
        ),
        handle(world_k, targets[k as int], data).1 is Err,
    ensures
        run(world, PipelineView::start(targets, data_path)) == (
            world_k,
            handle(world_k, targets[k as int], data).1,
        ),
{
    law_run_starts_with_the_data(world, targets.take(k as int), data_path);
    law_run_starts_with_the_data(world, targets, data_path);
    lemma_run_prefix(world, targets, data_path, data, k, 0, world_k);
    law_run_handles_targets_in_turn(world_k, targets, data_path, data, k);
}

/// A missing template ends the run where it is met: if the first `k`
/// targets, taken alone, run well and leave `world_k`, and the template of
/// target `k` is not there, the run over all targets ends with
/// [`ErrorView::TemplateMissing`] for target `k` and leaves `world_k`.
pub proof fn law_missing_template_keeps_earlier_writes(
    world: World,
    targets: Seq<Seq<char>>,
    data_path: Seq<char>,
    k: nat,
    world_k: World,
)
    requires
        k < targets.len(),
        run(world, PipelineView::start(targets.take(k as int), data_path)) == (
            world_k,
            Ok::<(), ErrorView>(()),
        ),
        world_k.read(template_of(targets[k as int])) is None,
    ensures
        run(world, PipelineView::start(targets, data_path)) == (
            world_k,
            Err::<(), ErrorView>(ErrorView::TemplateMissing(targets[k as int])),
        ),
{
    law_run_starts_with_the_data(world, targets.take(k as int), data_path);
    law_first_failure_ends_the_run(world, targets, data_path, world.files[data_path], k, world_k);
}

/// Whether the run keeps its hands off what it reads: no target is the
/// data file or the template of a target.
pub open spec fn inputs_apart(targets: Seq<Seq<char>>, data_path: Seq<char>) -> bool {
    &&& forall|i: int| 0 <= i < targets.len() ==> targets[i] != data_path
    &&& forall|i: int, j: int|
        0 <= i < targets.len() && 0 <= j < targets.len() ==> #[trigger] targets[i]
            != template_of(#[trigger] targets[j])
}

/// With the inputs apart, a run changes files only: and each file is as it
/// was, or is a target and holds the rendering it had coming at the start.
proof fn lemma_run_writes_renderings(
    world: World,
    targets: Seq<Seq<char>>,
    data_path: Seq<char>,
    data: Seq<char>,
    from: nat,
)
    requires
        inputs_apart(targets, data_path),
        from <= targets.len(),
        is_json(data),
    ensures
        ({
            let end = run(world, before_target(targets, data_path, data, from)).0;
            &&& end.same_rules(world)
            &&& forall|path: Seq<char>|
                #[trigger] end.read(path) == world.read(path) || (targets.contains(path)
                    && rendering(world, path, data) is Ok && end.read(path) == Some(
                    rendering(world, path, data)->Ok_0,
                ))
        }),
    decreases targets.len() - from,
{
    let state = before_target(targets, data_path, data, from);
    if from < targets.len() {
        let target = targets[from as int];
        law_run_handles_targets_in_turn(world, targets, data_path, data, from);
        let handled = handle(world, target, data);
        if handled.1 is Ok {
            let after = handled.0;
            let end = run(after, before_target(targets, data_path, data, from + 1)).0;
            lemma_run_writes_renderings(after, targets, data_path, data, from + 1);
            assert forall|path: Seq<char>|
                #[trigger] end.read(path) == world.read(path) || (targets.contains(path)
                    && rendering(world, path, data) is Ok && end.read(path) == Some(
                    rendering(world, path, data)->Ok_0,
                )) by {
                if targets.contains(path) {
                    let m = choose|m: int| 0 <= m < targets.len() && targets[m] == path;
                    assert(target != template_of(targets[m]));
                    assert(rendering(after, path, data) == rendering(world, path, data));
                }
                if path == target {
                    assert(targets.contains(path));
                }
            }
        }
    } else {
        assert(state.wf());
    }
}

/// With the inputs apart, going through the targets once more from where a
/// run has left the world changes nothing and ends the same way.
proof fn lemma_rerun(
    world: World,
    targets: Seq<Seq<char>>,
    data_path: Seq<char>,
    data: Seq<char>,
    from: nat,
)
    requires
        inputs_apart(targets, data_path),
        from <= targets.len(),
        is_json(data),
    ensures
        ({
            let first = run(world, before_target(targets, data_path, data, from));
            run(first.0, before_target(targets, data_path, data, from)) == first
        }),
    decreases targets.len() - from,
{
    let state = before_target(targets, data_path, data, from);
    if from < targets.len() {
        let target = targets[from as int];
        let first = run(world, state);
        let end = first.0;
        law_run_handles_targets_in_turn(world, targets, data_path, data, from);
        law_run_handles_targets_in_turn(end, targets, data_path, data, from);
        lemma_run_writes_renderings(world, targets, data_path, data, from);
        assert(end.read(template_of(target)) == world.read(template_of(target))) by {
            if targets.contains(template_of(target)) {
                let m = choose|m: int| 0 <= m < targets.len() && targets[m] == template_of(target);
                assert(targets[m] != template_of(targets[from as int]));
            }
        }
        assert(rendering(end, target, data) == rendering(world, target, data));
        let handled = handle(world, target, data);
        if handled.1 is Ok {
            let after = handled.0;
            let text = rendering(world, target, data)->Ok_0;
            lemma_run_writes_renderings(after, targets, data_path, data, from + 1);
            assert(target != template_of(targets[from as int]));
            assert(rendering(after, target, data) == rendering(world, target, data));
            assert(end.read(target) == Some(text));
            assert(end.files.insert(target, text) =~= end.files);
            assert(end.with_file(target, text) == end);
            lemma_rerun(after, targets, data_path, data, from + 1);
        }
    } else {
        assert(state.wf());
    }
}

/// Running twice gives what running once gives: where no target is the
/// data file or the template of a target, a second run from where the
/// first has left the world leaves every file as it found it and ends as
/// the first did.
pub proof fn law_second_run_changes_nothing(
    world: World,
    targets: Seq<Seq<char>>,
    data_path: Seq<char>,
)
    requires
        inputs_apart(targets, data_path),
    ensures
        ({
            let first = run(world, PipelineView::start(targets, data_path));
            run(first.0, PipelineView::start(targets, data_path)) == first
        }),
{
    let first = run(world, PipelineView::start(targets, data_path));
    law_run_starts_with_the_data(world, targets, data_path);
    law_run_starts_with_the_data(first.0, targets, data_path);
    if world.read(data_path) is Some && is_json(world.files[data_path]) {
        let data = world.files[data_path];
        lemma_run_writes_renderings(world, targets, data_path, data, 0);
        assert(first.0.read(data_path) == world.read(data_path)) by {
            if targets.contains(data_path) {
                let m = choose|m: int| 0 <= m < targets.len() && targets[m] == data_path;
            }
        }
        lemma_rerun(world, targets, data_path, data, 0);
    }
}

} // verus!
