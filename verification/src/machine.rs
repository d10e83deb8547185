//! The run over a list of targets as a state machine, in mathematical terms.
//!
//! The machine never touches a file and never renders. It asks for one thing
//! at a time ([`ActionView`]) and is told how that went ([`EventView`]): load
//! the data, then for each target in list order read its template, render
//! it, write the target. The first failure ends the run; what was written
//! before stays written.

use vstd::prelude::*;
use crate::data::is_json;
use crate::paths::template_of;

verus! {

/// Why a template could not be rendered.
#[derive(Clone, Copy, Debug, PartialEq, Eq)]
pub enum RenderError {
    /// The template text is malformed.
    SyntaxError,
    /// The renderer failed on a well-formed template.
    InternalFailure,
}

/// Why a run ended early.
pub enum ErrorView {
    DataLoad,
    TemplateMissing(Seq<char>),
    RenderFailed(Seq<char>, RenderError),
    WriteFailed(Seq<char>, Seq<char>),
}

/// What the machine asks its driver to do next.
pub enum ActionView {
    ReadData(Seq<char>),
    ReadTemplate(Seq<char>),
    Render(Seq<char>),
    Write { path: Seq<char>, text: Seq<char> },
    Finish(Result<(), ErrorView>),
}

/// What the driver reports back.
pub enum EventView {
    DataRead(Option<Seq<char>>),
    TemplateRead(Option<Seq<char>>),
    Rendered(Result<Seq<char>, RenderError>),
    Written(Result<(), Seq<char>>),
}

/// Where a run stands.
pub enum StageView {
    LoadingData,
    ReadingTemplate,
    Rendering(Seq<char>),
    Writing(Seq<char>),
    Finished(Result<(), ErrorView>),
}

/// The state of a run: the targets, the data path, the text of the data once
/// it is loaded, the position of the target at hand, and the stage.
pub struct PipelineView {
    pub targets: Seq<Seq<char>>,
    pub data_path: Seq<char>,
    pub data: Option<Seq<char>>,
    pub cursor: nat,
    pub stage: StageView,
}

impl PipelineView {
    /// A run that has asked for nothing yet.
    pub open spec fn start(targets: Seq<Seq<char>>, data_path: Seq<char>) -> PipelineView {
        PipelineView { targets, data_path, data: None, cursor: 0, stage: StageView::LoadingData }
    }

    /// States that a run can be in.
    pub open spec fn wf(self) -> bool {
        &&& self.cursor <= self.targets.len()
        &&& self.data matches Some(text) ==> is_json(text)
        &&& match self.stage {
            StageView::LoadingData | StageView::Finished(_) => true,
            _ => self.cursor < self.targets.len() && self.data is Some,
        }
    }

    /// The target at hand.
    pub open spec fn target(self) -> Seq<char> {
        self.targets[self.cursor as int]
    }

    /// The run ended with `outcome`.
    pub open spec fn finish(self, outcome: Result<(), ErrorView>) -> PipelineView {
        PipelineView { stage: StageView::Finished(outcome), ..self }
    }

    /// The run turns to the target at `cursor`, or ends well after the last.
    pub open spec fn turn_to(self, cursor: nat) -> PipelineView {
        if cursor < self.targets.len() {
            PipelineView { cursor, stage: StageView::ReadingTemplate, ..self }
        } else {
            PipelineView { cursor, ..self }.finish(Ok(()))
        }
    }

    /// What the run waits for.
    pub open spec fn pending(self) -> ActionView {
        match self.stage {
            StageView::LoadingData => ActionView::ReadData(self.data_path),
            StageView::ReadingTemplate => ActionView::ReadTemplate(template_of(self.target())),
            StageView::Rendering(template) => ActionView::Render(template),
            StageView::Writing(text) => ActionView::Write { path: self.target(), text },
            StageView::Finished(outcome) => ActionView::Finish(outcome),
        }
    }

    /// The state after `event`. An event that does not answer the pending
    /// action changes nothing.
    pub open spec fn step(self, event: EventView) -> PipelineView {
        match (self.stage, event) {
            (StageView::LoadingData, EventView::DataRead(Some(text))) => {
                if is_json(text) {
                    PipelineView { data: Some(text), ..self }.turn_to(0)
                } else {
                    self.finish(Err(ErrorView::DataLoad))
                }
            },
            (StageView::LoadingData, EventView::DataRead(None)) => self.finish(
                Err(ErrorView::DataLoad),
            ),
            (StageView::ReadingTemplate, EventView::TemplateRead(Some(template))) => {
                PipelineView { stage: StageView::Rendering(template), ..self }
            },
            (StageView::ReadingTemplate, EventView::TemplateRead(None)) => self.finish(
                Err(ErrorView::TemplateMissing(self.target())),
            ),
            (StageView::Rendering(_), EventView::Rendered(Ok(text))) => {
                PipelineView { stage: StageView::Writing(text), ..self }
            },
            (StageView::Rendering(_), EventView::Rendered(Err(cause))) => self.finish(
                Err(ErrorView::RenderFailed(self.target(), cause)),
            ),
            (StageView::Writing(_), EventView::Written(Ok(()))) => self.turn_to(self.cursor + 1),
            (StageView::Writing(_), EventView::Written(Err(cause))) => self.finish(
                Err(ErrorView::WriteFailed(self.target(), cause)),
            ),
            _ => self,
        }
    }
}

/// Every step leads from a state that a run can be in to such a state.
pub proof fn law_step_keeps_well_formed(state: PipelineView, event: EventView)
    requires
        state.wf(),
    ensures
        state.step(event).wf(),
{
}

} // verus!
