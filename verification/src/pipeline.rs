//! The run over a list of targets, as executable code.
//!
//! [`execute`] sets a run up. Its driver then repeats: look at what is
//! [`Pipeline::pending`], do it, and report through [`Pipeline::step`], until
//! the pending action is [`Action::Finish`]. Reading and writing files and
//! rendering are the driver's part; which of these comes next, on which path,
//! and when the run is over, is decided here.

use vstd::prelude::*;
use crate::data::{is_json, DataContext};
pub use crate::machine::RenderError;
use crate::machine::{ActionView, ErrorView, EventView, PipelineView, StageView};
use crate::paths::template_path;

verus! {

/// Why a run ended early. Each names the target at which it stopped.
#[derive(Debug, PartialEq, Eq)]
pub enum PipelineError {
    /// The data file is missing or is not a JSON document. No target was
    /// touched.
    DataLoad,
    /// The template of this target could not be read.
    TemplateMissing(String),
    /// The template of this target did not render, for this cause.
    RenderFailed(String, RenderError),
    /// The rendered text could not be written to this target, for this
    /// cause.
    WriteFailed(String, String),
}

impl View for PipelineError {
    type V = ErrorView;

    open spec fn view(&self) -> ErrorView {
        match *self {
            PipelineError::DataLoad => ErrorView::DataLoad,
            PipelineError::TemplateMissing(target) => ErrorView::TemplateMissing(target@),
            PipelineError::RenderFailed(target, cause) => ErrorView::RenderFailed(target@, cause),
            PipelineError::WriteFailed(target, cause) => ErrorView::WriteFailed(target@, cause@),
        }
    }
}

/// The view of the end of a run.
pub open spec fn outcome_view(outcome: Result<(), PipelineError>) -> Result<(), ErrorView> {
    match outcome {
        Ok(()) => Ok(()),
        Err(error) => Err(error@),
    }
}

impl Clone for PipelineError {
    fn clone(&self) -> (copy: PipelineError)
        ensures
            copy@ == self@,
    {
        match self {
            PipelineError::DataLoad => PipelineError::DataLoad,
            PipelineError::TemplateMissing(target) => PipelineError::TemplateMissing(
                target.clone(),
            ),
            PipelineError::RenderFailed(target, cause) => PipelineError::RenderFailed(
                target.clone(),
                *cause,
            ),
            PipelineError::WriteFailed(target, cause) => PipelineError::WriteFailed(
                target.clone(),
                cause.clone(),
            ),
        }
    }
}

impl PipelineError {
    /// The exit code of a process that ends on this error: one for each kind
    /// of error, none of them the 0 of success.
    pub fn exit_code(&self) -> (code: u8)
        ensures
            code == exit_code_of(self@),
    {
        match self {
            PipelineError::DataLoad => 2,
            PipelineError::TemplateMissing(_) => 3,
            PipelineError::RenderFailed(_, RenderError::SyntaxError) => 4,
            PipelineError::RenderFailed(_, RenderError::InternalFailure) => 5,
            PipelineError::WriteFailed(_, _) => 6,
        }
    }
}

/// The exit code that stands for `error`.
pub open spec fn exit_code_of(error: ErrorView) -> u8 {
    match error {
        ErrorView::DataLoad => 2,
        ErrorView::TemplateMissing(_) => 3,
        ErrorView::RenderFailed(_, RenderError::SyntaxError) => 4,
        ErrorView::RenderFailed(_, RenderError::InternalFailure) => 5,
        ErrorView::WriteFailed(_, _) => 6,
    }
}

/// Whether two errors are of one kind: the same stage failed, and where
/// that was the rendering, for the same cause.
pub open spec fn same_kind(one: ErrorView, other: ErrorView) -> bool {
    match (one, other) {
        (ErrorView::DataLoad, ErrorView::DataLoad) => true,
        (ErrorView::TemplateMissing(_), ErrorView::TemplateMissing(_)) => true,
        (ErrorView::RenderFailed(_, cause), ErrorView::RenderFailed(_, other_cause)) => cause
            == other_cause,
        (ErrorView::WriteFailed(_, _), ErrorView::WriteFailed(_, _)) => true,
        _ => false,
    }
}

/// The exit code tells the kind of error: two errors have one code exactly
/// if they are of one kind, and no error has the code 0.
pub proof fn law_exit_code_tells_the_kind(one: ErrorView, other: ErrorView)
    ensures
        exit_code_of(one) == exit_code_of(other) <==> same_kind(one, other),
        exit_code_of(one) != 0,
{
}

/// What the driver is asked to do next.
#[derive(Debug, PartialEq, Eq)]
pub enum Action {
    /// Read the data file at this path.
    ReadData(String),
    /// Read the template file at this path.
    ReadTemplate(String),
    /// Render this template text against the data of the run.
    Render(String),
    /// Replace the content of the file at `path` by `text`.
    Write { path: String, text: String },
    /// Nothing more: the run is over, and this is how it ended.
    Finish(Result<(), PipelineError>),
}

impl View for Action {
    type V = ActionView;

    open spec fn view(&self) -> ActionView {
        match *self {
            Action::ReadData(path) => ActionView::ReadData(path@),
            Action::ReadTemplate(path) => ActionView::ReadTemplate(path@),
            Action::Render(template) => ActionView::Render(template@),
            Action::Write { path, text } => ActionView::Write { path: path@, text: text@ },
            Action::Finish(outcome) => ActionView::Finish(outcome_view(outcome)),
        }
    }
}

/// What the driver reports of the action it was asked for.
#[derive(Debug, PartialEq, Eq)]
pub enum Event {
    /// The text of the data file, or `None` if it could not be read.
    DataRead(Option<String>),
    /// The text of the template file, or `None` if it could not be read.
    TemplateRead(Option<String>),
    /// The rendered text, or why there is none.
    Rendered(Result<String, RenderError>),
    /// That the target was written, or the cause why it was not.
    Written(Result<(), String>),
}

impl View for Event {
    type V = EventView;

    open spec fn view(&self) -> EventView {
        match *self {
            Event::DataRead(text) => EventView::DataRead(text.deep_view()),
            Event::TemplateRead(text) => EventView::TemplateRead(text.deep_view()),
            Event::Rendered(Ok(text)) => EventView::Rendered(Ok(text@)),
            Event::Rendered(Err(cause)) => EventView::Rendered(Err(cause)),
            Event::Written(Ok(())) => EventView::Written(Ok(())),
            Event::Written(Err(cause)) => EventView::Written(Err(cause@)),
        }
    }
}

/// Where a run stands, with what its pending action needs.
enum Stage {
    LoadingData,
    ReadingTemplate,
    Rendering(String),
    Writing(String),
    Finished(Result<(), PipelineError>),
}

impl View for Stage {
    type V = StageView;

    closed spec fn view(&self) -> StageView {
        match *self {
            Stage::LoadingData => StageView::LoadingData,
            Stage::ReadingTemplate => StageView::ReadingTemplate,
            Stage::Rendering(template) => StageView::Rendering(template@),
            Stage::Writing(text) => StageView::Writing(text@),
            Stage::Finished(outcome) => StageView::Finished(outcome_view(outcome)),
        }
    }
}

/// One run over a list of targets.
pub struct Pipeline {
    targets: Vec<String>,
    data_path: String,
    data: Option<DataContext>,
    cursor: usize,
    stage: Stage,
}

impl View for Pipeline {
    type V = PipelineView;

    closed spec fn view(&self) -> PipelineView {
        PipelineView {
            targets: self.targets.deep_view(),
            data_path: self.data_path@,
            data: match self.data {
                Some(context) => Some(context@),
                None => None,
            },
            cursor: self.cursor as nat,
            stage: self.stage@,
        }
    }
}

/// Sets up the run that renders each of `targets`, in list order, against
/// the JSON document in the file at `data`. Nothing has happened yet: the
/// run waits for the data file to be read.
pub fn execute(targets: Vec<String>, data: String) -> (run: Pipeline)
    ensures
        run@ == PipelineView::start(targets.deep_view(), data@),
{
    Pipeline { targets, data_path: data, data: None, cursor: 0, stage: Stage::LoadingData }
}

impl Pipeline {
    #[verifier::type_invariant]
    spec fn inv(self) -> bool {
        &&& self.cursor <= self.targets.len()
        &&& self.data matches Some(context) ==> is_json(context@)
        &&& match self.stage {
            Stage::LoadingData | Stage::Finished(_) => true,
            _ => self.cursor < self.targets.len() && self.data is Some,
        }
    }

    /// The data of the run, once it is loaded.
    pub fn data(&self) -> (data: Option<&DataContext>)
        ensures
            data is Some == self@.data is Some,
            data matches Some(context) ==> self@.data == Some(context@),
    {
        self.data.as_ref()
    }

    /// What the run waits for.
    pub fn pending(&self) -> (action: Action)
        ensures
            action@ == self@.pending(),
            self@.wf(),
    {
        proof {
            use_type_invariant(self);
        }
        match &self.stage {
            Stage::LoadingData => Action::ReadData(self.data_path.clone()),
            Stage::ReadingTemplate => {
                assert(self.targets.deep_view()[self.cursor as int] == self.targets[self.cursor
                    as int]@);
                Action::ReadTemplate(template_path(self.targets[self.cursor].as_str()))
            },
            Stage::Rendering(template) => Action::Render(template.clone()),
            Stage::Writing(text) => {
                assert(self.targets.deep_view()[self.cursor as int] == self.targets[self.cursor
                    as int]@);
                Action::Write { path: self.targets[self.cursor].clone(), text: text.clone() }
            },
            Stage::Finished(Ok(())) => Action::Finish(Ok(())),
            Stage::Finished(Err(error)) => Action::Finish(Err(error.clone())),
        }
    }

    /// Takes in what the driver reports and says what to do next. An event
    /// that does not answer the pending action is passed over.
    pub fn step(&mut self, event: Event) -> (action: Action)
        ensures
            final(self)@ == old(self)@.step(event@),
            action@ == final(self)@.pending(),
    {
        proof {
            use_type_invariant(&*self);
        }
        match event {
            Event::DataRead(text) => {
                if let Stage::LoadingData = self.stage {
                    let loaded = match text {
                        Some(text) => DataContext::load(text.as_str()),
                        None => None,
                    };
                    match loaded {
                        Some(context) => {
                            self.data = Some(context);
                            self.turn_to(0);
                        },
                        None => {
                            self.stage = Stage::Finished(Err(PipelineError::DataLoad));
                        },
                    }
                }
            },
            Event::TemplateRead(text) => {
                if let Stage::ReadingTemplate = self.stage {
                    match text {
                        Some(template) => {
                            self.stage = Stage::Rendering(template);
                        },
                        None => {
                            let target = self.target();
                            self.stage = Stage::Finished(
                                Err(PipelineError::TemplateMissing(target)),
                            );
                        },
                    }
                }
            },
            Event::Rendered(outcome) => {
                if let Stage::Rendering(_) = self.stage {
                    match outcome {
                        Ok(text) => {
                            self.stage = Stage::Writing(text);
                        },
                        Err(cause) => {
                            let target = self.target();
                            self.stage = Stage::Finished(
                                Err(PipelineError::RenderFailed(target, cause)),
                            );
                        },
                    }
                }
            },
            Event::Written(outcome) => {
                if let Stage::Writing(_) = self.stage {
                    match outcome {
                        Ok(()) => {
                            let next = self.cursor + 1;
                            self.turn_to(next);
                        },
                        Err(cause) => {
                            let target = self.target();
                            self.stage = Stage::Finished(
                                Err(PipelineError::WriteFailed(target, cause)),
                            );
                        },
                    }
                }
            },
        }
        self.pending()
    }

    /// A copy of the path of the target at hand.
    fn target(&self) -> (target: String)
        requires
            self.cursor < self.targets.len(),
        ensures
            target@ == self@.target(),
    {
        assert(self.targets.deep_view()[self.cursor as int] == self.targets[self.cursor as int]@);
        self.targets[self.cursor].clone()
    }

    /// Turns to the target at `cursor`, or ends the run well after the last.
    fn turn_to(&mut self, cursor: usize)
        requires
            cursor <= old(self).targets.len(),
            old(self).data is Some,
        ensures
            final(self)@ == old(self)@.turn_to(cursor as nat),
    {
        proof {
            use_type_invariant(&*self);
        }
        if cursor < self.targets.len() {
            self.cursor = cursor;
            self.stage = Stage::ReadingTemplate;
        } else {
            self.stage = Stage::Finished(Ok(()));
            self.cursor = cursor;
        }
    }
}

} // verus!
