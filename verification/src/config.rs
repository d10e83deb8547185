//! The configuration record, and how a run is set up from it.

use vstd::prelude::*;
use resolve_path::PathResolveExt;
use crate::machine::PipelineView;
use crate::pipeline::{execute, Pipeline};

verus! {

/// Where the configuration is looked for.
pub const PATH_TO_CONFIG: &'static str = "config.jsonc";

/// What a configuration file holds: the path of the data file, the target
/// paths in the order in which they are rendered, and the names of the
/// processes to restart afterwards.
#[derive(Debug)]
pub struct Config {
    data: String,
    pub targets: Vec<String>,
    restarts: Vec<String>,
}

/// A configuration in mathematical terms.
pub struct ConfigView {
    pub data: Seq<char>,
    pub targets: Seq<Seq<char>>,
    pub restarts: Seq<Seq<char>>,
}

impl View for Config {
    type V = ConfigView;

    closed spec fn view(&self) -> ConfigView {
        ConfigView {
            data: self.data@,
            targets: self.targets.deep_view(),
            restarts: self.restarts.deep_view(),
        }
    }
}

impl Default for Config {
    /// The configuration that names nothing.
    fn default() -> (config: Config)
        ensures
            config@.data.len() == 0,
            config@.targets.len() == 0,
            config@.restarts.len() == 0,
    {
        Config { data: String::new(), targets: Vec::new(), restarts: Vec::new() }
    }
}

impl Config {
    /// The configuration with this data file, these targets and these
    /// processes to restart.
    pub fn new(data: String, targets: Vec<String>, restarts: Vec<String>) -> (config: Config)
        ensures
            config@.data == data@,
            config@.targets == targets.deep_view(),
            config@.restarts == restarts.deep_view(),
    {
        Config { data, targets, restarts }
    }

    /// The path of the data file.
    pub fn data(&self) -> (data: &str)
        ensures
            data@ == self@.data,
    {
        self.data.as_str()
    }

    /// The names of the processes to restart.
    pub fn restarts(&self) -> (names: &Vec<String>)
        ensures
            names.deep_view() == self@.restarts,
    {
        &self.restarts
    }
}

/// A path that could not be anchored.
#[derive(Debug, PartialEq, Eq)]
pub struct Unresolved {
    pub path: String,
}

/// `PathResolveExt::try_resolve` of the crate `resolve_path`: the path with a
/// leading `~` replaced by the user's home directory, or made absolute
/// against the current directory. `None` stands for its error, and for a
/// result that is not UTF-8. What comes back depends on the environment, so
/// nothing is claimed of it.
#[verifier::external_body]
fn resolve_user_path(path: &str) -> (resolved: Option<String>) {
    path.try_resolve().ok().and_then(|anchored| anchored.to_str().map(|text| text.to_owned()))
}

/// Sets up a run over `targets` with the data file `data`, each path
/// anchored first. The run has one target for each of `targets`, in their
/// order, and waits for its data to be read. A path that cannot be anchored
/// is handed back, and no run is set up.
pub fn prepare(targets: &Vec<String>, data: &str) -> (run: Result<Pipeline, Unresolved>)
    ensures
        match run {
            Ok(run) => {
                &&& run@.targets.len() == targets.len()
                &&& run@ == PipelineView::start(run@.targets, run@.data_path)
            },
            Err(unresolved) => {
                ||| unresolved.path@ == data@
                ||| exists|i: int| 0 <= i < targets.len() && unresolved.path@ == targets[i]@
            },
        },
{
    let mut anchored: Vec<String> = Vec::new();
    let mut i: usize = 0;
    while i < targets.len()
        invariant
            i <= targets.len(),
            anchored.len() == i,
        decreases targets.len() - i,
    {
        match resolve_user_path(targets[i].as_str()) {
            Some(path) => anchored.push(path),
            None => {
                return Err(Unresolved { path: targets[i].clone() });
            },
        }
        i += 1;
    }
    match resolve_user_path(data) {
        Some(path) => Ok(execute(anchored, path)),
        None => Err(Unresolved { path: data.to_owned() }),
    }
}

/// Sets up the run that `config` describes: its targets against its data
/// file, each path anchored as [`prepare`] does.
pub fn from_config(config: &Config) -> (run: Result<Pipeline, Unresolved>)
    ensures
        match run {
            Ok(run) => {
                &&& run@.targets.len() == config@.targets.len()
                &&& run@ == PipelineView::start(run@.targets, run@.data_path)
            },
            Err(unresolved) => {
                ||| unresolved.path@ == config@.data
                ||| exists|i: int|
                    0 <= i < config@.targets.len() && unresolved.path@ == config@.targets[i]
            },
        },
{
    let run = prepare(&config.targets, config.data.as_str());
    proof {
        if let Err(unresolved) = &run {
            if unresolved.path@ != config@.data {
                let i = choose|i: int|
                    0 <= i < config.targets.len() && unresolved.path@ == config.targets[i]@;
                assert(config@.targets[i] == config.targets[i]@);
            }
        }
    }
    run
}

} // verus!
