//! What the theme picker decides: which files of the themes directory are
//! on offer, what a message does to its state, and which data file a chosen
//! theme stands for.

use vstd::prelude::*;
use vstd::string::*;
use crate::paths::{extension, extension_of};
use crate::text::same_text;

verus! {

/// Where the theme files are kept.
pub const THEMES_DIR: &'static str = "~/.config/muscat/themes";

/// The state of the picker: the name of the theme file chosen last.
#[derive(Debug, PartialEq, Eq)]
pub struct State {
    pub selected_file: Option<String>,
}

impl Default for State {
    /// The picker with nothing chosen.
    fn default() -> (state: State)
        ensures
            state.selected_file is None,
    {
        State { selected_file: None }
    }
}

/// What the user did.
#[derive(Debug, PartialEq, Eq)]
pub enum Message {
    /// Chose this theme file.
    FileSelected(String),
    /// Asked for the chosen theme to be applied.
    Execute,
}

/// What is to happen after a message.
#[derive(Debug, PartialEq, Eq)]
pub enum Effect {
    /// Nothing.
    Nothing,
    /// Run the targets against this theme file, then restart.
    Apply(String),
}

/// Takes a message in. A chosen file is remembered in place of the one
/// before. A request to apply leaves the state alone and asks for the
/// remembered file to be applied; with nothing chosen it asks for nothing.
pub fn update(state: &mut State, message: Message) -> (effect: Effect)
    ensures
        match message {
            Message::FileSelected(file) => {
                &&& final(state).selected_file.deep_view() == Some(file@)
                &&& effect is Nothing
            },
            Message::Execute => {
                &&& final(state).selected_file.deep_view() == old(state).selected_file.deep_view()
                &&& match old(state).selected_file {
                    Some(file) => effect matches Effect::Apply(theme) && theme@ == file@,
                    None => effect is Nothing,
                }
            },
        },
{
    match message {
        Message::FileSelected(file) => {
            state.selected_file = Some(file);
            Effect::Nothing
        },
        Message::Execute => match &state.selected_file {
            Some(file) => Effect::Apply(file.clone()),
            None => Effect::Nothing,
        },
    }
}

/// The extension of theme files.
pub open spec fn theme_extension() -> Seq<char> {
    seq!['j', 's', 'o', 'n']
}

/// Whether the file name `entry` is that of a theme file.
pub open spec fn is_theme(entry: Seq<char>) -> bool {
    extension_of(entry) == Some(theme_extension())
}

/// The theme files among `entries`, in their order.
pub open spec fn choices_of(entries: Seq<Seq<char>>) -> Seq<Seq<char>>
    decreases entries.len(),
{
    if entries.len() == 0 {
        Seq::empty()
    } else if is_theme(entries.last()) {
        choices_of(entries.drop_last()).push(entries.last())
    } else {
        choices_of(entries.drop_last())
    }
}

/// The path of the theme file `file` in the directory `themes_dir`.
pub open spec fn theme_path_of(themes_dir: Seq<char>, file: Seq<char>) -> Seq<char> {
    themes_dir + seq!['/'] + file
}

/// Whether the file name `entry` is that of a theme file.
pub fn is_theme_file(entry: &str) -> (theme: bool)
    ensures
        theme == is_theme(entry@),
{
    proof {
        reveal_strlit("json");
        assert("json"@ =~= theme_extension());
    }
    match extension(entry) {
        Some(found) => same_text(found.as_str(), "json"),
        None => false,
    }
}

/// The entries of the themes directory that the picker offers: those with
/// the extension `json`, in the order in which they were listed.
pub fn theme_choices(entries: &Vec<String>) -> (choices: Vec<String>)
    ensures
        choices.deep_view() == choices_of(entries.deep_view()),
{
    let mut choices: Vec<String> = Vec::new();
    let mut i: usize = 0;
    assert(entries.deep_view().take(0) =~= Seq::empty());
    while i < entries.len()
        invariant
            i <= entries.len(),
            choices.deep_view() == choices_of(entries.deep_view().take(i as int)),
        decreases entries.len() - i,
    {
        let ghost before = choices.deep_view();
        let ghost seen = entries.deep_view().take(i + 1);
        assert(seen.drop_last() =~= entries.deep_view().take(i as int));
        assert(seen.last() == entries[i as int]@);
        if is_theme_file(entries[i].as_str()) {
            choices.push(entries[i].clone());
            assert(choices.deep_view() =~= before.push(entries[i as int]@));
        }
        i += 1;
    }
    assert(entries.deep_view().take(entries.len() as int) =~= entries.deep_view());
    choices
}

/// The path of the theme file `file` in the directory `themes_dir`.
pub fn theme_path(themes_dir: &str, file: &str) -> (path: String)
    ensures
        path@ == theme_path_of(themes_dir@, file@),
{
    proof {
        reveal_strlit("/");
        assert("/"@ =~= seq!['/']);
    }
    let mut path = themes_dir.to_owned();
    path.append("/");
    path.append(file);
    path
}

} // verus!
