//! What the command line asks for.
//!
//! The arguments after the program name come in pairs of a flag and its
//! value: `--from` with the path of the data file, `--targets` with the path
//! of a file that lists the targets, one to a line. Flags and values are
//! read with the white space at their ends set aside. A flag given twice
//! counts where it stands last.

use vstd::prelude::*;
use crate::text::{same_text, trim, trimmed};

verus! {

/// How a run gets its targets and data.
#[derive(Clone, Copy, Debug, PartialEq, Eq)]
pub enum Mode {
    /// From the command line.
    Args,
    /// From the configuration file.
    Config,
}

/// The mode for a configuration file of `config_size` bytes, `None` where
/// there is no such file: the file counts if it is there and not empty.
pub fn mode_for(config_size: Option<u64>) -> (mode: Mode)
    ensures
        mode == (match config_size {
            Some(size) if size > 0 => Mode::Config,
            _ => Mode::Args,
        }),
{
    match config_size {
        Some(size) => if size > 0 {
            Mode::Config
        } else {
            Mode::Args
        },
        None => Mode::Args,
    }
}

/// What the flags ask for: the path of the data file, empty where `--from`
/// was not given, and the path of the file that lists the targets.
#[derive(Debug, PartialEq, Eq)]
pub struct Request {
    pub data: String,
    pub targets_file: Option<String>,
}

/// A request in mathematical terms.
pub struct RequestView {
    pub data: Seq<char>,
    pub targets_file: Option<Seq<char>>,
}

impl View for Request {
    type V = RequestView;

    open spec fn view(&self) -> RequestView {
        RequestView { data: self.data@, targets_file: self.targets_file.deep_view() }
    }
}

/// Why the arguments make no request. Each holds the argument at fault, as
/// it was given.
#[derive(Debug, PartialEq, Eq)]
pub enum ArgsError {
    /// The last argument has no value behind it.
    MissingValue(String),
    /// The argument stands where a flag is due and is none.
    UnknownFlag(String),
}

/// An error in mathematical terms.
pub enum ArgsErrorView {
    MissingValue(Seq<char>),
    UnknownFlag(Seq<char>),
}

impl View for ArgsError {
    type V = ArgsErrorView;

    open spec fn view(&self) -> ArgsErrorView {
        match *self {
            ArgsError::MissingValue(argument) => ArgsErrorView::MissingValue(argument@),
            ArgsError::UnknownFlag(argument) => ArgsErrorView::UnknownFlag(argument@),
        }
    }
}

/// The flag that names the data file.
pub open spec fn from_flag() -> Seq<char> {
    seq!['-', '-', 'f', 'r', 'o', 'm']
}

/// The flag that names the file listing the targets.
pub open spec fn targets_flag() -> Seq<char> {
    seq!['-', '-', 't', 'a', 'r', 'g', 'e', 't', 's']
}

/// What `args` from position `at` on ask for, on top of `so_far`.
pub open spec fn request_from(args: Seq<Seq<char>>, at: nat, so_far: RequestView) -> Result<
    RequestView,
    ArgsErrorView,
>
    decreases args.len() - at,
{
    if at >= args.len() {
        Ok(so_far)
    } else if at + 1 >= args.len() {
        Err(ArgsErrorView::MissingValue(args[at as int]))
    } else {
        let flag = trimmed(args[at as int]);
        let value = trimmed(args[at as int + 1]);
        if flag == from_flag() {
            request_from(args, at + 2, RequestView { data: value, ..so_far })
        } else if flag == targets_flag() {
            request_from(args, at + 2, RequestView { targets_file: Some(value), ..so_far })
        } else {
            Err(ArgsErrorView::UnknownFlag(args[at as int]))
        }
    }
}

/// What the command line `args` asks for; `args[0]` is the program's name
/// and is not looked at.
pub open spec fn request_of(args: Seq<Seq<char>>) -> Result<RequestView, ArgsErrorView> {
    request_from(args, 1, RequestView { data: Seq::empty(), targets_file: None })
}

/// The view of what [`from_args`] returns.
pub open spec fn parsed_view(parsed: Result<Request, ArgsError>) -> Result<
    RequestView,
    ArgsErrorView,
> {
    match parsed {
        Ok(request) => Ok(request@),
        Err(error) => Err(error@),
    }
}

/// Reads the command line `args`, program name first.
pub fn from_args(args: &Vec<String>) -> (parsed: Result<Request, ArgsError>)
    ensures
        parsed_view(parsed) == request_of(args.deep_view()),
{
    proof {
        reveal_strlit("--from");
        reveal_strlit("--targets");
        assert("--from"@ =~= from_flag());
        assert("--targets"@ =~= targets_flag());
    }
    let mut request = Request { data: String::new(), targets_file: None };
    let mut at: usize = 1;
    while at < args.len()
        invariant
            1 <= at,
            "--from"@ == from_flag(),
            "--targets"@ == targets_flag(),
            request_of(args.deep_view()) == request_from(args.deep_view(), at as nat, request@),
        decreases args.len() - at,
    {
        assert(args.deep_view()[at as int] == args[at as int]@);
        if at + 1 >= args.len() {
            return Err(ArgsError::MissingValue(args[at].clone()));
        }
        assert(args.deep_view()[at + 1] == args[at + 1]@);
        let flag = trim(args[at].as_str());
        let value = trim(args[at + 1].as_str());
        if same_text(flag, "--from") {
            request.data = value.to_owned();
        } else if same_text(flag, "--targets") {
            request.targets_file = Some(value.to_owned());
        } else {
            return Err(ArgsError::UnknownFlag(args[at].clone()));
        }
        at += 2;
    }
    Ok(request)
}

} // verus!
