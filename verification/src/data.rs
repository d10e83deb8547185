//! The data that templates are rendered against: one JSON document.

use vstd::prelude::*;

verus! {

/// `serde_json::Value`, a parsed JSON document, taken as it is.
#[verifier::external_type_specification]
#[verifier::external_body]
pub struct ExValue(serde_json::Value);

/// `serde_json::Error`, taken as it is.
#[verifier::external_type_specification]
#[verifier::external_body]
pub struct ExJsonError(serde_json::Error);

/// Whether `serde_json` reads `text` as one JSON document.
pub uninterp spec fn is_json(text: Seq<char>) -> bool;

/// `serde_json::from_str`, asked for a `serde_json::Value`. The claim: it
/// returns `Ok` exactly on the texts that `is_json` holds of. Nothing is
/// said of the value or of the error.
#[verifier::external_body]
fn parse_json(text: &str) -> (parsed: Result<serde_json::Value, serde_json::Error>)
    ensures
        (parsed is Ok) == is_json(text@),
{
    serde_json::from_str(text)
}

/// A parsed JSON document. Its view is the text it was read from.
pub struct DataContext {
    value: serde_json::Value,
    source: Ghost<Seq<char>>,
}

impl View for DataContext {
    type V = Seq<char>;

    closed spec fn view(&self) -> Seq<char> {
        self.source@
    }
}

impl DataContext {
    #[verifier::type_invariant]
    spec fn parsed_from_source(self) -> bool {
        is_json(self.source@)
    }

    /// Parses `text`; `None` if it is not a JSON document.
    pub fn load(text: &str) -> (loaded: Option<DataContext>)
        ensures
            (loaded is Some) == is_json(text@),
            loaded is Some ==> loaded.unwrap()@ == text@,
    {
        match parse_json(text) {
            Ok(value) => Some(DataContext { value, source: Ghost(text@) }),
            Err(_) => None,
        }
    }

    /// The parsed document, for the renderer. A context always stands for
    /// a JSON document.
    pub fn value(&self) -> (value: &serde_json::Value)
        ensures
            is_json(self@),
    {
        proof {
            use_type_invariant(self);
        }
        &self.value
    }
}

} // verus!
