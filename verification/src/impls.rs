//! The debug text of a wrapper: a fixed label and the name of the stored
//! type, never the stored value.

use crate::mutex::WeirdMutex;
use vstd::prelude::*;
use vstd::string::*;

verus! {

/// The text that `{:?}` prints for a string slice: the slice in double
/// quotes, with the characters that cannot stand there as they are written
/// as escapes.
pub uninterp spec fn str_debug_text(s: Seq<char>) -> Seq<char>;

/// Debug text of a wrapper, given the quoted name of the stored type: the
/// fixed label `WeirdMutex`, and one field, `type`, that holds the name.
/// The alternate form spreads the same over three lines.
pub open spec fn debug_text(quoted_name: Seq<char>, alternate: bool) -> Seq<char> {
    if alternate {
        "WeirdMutex {\n    type: "@ + quoted_name + ",\n}"@
    } else {
        "WeirdMutex { type: "@ + quoted_name + " }"@
    }
}

/// `{:?}` on a string slice, that is `<str as Debug>::fmt`, collected into
/// a `String` by `format!`. The result depends on the slice alone and is
/// named [`str_debug_text`]; nothing more is claimed of it.
#[verifier::external_body]
fn str_debug(s: &str) -> (quoted: String)
    ensures
        quoted@ == str_debug_text(s@),
{
    format!("{:?}", s)
}

/// Lays out the debug text around an already quoted name of the stored
/// type.
pub fn debug_string_of_quoted(quoted_name: &str, alternate: bool) -> (text: String)
    ensures
        text@ == debug_text(quoted_name@, alternate),
{
    if alternate {
        let mut text = String::from_str("WeirdMutex {\n    type: ");
        text.append(quoted_name);
        text.append(",\n}");
        text
    } else {
        let mut text = String::from_str("WeirdMutex { type: ");
        text.append(quoted_name);
        text.append(" }");
        text
    }
}

impl<T> WeirdMutex<T> {
    /// Debug text of this wrapper, where `stored_type` is the name of `T`
    /// and `alternate` asks for the form on several lines.
    ///
    /// The text is made of the fixed label and the quoted name, and of
    /// nothing else: the stored value is not read, since that would take a
    /// shared reference to it.
    pub fn debug_string(&self, stored_type: &str, alternate: bool) -> (text: String)
        ensures
            text@ == debug_text(str_debug_text(stored_type@), alternate),
    {
        let quoted = str_debug(stored_type);
        debug_string_of_quoted(quoted.as_str(), alternate)
    }
}

} // verus!
