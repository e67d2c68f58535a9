//! Choices offered by the selection fields of the forms.

use vstd::prelude::*;
use crate::text::{chars_of, push_all, string_of};

verus! {

/// One choice of a selection field: the value it stands for and the text shown.
#[derive(Clone, Debug)]
pub struct SelectOption {
    pub value: String,
    pub label: String,
}

/// The value and label of each choice.
pub open spec fn options_view(v: Seq<SelectOption>) -> Seq<(Seq<char>, Seq<char>)> {
    v.map_values(|o: SelectOption| (o.value@, o.label@))
}

/// A choice with the given value and label.
pub fn select_option(value: &str, label: &str) -> (r: SelectOption)
    ensures
        r.value@ == value@,
        r.label@ == label@,
{
    SelectOption { value: String::from_str(value), label: String::from_str(label) }
}

/// `a - b`: how a code and a name are shown together.
pub open spec fn code_and_name(code: Seq<char>, name: Seq<char>) -> Seq<char> {
    code + " - "@ + name
}

/// The text `code - name`.
pub fn code_dash_name(code: &str, name: &str) -> (r: String)
    ensures
        r@ == code_and_name(code@, name@),
{
    let mut v = chars_of(code);
    push_all(&mut v, &chars_of(" - "));
    push_all(&mut v, &chars_of(name));
    string_of(&v)
}

} // verus!
