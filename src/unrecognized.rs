//! The error for a number that names no recognised format.
use vstd::prelude::*;

use crate::fourcc::{fourcc_string_form, spec_string_form};
use crate::text::{decimal, push_char, push_decimal};

verus! {

/// A `u32` that is not the fourcc of any [`crate::DrmFormat`].
#[derive(Clone, Copy, Debug, PartialEq, Eq, Structural)]
pub struct UnrecognizedFourcc(pub u32);

/// The diagnostic text of an unrecognised `v`: its textual form in quotes,
/// where it has one, then the number itself.
pub open spec fn unrecognized_text(v: u32) -> Seq<char> {
    let shown = match spec_string_form(v) {
        Some(s) => seq!['"'] + s + seq!['"', ',', ' '],
        None => Seq::empty(),
    };
    "UnrecognizedFourcc("@ + shown + decimal(v as nat) + seq![')']
}

impl UnrecognizedFourcc {
    /// The textual form of the number, where it has one.
    pub fn string_form(&self) -> (r: Option<String>)
        ensures
            r matches Some(s) <==> spec_string_form(self.0) is Some,
            r matches Some(s) ==> spec_string_form(self.0) == Some(s@),
    {
        fourcc_string_form(self.0)
    }

    /// The diagnostic text, such as `UnrecognizedFourcc("avc1", 828601953)`
    /// or `UnrecognizedFourcc(0)`.
    pub fn display_string(&self) -> (r: String)
        ensures
            r@ == unrecognized_text(self.0),
    {
        let mut out = String::from_str("UnrecognizedFourcc(");
        match self.string_form() {
            Some(s) => {
                push_char(&mut out, '"');
                out.append(s.as_str());
                push_char(&mut out, '"');
                out.append(", ");
            },
            None => {},
        }
        push_decimal(&mut out, self.0);
        push_char(&mut out, ')');
        proof {
            reveal_strlit(", ");
        }
        assert(out@ =~= unrecognized_text(self.0));
        out
    }
}

} // verus!
