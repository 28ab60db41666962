//! Display formatting for parameter values.
//!
//! How a normalized value reads on screen (a percentage, decibels, a choice
//! label) is domain knowledge the registry does not own: it is injected as a
//! formatter. A formatter is pure — the text is a function of the parameter's
//! host-facing index and the stored bits alone — which is what makes display
//! output deterministic between writes.

use vstd::prelude::*;

verus! {

/// Renders a parameter's stored bits as `(value text, units text)`, keyed by
/// the parameter's host-facing index. The two spec functions are the trait's
/// abstract statement of what each half of the text is; `format` must return
/// exactly that, so formatting is deterministic. Both default to empty text,
/// so an implementation outside the verified library need only write
/// `format`; a verified implementation states its own text.
pub trait ParamFormatter: Sized {
    open spec fn spec_value_text(&self, index: i32, bits: u32) -> Seq<char> {
        Seq::<char>::empty()
    }

    open spec fn spec_units_text(&self, index: i32, bits: u32) -> Seq<char> {
        Seq::<char>::empty()
    }

    fn format(&self, index: i32, bits: u32) -> (r: (String, String))
        ensures
            r.0@ == self.spec_value_text(index, bits),
            r.1@ == self.spec_units_text(index, bits),
    ;
}

/// Returns a `String` whose view is the empty character sequence.
pub fn empty_string() -> (r: String)
    ensures
        r@ == Seq::<char>::empty(),
{
    let r = String::from_str("");
    proof {
        reveal_strlit("");
        assert(r@ =~= Seq::<char>::empty());
    }
    r
}

/// The formatter for parameters with no on-screen reading: both halves of
/// the text are empty, whatever the value.
pub struct SilentFormatter {}

impl ParamFormatter for SilentFormatter {
    fn format(&self, index: i32, bits: u32) -> (r: (String, String)) {
        (empty_string(), empty_string())
    }
}

} // verus!
