//! The text-entry buffer: `Input` of the crate tui_input, and what is
//! believed of it.
//!
//! Nothing in this file is proved. The buffer's own edit semantics
//! (insertion, deletion, cursor movement) are left to tui_input and are not
//! described here.

use tui_input::{Input, InputRequest};
use vstd::prelude::*;

verus! {

/// The text-entry buffer of tui_input, as an opaque value.
#[verifier::external_type_specification]
#[verifier::external_body]
pub struct ExInput(Input);

/// One edit that the buffer of tui_input understands, as an opaque value.
#[verifier::external_type_specification]
#[verifier::external_body]
pub struct ExInputRequest(InputRequest);

/// The text that a buffer holds.
pub uninterp spec fn buffer_text(input: Input) -> Seq<char>;

/// `Input::default` of tui_input: a buffer that holds no text.
pub assume_specification[ <Input as Default>::default ]() -> (input: Input)
    ensures
        buffer_text(input) == Seq::<char>::empty(),
;

/// `Input::value` of tui_input: the text that the buffer holds.
pub assume_specification<'a>[ Input::value ](input: &'a Input) -> (text: &'a str)
    ensures
        text@ == buffer_text(*input),
;

/// `Input::reset` of tui_input: afterwards the buffer holds no text.
pub assume_specification[ Input::reset ](input: &mut Input)
    ensures
        buffer_text(*final(input)) == Seq::<char>::empty(),
;

/// `Input::handle` of tui_input, its answer dropped: the buffer takes the
/// edit. What the edit does to the text is not stated.
#[verifier::external_body]
pub(crate) fn apply_edit(input: &mut Input, request: InputRequest) {
    let _ = input.handle(request);
}

} // verus!
