//! The search query buffer, behind a trusted boundary.
//!
//! The buffer itself is `tui_input`'s `Input`: a text line with a
//! cursor, edited by raw terminal events.  The session only ever
//! needs the text it holds, named here by [`query_text`]; the cursor
//! and the visual scrolling are display concerns read by the shell.

use vstd::prelude::*;

verus! {

#[verifier::external_type_specification]
#[verifier::external_body]
pub struct ExTuiInput(tui_input::Input);

/// The text a search buffer currently holds.
pub uninterp spec fn query_text(i: tui_input::Input) -> Seq<char>;

/// Relies on `tui_input::Input::default`: a fresh buffer holds the
/// empty string.
#[verifier::external_body]
pub(crate) fn query_new() -> (r: tui_input::Input)
    ensures
        query_text(r) == Seq::<char>::empty(),
{
    tui_input::Input::default()
}

/// Relies on `tui_input::Input::value`: the text the buffer holds.
#[verifier::external_body]
pub(crate) fn query_value(i: &tui_input::Input) -> (r: String)
    ensures
        r@ == query_text(*i),
{
    String::from(i.value())
}

/// Relies on `tui_input::Input::reset`: the buffer goes back to the
/// empty string.
#[verifier::external_body]
pub(crate) fn query_reset(i: &mut tui_input::Input)
    ensures
        query_text(*final(i)) == Seq::<char>::empty(),
{
    i.reset()
}

/// Relies on `tui_input`'s crossterm `EventHandler::handle_event`:
/// applies one raw terminal event to the buffer (text entry, deletion
/// or cursor movement).  Nothing is assumed about the outcome; the
/// session re-reads the text afterwards.
#[verifier::external_body]
pub(crate) fn query_handle_event(i: &mut tui_input::Input, ev: &crossterm::event::Event) {
    let _ = tui_input::backend::crossterm::EventHandler::handle_event(i, ev);
}

} // verus!
