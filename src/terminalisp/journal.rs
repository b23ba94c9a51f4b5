//! Lines that report on journal entries.
use vstd::prelude::*;

use crate::terminalisp::symbols;

verus! {

/// The text of a journal-entry status line holding `message`.
pub open spec fn journal_entry_status_text(message: Seq<char>) -> Seq<char> {
    "(journal-entry-status "@ + message + ")"@
}

fn journal_entry_status(message: &str) -> (r: String)
    ensures
        r@ == journal_entry_status_text(message@),
{
    let mut line = String::from_str("(journal-entry-status ");
    line.append(message);
    line.append(")");
    line
}

/// The line that reports that a journal entry failed with `error`.
pub fn journal_entry_status_error(error: String) -> (r: String)
    ensures
        r@ == journal_entry_status_text(symbols::ERROR@ + " \""@ + error@ + "\""@),
{
    let mut message = String::from_str(symbols::ERROR);
    message.append(" \"");
    message.append(error.as_str());
    message.append("\"");
    journal_entry_status(message.as_str())
}

/// The line that reports that a journal entry was saved.
pub fn journal_entry_status_saved() -> (r: String)
    ensures
        r@ == journal_entry_status_text(symbols::SAVED@),
{
    journal_entry_status(symbols::SAVED)
}

} // verus!
