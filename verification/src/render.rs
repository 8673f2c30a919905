//! The output formatter: result entries as a table or as JSON, by the name of
//! the mode.

use vstd::prelude::*;
use vstd::string::*;
use crate::entry::{entries_view, EntryView, ResultEntry};
use crate::error::{ClientError, ErrorKind};
use crate::json::{document_lines, json_text, quoted_entries, render_json};
use crate::table::{render_table, table_lines};
use crate::text::{join_lines, same_text};

verus! {

/// The two ways to show a result.
#[derive(Clone, Copy, Debug, PartialEq, Eq, Structural)]
pub enum OutputMode {
    /// A JSON array of `{dn, attributes}` objects.
    Json,
    /// Indented text blocks.
    Table,
}

/// The mode that a token names, if it names one. Tokens are case-sensitive.
pub open spec fn mode_of_token(token: Seq<char>) -> Option<OutputMode> {
    if token == "json"@ {
        Some(OutputMode::Json)
    } else if token == "table"@ {
        Some(OutputMode::Table)
    } else {
        None
    }
}

/// The context line of the error for an unknown output mode.
pub open spec fn invalid_mode_text(token: Seq<char>) -> Seq<char> {
    "Invalid output format: "@ + token
}

/// The table for a list of entries, as one text.
pub open spec fn table_text(entries: Seq<EntryView>) -> Seq<char> {
    join_lines(table_lines(entries))
}

/// Resolves the name of an output mode: `json` and `table` name the two
/// modes, and every other token is rejected with `InvalidOutputMode`.
pub fn resolve_output_mode(token: &str) -> (r: Result<OutputMode, ClientError>)
    ensures
        match r {
            Ok(mode) => mode_of_token(token@) == Some(mode),
            Err(e) => {
                &&& mode_of_token(token@) is None
                &&& e.kind == ErrorKind::InvalidOutputMode
                &&& e.context@ == invalid_mode_text(token@)
                &&& e.cause is None
            },
        },
{
    if same_text(token, "json") {
        Ok(OutputMode::Json)
    } else if same_text(token, "table") {
        Ok(OutputMode::Table)
    } else {
        let mut context = String::from_str("Invalid output format: ");
        context.append(token);
        Err(ClientError::plain(ErrorKind::InvalidOutputMode, context))
    }
}

/// Renders entries in the mode that `mode` names and returns the text; it
/// prints nothing itself.
///
/// An unknown mode is rejected with `InvalidOutputMode`, whatever the entries,
/// and that is the only failure: in either mode every entry is rendered.
pub fn render(entries: &Vec<ResultEntry>, mode: &str) -> (r: Result<String, ClientError>)
    ensures
        r is Err <==> mode_of_token(mode@) is None,
        match mode_of_token(mode@) {
            None => r matches Err(e) && e.kind == ErrorKind::InvalidOutputMode && e.context@
                == invalid_mode_text(mode@) && e.cause is None,
            Some(OutputMode::Table) => r matches Ok(text) && text@ == table_text(
                entries_view(entries@),
            ),
            Some(OutputMode::Json) => r matches Ok(text) && text@ == json_text(
                entries_view(entries@),
            ),
        },
{
    match resolve_output_mode(mode) {
        Err(e) => Err(e),
        Ok(OutputMode::Table) => Ok(render_table(entries)),
        Ok(OutputMode::Json) => render_json(entries),
    }
}

/// The table for no entries is the one line `No entries found.`.
pub proof fn lemma_empty_table()
    ensures
        table_text(Seq::empty()) == "No entries found."@,
{
}

/// The JSON document for no entries is the empty array.
pub proof fn lemma_empty_document()
    ensures
        json_text(Seq::empty()) == "[]"@,
{
    assert(quoted_entries(Seq::empty()) =~= Seq::empty());
    assert(document_lines(Seq::empty()) =~= seq!["[]"@]);
}

} // verus!
