//! The dispatch resolver: a fixed table from language identifiers to the
//! command that launches the language server, and a second fixed table to the
//! initialization options handed to it.

use crate::json::entries_data;
use crate::json::lemma_entries_data;
use crate::json::JsonData;
use crate::json::JsonValue;
use vstd::prelude::*;
use vstd::string::StrSliceExecFns;
use vstd::string::StringExecFns;

verus! {

/// The command line that launches a language server: an executable name and
/// its fixed arguments.
#[derive(Debug, PartialEq, Eq)]
pub struct CommandSpec {
    pub executable: String,
    pub args: Vec<String>,
}

/// The mathematical shape of a command line.
#[verifier::ext_equal]
pub ghost struct CommandData {
    pub executable: Seq<char>,
    pub args: Seq<Seq<char>>,
}

impl View for CommandSpec {
    type V = CommandData;

    open spec fn view(&self) -> CommandData {
        CommandData { executable: self.executable@, args: self.args.deep_view() }
    }
}

/// The fixed table behind command resolution: the executable and arguments
/// for each known identifier, and nothing for any other.
pub open spec fn command_table(id: Seq<char>) -> Option<CommandData> {
    if id == "python"@ {
        Some(CommandData { executable: "pyright-langserver"@, args: seq!["--stdio"@] })
    } else if id == "typescript"@ || id == "javascript"@ {
        Some(CommandData { executable: "typescript-language-server"@, args: seq!["--stdio"@] })
    } else if id == "cpp"@ {
        Some(CommandData { executable: "clangd"@, args: seq!["--background-index"@] })
    } else if id == "rust"@ {
        Some(CommandData { executable: "rust-analyzer"@, args: Seq::empty() })
    } else {
        None
    }
}

/// The error text reported for an identifier with no configured server.
pub open spec fn missing_server_message(id: Seq<char>) -> Seq<char> {
    "No language server specified for "@ + id
}

/// What a correct command resolution for `id` looks like: the table's entry
/// on a known identifier, and the error naming `id` on any other.
pub open spec fn command_resolution(id: Seq<char>, r: Result<CommandSpec, String>) -> bool {
    match command_table(id) {
        Some(c) => r matches Ok(cmd) && cmd@ == c,
        None => r matches Err(m) && m@ == missing_server_message(id),
    }
}

/// Resolves a language identifier to the command that launches its language
/// server. Succeeds exactly on the known identifiers; on any other it fails
/// with an error naming the identifier.
pub fn resolve_command(id: &str) -> (r: Result<CommandSpec, String>)
    ensures
        command_resolution(id@, r),
{
    if str_eq(id, "python") {
        let cmd = CommandSpec {
            executable: "pyright-langserver".to_owned(),
            args: vec!["--stdio".to_owned()],
        };
        proof {
            assert(cmd@ =~= command_table(id@)->Some_0);
        }
        Ok(cmd)
    } else if str_eq(id, "typescript") || str_eq(id, "javascript") {
        let cmd = CommandSpec {
            executable: "typescript-language-server".to_owned(),
            args: vec!["--stdio".to_owned()],
        };
        proof {
            assert(cmd@ =~= command_table(id@)->Some_0);
        }
        Ok(cmd)
    } else if str_eq(id, "cpp") {
        let cmd = CommandSpec {
            executable: "clangd".to_owned(),
            args: vec!["--background-index".to_owned()],
        };
        proof {
            assert(cmd@ =~= command_table(id@)->Some_0);
        }
        Ok(cmd)
    } else if str_eq(id, "rust") {
        let cmd = CommandSpec { executable: "rust-analyzer".to_owned(), args: Vec::new() };
        proof {
            assert(cmd@ =~= command_table(id@)->Some_0);
        }
        Ok(cmd)
    } else {
        let message = "No language server specified for ".to_owned().concat(id);
        Err(message)
    }
}

/// Initialization options for the python language server: an analysis
/// sub-document enabling automatic search-path discovery, library-code-based
/// type inference, and workspace-wide diagnostics.
pub open spec fn python_options() -> JsonData {
    JsonData::Object(
        seq![
            (
                "python"@,
                JsonData::Object(
                    seq![
                        (
                            "analysis"@,
                            JsonData::Object(
                                seq![
                                    ("autoSearchPaths"@, JsonData::Bool(true)),
                                    ("useLibraryCodeForTypes"@, JsonData::Bool(true)),
                                    ("diagnosticMode"@, JsonData::Text("workspace"@)),
                                ],
                            ),
                        ),
                    ],
                ),
            ),
        ],
    )
}

/// Initialization options for the typescript language server: a suggestion
/// sub-document enabling completion of full function-call signatures.
pub open spec fn typescript_options() -> JsonData {
    JsonData::Object(
        seq![
            (
                "typescript"@,
                JsonData::Object(
                    seq![
                        (
                            "suggest"@,
                            JsonData::Object(seq![("completeFunctionCalls"@, JsonData::Bool(true))]),
                        ),
                    ],
                ),
            ),
        ],
    )
}

/// The fixed table behind options resolution: a document for the identifiers
/// that want special options, and nothing for any other.
pub open spec fn options_table(id: Seq<char>) -> Option<JsonData> {
    if id == "python"@ {
        Some(python_options())
    } else if id == "typescript"@ || id == "javascript"@ {
        Some(typescript_options())
    } else {
        None
    }
}

/// What a correct options resolution for `id` looks like: the table's
/// document on an identifier that has one, and silence on any other.
/// Unlike command resolution, absence is a valid outcome, not an error.
pub open spec fn options_resolution(id: Seq<char>, r: Option<JsonValue>) -> bool {
    match options_table(id) {
        Some(d) => r matches Some(v) && v@ == d,
        None => r is None,
    }
}

/// Resolves a language identifier to the initialization options handed to its
/// language server at startup. Never fails: identifiers without special
/// options get none.
pub fn resolve_initialization_options(id: &str) -> (r: Option<JsonValue>)
    ensures
        options_resolution(id@, r),
{
    if str_eq(id, "python") {
        Some(python_options_value())
    } else if str_eq(id, "typescript") || str_eq(id, "javascript") {
        Some(typescript_options_value())
    } else {
        None
    }
}

/// Builds the concrete document whose abstract shape is `python_options()`.
fn python_options_value() -> (r: JsonValue)
    ensures
        r@ == python_options(),
{
    let analysis = JsonValue::Object(
        vec![
            ("autoSearchPaths".to_owned(), JsonValue::Bool(true)),
            ("useLibraryCodeForTypes".to_owned(), JsonValue::Bool(true)),
            ("diagnosticMode".to_owned(), JsonValue::Text("workspace".to_owned())),
        ],
    );
    let ghost analysis_data = analysis@;
    proof {
        let entries = analysis->Object_0@;
        lemma_entries_data(entries);
        assert(entries.len() == 3);
        assert(entries_data(entries)[0] == ("autoSearchPaths"@, JsonData::Bool(true)));
        assert(entries_data(entries)[1] == ("useLibraryCodeForTypes"@, JsonData::Bool(true)));
        assert(entries[2].1.data() == JsonData::Text("workspace"@));
        assert(entries_data(entries)[2] == ("diagnosticMode"@, JsonData::Text("workspace"@)));
        assert(entries_data(entries) =~= seq![
            ("autoSearchPaths"@, JsonData::Bool(true)),
            ("useLibraryCodeForTypes"@, JsonData::Bool(true)),
            ("diagnosticMode"@, JsonData::Text("workspace"@)),
        ]);
        assert(analysis_data == JsonData::Object(
            seq![
                ("autoSearchPaths"@, JsonData::Bool(true)),
                ("useLibraryCodeForTypes"@, JsonData::Bool(true)),
                ("diagnosticMode"@, JsonData::Text("workspace"@)),
            ],
        ));
    }
    let inner = JsonValue::Object(vec![("analysis".to_owned(), analysis)]);
    let ghost inner_data = inner@;
    proof {
        let entries = inner->Object_0@;
        lemma_entries_data(entries);
        assert(entries.len() == 1);
        assert(entries_data(entries)[0] == ("analysis"@, analysis_data));
        assert(inner_data =~~= JsonData::Object(seq![("analysis"@, analysis_data)]));
    }
    let doc = JsonValue::Object(vec![("python".to_owned(), inner)]);
    proof {
        let entries = doc->Object_0@;
        lemma_entries_data(entries);
        assert(entries.len() == 1);
        assert(entries_data(entries)[0] == ("python"@, inner_data));
        assert(doc@ =~~= JsonData::Object(seq![("python"@, inner_data)]));
        assert(doc@ =~~= python_options());
    }
    doc
}

/// Builds the concrete document whose abstract shape is
/// `typescript_options()`.
fn typescript_options_value() -> (r: JsonValue)
    ensures
        r@ == typescript_options(),
{
    let suggest = JsonValue::Object(
        vec![("completeFunctionCalls".to_owned(), JsonValue::Bool(true))],
    );
    let ghost suggest_data = suggest@;
    proof {
        let entries = suggest->Object_0@;
        lemma_entries_data(entries);
        assert(entries.len() == 1);
        assert(entries[0].1.data() == JsonData::Bool(true));
        assert(entries_data(entries)[0] == ("completeFunctionCalls"@, JsonData::Bool(true)));
        assert(suggest_data =~~= JsonData::Object(
            seq![("completeFunctionCalls"@, JsonData::Bool(true))],
        ));
    }
    let inner = JsonValue::Object(vec![("suggest".to_owned(), suggest)]);
    let ghost inner_data = inner@;
    proof {
        let entries = inner->Object_0@;
        lemma_entries_data(entries);
        assert(entries.len() == 1);
        assert(entries_data(entries)[0] == ("suggest"@, suggest_data));
        assert(inner_data =~~= JsonData::Object(seq![("suggest"@, suggest_data)]));
    }
    let doc = JsonValue::Object(vec![("typescript".to_owned(), inner)]);
    proof {
        let entries = doc->Object_0@;
        lemma_entries_data(entries);
        assert(entries.len() == 1);
        assert(entries_data(entries)[0] == ("typescript"@, inner_data));
        assert(doc@ =~~= JsonData::Object(seq![("typescript"@, inner_data)]));
        assert(doc@ =~~= typescript_options());
    }
    doc
}

/// The abstract outcome of a command resolution: the command or the error
/// text, each taken at its mathematical shape.
pub open spec fn command_result_data(r: Result<CommandSpec, String>) -> Result<
    CommandData,
    Seq<char>,
> {
    match r {
        Ok(c) => Ok(c@),
        Err(m) => Err(m@),
    }
}

/// The abstract outcome of an options resolution: the document, if any, at
/// its mathematical shape.
pub open spec fn options_result_data(r: Option<JsonValue>) -> Option<JsonData> {
    match r {
        Some(v) => Some(v@),
        None => None,
    }
}

/// Command resolution is a pure function of the identifier: any two outcomes
/// that satisfy `command_resolution` for the same identifier carry the same
/// command, or the same error text. Two calls of `resolve_command` on equal
/// identifiers therefore return identical results, whatever other calls come
/// between them.
pub proof fn lemma_command_resolution_deterministic(
    id: Seq<char>,
    r1: Result<CommandSpec, String>,
    r2: Result<CommandSpec, String>,
)
    requires
        command_resolution(id, r1),
        command_resolution(id, r2),
    ensures
        command_result_data(r1) == command_result_data(r2),
{
}

/// Options resolution is a pure function of the identifier: any two outcomes
/// that satisfy `options_resolution` for the same identifier carry the same
/// document, or both carry none. Two calls of
/// `resolve_initialization_options` on equal identifiers therefore return
/// identical results, whatever other calls come between them.
pub proof fn lemma_options_resolution_deterministic(
    id: Seq<char>,
    r1: Option<JsonValue>,
    r2: Option<JsonValue>,
)
    requires
        options_resolution(id, r1),
        options_resolution(id, r2),
    ensures
        options_result_data(r1) == options_result_data(r2),
{
}

/// Character-by-character equality of two string slices.
pub fn str_eq(a: &str, b: &str) -> (r: bool)
    ensures
        r == (a@ == b@),
{
    let a_len = a.unicode_len();
    let b_len = b.unicode_len();
    if a_len != b_len {
        return false;
    }
    let mut i: usize = 0;
    while i < a_len
        invariant
            a_len == a@.len(),
            a_len == b@.len(),
            i <= a_len,
            forall|j: int| 0 <= j < i ==> a@[j] == b@[j],
        decreases a_len - i,
    {
        if a.get_char(i) != b.get_char(i) {
            return false;
        }
        i = i + 1;
    }
    proof {
        assert(a@ =~= b@);
    }
    true
}

} // verus!
