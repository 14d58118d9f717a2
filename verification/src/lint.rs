//! The lint pipeline: what is asked of the linter, what is done with each
//! input, and how a diagnostic is shown.

use crate::cache::Cache;
use crate::cache::CacheError;
use crate::cli::lint::Args;
use crate::cli::lint::Command;
use crate::cli::lint::HaskellArgs;
use crate::exec::sandbox_exec;
use crate::exec::sandboxed;
use crate::exec::Invocation;
use crate::exec::HLINT_PROFILE;
use crate::format::source;
use crate::format::source_of;
use crate::format::Outcome;
use crate::format::Source;
use crate::json::field;
use crate::json::field_of;
use crate::json::json_bytes;
use crate::json::json_document;
use crate::json::parse_json;
use crate::json::write_json;
use crate::json::JsonNode;
use crate::store::found;
use crate::store::payload_of;
use crate::store::ToolKind;
use crate::text::clone_texts;
use crate::text::decimal_digits;
use crate::text::decimal_text;
use crate::text::str_eq;
use vstd::prelude::*;
use vstd::string::StringExecFns;

verus! {

/// How much a diagnostic weighs.
#[derive(Clone, Copy, PartialEq, Eq, Structural, Debug)]
pub enum HlintSeverity {
    Ignore,
    Suggestion,
    Warning,
    Error,
}

impl HlintSeverity {
    /// The name of the severity, as the linter writes it.
    pub open spec fn spec_name(self) -> Seq<char> {
        match self {
            HlintSeverity::Ignore => "Ignore"@,
            HlintSeverity::Suggestion => "Suggestion"@,
            HlintSeverity::Warning => "Warning"@,
            HlintSeverity::Error => "Error"@,
        }
    }

    /// The name of the severity, as the linter writes it.
    pub fn name(self) -> (name: &'static str)
        ensures
            name@ == self.spec_name(),
    {
        match self {
            HlintSeverity::Ignore => "Ignore",
            HlintSeverity::Suggestion => "Suggestion",
            HlintSeverity::Warning => "Warning",
            HlintSeverity::Error => "Error",
        }
    }
}

/// One diagnostic of the linter.
pub struct HlintHint {
    /// The segments of the enclosing module's path.
    pub module: Vec<String>,
    /// The segments of the enclosing declaration's path.
    pub decl: Vec<String>,
    pub severity: HlintSeverity,
    /// The message.
    pub hint: String,
    pub file: String,
    pub start_line: usize,
    pub start_column: usize,
    pub end_line: usize,
    pub end_column: usize,
    /// The code that was found.
    pub from: String,
    /// The code that is suggested in its place.
    pub to: Option<String>,
    pub note: Vec<String>,
    /// The refactoring, as a machine reads it.
    pub refactorings: String,
}

/// What a diagnostic holds.
pub struct HintView {
    pub module: Seq<Seq<char>>,
    pub decl: Seq<Seq<char>>,
    pub severity: HlintSeverity,
    pub hint: Seq<char>,
    pub file: Seq<char>,
    pub start_line: nat,
    pub start_column: nat,
    pub end_line: nat,
    pub end_column: nat,
    pub from: Seq<char>,
    pub to: Option<Seq<char>>,
    pub note: Seq<Seq<char>>,
    pub refactorings: Seq<char>,
}

impl View for HlintHint {
    type V = HintView;

    open spec fn view(&self) -> HintView {
        HintView {
            module: self.module.deep_view(),
            decl: self.decl.deep_view(),
            severity: self.severity,
            hint: self.hint@,
            file: self.file@,
            start_line: self.start_line as nat,
            start_column: self.start_column as nat,
            end_line: self.end_line as nat,
            end_column: self.end_column as nat,
            from: self.from@,
            to: match self.to {
                Some(text) => Some(text@),
                None => None,
            },
            note: self.note.deep_view(),
            refactorings: self.refactorings@,
        }
    }
}

/// The escape sequence that starts bold, underlined text.
pub const EMPHASIS_ON: &'static str = "\x1b[1m\x1b[4m";

/// The escape sequence that ends it.
pub const EMPHASIS_OFF: &'static str = "\x1b[0m";

/// One line for each note.
pub open spec fn note_lines(notes: Seq<Seq<char>>) -> Seq<char>
    decreases notes.len(),
{
    if notes.len() == 0 {
        Seq::empty()
    } else {
        note_lines(notes.drop_last()) + "Note: "@ + notes.last() + "\n"@
    }
}

impl HintView {
    /// The first line of a diagnostic: where it lies, how much it weighs,
    /// and the message.
    pub open spec fn headline(self) -> Seq<char> {
        self.file + ":"@ + decimal_digits(self.start_line) + ":"@ + decimal_digits(
            self.start_column,
        ) + ": "@ + self.severity.spec_name() + ": "@ + self.hint
    }

    /// A diagnostic as it is shown: the first line, emphasised on a
    /// terminal; the code found; the code suggested, if any; the notes.
    pub open spec fn rendered(self, terminal: bool) -> Seq<char> {
        (if terminal {
            EMPHASIS_ON@ + self.headline() + EMPHASIS_OFF@
        } else {
            self.headline()
        }) + "\n"@ + "Found:\n  "@ + self.from + "\n"@ + (match self.to {
            Some(to) => "Perhaps:\n  "@ + to + "\n"@,
            None => Seq::empty(),
        }) + note_lines(self.note)
    }
}

impl HlintHint {
    /// The diagnostic as it is shown, on a terminal or elsewhere.
    pub fn render(&self, terminal: bool) -> (text: String)
        ensures
            text@ == self@.rendered(terminal),
    {
        let mut text = String::new();
        if terminal {
            text.append(EMPHASIS_ON);
        }
        text.append(self.file.as_str());
        text.append(":");
        text.append(decimal_text(self.start_line as u64).as_str());
        text.append(":");
        text.append(decimal_text(self.start_column as u64).as_str());
        text.append(": ");
        text.append(self.severity.name());
        text.append(": ");
        text.append(self.hint.as_str());
        if terminal {
            text.append(EMPHASIS_OFF);
        }
        text.append("\n");
        text.append("Found:\n  ");
        text.append(self.from.as_str());
        text.append("\n");
        match &self.to {
            Some(to) => {
                text.append("Perhaps:\n  ");
                text.append(to.as_str());
                text.append("\n");
            },
            None => {},
        }
        let ghost head = text@;
        assert(head =~= (if terminal {
            EMPHASIS_ON@ + self@.headline() + EMPHASIS_OFF@
        } else {
            self@.headline()
        }) + "\n"@ + "Found:\n  "@ + self@.from + "\n"@ + (match self@.to {
            Some(to) => "Perhaps:\n  "@ + to + "\n"@,
            None => Seq::empty(),
        }));
        let mut i: usize = 0;
        assert(self.note.deep_view().take(0) =~= Seq::<Seq<char>>::empty());
        assert(text@ =~= head + note_lines(self.note.deep_view().take(0)));
        while i < self.note.len()
            invariant
                i <= self.note@.len(),
                text@ == head + note_lines(self.note.deep_view().take(i as int)),
            decreases self.note@.len() - i,
        {
            text.append("Note: ");
            text.append(self.note[i].as_str());
            text.append("\n");
            proof {
                let notes = self.note.deep_view();
                assert(notes.take(i + 1).drop_last() =~= notes.take(i as int));
                assert(notes.take(i + 1).last() == self.note@[i as int]@);
                assert(text@ =~= head + note_lines(notes.take(i + 1)));
            }
            i += 1;
        }
        assert(self.note.deep_view().take(i as int) =~= self.note.deep_view());
        text
    }
}

/// The severity that a name stands for.
pub open spec fn severity_named(name: Seq<char>) -> Option<HlintSeverity> {
    if name == "Ignore"@ {
        Some(HlintSeverity::Ignore)
    } else if name == "Suggestion"@ {
        Some(HlintSeverity::Suggestion)
    } else if name == "Warning"@ {
        Some(HlintSeverity::Warning)
    } else if name == "Error"@ {
        Some(HlintSeverity::Error)
    } else {
        None
    }
}

/// Every severity is the one that its name stands for.
pub proof fn lemma_severity_named(severity: HlintSeverity)
    ensures
        severity_named(severity.spec_name()) == Some(severity),
{
    reveal_strlit("Ignore");
    reveal_strlit("Suggestion");
    reveal_strlit("Warning");
    reveal_strlit("Error");
    assert("Ignore"@.len() == 6);
    assert("Suggestion"@.len() == 10);
    assert("Warning"@.len() == 7);
    assert("Error"@.len() == 5);
}

/// The text of a field that holds a string.
pub open spec fn field_text(entries: Seq<(String, JsonNode)>, name: Seq<char>) -> Option<
    Seq<char>,
> {
    match field_of(entries, name) {
        Some(JsonNode::Text(text)) => Some(text@),
        _ => None,
    }
}

/// The text of a field that may be missing or null.
pub open spec fn field_optional_text(entries: Seq<(String, JsonNode)>, name: Seq<char>) -> Option<
    Option<Seq<char>>,
> {
    match field_of(entries, name) {
        Some(JsonNode::Text(text)) => Some(Some(text@)),
        Some(JsonNode::Null) | None => Some(None),
        _ => None,
    }
}

/// The number of a field that holds a position.
pub open spec fn field_number(entries: Seq<(String, JsonNode)>, name: Seq<char>) -> Option<nat> {
    match field_of(entries, name) {
        Some(JsonNode::Unsigned(n)) => if n <= usize::MAX {
            Some(n as nat)
        } else {
            None
        },
        _ => None,
    }
}

/// Whether every node is a string.
pub open spec fn all_text(items: Seq<JsonNode>) -> bool {
    forall|i: int| 0 <= i < items.len() ==> (#[trigger] items[i]) is Text
}

/// The strings of a sequence of string nodes.
pub open spec fn texts_of(items: Seq<JsonNode>) -> Seq<Seq<char>> {
    Seq::new(
        items.len(),
        |i: int|
            match items[i] {
                JsonNode::Text(text) => text@,
                _ => Seq::empty(),
            },
    )
}

/// The strings of a field that holds a list of strings.
pub open spec fn field_list(entries: Seq<(String, JsonNode)>, name: Seq<char>) -> Option<
    Seq<Seq<char>>,
> {
    match field_of(entries, name) {
        Some(JsonNode::Array(items)) => if all_text(items@) {
            Some(texts_of(items@))
        } else {
            None
        },
        _ => None,
    }
}

/// The severity of a field that holds the name of one.
pub open spec fn field_severity(entries: Seq<(String, JsonNode)>, name: Seq<char>) -> Option<
    HlintSeverity,
> {
    match field_text(entries, name) {
        Some(text) => severity_named(text),
        None => None,
    }
}

/// The diagnostic that the fields of an object hold: every field must be
/// there with a value of its kind, but for the suggested code, which may be
/// missing or null; fields of other names are passed over.
pub open spec fn hint_of_fields(e: Seq<(String, JsonNode)>) -> Option<HintView> {
    if field_list(e, "module"@) is Some && field_list(e, "decl"@) is Some && field_severity(
        e,
        "severity"@,
    ) is Some && field_text(e, "hint"@) is Some && field_text(e, "file"@) is Some && field_number(
        e,
        "startLine"@,
    ) is Some && field_number(e, "startColumn"@) is Some && field_number(e, "endLine"@) is Some
        && field_number(e, "endColumn"@) is Some && field_text(e, "from"@) is Some
        && field_optional_text(e, "to"@) is Some && field_list(e, "note"@) is Some && field_text(
        e,
        "refactorings"@,
    ) is Some {
        Some(
            HintView {
                module: field_list(e, "module"@)->0,
                decl: field_list(e, "decl"@)->0,
                severity: field_severity(e, "severity"@)->0,
                hint: field_text(e, "hint"@)->0,
                file: field_text(e, "file"@)->0,
                start_line: field_number(e, "startLine"@)->0,
                start_column: field_number(e, "startColumn"@)->0,
                end_line: field_number(e, "endLine"@)->0,
                end_column: field_number(e, "endColumn"@)->0,
                from: field_text(e, "from"@)->0,
                to: field_optional_text(e, "to"@)->0,
                note: field_list(e, "note"@)->0,
                refactorings: field_text(e, "refactorings"@)->0,
            },
        )
    } else {
        None
    }
}

/// The diagnostic that a node holds, where it is an object that holds one.
pub open spec fn hint_of(node: JsonNode) -> Option<HintView> {
    match node {
        JsonNode::Object(entries) => hint_of_fields(entries@),
        _ => None,
    }
}

/// Whether every node holds a diagnostic.
pub open spec fn all_hints(items: Seq<JsonNode>) -> bool {
    forall|i: int| 0 <= i < items.len() ==> hint_of(#[trigger] items[i]) is Some
}

/// The diagnostics that a node holds, where it is a list of them.
pub open spec fn hints_of(node: JsonNode) -> Option<Seq<HintView>> {
    match node {
        JsonNode::Array(items) => if all_hints(items@) {
            Some(Seq::new(items@.len(), |i: int| hint_of(items@[i])->0))
        } else {
            None
        },
        _ => None,
    }
}

/// The diagnostics that a byte string holds, where it is a JSON list of
/// them.
pub open spec fn decoded_hints(bytes: Seq<u8>) -> Option<Seq<HintView>> {
    match json_document(bytes) {
        Some(node) => hints_of(node),
        None => None,
    }
}

/// Whether `payload` is what a list of diagnostics is stored as: the bytes
/// of a JSON document that holds the list.
pub open spec fn is_encoding(payload: Seq<u8>, hints: Seq<HintView>) -> bool {
    exists|node: JsonNode| payload == json_bytes(node) && hints_of(node) == Some(hints)
}

/// The bytes are not a JSON list of diagnostics.
#[derive(Clone, Copy, PartialEq, Eq, Structural, Debug)]
pub struct Malformed;

fn text_field(entries: &Vec<(String, JsonNode)>, name: &str) -> (text: Option<String>)
    ensures
        text is Some <==> field_text(entries@, name@) is Some,
        text matches Some(t) ==> field_text(entries@, name@) == Some(t@),
{
    match field(entries, name) {
        Some(JsonNode::Text(text)) => Some(String::from_str(text.as_str())),
        _ => None,
    }
}

fn optional_text_field(entries: &Vec<(String, JsonNode)>, name: &str) -> (text: Option<
    Option<String>,
>)
    ensures
        text is Some <==> field_optional_text(entries@, name@) is Some,
        text matches Some(Some(t)) ==> field_optional_text(entries@, name@) == Some(Some(t@)),
        text matches Some(None) ==> field_optional_text(entries@, name@) == Some(
            None::<Seq<char>>,
        ),
{
    match field(entries, name) {
        Some(JsonNode::Text(text)) => Some(Some(String::from_str(text.as_str()))),
        Some(JsonNode::Null) => Some(None),
        None => Some(None),
        _ => None,
    }
}

fn number_field(entries: &Vec<(String, JsonNode)>, name: &str) -> (number: Option<usize>)
    ensures
        number is Some <==> field_number(entries@, name@) is Some,
        number matches Some(n) ==> field_number(entries@, name@) == Some(n as nat),
{
    match field(entries, name) {
        Some(JsonNode::Unsigned(n)) => {
            if *n <= usize::MAX as u64 {
                Some(*n as usize)
            } else {
                None
            }
        },
        _ => None,
    }
}

fn list_field(entries: &Vec<(String, JsonNode)>, name: &str) -> (list: Option<Vec<String>>)
    ensures
        list is Some <==> field_list(entries@, name@) is Some,
        list matches Some(l) ==> field_list(entries@, name@) == Some(l.deep_view()),
{
    let items = match field(entries, name) {
        Some(JsonNode::Array(items)) => items,
        _ => {
            return None;
        },
    };
    let mut list: Vec<String> = Vec::new();
    let mut i: usize = 0;
    assert(list.deep_view() =~= texts_of(items@.take(0)));
    while i < items.len()
        invariant
            i <= items@.len(),
            all_text(items@.take(i as int)),
            list.deep_view() == texts_of(items@.take(i as int)),
            field_list(entries@, name@) == if all_text(items@) {
                Some(texts_of(items@))
            } else {
                None
            },
        decreases items@.len() - i,
    {
        let ghost before = list.deep_view();
        match &items[i] {
            JsonNode::Text(text) => {
                list.push(String::from_str(text.as_str()));
                assert(list.deep_view() =~= before.push(text@));
            },
            _ => {
                assert(!(items@[i as int] is Text));
                return None;
            },
        }
        proof {
            let prev = items@.take(i as int);
            let next = items@.take(i + 1);
            assert forall|k: int| 0 <= k < next.len() implies (#[trigger] next[k]) is Text by {
                if k < i {
                    assert(prev[k] is Text);
                }
            }
            assert(list.deep_view() =~= texts_of(next)) by {
                assert forall|k: int| 0 <= k < next.len() implies list.deep_view()[k] == texts_of(
                    next,
                )[k] by {
                    if k < i {
                        assert(prev[k] == next[k]);
                        assert(before[k] == texts_of(prev)[k]);
                    }
                }
            }
        }
        i += 1;
    }
    assert(items@.take(i as int) =~= items@);
    Some(list)
}

fn severity_field(entries: &Vec<(String, JsonNode)>, name: &str) -> (severity: Option<
    HlintSeverity,
>)
    ensures
        severity == field_severity(entries@, name@),
{
    match field(entries, name) {
        Some(JsonNode::Text(text)) => {
            let text = text.as_str();
            if str_eq(text, "Ignore") {
                Some(HlintSeverity::Ignore)
            } else if str_eq(text, "Suggestion") {
                Some(HlintSeverity::Suggestion)
            } else if str_eq(text, "Warning") {
                Some(HlintSeverity::Warning)
            } else if str_eq(text, "Error") {
                Some(HlintSeverity::Error)
            } else {
                None
            }
        },
        _ => None,
    }
}

/// Reads one diagnostic from a node.
pub fn decode_hint(node: &JsonNode) -> (hint: Option<HlintHint>)
    ensures
        hint is Some <==> hint_of(*node) is Some,
        hint matches Some(h) ==> hint_of(*node) == Some(h@),
{
    let entries = match node {
        JsonNode::Object(entries) => entries,
        _ => {
            return None;
        },
    };
    let module = match list_field(entries, "module") {
        Some(value) => value,
        None => {
            return None;
        },
    };
    let decl = match list_field(entries, "decl") {
        Some(value) => value,
        None => {
            return None;
        },
    };
    let severity = match severity_field(entries, "severity") {
        Some(value) => value,
        None => {
            return None;
        },
    };
    let hint = match text_field(entries, "hint") {
        Some(value) => value,
        None => {
            return None;
        },
    };
    let file = match text_field(entries, "file") {
        Some(value) => value,
        None => {
            return None;
        },
    };
    let start_line = match number_field(entries, "startLine") {
        Some(value) => value,
        None => {
            return None;
        },
    };
    let start_column = match number_field(entries, "startColumn") {
        Some(value) => value,
        None => {
            return None;
        },
    };
    let end_line = match number_field(entries, "endLine") {
        Some(value) => value,
        None => {
            return None;
        },
    };
    let end_column = match number_field(entries, "endColumn") {
        Some(value) => value,
        None => {
            return None;
        },
    };
    let from = match text_field(entries, "from") {
        Some(value) => value,
        None => {
            return None;
        },
    };
    let to = match optional_text_field(entries, "to") {
        Some(value) => value,
        None => {
            return None;
        },
    };
    let note = match list_field(entries, "note") {
        Some(value) => value,
        None => {
            return None;
        },
    };
    let refactorings = match text_field(entries, "refactorings") {
        Some(value) => value,
        None => {
            return None;
        },
    };
    Some(
        HlintHint {
            module,
            decl,
            severity,
            hint,
            file,
            start_line,
            start_column,
            end_line,
            end_column,
            from,
            to,
            note,
            refactorings,
        },
    )
}

/// Reads a list of diagnostics from a node.
pub fn decode_hint_list(node: &JsonNode) -> (hints: Option<Vec<HlintHint>>)
    ensures
        hints is Some <==> hints_of(*node) is Some,
        hints matches Some(list) ==> hints_of(*node) == Some(hint_views(list@)),
{
    let items = match node {
        JsonNode::Array(items) => items,
        _ => {
            return None;
        },
    };
    let mut hints: Vec<HlintHint> = Vec::new();
    let mut i: usize = 0;
    while i < items.len()
        invariant
            i <= items@.len(),
            hints@.len() == i,
            forall|k: int| 0 <= k < i ==> hint_of(#[trigger] items@[k]) == Some(hints@[k]@),
            hints_of(*node) == if all_hints(items@) {
                Some(Seq::new(items@.len(), |i: int| hint_of(items@[i])->0))
            } else {
                None
            },
        decreases items@.len() - i,
    {
        match decode_hint(&items[i]) {
            Some(hint) => {
                hints.push(hint);
            },
            None => {
                assert(hint_of(items@[i as int]) is None);
                return None;
            },
        }
        i += 1;
    }
    assert(hint_views(hints@) =~= Seq::new(items@.len(), |i: int| hint_of(items@[i])->0));
    Some(hints)
}

/// Reads the diagnostics that the linter wrote, or that the store holds:
/// a JSON list with one object for each.
pub fn decode_hints(bytes: &[u8]) -> (result: Result<Vec<HlintHint>, Malformed>)
    ensures
        result is Ok <==> decoded_hints(bytes@) is Some,
        result matches Ok(hints) ==> decoded_hints(bytes@) == Some(hint_views(hints@)),
{
    let node = match parse_json(bytes) {
        Some(node) => node,
        None => {
            return Err(Malformed);
        },
    };
    match decode_hint_list(&node) {
        Some(hints) => Ok(hints),
        None => Err(Malformed),
    }
}

/// A field is found at the first entry of its name.
pub proof fn lemma_field_at(entries: Seq<(String, JsonNode)>, name: Seq<char>, at: int)
    requires
        0 <= at < entries.len(),
        entries[at].0@ == name,
        forall|k: int| 0 <= k < at ==> (#[trigger] entries[k]).0@ != name,
    ensures
        field_of(entries, name) == Some(entries[at].1),
    decreases at,
{
    if at > 0 {
        let rest = entries.drop_first();
        assert(rest[at - 1] == entries[at]);
        assert forall|k: int| 0 <= k < at - 1 implies (#[trigger] rest[k]).0@ != name by {
            assert(rest[k] == entries[k + 1]);
        }
        lemma_field_at(rest, name, at - 1);
    }
}

fn list_node(list: &Vec<String>) -> (node: JsonNode)
    ensures
        node matches JsonNode::Array(items) && all_text(items@) && texts_of(items@)
            == list.deep_view(),
{
    let mut items: Vec<JsonNode> = Vec::new();
    let mut i: usize = 0;
    assert(texts_of(items@) =~= list.deep_view().take(0));
    while i < list.len()
        invariant
            i <= list@.len(),
            items@.len() == i,
            all_text(items@),
            texts_of(items@) == list.deep_view().take(i as int),
        decreases list@.len() - i,
    {
        let ghost before = items@;
        items.push(JsonNode::Text(String::from_str(list[i].as_str())));
        proof {
            assert forall|k: int| 0 <= k < items@.len() implies (#[trigger] items@[k]) is Text by {
                if k < i {
                    assert(items@[k] == before[k]);
                }
            }
            assert(texts_of(items@) =~= list.deep_view().take(i + 1)) by {
                assert forall|k: int| 0 <= k < i + 1 implies texts_of(items@)[k]
                    == list.deep_view().take(i + 1)[k] by {
                    if k < i {
                        assert(items@[k] == before[k]);
                        assert(texts_of(before)[k] == list.deep_view().take(i as int)[k]);
                    }
                }
            }
        }
        i += 1;
    }
    assert(list.deep_view().take(i as int) =~= list.deep_view());
    JsonNode::Array(items)
}

fn entry(name: &str, node: JsonNode) -> (entry: (String, JsonNode))
    ensures
        entry.0@ == name@,
        entry.1 == node,
{
    (String::from_str(name), node)
}

/// Writes one diagnostic as a node: an object with one field for each part,
/// from which `decode_hint` reads the diagnostic back.
pub fn encode_hint(hint: &HlintHint) -> (node: JsonNode)
    ensures
        hint_of(node) == Some(hint@),
{
    let mut entries: Vec<(String, JsonNode)> = Vec::new();
    entries.push(entry("module", list_node(&hint.module)));
    entries.push(entry("decl", list_node(&hint.decl)));
    entries.push(entry("severity", JsonNode::Text(String::from_str(hint.severity.name()))));
    entries.push(entry("hint", JsonNode::Text(String::from_str(hint.hint.as_str()))));
    entries.push(entry("file", JsonNode::Text(String::from_str(hint.file.as_str()))));
    entries.push(entry("startLine", JsonNode::Unsigned(hint.start_line as u64)));
    entries.push(entry("startColumn", JsonNode::Unsigned(hint.start_column as u64)));
    entries.push(entry("endLine", JsonNode::Unsigned(hint.end_line as u64)));
    entries.push(entry("endColumn", JsonNode::Unsigned(hint.end_column as u64)));
    entries.push(entry("from", JsonNode::Text(String::from_str(hint.from.as_str()))));
    entries.push(
        entry(
            "to",
            match &hint.to {
                Some(to) => JsonNode::Text(String::from_str(to.as_str())),
                None => JsonNode::Null,
            },
        ),
    );
    entries.push(entry("note", list_node(&hint.note)));
    entries.push(entry("refactorings", JsonNode::Text(String::from_str(hint.refactorings.as_str()))));
    proof {
        reveal_strlit("module");
        reveal_strlit("decl");
        reveal_strlit("severity");
        reveal_strlit("hint");
        reveal_strlit("file");
        reveal_strlit("startLine");
        reveal_strlit("startColumn");
        reveal_strlit("endLine");
        reveal_strlit("endColumn");
        reveal_strlit("from");
        reveal_strlit("to");
        reveal_strlit("note");
        reveal_strlit("refactorings");
        let e = entries@;
        assert(e.len() == 13);
        assert("module"@.len() == 6 && "decl"@.len() == 4 && "severity"@.len() == 8);
        assert("hint"@.len() == 4 && "file"@.len() == 4 && "startLine"@.len() == 9);
        assert("startColumn"@.len() == 11 && "endLine"@.len() == 7 && "endColumn"@.len() == 9);
        assert("from"@.len() == 4 && "to"@.len() == 2 && "note"@.len() == 4);
        assert("refactorings"@.len() == 12);
        assert("decl"@[0] == 'd' && "hint"@[0] == 'h' && "file"@[0] == 'f' && "from"@[0] == 'f'
            && "note"@[0] == 'n');
        assert("file"@[1] == 'i' && "from"@[1] == 'r');
        assert("startLine"@[0] == 's' && "endColumn"@[0] == 'e');
        lemma_field_at(e, "module"@, 0);
        lemma_field_at(e, "decl"@, 1);
        lemma_field_at(e, "severity"@, 2);
        lemma_field_at(e, "hint"@, 3);
        lemma_field_at(e, "file"@, 4);
        lemma_field_at(e, "startLine"@, 5);
        lemma_field_at(e, "startColumn"@, 6);
        lemma_field_at(e, "endLine"@, 7);
        lemma_field_at(e, "endColumn"@, 8);
        lemma_field_at(e, "from"@, 9);
        lemma_field_at(e, "to"@, 10);
        lemma_field_at(e, "note"@, 11);
        lemma_field_at(e, "refactorings"@, 12);
        lemma_severity_named(hint.severity);
        assert(hint_of_fields(e) == Some(hint@));
    }
    JsonNode::Object(entries)
}

/// Writes diagnostics as a node: a list with one object for each, from
/// which `decode_hint_list` reads the diagnostics back.
pub fn encode_hint_list(hints: &Vec<HlintHint>) -> (node: JsonNode)
    ensures
        hints_of(node) == Some(hint_views(hints@)),
{
    let mut items: Vec<JsonNode> = Vec::new();
    let mut i: usize = 0;
    while i < hints.len()
        invariant
            i <= hints@.len(),
            items@.len() == i,
            forall|k: int| 0 <= k < i ==> hint_of(#[trigger] items@[k]) == Some(hints@[k]@),
        decreases hints@.len() - i,
    {
        items.push(encode_hint(&hints[i]));
        i += 1;
    }
    let node = JsonNode::Array(items);
    assert(hints_of(node) == Some(hint_views(hints@))) by {
        assert(all_hints(items@));
        assert(Seq::new(items@.len(), |i: int| hint_of(items@[i])->0) =~= hint_views(hints@));
    }
    node
}

/// Writes diagnostics as the store holds them: the bytes of a JSON list
/// that holds them.
pub fn encode_hints(hints: &Vec<HlintHint>) -> (bytes: Vec<u8>)
    ensures
        is_encoding(bytes@, hint_views(hints@)),
{
    let node = encode_hint_list(hints);
    write_json(&node)
}

/// One flag for each rule file.
pub open spec fn rule_flags(configs: Seq<Seq<char>>) -> Seq<Seq<char>> {
    Seq::new(configs.len(), |i: int| "--hint="@ + configs[i])
}

/// The arguments of the linter: output for machines, an exit code that does
/// not tell of diagnostics, the input stream as the file to lint, and one
/// flag for each rule file.
pub open spec fn hlint_args_of(configs: Seq<Seq<char>>) -> Seq<Seq<char>> {
    seq!["--json"@, "--no-exit-code"@, "-"@] + rule_flags(configs)
}

/// The command line that lints Haskell source: `program` is the resolved
/// binary, `configs` the snapshots of the rule files.
pub fn hlint(restricted: bool, program: &str, configs: &Vec<String>) -> (inv: Invocation)
    ensures
        inv@ == sandboxed(
            restricted,
            HLINT_PROFILE@,
            program@,
            hlint_args_of(configs.deep_view()),
        ),
{
    let mut args: Vec<String> = Vec::new();
    args.push(String::from_str("--json"));
    args.push(String::from_str("--no-exit-code"));
    args.push(String::from_str("-"));
    let ghost head = args.deep_view();
    assert(head =~= seq!["--json"@, "--no-exit-code"@, "-"@]);
    let mut i: usize = 0;
    assert(args.deep_view() =~= head + rule_flags(configs.deep_view().take(0)));
    while i < configs.len()
        invariant
            i <= configs@.len(),
            args.deep_view() == head + rule_flags(configs.deep_view().take(i as int)),
        decreases configs@.len() - i,
    {
        let ghost before = args.deep_view();
        let mut flag = String::from_str("--hint=");
        flag.append(configs[i].as_str());
        args.push(flag);
        assert(args.deep_view() =~= before.push("--hint="@ + configs@[i as int]@));
        assert(args.deep_view() =~= head + rule_flags(configs.deep_view().take(i + 1)));
        i += 1;
    }
    assert(configs.deep_view().take(i as int) =~= configs.deep_view());
    sandbox_exec(restricted, HLINT_PROFILE, program, args)
}

/// A diagnostic that lies in another file.
pub open spec fn retargeted(hint: HintView, file: Seq<char>) -> HintView {
    HintView { file, ..hint }
}

/// Diagnostics that lie in the file that was linted: the linter read the
/// input stream and does not know the file's name.
pub open spec fn retargeted_all(hints: Seq<HintView>, path: Option<Seq<char>>) -> Seq<HintView> {
    match path {
        Some(file) => Seq::new(hints.len(), |i: int| retargeted(hints[i], file)),
        None => hints,
    }
}

/// The views of a list of diagnostics.
pub open spec fn hint_views(hints: Seq<HlintHint>) -> Seq<HintView> {
    Seq::new(hints.len(), |i: int| hints[i]@)
}

/// Names the file that was linted in each of its diagnostics.
pub fn retarget(hints: &mut Vec<HlintHint>, path: Option<&str>)
    ensures
        hint_views(final(hints)@) == retargeted_all(
            hint_views(old(hints)@),
            match path {
                Some(p) => Some(p@),
                None => None,
            },
        ),
{
    let file = match path {
        Some(file) => file,
        None => {
            return ;
        },
    };
    let ghost before = hint_views(hints@);
    let n = hints.len();
    let mut i: usize = 0;
    while i < n
        invariant
            i <= n,
            n == before.len(),
            hints@.len() == n,
            forall|k: int| 0 <= k < i ==> (#[trigger] hints@[k])@ == retargeted(before[k], file@),
            forall|k: int| i <= k < n ==> (#[trigger] hints@[k])@ == before[k],
        decreases n - i,
    {
        hints[i].file = String::from_str(file);
        i += 1;
    }
    assert(hint_views(hints@) =~= retargeted_all(before, Some(file@)));
}

/// Why an input of the linter does not end.
#[derive(Clone, Copy, PartialEq, Eq, Structural, Debug)]
pub enum LintError {
    /// The cache cannot answer.
    Cache(CacheError),
    /// What the store holds under the key is no list of diagnostics.
    MalformedPayload,
    /// What the linter wrote is no list of diagnostics.
    MalformedOutput,
}

/// What is done with an input of the linter once its fingerprint is known.
pub enum LintStep {
    /// The store held the key, so the input ends as `Cached`: these are the
    /// diagnostics that the linter gave before. The linter is not run.
    Reuse(Vec<HlintHint>),
    /// The linter is run on the input.
    Invoke,
}

/// What is done with a Haskell source whose fingerprint is `input_hash`: a
/// hit gives the diagnostics that were stored, a miss has the linter run.
pub fn lint_haskell(cache: &Cache, input_hash: u64) -> (result: Result<LintStep, LintError>)
    ensures
        match cache@.hlint_key(input_hash) {
            Ok(key) => if found(cache@.store.hlint, key) {
                match payload_of(cache@.store.hlint, key) {
                    Some(payload) => match decoded_hints(payload) {
                        Some(stored) => result matches Ok(LintStep::Reuse(hints)) && hint_views(
                            hints@,
                        ) == stored,
                        None => result matches Err(LintError::MalformedPayload),
                    },
                    None => false,
                }
            } else {
                result matches Ok(LintStep::Invoke)
            },
            Err(input) => result matches Err(LintError::Cache(err)) && err
                == CacheError::Unresolved(input),
        },
{
    match cache.is_haskell_linted(input_hash) {
        Ok(Some(payload)) => match decode_hints(payload.as_slice()) {
            Ok(hints) => Ok(LintStep::Reuse(hints)),
            Err(_) => Err(LintError::MalformedPayload),
        },
        Ok(None) => Ok(LintStep::Invoke),
        Err(err) => Err(LintError::Cache(err)),
    }
}

/// Takes what the linter wrote for an input: the diagnostics are read, the
/// file that was linted is named in each, and they are recorded, encoded,
/// under the key of the input. The input ends as `Processed` and counts in
/// the summary; the diagnostics are returned to be shown.
pub fn lint_haskell_output(
    cache: &mut Cache,
    input_hash: u64,
    path: Option<&str>,
    stdout: &[u8],
) -> (result: Result<(Vec<HlintHint>, Outcome), LintError>)
    ensures
        match decoded_hints(stdout@) {
            None => result matches Err(LintError::MalformedOutput) && final(cache)@ == old(cache)@,
            Some(read) => match old(cache)@.hlint_key(input_hash) {
                Err(input) => result matches Err(LintError::Cache(err)) && err
                    == CacheError::Unresolved(input) && final(cache)@ == old(cache)@,
                Ok(_) => result matches Ok((hints, outcome)) && outcome == (Outcome::Processed {
                    changed: true,
                }) && hint_views(hints@) == retargeted_all(
                    read,
                    match path {
                        Some(p) => Some(p@),
                        None => None,
                    },
                ) && exists|payload: Seq<u8>| #[trigger]
                    is_encoding(payload, hint_views(hints@)) && final(cache)@ == old(
                        cache,
                    )@.marked(ToolKind::Hlint, input_hash, Some(payload)),
            },
        },
{
    let mut hints = match decode_hints(stdout) {
        Ok(hints) => hints,
        Err(_) => {
            return Err(LintError::MalformedOutput);
        },
    };
    retarget(&mut hints, path);
    let payload = encode_hints(&hints);
    let ghost bytes = payload@;
    match cache.mark_haskell_linted(input_hash, payload) {
        Ok(()) => {
            assert(is_encoding(bytes, hint_views(hints@)) && cache@ == old(cache)@.marked(
                ToolKind::Hlint,
                input_hash,
                Some(bytes),
            ));
            Ok((hints, Outcome::Processed { changed: true }))
        },
        Err(err) => Err(LintError::Cache(err)),
    }
}

/// Where the inputs of a run of the Haskell linter come from: the paths
/// given, else the changed files. The input stream is not linted.
pub fn run_lint_haskell(args: &HaskellArgs) -> (source: Source)
    ensures
        source_of(false, args.paths.deep_view(), source),
{
    source(false, &args.paths)
}

/// Where the inputs of the lint command come from: those of the language
/// given, or, where none is given, the changed files.
pub fn run(args: &Args) -> (source: Source)
    ensures
        match args.command {
            Some(Command::Haskell(a)) => source_of(false, a.paths.deep_view(), source),
            None => source is ChangedFiles,
        },
{
    match &args.command {
        Some(Command::Haskell(a)) => run_lint_haskell(a),
        None => Source::ChangedFiles,
    }
}

} // verus!
