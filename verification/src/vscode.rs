//! The secondary editor: its file holds an object with a version and the
//! array `configurations`, whose entries are identified by their `name`.
use crate::collection::{append_unique, key_of, put};
use crate::entry::{
    build_entry, debugger_doc, entry_model, fields_apart, lemma_entry_members, strings,
};
use crate::error::ConfigError;
use crate::json::{
    clone_all, error_text, items_of, json_array, json_as_array, json_index, json_null, json_set,
    json_string, member, members, models, parse_value, parsed_value, pretty_value, render_value,
    value_model, JsonModel,
};
use crate::language::{
    classify, family_of, known_language, lowercase, opt_text, to_lowercase, Family,
};
use crate::profile::{DebugEditor, Profile, ProfileView};
use serde_json::Value;
use vstd::prelude::*;

verus! {

/// The secondary editor's configuration in memory.
pub struct VscodeDebug {
    pub configurations: Vec<Value>,
}

/// The debugger type that the secondary editor uses for a language token in
/// lower case.
pub open spec fn type_of(token: Seq<char>) -> Option<Seq<char>> {
    match family_of(token) {
        Some(Family::Go) => Some("go"@),
        Some(Family::Native) => Some("lldb"@),
        Some(Family::Python) => Some("debugpy"@),
        Some(Family::Script) => Some("node"@),
        Some(Family::Php) => Some("php"@),
        None => None,
    }
}

/// The configurations that a document of the secondary editor's file holds:
/// the items of its member `configurations`, and none where the document has
/// no such member or that is no array.
pub open spec fn configurations_of(doc: JsonModel) -> Seq<JsonModel> {
    match items_of(member(doc, "configurations"@)) {
        Some(items) => items,
        None => Seq::empty(),
    }
}

/// The document that the secondary editor's file holds for a collection: the
/// fixed version beside the configurations.
pub open spec fn envelope(entries: Seq<JsonModel>) -> JsonModel {
    JsonModel::Object(
        Map::<Seq<char>, JsonModel>::empty().insert(
            "version"@,
            JsonModel::Str("0.2.0"@),
        ).insert("configurations"@, JsonModel::Array(entries)),
    )
}

/// The document written for a collection holds that collection, entry by
/// entry and in order, beside the fixed version.
pub proof fn lemma_envelope_holds_configurations(entries: Seq<JsonModel>)
    ensures
        configurations_of(envelope(entries)) == entries,
        member(envelope(entries), "version"@) == JsonModel::Str("0.2.0"@),
{
    reveal_strlit("version");
    reveal_strlit("configurations");
    assert("version"@.len() != "configurations"@.len());
}

impl VscodeDebug {
    /// Where the secondary editor keeps its configuration, below the project's
    /// directory.
    pub fn path() -> (path: &'static str)
        ensures
            path@ == ".vscode/launch.json"@,
    {
        ".vscode/launch.json"
    }

    /// The debugger type for a language, whatever its case; none for a
    /// language that the table does not list.
    pub fn language_to_type(language: &str) -> (debugger: Option<&'static str>)
        ensures
            opt_text(debugger) == type_of(lowercase(language@)),
            debugger is Some <==> known_language(lowercase(language@)),
    {
        let token = to_lowercase(language);
        Self::type_for(token.as_str())
    }

    /// The debugger type for a language token that is already in lower case.
    pub fn type_for(token: &str) -> (debugger: Option<&'static str>)
        ensures
            opt_text(debugger) == type_of(token@),
            debugger is Some <==> known_language(token@),
    {
        match classify(token) {
            Some(Family::Go) => Some("go"),
            Some(Family::Native) => Some("lldb"),
            Some(Family::Python) => Some("debugpy"),
            Some(Family::Script) => Some("node"),
            Some(Family::Php) => Some("php"),
            None => None,
        }
    }

    /// The entry that the secondary editor keeps for a profile.
    pub fn to_json(profile: &Profile) -> (entry: Value)
        requires
            profile.program_args@.len() > 0,
        ensures
            value_model(entry) == Self::entry(profile@),
            key_of(value_model(entry), "name"@) == Some(profile@.title()),
            member(value_model(entry), "type"@) == debugger_doc(
                type_of(lowercase(profile@.language)),
            ),
            !known_language(lowercase(profile@.language)) ==> member(
                value_model(entry),
                "type"@,
            ) == JsonModel::Null,
            member(value_model(entry), "request"@) == JsonModel::Str("launch"@),
            member(value_model(entry), "program"@) == JsonModel::Str(profile@.program_args[0]),
            members(value_model(entry)).contains_key("args"@) <==> profile@.program_args.len() > 1,
            profile@.program_args.len() > 1 ==> member(value_model(entry), "args"@)
                == JsonModel::Array(strings(profile@.program_args.skip(1))),
    {
        proof {
            Self::lemma_fields_apart();
            lemma_entry_members(
                profile@,
                "name"@,
                "type"@,
                type_of(lowercase(profile@.language)),
            );
        }
        let debugger = Self::language_to_type(profile.language.as_str());
        build_entry(profile, "name", "type", debugger)
    }

    /// The editor's two member names differ from each other and from the
    /// names that every entry has.
    pub proof fn lemma_fields_apart()
        ensures
            fields_apart("name"@, "type"@),
    {
        reveal_strlit("name");
        reveal_strlit("type");
        reveal_strlit("request");
        reveal_strlit("program");
        reveal_strlit("args");
        assert("name"@[0] != "type"@[0]);
        assert("name"@.len() != "request"@.len());
        assert("name"@.len() != "program"@.len());
        assert("name"@[0] != "args"@[0]);
        assert("type"@.len() != "request"@.len());
        assert("type"@.len() != "program"@.len());
        assert("type"@[0] != "args"@[0]);
    }

    /// Takes the configurations out of a document of the editor's file.
    pub fn from_document(doc: &Value) -> (editor: VscodeDebug)
        ensures
            editor.entries() == configurations_of(value_model(*doc)),
    {
        match json_as_array(json_index(doc, "configurations")) {
            Some(items) => VscodeDebug { configurations: clone_all(items) },
            None => {
                let editor = VscodeDebug { configurations: Vec::new() };
                assert(editor.entries() =~= Seq::empty());
                editor
            },
        }
    }

    /// The document that is written to the editor's file.
    pub fn to_document(&self) -> (doc: Value)
        ensures
            value_model(doc) == envelope(self.entries()),
    {
        let mut doc = json_null();
        json_set(&mut doc, "version", json_string("0.2.0".to_owned()));
        json_set(&mut doc, "configurations", json_array(clone_all(&self.configurations)));
        doc
    }
}

impl DebugEditor for VscodeDebug {
    open spec fn entries(&self) -> Seq<JsonModel> {
        models(self.configurations@)
    }

    open spec fn key_field() -> Seq<char> {
        "name"@
    }

    open spec fn entry(profile: ProfileView) -> JsonModel {
        entry_model(profile, "name"@, "type"@, type_of(lowercase(profile.language)))
    }

    proof fn entry_is_keyed(profile: ProfileView) {
        Self::lemma_fields_apart();
        lemma_entry_members(
            profile,
            "name"@,
            "type"@,
            type_of(lowercase(profile.language)),
        );
    }

    open spec fn loaded(existing: Option<Seq<char>>) -> Option<Seq<JsonModel>> {
        match existing {
            Some(text) => match parsed_value(text) {
                Some(doc) => Some(configurations_of(doc)),
                None => None,
            },
            None => Some(Seq::empty()),
        }
    }

    open spec fn saved(entries: Seq<JsonModel>) -> Option<Seq<char>> {
        pretty_value(envelope(entries))
    }

    open spec fn reports_duplicate(e: ConfigError, key: Seq<char>) -> bool {
        e matches ConfigError::DuplicateName(k) && k@ == key
    }

    fn load(existing: Option<&str>) -> (r: Result<Self, ConfigError>) {
        match existing {
            Some(text) => match parse_value(text) {
                Ok(doc) => Ok(Self::from_document(&doc)),
                Err(e) => Err(ConfigError::Parse(error_text(&e))),
            },
            None => {
                let editor = VscodeDebug { configurations: Vec::new() };
                assert(editor.entries() =~= Seq::empty());
                Ok(editor)
            },
        }
    }

    fn add(&mut self, profile: &Profile) -> (r: Result<(), ConfigError>) {
        let value = Self::to_json(profile);
        match append_unique(&mut self.configurations, "name", value) {
            Ok(()) => Ok(()),
            Err(name) => Err(ConfigError::DuplicateName(name)),
        }
    }

    fn replace(&mut self, profile: &Profile) {
        let value = Self::to_json(profile);
        put(&mut self.configurations, "name", value);
    }

    fn save(&self) -> (r: Result<String, ConfigError>) {
        let doc = self.to_document();
        match render_value(&doc) {
            Ok(text) => Ok(text),
            Err(e) => Err(ConfigError::Render(error_text(&e))),
        }
    }
}

} // verus!
