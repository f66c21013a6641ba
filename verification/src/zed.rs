//! The primary editor: its file holds a bare array of entries, each
//! identified by its `label`.
use crate::collection::{append_unique, key_of, put};
use crate::entry::{
    build_entry, debugger_doc, entry_model, fields_apart, lemma_entry_members, strings,
};
use crate::error::ConfigError;
use crate::json::{
    error_text, member, members, models, parse_array, parsed_array, pretty_array, render_array,
    value_model, JsonModel,
};
use crate::language::{
    classify, family_of, known_language, lowercase, opt_text, to_lowercase, Family,
};
use crate::profile::{DebugEditor, Profile, ProfileView};
use serde_json::Value;
use vstd::prelude::*;

verus! {

/// The primary editor's configuration in memory.
pub struct ZedDebug {
    pub profiles: Vec<Value>,
}

/// The debug adapter that the primary editor uses for a language token in
/// lower case.
pub open spec fn adapter_of(token: Seq<char>) -> Option<Seq<char>> {
    match family_of(token) {
        Some(Family::Go) => Some("Go"@),
        Some(Family::Native) => Some("CodeLLDB"@),
        Some(Family::Python) => Some("Debugpy"@),
        Some(Family::Script) => Some("JavaScript"@),
        Some(Family::Php) => Some("PHP"@),
        None => None,
    }
}

impl ZedDebug {
    /// Where the primary editor keeps its configuration, below the project's
    /// directory.
    pub fn path() -> (path: &'static str)
        ensures
            path@ == ".zed/debug.json"@,
    {
        ".zed/debug.json"
    }

    /// The debug adapter for a language, whatever its case; none for a
    /// language that the table does not list.
    pub fn language_to_adapter(language: &str) -> (adapter: Option<&'static str>)
        ensures
            opt_text(adapter) == adapter_of(lowercase(language@)),
            adapter is Some <==> known_language(lowercase(language@)),
    {
        let token = to_lowercase(language);
        Self::adapter_for(token.as_str())
    }

    /// The debug adapter for a language token that is already in lower case.
    pub fn adapter_for(token: &str) -> (adapter: Option<&'static str>)
        ensures
            opt_text(adapter) == adapter_of(token@),
            adapter is Some <==> known_language(token@),
    {
        match classify(token) {
            Some(Family::Go) => Some("Go"),
            Some(Family::Native) => Some("CodeLLDB"),
            Some(Family::Python) => Some("Debugpy"),
            Some(Family::Script) => Some("JavaScript"),
            Some(Family::Php) => Some("PHP"),
            None => None,
        }
    }

    /// The entry that the primary editor keeps for a profile.
    pub fn to_json(profile: &Profile) -> (entry: Value)
        requires
            profile.program_args@.len() > 0,
        ensures
            value_model(entry) == Self::entry(profile@),
            key_of(value_model(entry), "label"@) == Some(profile@.title()),
            member(value_model(entry), "adapter"@) == debugger_doc(
                adapter_of(lowercase(profile@.language)),
            ),
            !known_language(lowercase(profile@.language)) ==> member(
                value_model(entry),
                "adapter"@,
            ) == JsonModel::Null,
            member(value_model(entry), "request"@) == JsonModel::Str("launch"@),
            member(value_model(entry), "program"@) == JsonModel::Str(profile@.program_args[0]),
            members(value_model(entry)).contains_key("args"@) <==> profile@.program_args.len() > 1,
            profile@.program_args.len() > 1 ==> member(value_model(entry), "args"@)
                == JsonModel::Array(strings(profile@.program_args.skip(1))),
    {
        proof {
            Self::lemma_fields_apart();
            lemma_entry_members(
                profile@,
                "label"@,
                "adapter"@,
                adapter_of(lowercase(profile@.language)),
            );
        }
        let adapter = Self::language_to_adapter(profile.language.as_str());
        build_entry(profile, "label", "adapter", adapter)
    }

    /// The editor's two member names differ from each other and from the
    /// names that every entry has.
    pub proof fn lemma_fields_apart()
        ensures
            fields_apart("label"@, "adapter"@),
    {
        reveal_strlit("label");
        reveal_strlit("adapter");
        reveal_strlit("request");
        reveal_strlit("program");
        reveal_strlit("args");
        assert("label"@.len() != "adapter"@.len());
        assert("label"@.len() != "request"@.len());
        assert("label"@.len() != "program"@.len());
        assert("label"@.len() != "args"@.len());
        assert("adapter"@[0] != "request"@[0]);
        assert("adapter"@[0] != "program"@[0]);
        assert("adapter"@.len() != "args"@.len());
    }
}

impl DebugEditor for ZedDebug {
    open spec fn entries(&self) -> Seq<JsonModel> {
        models(self.profiles@)
    }

    open spec fn key_field() -> Seq<char> {
        "label"@
    }

    open spec fn entry(profile: ProfileView) -> JsonModel {
        entry_model(profile, "label"@, "adapter"@, adapter_of(lowercase(profile.language)))
    }

    proof fn entry_is_keyed(profile: ProfileView) {
        Self::lemma_fields_apart();
        lemma_entry_members(
            profile,
            "label"@,
            "adapter"@,
            adapter_of(lowercase(profile.language)),
        );
    }

    open spec fn loaded(existing: Option<Seq<char>>) -> Option<Seq<JsonModel>> {
        match existing {
            Some(text) => parsed_array(text),
            None => Some(Seq::empty()),
        }
    }

    open spec fn saved(entries: Seq<JsonModel>) -> Option<Seq<char>> {
        pretty_array(entries)
    }

    open spec fn reports_duplicate(e: ConfigError, key: Seq<char>) -> bool {
        e matches ConfigError::DuplicateLabel(k) && k@ == key
    }

    fn load(existing: Option<&str>) -> (r: Result<Self, ConfigError>) {
        match existing {
            Some(text) => match parse_array(text) {
                Ok(profiles) => Ok(ZedDebug { profiles }),
                Err(e) => Err(ConfigError::Parse(error_text(&e))),
            },
            None => {
                let editor = ZedDebug { profiles: Vec::new() };
                assert(editor.entries() =~= Seq::empty());
                Ok(editor)
            },
        }
    }

    fn add(&mut self, profile: &Profile) -> (r: Result<(), ConfigError>) {
        let value = Self::to_json(profile);
        match append_unique(&mut self.profiles, "label", value) {
            Ok(()) => Ok(()),
            Err(label) => Err(ConfigError::DuplicateLabel(label)),
        }
    }

    fn replace(&mut self, profile: &Profile) {
        let value = Self::to_json(profile);
        put(&mut self.profiles, "label", value);
    }

    fn save(&self) -> (r: Result<String, ConfigError>) {
        match render_array(&self.profiles) {
            Ok(text) => Ok(text),
            Err(e) => Err(ConfigError::Render(error_text(&e))),
        }
    }
}

} // verus!
