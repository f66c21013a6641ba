//! Construction of one launch entry from a profile.
//!
//! Both editors' entries have the same members but for two names: that of the
//! member that identifies the entry, and that of the member that names the
//! debugger.
use crate::json::{
    json_array, json_null, json_set, json_string, member, members, models, value_model, JsonModel,
};
use crate::language::opt_text;
use crate::profile::{Profile, ProfileView};
use serde_json::Value;
use vstd::prelude::*;
use vstd::string::StringExecFns;

verus! {

/// The document for a debugger's identifier: its text, or `Null` where the
/// language has none.
pub open spec fn debugger_doc(debugger: Option<Seq<char>>) -> JsonModel {
    match debugger {
        Some(name) => JsonModel::Str(name),
        None => JsonModel::Null,
    }
}

/// The string documents of a sequence of texts, in order.
pub open spec fn strings(texts: Seq<Seq<char>>) -> Seq<JsonModel> {
    texts.map_values(|t: Seq<char>| JsonModel::Str(t))
}

/// The members that every entry has.
pub open spec fn base_members(
    p: ProfileView,
    key_field: Seq<char>,
    debugger_field: Seq<char>,
    debugger: Option<Seq<char>>,
) -> Map<Seq<char>, JsonModel> {
    Map::<Seq<char>, JsonModel>::empty().insert(key_field, JsonModel::Str(p.title())).insert(
        debugger_field,
        debugger_doc(debugger),
    ).insert("request"@, JsonModel::Str("launch"@)).insert("program"@, JsonModel::Str(p.program()))
}

/// The entry of a profile: its title under `key_field`, the debugger under
/// `debugger_field`, the request `launch`, the program, and the arguments
/// under `args` where there are any.
pub open spec fn entry_model(
    p: ProfileView,
    key_field: Seq<char>,
    debugger_field: Seq<char>,
    debugger: Option<Seq<char>>,
) -> JsonModel
    recommends
        p.program_args.len() > 0,
{
    let base = base_members(p, key_field, debugger_field, debugger);
    if p.arguments().len() > 0 {
        JsonModel::Object(base.insert("args"@, JsonModel::Array(strings(p.arguments()))))
    } else {
        JsonModel::Object(base)
    }
}

/// Whether the two member names that an editor chooses differ from each other
/// and from the names that every entry has.
pub open spec fn fields_apart(key_field: Seq<char>, debugger_field: Seq<char>) -> bool {
    &&& key_field != debugger_field
    &&& key_field != "request"@
    &&& key_field != "program"@
    &&& key_field != "args"@
    &&& debugger_field != "request"@
    &&& debugger_field != "program"@
    &&& debugger_field != "args"@
}

/// What an entry holds, member by member: the title, the debugger, the
/// request `launch`, the program as the first of `program_args`, and the
/// arguments as exactly what follows it, with no member `args` at all where
/// nothing follows.
pub proof fn lemma_entry_members(
    p: ProfileView,
    key_field: Seq<char>,
    debugger_field: Seq<char>,
    debugger: Option<Seq<char>>,
)
    requires
        p.program_args.len() > 0,
        fields_apart(key_field, debugger_field),
    ensures
        ({
            let e = entry_model(p, key_field, debugger_field, debugger);
            &&& e is Object
            &&& member(e, key_field) == JsonModel::Str(p.title())
            &&& member(e, debugger_field) == debugger_doc(debugger)
            &&& member(e, "request"@) == JsonModel::Str("launch"@)
            &&& member(e, "program"@) == JsonModel::Str(p.program_args[0])
            &&& members(e).contains_key("args"@) <==> p.program_args.len() > 1
            &&& p.program_args.len() > 1 ==> member(e, "args"@) == JsonModel::Array(
                strings(p.program_args.skip(1)),
            )
            &&& members(e).dom() =~= if p.program_args.len() > 1 {
                set![key_field, debugger_field, "request"@, "program"@, "args"@]
            } else {
                set![key_field, debugger_field, "request"@, "program"@]
            }
        }),
{
    lemma_fixed_names_apart();
}

/// The three member names that every entry has are different names.
pub proof fn lemma_fixed_names_apart()
    ensures
        "request"@ != "program"@,
        "request"@ != "args"@,
        "program"@ != "args"@,
{
    reveal_strlit("request");
    reveal_strlit("program");
    reveal_strlit("args");
    assert("request"@[0] != "program"@[0]);
}

/// The name that identifies a profile's entry.
pub fn title(profile: &Profile) -> (text: String)
    requires
        profile.program_args@.len() > 0,
    ensures
        text@ == profile@.title(),
{
    match &profile.label {
        Some(label) => label.clone(),
        None => {
            let head: String = "Debug ".to_owned();
            head.concat(profile.program_args[0].as_str())
        },
    }
}

/// The arguments of a profile's program as string documents.
pub fn argument_docs(profile: &Profile) -> (docs: Vec<Value>)
    requires
        profile.program_args@.len() > 0,
    ensures
        models(docs@) == strings(profile@.arguments()),
{
    let mut docs: Vec<Value> = Vec::new();
    let mut i: usize = 1;
    while i < profile.program_args.len()
        invariant
            1 <= i <= profile.program_args@.len(),
            docs@.len() == i - 1,
            forall|j: int|
                0 <= j < docs@.len() ==> value_model(#[trigger] docs@[j]) == JsonModel::Str(
                    profile.program_args@[j + 1]@,
                ),
        decreases profile.program_args@.len() - i,
    {
        docs.push(json_string(profile.program_args[i].clone()));
        i += 1;
    }
    assert(models(docs@) =~= strings(profile@.arguments()));
    docs
}

/// Builds the entry of a profile for an editor that calls the identifying
/// member `key_field` and the debugger's member `debugger_field`.
pub fn build_entry(
    profile: &Profile,
    key_field: &str,
    debugger_field: &str,
    debugger: Option<&str>,
) -> (entry: Value)
    requires
        profile.program_args@.len() > 0,
    ensures
        value_model(entry) == entry_model(
            profile@,
            key_field@,
            debugger_field@,
            opt_text(debugger),
        ),
{
    let debugger_value = match debugger {
        Some(name) => json_string(name.to_owned()),
        None => json_null(),
    };
    let mut entry = json_null();
    json_set(&mut entry, key_field, json_string(title(profile)));
    json_set(&mut entry, debugger_field, debugger_value);
    json_set(&mut entry, "request", json_string("launch".to_owned()));
    json_set(&mut entry, "program", json_string(profile.program_args[0].clone()));
    if profile.program_args.len() > 1 {
        json_set(&mut entry, "args", json_array(argument_docs(profile)));
    }
    entry
}

} // verus!
