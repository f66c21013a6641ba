//! The description of one program to debug, and the commands that merge it
//! into an editor's configuration.
use crate::collection::{
    added, after_add, entry_key, has_key, key_of, law_second_add_fails, replaced,
};
use crate::error::ConfigError;
use crate::json::JsonModel;
use crate::language::opt_text;
use crate::vscode::VscodeDebug;
use crate::zed::ZedDebug;
use vstd::prelude::*;

verus! {

/// The editor whose configuration file a command works on.
#[derive(Debug, Clone, Copy, PartialEq, Eq, Structural)]
pub enum Target {
    Zed,
    Vscode,
}

impl Default for Target {
    fn default() -> (target: Target)
        ensures
            target == Target::Zed,
    {
        Target::Zed
    }
}

/// What the user asks for: a language, an optional display label, the editor,
/// and the program with its arguments.
#[derive(Debug)]
pub struct Profile {
    /// The language, by which the debugger is chosen; case does not matter.
    pub language: String,
    /// The display name; without one the entry is called after the program.
    pub label: Option<String>,
    /// The editor to write for.
    pub target: Target,
    /// The program, then its arguments. A command refuses an empty list.
    pub program_args: Vec<String>,
}

impl Profile {
    /// The file that the profile's editor keeps its configuration in, below
    /// the project's directory. A profile without a program is refused here,
    /// before any file is looked at.
    pub fn config_path(&self) -> (r: Result<&'static str, ConfigError>)
        ensures
            match r {
                Ok(path) => self@.program_args.len() > 0 && path@ == path_of(self.target),
                Err(e) => self@.program_args.len() == 0 && e is NoProgram,
            },
    {
        if self.program_args.is_empty() {
            return Err(ConfigError::NoProgram);
        }
        match self.target {
            Target::Zed => Ok(ZedDebug::path()),
            Target::Vscode => Ok(VscodeDebug::path()),
        }
    }
}

/// The path of an editor's configuration file, below the project's directory.
pub open spec fn path_of(target: Target) -> Seq<char> {
    match target {
        Target::Zed => ".zed/debug.json"@,
        Target::Vscode => ".vscode/launch.json"@,
    }
}

/// A profile as plain mathematical data.
pub ghost struct ProfileView {
    pub language: Seq<char>,
    pub label: Option<Seq<char>>,
    pub target: Target,
    pub program_args: Seq<Seq<char>>,
}

/// The texts of a vector of strings, in order.
pub open spec fn texts(items: Seq<String>) -> Seq<Seq<char>> {
    items.map_values(|s: String| s@)
}

impl View for Profile {
    type V = ProfileView;

    open spec fn view(&self) -> ProfileView {
        ProfileView {
            language: self.language@,
            label: match self.label {
                Some(label) => Some(label@),
                None => None,
            },
            target: self.target,
            program_args: texts(self.program_args@),
        }
    }
}

impl ProfileView {
    /// The program to debug: the first of `program_args`.
    pub open spec fn program(self) -> Seq<char>
        recommends
            self.program_args.len() > 0,
    {
        self.program_args[0]
    }

    /// The program's arguments: what follows the program.
    pub open spec fn arguments(self) -> Seq<Seq<char>>
        recommends
            self.program_args.len() > 0,
    {
        self.program_args.skip(1)
    }

    /// The name that identifies the entry: the label where one was given, and
    /// `Debug ` followed by the program where none was.
    pub open spec fn title(self) -> Seq<char>
        recommends
            self.program_args.len() > 0,
    {
        match self.label {
            Some(label) => label,
            None => "Debug "@ + self.program(),
        }
    }
}

/// An editor's configuration in memory: an ordered collection of launch
/// entries that is read from the text of the editor's file, changed by `add`
/// or `replace`, and written back as text.
pub trait DebugEditor: Sized {
    /// The entries that the editor holds, in order.
    spec fn entries(&self) -> Seq<JsonModel>;

    /// The name of the member that identifies an entry.
    spec fn key_field() -> Seq<char>;

    /// The entry that this editor makes of a profile.
    spec fn entry(profile: ProfileView) -> JsonModel;

    /// The entries that a file's text holds; a missing file holds none, and a
    /// text that the editor cannot read gives nothing.
    spec fn loaded(existing: Option<Seq<char>>) -> Option<Seq<JsonModel>>;

    /// The text that is written for a collection, or nothing where it cannot
    /// be written.
    spec fn saved(entries: Seq<JsonModel>) -> Option<Seq<char>>;

    /// Whether `e` is this editor's report that `key` is taken.
    spec fn reports_duplicate(e: ConfigError, key: Seq<char>) -> bool;

    /// The entry of a profile is identified by the profile's title.
    proof fn entry_is_keyed(profile: ProfileView)
        requires
            profile.program_args.len() > 0,
        ensures
            key_of(Self::entry(profile), Self::key_field()) == Some(profile.title()),
    ;

    /// Reads the collection from the text of the editor's file, `None` standing
    /// for a file that does not exist.
    fn load(existing: Option<&str>) -> (r: Result<Self, ConfigError>)
        ensures
            match Self::loaded(opt_text(existing)) {
                Some(entries) => r matches Ok(editor) && editor.entries() == entries,
                None => r matches Err(ConfigError::Parse(_)),
            },
    ;

    /// Appends the profile's entry; fails, and changes nothing, where an
    /// entry with its key is already there.
    fn add(&mut self, profile: &Profile) -> (r: Result<(), ConfigError>)
        requires
            profile.program_args@.len() > 0,
        ensures
            match added(old(self).entries(), Self::key_field(), Self::entry(profile@)) {
                Some(next) => r is Ok && final(self).entries() == next,
                None => {
                    &&& r matches Err(e)
                    &&& Self::reports_duplicate(
                        e,
                        entry_key(Self::entry(profile@), Self::key_field()),
                    )
                    &&& final(self).entries() == old(self).entries()
                },
            },
    ;

    /// Puts the profile's entry in the place of the first one with its key,
    /// or appends it where there is none.
    fn replace(&mut self, profile: &Profile)
        requires
            profile.program_args@.len() > 0,
        ensures
            final(self).entries() == replaced(
                old(self).entries(),
                Self::key_field(),
                Self::entry(profile@),
            ),
    ;

    /// Writes the collection as the text of the editor's file.
    fn save(&self) -> (r: Result<String, ConfigError>)
        ensures
            match Self::saved(self.entries()) {
                Some(text) => r matches Ok(s) && s@ == text,
                None => r matches Err(ConfigError::Render(_)),
            },
    ;
}

/// For either editor: once a profile has been added, or refused, adding a
/// profile with the same title is refused, whatever else the two differ in.
pub proof fn law_same_title_added_once<T: DebugEditor>(
    entries: Seq<JsonModel>,
    first: ProfileView,
    second: ProfileView,
)
    requires
        first.program_args.len() > 0,
        second.program_args.len() > 0,
        first.title() == second.title(),
    ensures
        added(
            after_add(entries, T::key_field(), T::entry(first)),
            T::key_field(),
            T::entry(second),
        ) is None,
        has_key(
            after_add(entries, T::key_field(), T::entry(first)),
            T::key_field(),
            first.title(),
        ),
{
    T::entry_is_keyed(first);
    T::entry_is_keyed(second);
    law_second_add_fails(entries, T::key_field(), T::entry(first), T::entry(second));
}

/// Whether `r` is what the command `add` gives for a profile and the text of
/// the editor's file: the new text of the file, or the failure of the first
/// step that fails.
pub open spec fn add_outcome<T: DebugEditor>(
    p: ProfileView,
    existing: Option<Seq<char>>,
    r: Result<String, ConfigError>,
) -> bool {
    match T::loaded(existing) {
        None => r matches Err(ConfigError::Parse(_)),
        Some(entries) => match added(entries, T::key_field(), T::entry(p)) {
            None => r matches Err(e) && T::reports_duplicate(
                e,
                entry_key(T::entry(p), T::key_field()),
            ),
            Some(next) => match T::saved(next) {
                Some(text) => r matches Ok(s) && s@ == text,
                None => r matches Err(ConfigError::Render(_)),
            },
        },
    }
}

/// Whether `r` is what the command `replace` gives for a profile and the text
/// of the editor's file.
pub open spec fn replace_outcome<T: DebugEditor>(
    p: ProfileView,
    existing: Option<Seq<char>>,
    r: Result<String, ConfigError>,
) -> bool {
    match T::loaded(existing) {
        None => r matches Err(ConfigError::Parse(_)),
        Some(entries) => match T::saved(replaced(entries, T::key_field(), T::entry(p))) {
            Some(text) => r matches Ok(s) && s@ == text,
            None => r matches Err(ConfigError::Render(_)),
        },
    }
}

/// Loads the editor's collection from the text of its file, adds the
/// profile's entry and gives the text to write. Nothing is to be written
/// where this fails.
pub fn do_add<T: DebugEditor>(profile: &Profile, existing: Option<&str>) -> (r: Result<
    String,
    ConfigError,
>)
    requires
        profile.program_args@.len() > 0,
    ensures
        add_outcome::<T>(profile@, opt_text(existing), r),
{
    let mut editor = match T::load(existing) {
        Ok(editor) => editor,
        Err(e) => {
            return Err(e);
        },
    };
    match editor.add(profile) {
        Ok(()) => editor.save(),
        Err(e) => Err(e),
    }
}

/// Loads the editor's collection from the text of its file, puts the
/// profile's entry into it and gives the text to write.
pub fn do_replace<T: DebugEditor>(profile: &Profile, existing: Option<&str>) -> (r: Result<
    String,
    ConfigError,
>)
    requires
        profile.program_args@.len() > 0,
    ensures
        replace_outcome::<T>(profile@, opt_text(existing), r),
{
    let mut editor = match T::load(existing) {
        Ok(editor) => editor,
        Err(e) => {
            return Err(e);
        },
    };
    editor.replace(profile);
    editor.save()
}

/// The command `add`.
#[derive(Debug)]
pub struct FnAdd {
    pub profile: Profile,
}

impl FnAdd {
    /// Runs the command on the text of the editor's file, `None` standing for
    /// a file that does not exist, and gives the text to write in its place.
    pub fn run(&self, existing: Option<&str>) -> (r: Result<String, ConfigError>)
        ensures
            self.profile@.program_args.len() == 0 ==> r matches Err(ConfigError::NoProgram),
            self.profile@.program_args.len() > 0 ==> match self.profile.target {
                Target::Zed => add_outcome::<ZedDebug>(self.profile@, opt_text(existing), r),
                Target::Vscode => add_outcome::<VscodeDebug>(self.profile@, opt_text(existing), r),
            },
    {
        if self.profile.program_args.is_empty() {
            return Err(ConfigError::NoProgram);
        }
        match self.profile.target {
            Target::Zed => do_add::<ZedDebug>(&self.profile, existing),
            Target::Vscode => do_add::<VscodeDebug>(&self.profile, existing),
        }
    }
}

/// The command `replace`.
#[derive(Debug)]
pub struct FnReplace {
    pub profile: Profile,
}

impl FnReplace {
    /// Runs the command on the text of the editor's file, `None` standing for
    /// a file that does not exist, and gives the text to write in its place.
    pub fn run(&self, existing: Option<&str>) -> (r: Result<String, ConfigError>)
        ensures
            self.profile@.program_args.len() == 0 ==> r matches Err(ConfigError::NoProgram),
            self.profile@.program_args.len() > 0 ==> match self.profile.target {
                Target::Zed => replace_outcome::<ZedDebug>(self.profile@, opt_text(existing), r),
                Target::Vscode => replace_outcome::<VscodeDebug>(
                    self.profile@,
                    opt_text(existing),
                    r,
                ),
            },
    {
        if self.profile.program_args.is_empty() {
            return Err(ConfigError::NoProgram);
        }
        match self.profile.target {
            Target::Zed => do_replace::<ZedDebug>(&self.profile, existing),
            Target::Vscode => do_replace::<VscodeDebug>(&self.profile, existing),
        }
    }
}

} // verus!
