//! Language identifiers, as the command line gives them.
use vstd::prelude::*;

verus! {

/// What `str::to_lowercase` returns for a text: its lowercase form by the
/// Unicode rules that std follows.
pub uninterp spec fn lowercase(text: Seq<char>) -> Seq<char>;

/// `str::to_lowercase`. The result is a function of the text alone, named
/// [`lowercase`].
#[verifier::external_body]
pub(crate) fn to_lowercase(text: &str) -> (r: String)
    ensures
        r@ == lowercase(text@),
{
    text.to_lowercase()
}

/// The text of an optional string slice.
pub open spec fn opt_text(text: Option<&str>) -> Option<Seq<char>> {
    match text {
        Some(t) => Some(t@),
        None => None,
    }
}

/// Whether two texts are the same, character by character.
pub fn same_text(a: &str, b: &str) -> (r: bool)
    ensures
        r == (a@ == b@),
{
    let left: String = a.to_owned();
    let right: String = b.to_owned();
    left == right
}

/// The families of languages that share a debugger.
#[derive(Debug, Clone, Copy, PartialEq, Eq, Structural)]
pub enum Family {
    Go,
    Native,
    Python,
    Script,
    Php,
}

/// The family of a language token in lower case; an unknown token has none.
pub open spec fn family_of(token: Seq<char>) -> Option<Family> {
    if token == "go"@ {
        Some(Family::Go)
    } else if token == "rust"@ || token == "c"@ || token == "cpp"@ || token == "c++"@ {
        Some(Family::Native)
    } else if token == "python"@ {
        Some(Family::Python)
    } else if token == "javascript"@ || token == "js"@ || token == "typescript"@ || token
        == "ts"@ {
        Some(Family::Script)
    } else if token == "php"@ {
        Some(Family::Php)
    } else {
        None
    }
}

/// Whether a language token in lower case is one of those that the editors'
/// tables list.
pub open spec fn known_language(token: Seq<char>) -> bool {
    ||| token == "go"@
    ||| token == "rust"@
    ||| token == "c"@
    ||| token == "cpp"@
    ||| token == "c++"@
    ||| token == "python"@
    ||| token == "javascript"@
    ||| token == "js"@
    ||| token == "typescript"@
    ||| token == "ts"@
    ||| token == "php"@
}

/// Finds the family of a language token that is already in lower case.
pub fn classify(token: &str) -> (family: Option<Family>)
    ensures
        family == family_of(token@),
        family is Some <==> known_language(token@),
{
    if same_text(token, "go") {
        Some(Family::Go)
    } else if same_text(token, "rust") || same_text(token, "c") || same_text(token, "cpp")
        || same_text(token, "c++") {
        Some(Family::Native)
    } else if same_text(token, "python") {
        Some(Family::Python)
    } else if same_text(token, "javascript") || same_text(token, "js") || same_text(
        token,
        "typescript",
    ) || same_text(token, "ts") {
        Some(Family::Script)
    } else if same_text(token, "php") {
        Some(Family::Php)
    } else {
        None
    }
}

} // verus!
