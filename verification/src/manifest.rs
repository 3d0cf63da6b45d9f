//! Whether a project declares the tool as one of its dependencies.
//!
//! A project declares it in `package.json`, as a key under `dependencies` or
//! `devDependencies`, or in `deno.json`, as a key under `imports`. What stands
//! behind the key does not matter. A manifest that is missing, unreadable or
//! not JSON declares nothing.

use vstd::prelude::*;
use zed_extension_api::serde_json::Value;

verus! {

/// The ways into a JSON value: the keys by which a value is reached from it,
/// going from an object to one of its members, zero or more times. The value
/// itself is reached by no keys.
pub type JsonPaths = Set<Seq<Seq<char>>>;

/// The ways into the member `key` of a JSON value: what is left of the ways
/// that begin with `key`.
pub open spec fn member_paths(paths: JsonPaths, key: Seq<char>) -> JsonPaths {
    Set::new(|keys: Seq<Seq<char>>| paths.contains(seq![key] + keys))
}

/// Whether a document has a member `section` with a member `package`,
/// whatever that is.
pub open spec fn lists(document: JsonPaths, section: Seq<char>, package: Seq<char>) -> bool {
    document.contains(seq![section]) && document.contains(seq![section, package])
}

/// `serde_json::Value`, a parsed JSON value. Nothing is known of one but
/// what the functions below say.
#[verifier::external_type_specification]
#[verifier::external_body]
pub struct ExValue(zed_extension_api::serde_json::Value);

/// `serde_json::Error`, the reason why a text is not JSON. It is never looked
/// into.
#[verifier::external_type_specification]
#[verifier::external_body]
pub struct ExError(zed_extension_api::serde_json::Error);

/// The ways into a parsed JSON value, as [`JsonPaths`] describes them.
pub uninterp spec fn json_paths(value: Value) -> Set<Seq<Seq<char>>>;

/// The ways into the document that a text is parsed into, or `None` where
/// the text is not JSON.
pub uninterp spec fn parsed_paths(text: Seq<char>) -> Option<Set<Seq<Seq<char>>>>;

/// Parses a text with `serde_json::from_str`, asking for a `Value`. Parsing
/// depends on the text alone: the contract gives the outcome its name,
/// [`parsed_paths`], and says nothing of which texts are JSON.
#[verifier::external_body]
fn parse(text: &str) -> (r: Result<Value, zed_extension_api::serde_json::Error>)
    ensures
        (match r {
            Ok(document) => parsed_paths(text@) == Some(json_paths(document)),
            Err(_) => parsed_paths(text@) is None,
        }),
{
    zed_extension_api::serde_json::from_str::<Value>(text)
}

/// Looks a key up with `serde_json::Value::get`. There is a result if and
/// only if the value is an object with a member of that key, be the member
/// `null` or not, and the result is that member.
#[verifier::external_body]
fn value_get<'a>(value: &'a Value, key: &str) -> (r: Option<&'a Value>)
    ensures
        r is Some <==> json_paths(*value).contains(seq![key@]),
        r matches Some(member) ==> json_paths(*member) == member_paths(json_paths(*value), key@),
{
    value.get(key)
}

/// Whether a parsed document has a member `section` with a member `package`,
/// whatever that is.
pub fn document_lists(document: &Value, section: &str, package: &str) -> (r: bool)
    ensures
        r == lists(json_paths(*document), section@, package@),
{
    match value_get(document, section) {
        Some(members) => {
            assert(seq![section@] + seq![package@] =~= seq![section@, package@]);
            value_get(members, package).is_some()
        },
        None => false,
    }
}

/// Whether a text is a JSON document that satisfies `lists`.
pub open spec fn text_lists(text: Seq<char>, section: Seq<char>, package: Seq<char>) -> bool {
    match parsed_paths(text) {
        Some(document) => lists(document, section, package),
        None => false,
    }
}

/// Whether what was read of `package.json` declares `package`.
pub open spec fn package_json_declares(
    contents: Result<Seq<char>, Seq<char>>,
    package: Seq<char>,
) -> bool {
    match contents {
        Ok(text) => text_lists(text, "dependencies"@, package) || text_lists(
            text,
            "devDependencies"@,
            package,
        ),
        Err(_) => false,
    }
}

/// Whether what was read of `deno.json` declares `package`.
pub open spec fn deno_json_declares(
    contents: Result<Seq<char>, Seq<char>>,
    package: Seq<char>,
) -> bool {
    match contents {
        Ok(text) => text_lists(text, "imports"@, package),
        Err(_) => false,
    }
}

/// The texts of a manifest that was read, or the reason why it was not.
pub open spec fn contents_view(contents: Result<String, String>) -> Result<Seq<char>, Seq<char>> {
    match contents {
        Ok(text) => Ok(text@),
        Err(reason) => Err(reason@),
    }
}

/// Whether the project declares `package`, given what was read of its two
/// manifests. A manifest that could not be read or parsed declares nothing.
pub fn worktree_dprint_binary_exists(
    package_json: &Result<String, String>,
    deno_json: &Result<String, String>,
    package: &str,
) -> (r: bool)
    ensures
        r == (package_json_declares(contents_view(*package_json), package@) || deno_json_declares(
            contents_view(*deno_json),
            package@,
        )),
{
    let is_in_package_json = match package_json {
        Ok(text) => match parse(text.as_str()) {
            Ok(document) => document_lists(&document, "dependencies", package) || document_lists(
                &document,
                "devDependencies",
                package,
            ),
            Err(_) => false,
        },
        Err(_) => false,
    };
    let is_in_deno_json = match deno_json {
        Ok(text) => match parse(text.as_str()) {
            Ok(document) => document_lists(&document, "imports", package),
            Err(_) => false,
        },
        Err(_) => false,
    };
    is_in_package_json || is_in_deno_json
}

} // verus!
