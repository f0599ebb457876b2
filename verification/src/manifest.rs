//! Reading the installed package names out of the workspace manifest.
//!
//! The caller reads the manifest file, if it exists, and hands its text in;
//! an absent file is a normal state and yields an empty list.  The document
//! itself is parsed by serde_json behind one trusted wrapper; what that
//! parse yields is named by two uninterpreted spec functions, and the
//! library's own logic is verified against those names.

use vstd::prelude::*;
use vstd::string::*;

verus! {

/// Whether `doc` is a well-formed JSON document.  Names what
/// `serde_json::from_str` accepts; it depends on the document alone.
pub uninterp spec fn json_parses(doc: Seq<char>) -> bool;

/// The keys, in storage order, of the object held by the top-level member
/// named `member` of the JSON document `doc`; `None` where `doc`'s top-level
/// value has no such member or the member's value is not an object.  Names
/// what serde_json's parse and member lookup yield; it depends on the
/// document and the member name alone.
pub uninterp spec fn json_member_keys(doc: Seq<char>, member: Seq<char>) -> Option<Seq<Seq<char>>>;

/// The views of a sequence of strings.
pub open spec fn views_of(v: Seq<String>) -> Seq<Seq<char>> {
    v.map_values(|s: String| s@)
}

/// Whether the strings a wrapper handed out match the named keys: present
/// exactly together, and equal element by element.
pub open spec fn keys_match(found: Option<Vec<String>>, keys: Option<Seq<Seq<char>>>) -> bool {
    match (found, keys) {
        (Option::Some(v), Option::Some(ks)) => views_of(v@) == ks,
        (Option::None, Option::None) => true,
        _ => false,
    }
}

/// Relies on serde_json::from_str, serde_json::Value::get,
/// serde_json::Value::as_object and serde_json::Map::keys: parses `doc` as
/// JSON and, when the top-level value has a member named `member` whose value
/// is an object, hands out that object's keys in storage order.  An error
/// carries serde_json's own message for the malformed document.
#[verifier::external_body]
fn parse_member_keys(doc: &str, member: &str) -> (r: Result<Option<Vec<String>>, String>)
    ensures
        r is Ok <==> json_parses(doc@),
        r matches Ok(found) ==> keys_match(found, json_member_keys(doc@, member@)),
{
    let parsed: serde_json::Value = match serde_json::from_str(doc) {
        Ok(v) => v,
        Err(e) => return Err(format!("{}", e)),
    };
    let member_value = match parsed.get(member) {
        Some(v) => v,
        None => return Ok(None),
    };
    match member_value.as_object() {
        Some(obj) => Ok(Some(obj.keys().cloned().collect())),
        None => Ok(None),
    }
}

/// A failure of the manifest read; each variant carries the failing step's
/// own error text.
#[derive(Debug)]
pub enum ManifestError {
    /// The manifest file exists but could not be read.
    Read(String),
    /// The manifest file was read but is not well-formed JSON.
    Parse(String),
}

impl ManifestError {
    /// The message for this error: the failing step's fixed prefix, then the
    /// step's own error text.
    pub open spec fn message_text(&self) -> Seq<char> {
        match self {
            ManifestError::Read(d) => "Failed to read package.json: "@ + d@,
            ManifestError::Parse(d) => "Failed to parse package.json: "@ + d@,
        }
    }

    /// Renders the error as its descriptive message.
    pub fn message(&self) -> (r: String)
        ensures
            r@ == self.message_text(),
    {
        match self {
            ManifestError::Read(d) => {
                "Failed to read package.json: ".to_owned().concat(d.as_str())
            },
            ManifestError::Parse(d) => {
                "Failed to parse package.json: ".to_owned().concat(d.as_str())
            },
        }
    }
}

/// The installed package names declared by the manifest document `doc`: the
/// keys of its top-level `dependencies` object, in storage order, or no
/// names at all where that member is absent or not an object.
pub open spec fn installed_names(doc: Seq<char>) -> Seq<Seq<char>> {
    match json_member_keys(doc, "dependencies"@) {
        Option::Some(ks) => ks,
        Option::None => Seq::empty(),
    }
}

/// Lists the installed package names.  `content` is the manifest document's
/// text, or `None` where the manifest file does not exist: a workspace that
/// was never initialized has nothing installed, which is a normal state, not
/// an error.  A document that is not well-formed JSON is a hard error; a
/// well-formed document without a `dependencies` object yields an empty
/// list.
pub fn list_installed(content: Option<&str>) -> (r: Result<Vec<String>, ManifestError>)
    ensures
        content is None ==> (r matches Ok(v) && v@.len() == 0),
        content matches Some(doc) ==> (r is Ok <==> json_parses(doc@)),
        content matches Some(doc) ==> (r matches Ok(v) ==> views_of(v@) == installed_names(
            doc@,
        )),
        r matches Err(e) ==> e is Parse,
{
    match content {
        None => {
            let empty: Vec<String> = Vec::new();
            proof {
                assert(views_of(empty@) =~= Seq::<Seq<char>>::empty());
            }
            Ok(empty)
        },
        Some(doc) => match parse_member_keys(doc, "dependencies") {
            Err(d) => Err(ManifestError::Parse(d)),
            Ok(Some(keys)) => Ok(keys),
            Ok(None) => {
                let empty: Vec<String> = Vec::new();
                proof {
                    assert(views_of(empty@) =~= Seq::<Seq<char>>::empty());
                }
                Ok(empty)
            },
        },
    }
}

} // verus!
