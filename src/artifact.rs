//! Names of the output artifacts: one file per successful batch, named by a
//! random 128-bit identifier so that two runs never collide.

use vstd::prelude::*;

verus! {

#[verifier::external_type_specification]
#[verifier::external_body]
pub struct ExUuid(uuid::Uuid);

/// A fresh random (version 4) identifier; nothing is known of its value.
pub assume_specification[ uuid::Uuid::new_v4 ]() -> uuid::Uuid;

/// A lowercase hexadecimal digit.
pub open spec fn is_hex_digit(c: char) -> bool {
    ('0' <= c && c <= '9') || ('a' <= c && c <= 'f')
}

/// The hyphenated text form of a 128-bit identifier: 36 characters, with
/// hyphens at positions 8, 13, 18 and 23 and lowercase hexadecimal digits
/// everywhere else.
pub open spec fn is_hyphenated_id(s: Seq<char>) -> bool {
    &&& s.len() == 36
    &&& forall|i: int|
        0 <= i < 36 ==> if i == 8 || i == 13 || i == 18 || i == 23 {
            #[trigger] s[i] == '-'
        } else {
            is_hex_digit(s[i])
        }
}

/// Relies on uuid's `Uuid::hyphenated` and its `Display`: the identifier's
/// sixteen bytes as 32 lowercase hexadecimal digits in groups of 8, 4, 4, 4
/// and 12, joined by hyphens.
#[verifier::external_body]
fn hyphenated_text(id: &uuid::Uuid) -> (s: String)
    ensures
        is_hyphenated_id(s@),
{
    id.hyphenated().to_string()
}

/// The file name under which the artifact of identifier `id` is stored.
pub fn artifact_file_name(id: &str) -> (name: String)
    ensures
        name@ == id@ + ".json"@,
{
    String::from_str(id).concat(".json")
}

/// A new artifact file name: a fresh random identifier in hyphenated form,
/// followed by `.json`.
pub fn new_artifact_name() -> (name: String)
    ensures
        name@.len() == 36 + ".json"@.len(),
        is_hyphenated_id(name@.subrange(0, 36)),
        name@.subrange(36, name@.len() as int) == ".json"@,
{
    let id = uuid::Uuid::new_v4();
    let text = hyphenated_text(&id);
    let name = artifact_file_name(text.as_str());
    assert(name@.subrange(0, 36) =~= text@);
    assert(name@.subrange(36, name@.len() as int) =~= ".json"@);
    name
}

} // verus!
