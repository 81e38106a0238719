use vstd::prelude::*;
use vstd::string::*;

verus! {

/// A lowercase hexadecimal digit.
pub open spec fn is_lower_hex(c: char) -> bool {
    ('0' <= c && c <= '9') || ('a' <= c && c <= 'f')
}

/// The text of a random (version 4) UUID in hyphenated form: 36 characters,
/// hyphens at 8, 13, 18 and 23, lowercase hex digits elsewhere, the version
/// digit 4 at 14 and a variant digit among 8, 9, a, b at 19.
pub open spec fn uuid_v4_text(s: Seq<char>) -> bool {
    &&& s.len() == 36
    &&& forall|i: int|
        0 <= i < 36 ==> if i == 8 || i == 13 || i == 18 || i == 23 {
            s[i] == '-'
        } else {
            is_lower_hex(#[trigger] s[i])
        }
    &&& s[14] == '4'
    &&& (s[19] == '8' || s[19] == '9' || s[19] == 'a' || s[19] == 'b')
}

/// Calls `uuid::Uuid::new_v4` and writes the UUID with its `Display` impl,
/// which uuid writes in lowercase hyphenated form. The UUID is random: only
/// its shape is stated.
#[verifier::external_body]
fn random_uuid_text() -> (s: String)
    ensures
        uuid_v4_text(s@),
{
    uuid::Uuid::new_v4().to_string()
}

/// A correlation id: "slap-" followed by a random UUID.
pub open spec fn correlation_id_text(s: Seq<char>) -> bool {
    &&& s.len() == 41
    &&& s.subrange(0, 5) == "slap-"@
    &&& uuid_v4_text(s.subrange(5, 41))
}

/// A fresh correlation id for an outgoing event.
pub fn new_correlation_id() -> (id: String)
    ensures
        correlation_id_text(id@),
{
    proof {
        reveal_strlit("slap-");
    }
    let u = random_uuid_text();
    let id = String::from_str("slap-").concat(u.as_str());
    assert(id@.subrange(0, 5) =~= "slap-"@);
    assert(id@.subrange(5, 41) =~= u@);
    id
}

} // verus!
