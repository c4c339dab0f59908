//! Record identifiers: 32 lowercase hexadecimal characters.

use vstd::prelude::*;

verus! {

/// The number of characters of an identifier.
pub const IDENTIFIER_LEN: usize = 32;

/// A lowercase hexadecimal digit.
pub open spec fn is_lower_hex(c: char) -> bool {
    ('0' <= c && c <= '9') || ('a' <= c && c <= 'f')
}

/// The shape of a generated identifier: 32 lowercase hexadecimal digits, the
/// thirteenth of them the version digit `4`, the seventeenth one of the four
/// digits that mark the standard variant.
pub open spec fn is_identifier(s: Seq<char>) -> bool {
    &&& s.len() == IDENTIFIER_LEN
    &&& forall|i: int| 0 <= i < s.len() ==> is_lower_hex(#[trigger] s[i])
    &&& s[12] == '4'
    &&& (s[16] == '8' || s[16] == '9' || s[16] == 'a' || s[16] == 'b')
}

/// A new random identifier: `uuid::Uuid::new_v4`, written in the crate's
/// simple lowercase form by `Simple::encode_lower`. The value is random, so
/// the contract states only its shape, which holds of every version 4
/// identifier in that form; nothing is claimed about which one comes back,
/// nor that two calls differ. The call depends on the operating system's
/// random source being there.
#[verifier::external_body]
pub(crate) fn fresh_identifier() -> (id: String)
    ensures
        is_identifier(id@),
{
    let mut buffer = uuid::Uuid::encode_buffer();
    String::from(&*uuid::Uuid::new_v4().simple().encode_lower(&mut buffer))
}

/// An identifier is never empty.
pub proof fn lemma_identifier_nonempty(s: Seq<char>)
    requires
        is_identifier(s),
    ensures
        s.len() > 0,
{
}

} // verus!
