use vstd::prelude::*;

verus! {

/// `c` is one of `0-9` or `a-f`.
pub open spec fn is_lower_hex_digit(c: char) -> bool {
    ||| ('0' as int) <= (c as int) <= ('9' as int)
    ||| ('a' as int) <= (c as int) <= ('f' as int)
}

/// `s` is the hyphenated lower-case text of a random (version 4, RFC 4122
/// variant) UUID: `xxxxxxxx-xxxx-4xxx-Vxxx-xxxxxxxxxxxx`, `V` one of `8 9 a b`.
pub open spec fn is_uuid_v4_text(s: Seq<char>) -> bool {
    &&& s.len() == 36
    &&& forall|i: int|
        0 <= i < 36 ==> if i == 8 || i == 13 || i == 18 || i == 23 {
            #[trigger] s[i] == '-'
        } else {
            is_lower_hex_digit(s[i])
        }
    &&& s[14] == '4'
    &&& (s[19] == '8' || s[19] == '9' || s[19] == 'a' || s[19] == 'b')
}

/// `id` is `prefix` followed by the text of a random UUID.
pub open spec fn is_generated_id(prefix: Seq<char>, id: Seq<char>) -> bool {
    &&& id.len() == prefix.len() + 36
    &&& id.subrange(0, prefix.len() as int) == prefix
    &&& is_uuid_v4_text(id.subrange(prefix.len() as int, id.len() as int))
}

/// The text of one UUID drawn from uuid's random source. Its field is private
/// to this module, and only `fresh_id` makes one, from the text that the draw
/// returned: a `UuidDraw` stands for a draw that actually took place.
pub struct UuidDraw {
    text: Seq<char>,
}

impl UuidDraw {
    /// The text of the drawn UUID.
    pub closed spec fn text(self) -> Seq<char> {
        self.text
    }
}

/// `id` is `prefix` followed by the text of a UUID that was drawn.
pub open spec fn is_drawn_id(prefix: Seq<char>, id: Seq<char>) -> bool {
    exists|u: UuidDraw| id == prefix + #[trigger] u.text()
}

/// Calls `uuid::Uuid::new_v4()` and renders it with its `Display` impl.
/// The bytes come from the operating system's random source, so only their
/// shape is claimed: uuid formats the value hyphenated in lower-case hex,
/// with the version nibble forced to 4 and the variant bits to `10`.
/// uuid panics when the operating system cannot supply random bytes.
#[verifier::external_body]
fn uuid_v4_text() -> (text: String)
    ensures
        is_uuid_v4_text(text@),
{
    uuid::Uuid::new_v4().to_string()
}

/// A new identifier: `prefix` followed by a random UUID.
pub(crate) fn fresh_id(prefix: &str) -> (id: String)
    ensures
        is_generated_id(prefix@, id@),
        is_drawn_id(prefix@, id@),
{
    let unique = uuid_v4_text();
    let mut id = prefix.to_owned();
    id.append(unique.as_str());
    proof {
        assert(id@.subrange(0, prefix@.len() as int) =~= prefix@);
        assert(id@.subrange(prefix@.len() as int, id@.len() as int) =~= unique@);
        let draw = UuidDraw { text: unique@ };
        assert(id@ == prefix@ + draw.text());
    }
    id
}

} // verus!
