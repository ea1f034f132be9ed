//! The sentinel content that asks for the "hide" rule.

use vstd::prelude::*;
use vstd::string::*;
use vstd::utf8::*;

verus! {

/// The byte that encodes `-`.
const HYPHEN_MINUS: u8 = 0x2d;

/// The message text that means "hide": a single hyphen-minus.
pub open spec fn hide_sentinel() -> Seq<char> {
    seq!['-']
}

/// Whether `content` is exactly the sentinel.
pub fn is_hide_sentinel(content: &str) -> (hit: bool)
    ensures
        hit == (content@ == hide_sentinel()),
{
    let bytes = content.as_bytes();
    if bytes.len() != 1 {
        proof {
            if content@ == hide_sentinel() {
                is_ascii_chars_encode_utf8(content@);
            }
        }
        return false;
    }
    if !content.is_ascii() {
        return false;
    }
    proof {
        is_ascii_chars_encode_utf8(content@);
    }
    assert(content@ =~= seq![content@[0]]);
    bytes[0] == HYPHEN_MINUS
}

} // verus!
