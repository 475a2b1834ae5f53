//! Which keys flap.
use vstd::prelude::*;
use vstd::string::StringSliceAdditionalSpecFns;

verus! {

/// Whether two byte strings are the same.
pub fn same_bytes(a: &[u8], b: &[u8]) -> (same: bool)
    ensures
        same == (a@ == b@),
{
    let n: usize = a.len();
    if n != b.len() {
        return false;
    }
    let mut i: usize = 0;
    while i < n
        invariant
            i <= n,
            n == a@.len(),
            n == b@.len(),
            forall|k: int| 0 <= k < i ==> a@[k] == b@[k],
        decreases n - i,
    {
        if a[i] != b[i] {
            return false;
        }
        i += 1;
    }
    assert(a@ =~= b@);
    true
}

/// Whether the text `text` is the text `word`.
pub fn is_word(text: &str, word: &str) -> (same: bool)
    ensures
        same == (text.spec_bytes() == word.spec_bytes()),
{
    same_bytes(text.as_bytes(), word.as_bytes())
}

/// Whether a key press flaps in the screen-relative game: the space bar,
/// known by the code of the key or by the character it types, and not a press
/// that the keyboard repeats.
pub fn is_flap_key(code: &str, key: &str, repeat: bool) -> (flap: bool)
    ensures
        flap == (!repeat && (code.spec_bytes() == "Space".spec_bytes() || key.spec_bytes()
            == " ".spec_bytes())),
{
    !repeat && (is_word(code, "Space") || is_word(key, " "))
}

/// Whether a key press jumps in the letterboxed game: the space bar or the
/// up arrow, and not a press that the keyboard repeats.
pub fn is_jump_key(code: &str, repeat: bool) -> (jump: bool)
    ensures
        jump == (!repeat && (code.spec_bytes() == "Space".spec_bytes() || code.spec_bytes()
            == "ArrowUp".spec_bytes())),
{
    !repeat && (is_word(code, "Space") || is_word(code, "ArrowUp"))
}

} // verus!
