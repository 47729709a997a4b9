//! Redaction of secrets for diagnostic output.

use vstd::prelude::*;
use vstd::string::*;

verus! {

/// The character that stands for every hidden character of a secret.
pub const MASK: char = '*';

/// A run of `n` mask characters.
pub open spec fn mask_run(n: nat) -> Seq<char> {
    Seq::new(n, |i: int| MASK)
}

/// The displayed form of `key` when the first `keep` characters may be shown.
///
/// A key that is no longer than `keep` is hidden entirely. A longer key keeps
/// its first `keep` characters, and each of the others becomes a mask
/// character.
pub open spec fn censored(key: Seq<char>, keep: nat) -> Seq<char> {
    if key.len() <= keep {
        mask_run(key.len())
    } else {
        key.subrange(0, keep as int) + mask_run((key.len() - keep) as nat)
    }
}

/// Redaction keeps the length of the secret. It shows a character only
/// where the secret is longer than `keep` and the position lies before
/// `keep`; it hides every other position behind the mask character.
pub proof fn lemma_censored_shape(key: Seq<char>, keep: nat)
    ensures
        censored(key, keep).len() == key.len(),
        forall|i: int|
            0 <= i < key.len() ==> #[trigger] censored(key, keep)[i] == (if keep < key.len() && i
                < keep {
                key[i]
            } else {
                MASK
            }),
{
}

/// Of a secret that is no longer than `keep`, the displayed form gives away
/// the length and nothing else.
pub proof fn lemma_short_secret_is_hidden(key: Seq<char>, other: Seq<char>, keep: nat)
    requires
        key.len() <= keep,
        other.len() == key.len(),
    ensures
        censored(key, keep) == censored(other, keep),
{
}

/// Returns `key` with everything but its first `keep_first_n_chars`
/// characters masked, or fully masked when it is no longer than that.
pub fn censor_key(key: &str, keep_first_n_chars: usize) -> (shown: String)
    ensures
        shown@ == censored(key@, keep_first_n_chars as nat),
{
    let len: usize = key.unicode_len();
    let kept: usize = if len <= keep_first_n_chars { 0 } else { keep_first_n_chars };
    let mut shown = String::from_str(key.substring_char(0, kept));
    let mut masked: usize = 0;
    while masked < len - kept
        invariant
            kept <= len,
            len == key@.len(),
            masked <= len - kept,
            shown@ == key@.subrange(0, kept as int) + mask_run(masked as nat),
        decreases len - kept - masked,
    {
        proof {
            reveal_strlit("*");
        }
        shown.append("*");
        masked = masked + 1;
    }
    shown
}

} // verus!
