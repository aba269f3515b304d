use vstd::prelude::*;
use vstd::string::StrSliceExecFns;

use crate::text::{contains_seq, contains_str, has_prefix, starts_with_str};

verus! {

/// Prefix of a trusted content-addressed storage URL; an image link is
/// accepted only when it is empty or starts with this prefix.
pub open spec fn trusted_prefix() -> Seq<char> {
    "https://nftstorage.link/ipfs/"@
}

/// The blocklist the moderation gate is configured with: an ordered list of
/// disallowed substrings. Empty entries are placeholders and never match.
pub open spec fn default_blocklist() -> Seq<Seq<char>> {
    seq![Seq::empty(), Seq::empty()]
}

/// `text` violates the blocklist policy: some non-empty entry occurs in it
/// as a raw, case-sensitive substring.
pub open spec fn text_flagged(text: Seq<char>, blocklist: Seq<Seq<char>>) -> bool {
    exists|k: int|
        0 <= k < blocklist.len() && (#[trigger] blocklist[k]).len() > 0 && contains_seq(
            text,
            blocklist[k],
        )
}

/// Moderation gate over an injected blocklist: decides
/// `text_flagged(text@, blocklist.deep_view())`.
pub fn text_is_flagged(text: &str, blocklist: &Vec<String>) -> (r: bool)
    ensures
        r == text_flagged(text@, blocklist.deep_view()),
{
    let ghost bl = blocklist.deep_view();
    let mut k: usize = 0;
    while k < blocklist.len()
        invariant
            k <= blocklist.len(),
            bl == blocklist.deep_view(),
            bl.len() == blocklist.len(),
            forall|j: int|
                0 <= j < k ==> !((#[trigger] bl[j]).len() > 0 && contains_seq(text@, bl[j])),
        decreases blocklist.len() - k,
    {
        let word = &blocklist[k];
        if word.as_str().unicode_len() > 0 && contains_str(text, word.as_str()) {
            assert(bl[k as int].len() > 0 && contains_seq(text@, bl[k as int]));
            return true;
        }
        k += 1;
    }
    false
}

/// An all-empty blocklist flags nothing: with no non-empty entry configured,
/// the moderation gate accepts every text.
pub proof fn lemma_empty_blocklist_flags_nothing(text: Seq<char>, blocklist: Seq<Seq<char>>)
    requires
        forall|k: int| 0 <= k < blocklist.len() ==> (#[trigger] blocklist[k]).len() == 0,
    ensures
        !text_flagged(text, blocklist),
{
}

/// Moderation gate under the default configuration. The list is left empty
/// on purpose (a free-expression stance), so no text is ever flagged; the
/// configurable gate `text_is_flagged` is the extension point.
pub fn is_profane(text: &str) -> (r: bool)
    ensures
        r == text_flagged(text@, default_blocklist()),
        !r,
{
    let blocklist: Vec<String> = vec![String::new(), String::new()];
    proof {
        assert(blocklist.deep_view() =~~= default_blocklist());
        lemma_empty_blocklist_flags_nothing(text@, default_blocklist());
    }
    text_is_flagged(text, &blocklist)
}

/// An image reference is acceptable when it is empty (treated as "not
/// provided") or starts with the trusted storage prefix; exact prefix match,
/// no normalization.
pub open spec fn link_ok(link: Seq<char>) -> bool {
    link.len() == 0 || has_prefix(link, trusted_prefix())
}

/// Link validator: decides `link_ok(link@)`.
pub fn is_nft_storage_link(link: &str) -> (r: bool)
    ensures
        r == link_ok(link@),
{
    if link.unicode_len() == 0 {
        true
    } else {
        starts_with_str(link, "https://nftstorage.link/ipfs/")
    }
}

} // verus!
