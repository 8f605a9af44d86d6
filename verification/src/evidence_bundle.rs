//! The fixed ten-tag evidence bundle.
//!
//! A tag is a 32-bit value, written as eight lowercase hex digits. A bundle
//! is complete when it holds exactly ten tags and every tag of the registry
//! is among them.

use vstd::prelude::*;
use crate::reason::DenyReason;
use crate::text::{hex_digit, hex_encode, hex_text};

verus! {

/// Number of tags in a complete bundle.
pub const BUNDLE_TAGS: usize = 10;

/// An evidence bundle as submitted: any number of tags, in order.
#[derive(Clone, Debug)]
pub struct EvidenceBundle {
    pub tags: Vec<u32>,
}

/// The registry of required tags.
pub open spec fn required_tags() -> Seq<u32> {
    seq![
        0xa1f3c9b2u32,
        0x4be79d01u32,
        0x9cd4a7e8u32,
        0x2f8c6b44u32,
        0x7e1da2ffu32,
        0x5b93e0c3u32,
        0xd0174aacu32,
        0x6ac2f9d9u32,
        0xc4e61b20u32,
        0x8f09d5eeu32,
    ]
}

/// The registry of required tags.
pub fn required_tag_list() -> (r: [u32; 10])
    ensures
        r@ == required_tags(),
{
    let r: [u32; 10] = [
        0xa1f3c9b2u32,
        0x4be79d01u32,
        0x9cd4a7e8u32,
        0x2f8c6b44u32,
        0x7e1da2ffu32,
        0x5b93e0c3u32,
        0xd0174aacu32,
        0x6ac2f9d9u32,
        0xc4e61b20u32,
        0x8f09d5eeu32,
    ];
    assert(r@ =~= required_tags());
    r
}

/// Whether every required tag occurs among `tags`.
pub open spec fn all_required_present(tags: Seq<u32>) -> bool {
    forall|i: int| 0 <= i < required_tags().len() ==> tags.contains(#[trigger] required_tags()[i])
}

/// Verdict on a bundle. A missing required tag is reported before a wrong
/// tag count.
pub open spec fn evidence_verdict(tags: Seq<u32>) -> Result<(), DenyReason> {
    if !all_required_present(tags) {
        Err(DenyReason::MissingRequiredTags)
    } else if tags.len() != BUNDLE_TAGS {
        Err(DenyReason::WrongCardinality)
    } else {
        Ok(())
    }
}

/// Whether `tag` occurs among `tags`.
fn holds_tag(tags: &Vec<u32>, tag: u32) -> (r: bool)
    ensures
        r == tags@.contains(tag),
{
    let mut j: usize = 0;
    while j < tags.len()
        invariant
            j <= tags.len(),
            forall|k: int| 0 <= k < j ==> tags@[k] != tag,
        decreases tags.len() - j,
    {
        if tags[j] == tag {
            return true;
        }
        j += 1;
    }
    false
}

/// Checks an evidence bundle: all ten required tags present, and exactly
/// ten tags in all.
pub fn enforce_evidence_bundle(bundle: &EvidenceBundle) -> (r: Result<(), DenyReason>)
    ensures
        r == evidence_verdict(bundle.tags@),
{
    let required = required_tag_list();
    let mut i: usize = 0;
    while i < 10
        invariant
            i <= 10,
            required@ == required_tags(),
            forall|k: int| 0 <= k < i ==> bundle.tags@.contains(#[trigger] required_tags()[k]),
        decreases 10 - i,
    {
        if !holds_tag(&bundle.tags, required[i]) {
            return Err(DenyReason::MissingRequiredTags);
        }
        i += 1;
    }
    if bundle.tags.len() != BUNDLE_TAGS {
        return Err(DenyReason::WrongCardinality);
    }
    Ok(())
}

/// A complete bundle is the registry itself in some order: it holds no tag
/// twice and no tag from outside the registry.
pub proof fn lemma_complete_bundle_is_registry(tags: Seq<u32>)
    requires
        evidence_verdict(tags) is Ok,
    ensures
        tags.no_duplicates(),
        tags.to_set() == required_tags().to_set(),
        forall|i: int| 0 <= i < tags.len() ==> required_tags().contains(#[trigger] tags[i]),
{
    broadcast use vstd::seq_lib::seq_to_set_is_finite;

    let required = required_tags();
    assert(required.no_duplicates());
    required.unique_seq_to_set();
    tags.lemma_cardinality_of_set();
    assert(required.to_set().subset_of(tags.to_set())) by {
        assert forall|t: u32| required.to_set().contains(t) implies tags.to_set().contains(t) by {
            let k = choose|k: int| 0 <= k < required.len() && required[k] == t;
            assert(tags.contains(required[k]));
        }
    }
    vstd::set_lib::lemma_len_subset(required.to_set(), tags.to_set());
    vstd::set_lib::lemma_subset_equality(required.to_set(), tags.to_set());
    tags.lemma_no_dup_set_cardinality();
    assert forall|i: int| 0 <= i < tags.len() implies required.contains(#[trigger] tags[i]) by {
        assert(tags.to_set().contains(tags[i]));
        assert(required.to_set().contains(tags[i]));
    }
}

/// A bundle of fewer than ten tags misses a required tag, whatever its
/// tags are.
pub proof fn lemma_short_bundle_misses_a_tag(tags: Seq<u32>)
    requires
        tags.len() < BUNDLE_TAGS,
    ensures
        evidence_verdict(tags) == Err::<(), _>(DenyReason::MissingRequiredTags),
{
    broadcast use vstd::seq_lib::seq_to_set_is_finite;

    if all_required_present(tags) {
        let required = required_tags();
        assert(required.no_duplicates());
        required.unique_seq_to_set();
        tags.lemma_cardinality_of_set();
        assert(required.to_set().subset_of(tags.to_set())) by {
            assert forall|t: u32| required.to_set().contains(t) implies tags.to_set().contains(
                t,
            ) by {
                let k = choose|k: int| 0 <= k < required.len() && required[k] == t;
                assert(tags.contains(required[k]));
            }
        }
        vstd::set_lib::lemma_len_subset(required.to_set(), tags.to_set());
    }
}

/// A bundle that holds every required tag and does not hold exactly ten
/// tags is denied for its cardinality.
pub proof fn lemma_long_bundle_has_wrong_cardinality(tags: Seq<u32>)
    requires
        all_required_present(tags),
        tags.len() != BUNDLE_TAGS,
    ensures
        tags.len() > BUNDLE_TAGS,
        evidence_verdict(tags) == Err::<(), _>(DenyReason::WrongCardinality),
{
    if tags.len() < BUNDLE_TAGS {
        lemma_short_bundle_misses_a_tag(tags);
    }
}

/// The four bytes of a tag, most significant first.
pub open spec fn tag_bytes(tag: u32) -> Seq<u8> {
    seq![
        (tag / 0x100_0000) as u8,
        (tag / 0x1_0000 % 0x100) as u8,
        (tag / 0x100 % 0x100) as u8,
        (tag % 0x100) as u8,
    ]
}

/// The eight hex digits of a tag.
pub open spec fn tag_hex(tag: u32) -> Seq<char> {
    hex_text(tag_bytes(tag))
}

/// Writes a tag as eight lowercase hex digits.
pub fn hex_tag(tag: u32) -> (r: String)
    ensures
        r@ == tag_hex(tag),
        r@.len() == 8,
{
    let bytes: [u8; 4] = [
        (tag / 0x100_0000) as u8,
        (tag / 0x1_0000 % 0x100) as u8,
        (tag / 0x100 % 0x100) as u8,
        (tag % 0x100) as u8,
    ];
    assert(bytes@ =~= tag_bytes(tag));
    hex_encode(bytes.as_slice())
}

/// The registry written as hex text.
pub open spec fn required_hex() -> Seq<Seq<char>> {
    seq![
        "a1f3c9b2"@,
        "4be79d01"@,
        "9cd4a7e8"@,
        "2f8c6b44"@,
        "7e1da2ff"@,
        "5b93e0c3"@,
        "d0174aac"@,
        "6ac2f9d9"@,
        "c4e61b20"@,
        "8f09d5ee"@,
    ]
}

/// The hex text of a tag holds, for each of its four bytes in turn, the
/// digit of the high half and the digit of the low half.
proof fn lemma_tag_text(tag: u32, text: Seq<char>)
    requires
        text.len() == 8,
        text[0] == hex_digit(tag_bytes(tag)[0] as int / 16),
        text[1] == hex_digit(tag_bytes(tag)[0] as int % 16),
        text[2] == hex_digit(tag_bytes(tag)[1] as int / 16),
        text[3] == hex_digit(tag_bytes(tag)[1] as int % 16),
        text[4] == hex_digit(tag_bytes(tag)[2] as int / 16),
        text[5] == hex_digit(tag_bytes(tag)[2] as int % 16),
        text[6] == hex_digit(tag_bytes(tag)[3] as int / 16),
        text[7] == hex_digit(tag_bytes(tag)[3] as int % 16),
    ensures
        tag_hex(tag) == text,
{
    let h = tag_hex(tag);
    assert(h.len() == 8);
    assert(h[0] == text[0]);
    assert(h[1] == text[1]);
    assert(h[2] == text[2]);
    assert(h[3] == text[3]);
    assert(h[4] == text[4]);
    assert(h[5] == text[5]);
    assert(h[6] == text[6]);
    assert(h[7] == text[7]);
    assert(h =~= text);
}

/// The hex text of each tag of the registry is the text by which the tag
/// is known.
pub proof fn lemma_registry_hex()
    ensures
        forall|i: int| 0 <= i < 10 ==> tag_hex(#[trigger] required_tags()[i]) == required_hex()[i],
{
    assert(tag_hex(0xa1f3c9b2u32) == "a1f3c9b2"@) by {
        reveal_strlit("a1f3c9b2");
        lemma_tag_text(0xa1f3c9b2u32, "a1f3c9b2"@);
    }
    assert(tag_hex(0x4be79d01u32) == "4be79d01"@) by {
        reveal_strlit("4be79d01");
        lemma_tag_text(0x4be79d01u32, "4be79d01"@);
    }
    assert(tag_hex(0x9cd4a7e8u32) == "9cd4a7e8"@) by {
        reveal_strlit("9cd4a7e8");
        lemma_tag_text(0x9cd4a7e8u32, "9cd4a7e8"@);
    }
    assert(tag_hex(0x2f8c6b44u32) == "2f8c6b44"@) by {
        reveal_strlit("2f8c6b44");
        lemma_tag_text(0x2f8c6b44u32, "2f8c6b44"@);
    }
    assert(tag_hex(0x7e1da2ffu32) == "7e1da2ff"@) by {
        reveal_strlit("7e1da2ff");
        lemma_tag_text(0x7e1da2ffu32, "7e1da2ff"@);
    }
    assert(tag_hex(0x5b93e0c3u32) == "5b93e0c3"@) by {
        reveal_strlit("5b93e0c3");
        lemma_tag_text(0x5b93e0c3u32, "5b93e0c3"@);
    }
    assert(tag_hex(0xd0174aacu32) == "d0174aac"@) by {
        reveal_strlit("d0174aac");
        lemma_tag_text(0xd0174aacu32, "d0174aac"@);
    }
    assert(tag_hex(0x6ac2f9d9u32) == "6ac2f9d9"@) by {
        reveal_strlit("6ac2f9d9");
        lemma_tag_text(0x6ac2f9d9u32, "6ac2f9d9"@);
    }
    assert(tag_hex(0xc4e61b20u32) == "c4e61b20"@) by {
        reveal_strlit("c4e61b20");
        lemma_tag_text(0xc4e61b20u32, "c4e61b20"@);
    }
    assert(tag_hex(0x8f09d5eeu32) == "8f09d5ee"@) by {
        reveal_strlit("8f09d5ee");
        lemma_tag_text(0x8f09d5eeu32, "8f09d5ee"@);
    }
}

impl EvidenceBundle {
    /// The tags of the bundle as hex text, in order.
    pub fn hex_tags(&self) -> (r: Vec<String>)
        ensures
            r@.len() == self.tags@.len(),
            forall|i: int| 0 <= i < r@.len() ==> (#[trigger] r@[i])@ == tag_hex(self.tags@[i]),
    {
        let mut out: Vec<String> = Vec::new();
        let mut i: usize = 0;
        while i < self.tags.len()
            invariant
                i <= self.tags.len(),
                out@.len() == i,
                forall|k: int| 0 <= k < i ==> (#[trigger] out@[k])@ == tag_hex(self.tags@[k]),
            decreases self.tags.len() - i,
        {
            out.push(hex_tag(self.tags[i]));
            i += 1;
        }
        out
    }
}

} // verus!
