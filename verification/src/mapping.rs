//! The canonical mapping of an enumeration: for each tag the text under
//! which it is stored, and for stored bytes the tag that they name.

use vstd::prelude::*;
use vstd::string::*;
use vstd::utf8::*;

use crate::case_style::{stylize_value, stylized, CaseStyle};
use crate::enum_spec::{EnumSpec, EnumSpecView, TagSpec, TagSpecView};
use crate::error::{DataError, DataErrorView};
use crate::text::{bytes_eq, lemma_encoding_injective, lossy_text_of, render_lossy};

verus! {

impl TagSpecView {
    /// The text under which the tag is stored: its override where it has
    /// one, whatever the style, and else its identifier recast in `style`.
    pub open spec fn canonical(self, style: CaseStyle) -> Seq<char> {
        match self.rename_override {
            Some(text) => text,
            None => stylized(self.identifier, style),
        }
    }
}

impl TagSpec {
    /// The text under which the tag is stored. The identifier is recast only
    /// where the tag has no override.
    pub fn canonical(&self, style: CaseStyle) -> (text: String)
        ensures
            text@ == self@.canonical(style),
    {
        match &self.rename_override {
            Some(text) => text.clone(),
            None => stylize_value(self.identifier.as_str(), style),
        }
    }
}

/// A tag with an override is stored under the override in every style.
pub proof fn lemma_override_precedence(tag: TagSpecView, text: Seq<char>, style: CaseStyle)
    requires
        tag.rename_override == Some(text),
    ensures
        tag.canonical(style) == text,
{
}

/// One line of the mapping: a tag and the text under which it is stored.
#[derive(Clone, Debug, PartialEq, Eq)]
pub struct TagEntry {
    pub identifier: String,
    pub canonical: String,
}

/// A [`TagEntry`] with its texts as sequences of characters.
pub struct TagEntryView {
    pub identifier: Seq<char>,
    pub canonical: Seq<char>,
}

impl View for TagEntry {
    type V = TagEntryView;

    open spec fn view(&self) -> TagEntryView {
        TagEntryView { identifier: self.identifier@, canonical: self.canonical@ }
    }
}

/// The mapping between the tags of one enumeration and their stored texts.
/// The entries stand in the order of the tags, so that the position of an
/// entry is the number of its tag.
#[derive(Clone, Debug, PartialEq, Eq)]
pub struct CanonicalMapping {
    pub enum_name: String,
    pub entries: Vec<TagEntry>,
}

/// A [`CanonicalMapping`] with its texts as sequences of characters.
pub struct CanonicalMappingView {
    pub enum_name: Seq<char>,
    pub entries: Seq<TagEntryView>,
}

/// The views of a sequence of entries.
pub open spec fn entry_views(entries: Seq<TagEntry>) -> Seq<TagEntryView> {
    Seq::new(entries.len(), |i: int| entries[i]@)
}

impl View for CanonicalMapping {
    type V = CanonicalMappingView;

    open spec fn view(&self) -> CanonicalMappingView {
        CanonicalMappingView { enum_name: self.enum_name@, entries: entry_views(self.entries@) }
    }
}

/// The position of the last entry that is stored as exactly `bytes`, if
/// there is one.
pub open spec fn last_match(entries: Seq<TagEntryView>, bytes: Seq<u8>) -> Option<int>
    decreases entries.len(),
{
    if entries.len() == 0 {
        None
    } else if encode_utf8(entries.last().canonical) == bytes {
        Some(entries.len() - 1)
    } else {
        last_match(entries.drop_last(), bytes)
    }
}

/// `last_match` finds the greatest position of an entry stored as `bytes`.
pub proof fn lemma_last_match(entries: Seq<TagEntryView>, bytes: Seq<u8>)
    ensures
        match last_match(entries, bytes) {
            Some(i) => 0 <= i < entries.len() && encode_utf8(entries[i].canonical) == bytes
                && forall|j: int|
                i < j < entries.len() ==> encode_utf8(entries[j].canonical) != bytes,
            None => forall|j: int|
                0 <= j < entries.len() ==> encode_utf8(entries[j].canonical) != bytes,
        },
    decreases entries.len(),
{
    if entries.len() > 0 && encode_utf8(entries.last().canonical) != bytes {
        let front = entries.drop_last();
        lemma_last_match(front, bytes);
        assert(forall|j: int| 0 <= j < front.len() ==> front[j] == entries[j]);
    }
}

impl CanonicalMappingView {
    /// The bytes under which the tag at position `tag` is stored.
    pub open spec fn encoded(self, tag: int) -> Seq<u8> {
        encode_utf8(self.entries[tag].canonical)
    }

    /// The tag that `bytes` name: the last whose stored bytes are exactly
    /// `bytes`.
    pub open spec fn decoded(self, bytes: Seq<u8>) -> Option<int> {
        last_match(self.entries, bytes)
    }

    /// Whether a tag declared after `tag` is stored under the same text.
    pub open spec fn shadowed(self, tag: int) -> bool {
        exists|j: int|
            tag < j < self.entries.len() && (#[trigger] self.entries[j]).canonical
                == self.entries[tag].canonical
    }
}

/// The mapping of a checked enumeration: every tag has an entry, at its own
/// position, with the text that its override or the case style gives.
pub open spec fn canonical_mapping_of(spec: EnumSpecView) -> CanonicalMappingView {
    CanonicalMappingView {
        enum_name: spec.name,
        entries: Seq::new(
            spec.tags.len(),
            |i: int|
                TagEntryView {
                    identifier: spec.tags[i].identifier,
                    canonical: spec.tags[i].canonical(spec.config.case_style),
                },
        ),
    }
}

/// The mapping has an entry for every tag, at the tag's position and under
/// its identifier.
pub proof fn lemma_mapping_total(spec: EnumSpecView)
    ensures
        canonical_mapping_of(spec).enum_name == spec.name,
        canonical_mapping_of(spec).entries.len() == spec.tags.len(),
        forall|i: int|
            0 <= i < spec.tags.len() ==> {
                let entry = #[trigger] canonical_mapping_of(spec).entries[i];
                entry.identifier == spec.tags[i].identifier && entry.canonical
                    == spec.tags[i].canonical(spec.config.case_style)
            },
{
}

/// Trying the entries from the last to the first and stopping at the first
/// that is stored as `bytes` finds the tag that `bytes` name.
pub proof fn lemma_first_hit_from_the_end(mapping: CanonicalMappingView, bytes: Seq<u8>, k: int)
    requires
        0 <= k < mapping.entries.len(),
        encode_utf8(mapping.entries[mapping.entries.len() - 1 - k].canonical) == bytes,
        forall|j: int|
            0 <= j < k ==> encode_utf8(
                (#[trigger] mapping.entries[mapping.entries.len() - 1 - j]).canonical,
            ) != bytes,
    ensures
        mapping.decoded(bytes) == Some(mapping.entries.len() - 1 - k),
{
    let n = mapping.entries.len() as int;
    lemma_last_match(mapping.entries, bytes);
    let found = mapping.decoded(bytes)->0;
    if found > n - 1 - k {
        let j = n - 1 - found;
        assert(mapping.entries[n - 1 - j] == mapping.entries[found]);
    }
}

/// Reading back what was written for a tag gives that tag, unless a tag
/// declared later is stored under the same text: then it gives a later one.
pub proof fn lemma_round_trip(mapping: CanonicalMappingView, tag: int)
    requires
        0 <= tag < mapping.entries.len(),
    ensures
        !mapping.shadowed(tag) <==> mapping.decoded(mapping.encoded(tag)) == Some(tag),
        mapping.decoded(mapping.encoded(tag)) matches Some(found) && tag <= found
            < mapping.entries.len() && mapping.entries[found].canonical
            == mapping.entries[tag].canonical,
{
    let bytes = mapping.encoded(tag);
    lemma_last_match(mapping.entries, bytes);
    let found = mapping.decoded(bytes)->0;
    lemma_encoding_injective(mapping.entries[found].canonical, mapping.entries[tag].canonical);
    if mapping.shadowed(tag) {
        let j = choose|j: int|
            tag < j < mapping.entries.len() && (#[trigger] mapping.entries[j]).canonical
                == mapping.entries[tag].canonical;
        assert(encode_utf8(mapping.entries[j].canonical) == bytes);
    } else if found != tag {
        assert(mapping.entries[found].canonical == mapping.entries[tag].canonical);
    }
}

/// A result of reading stored bytes, with the tag as a number and the texts
/// of the error as sequences of characters.
pub open spec fn tag_view(outcome: Result<usize, DataError>) -> Result<int, DataErrorView> {
    match outcome {
        Ok(tag) => Ok(tag as int),
        Err(e) => Err(e@),
    }
}

impl CanonicalMapping {
    /// The number of tags.
    pub fn len(&self) -> (n: usize)
        ensures
            n == self@.entries.len(),
    {
        self.entries.len()
    }

    /// A second mapping with the same name and the same entries.
    pub fn duplicate(&self) -> (copy: CanonicalMapping)
        ensures
            copy@ == self@,
    {
        let mut entries: Vec<TagEntry> = Vec::new();
        let mut i: usize = 0;
        while i < self.entries.len()
            invariant
                i <= self.entries@.len(),
                entries@.len() == i,
                forall|j: int| 0 <= j < i ==> (#[trigger] entries@[j])@ == self.entries@[j]@,
            decreases self.entries@.len() - i,
        {
            let entry = &self.entries[i];
            entries.push(
                TagEntry {
                    identifier: entry.identifier.clone(),
                    canonical: entry.canonical.clone(),
                },
            );
            i += 1;
        }
        proof {
            assert(entry_views(entries@) =~= entry_views(self.entries@));
        }
        CanonicalMapping { enum_name: self.enum_name.clone(), entries }
    }

    /// The order in which a reader that tries the entries one by one, and
    /// stops at the first that fits, has to try them to find what
    /// [`Self::from_db_binary_representation`] finds: the tag declared last
    /// comes first.
    pub fn lookup_order(&self) -> (order: Vec<usize>)
        ensures
            order@.len() == self@.entries.len(),
            forall|k: int| 0 <= k < order@.len() ==> order@[k] == self@.entries.len() - 1 - k,
    {
        let n = self.entries.len();
        let mut order: Vec<usize> = Vec::new();
        let mut k: usize = 0;
        while k < n
            invariant
                n == self@.entries.len(),
                k <= n,
                order@.len() == k,
                forall|j: int| 0 <= j < k ==> order@[j] == n - 1 - j,
            decreases n - k,
        {
            order.push(n - 1 - k);
            k += 1;
        }
        order
    }

    /// The text under which the tag at position `tag` is stored.
    pub fn db_str_representation(&self, tag: usize) -> (text: &str)
        requires
            tag < self@.entries.len(),
        ensures
            text@ == self@.entries[tag as int].canonical,
    {
        self.entries[tag].canonical.as_str()
    }

    /// The bytes under which the tag at position `tag` is stored: the UTF-8
    /// encoding of its text, with nothing added.
    pub fn encode(&self, tag: usize) -> (bytes: Vec<u8>)
        requires
            tag < self@.entries.len(),
        ensures
            bytes@ == self@.encoded(tag as int),
    {
        self.entries[tag].canonical.as_str().as_bytes_vec()
    }

    /// The tag that the stored bytes name.
    ///
    /// The bytes must be exactly those of a tag's text: case and surrounding
    /// blanks count. Where several tags share a text the one declared last
    /// is found. Bytes that name no tag give an error that carries them as
    /// text, and as exactly the text that they encode where they are valid
    /// UTF-8.
    pub fn from_db_binary_representation(&self, bytes: &[u8]) -> (outcome: Result<
        usize,
        DataError,
    >)
        ensures
            tag_view(outcome) == (match self@.decoded(bytes@) {
                Some(tag) => Ok::<int, DataErrorView>(tag),
                None => Err(
                    DataErrorView { rendered: lossy_text_of(bytes@), enum_name: self@.enum_name },
                ),
            }),
            outcome matches Err(e) ==> (valid_utf8(bytes@) ==> e@.rendered == decode_utf8(bytes@)),
            outcome matches Ok(tag) ==> tag < self@.entries.len(),
    {
        let ghost entries = self@.entries;
        let mut i: usize = self.entries.len();
        proof {
            assert(entries.take(i as int) =~= entries);
        }
        while i > 0
            invariant
                entries == self@.entries,
                i <= entries.len(),
                last_match(entries, bytes@) == last_match(entries.take(i as int), bytes@),
            decreases i,
        {
            i -= 1;
            proof {
                let front = entries.take(i + 1);
                assert(front.last() == entries[i as int]);
                assert(front.drop_last() =~= entries.take(i as int));
            }
            if bytes_eq(self.entries[i].canonical.as_str().as_bytes(), bytes) {
                return Ok(i);
            }
        }
        Err(DataError { rendered: render_lossy(bytes), enum_name: self.enum_name.clone() })
    }
}

/// Builds the mapping of a checked enumeration.
pub fn generate_common(spec: &EnumSpec) -> (mapping: CanonicalMapping)
    ensures
        mapping@ == canonical_mapping_of(spec@),
{
    let mut entries: Vec<TagEntry> = Vec::new();
    let mut i: usize = 0;
    while i < spec.tags.len()
        invariant
            i <= spec.tags@.len(),
            entries@.len() == i,
            forall|j: int|
                0 <= j < i ==> (#[trigger] entries@[j])@ == (TagEntryView {
                    identifier: spec.tags@[j].identifier@,
                    canonical: spec.tags@[j]@.canonical(spec.config.case_style),
                }),
        decreases spec.tags@.len() - i,
    {
        let tag = &spec.tags[i];
        entries.push(
            TagEntry {
                identifier: tag.identifier.clone(),
                canonical: tag.canonical(spec.config.case_style),
            },
        );
        i += 1;
    }
    proof {
        assert(entry_views(entries@) =~= canonical_mapping_of(spec@).entries);
    }
    CanonicalMapping { enum_name: spec.name.clone(), entries }
}

} // verus!
