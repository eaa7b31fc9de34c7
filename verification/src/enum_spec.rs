//! An enumeration as it was declared, and the same enumeration once its
//! options have been checked.

use vstd::prelude::*;

use crate::config::{
    config_view, found_text, resolved_config, BackendSet, TypeConfig, TypeConfigView,
};
use crate::config::text_of;
use crate::directive::{lookup, val_from_attrs, Directive, OptionKey};
use crate::error::{ConfigError, ConfigErrorView};

verus! {

/// One tag as it was declared.
#[derive(Clone, Debug, PartialEq, Eq)]
pub struct TagInput {
    pub identifier: String,
    /// The options written on the tag.
    pub directives: Vec<Directive>,
    /// Whether the tag was declared with data of its own.
    pub has_payload: bool,
}

/// An item as it was declared.
#[derive(Clone, Debug, PartialEq, Eq)]
pub struct EnumInput {
    pub name: String,
    /// The options written on the item.
    pub directives: Vec<Directive>,
    /// The tags in the order of their declaration; `None` where the item is
    /// not an enumeration.
    pub tags: Option<Vec<TagInput>>,
}

/// One tag of a checked enumeration. Its position among the tags is its
/// number.
#[derive(Clone, Debug, PartialEq, Eq)]
pub struct TagSpec {
    pub identifier: String,
    /// The database value given to the tag by name, if one was given.
    pub rename_override: Option<String>,
}

/// A [`TagSpec`] with its texts as sequences of characters.
pub struct TagSpecView {
    pub identifier: Seq<char>,
    pub rename_override: Option<Seq<char>>,
}

impl View for TagSpec {
    type V = TagSpecView;

    open spec fn view(&self) -> TagSpecView {
        TagSpecView {
            identifier: self.identifier@,
            rename_override: text_of(self.rename_override),
        }
    }
}

/// A checked enumeration: tags without data, in the order of their
/// declaration, and the choices made for the type.
#[derive(Clone, Debug, PartialEq, Eq)]
pub struct EnumSpec {
    pub name: String,
    pub tags: Vec<TagSpec>,
    pub config: TypeConfig,
}

/// An [`EnumSpec`] with its texts as sequences of characters.
pub struct EnumSpecView {
    pub name: Seq<char>,
    pub tags: Seq<TagSpecView>,
    pub config: TypeConfigView,
}

/// The views of a sequence of tags.
pub open spec fn tag_views(tags: Seq<TagSpec>) -> Seq<TagSpecView> {
    Seq::new(tags.len(), |i: int| tags[i]@)
}

impl View for EnumSpec {
    type V = EnumSpecView;

    open spec fn view(&self) -> EnumSpecView {
        EnumSpecView { name: self.name@, tags: tag_views(self.tags@), config: self.config@ }
    }
}

/// The position of the first tag that carries data, if any does.
pub open spec fn first_payload(tags: Seq<TagInput>) -> Option<int>
    decreases tags.len(),
{
    if tags.len() == 0 {
        None
    } else if tags[0].has_payload {
        Some(0)
    } else {
        match first_payload(tags.drop_first()) {
            Some(i) => Some(i + 1),
            None => None,
        }
    }
}

/// `first_payload` finds the least position of a tag with data.
pub proof fn lemma_first_payload(tags: Seq<TagInput>)
    ensures
        match first_payload(tags) {
            Some(i) => 0 <= i < tags.len() && tags[i].has_payload && forall|j: int|
                0 <= j < i ==> !tags[j].has_payload,
            None => forall|j: int| 0 <= j < tags.len() ==> !tags[j].has_payload,
        },
    decreases tags.len(),
{
    if tags.len() > 0 && !tags[0].has_payload {
        let rest = tags.drop_first();
        lemma_first_payload(rest);
        assert(forall|j: int| 0 <= j < rest.len() ==> rest[j] == tags[j + 1]);
        match first_payload(rest) {
            Some(i) => {
                assert forall|j: int| 0 <= j < i + 1 implies !tags[j].has_payload by {
                    if j > 0 {
                        assert(rest[j - 1] == tags[j]);
                    }
                }
            },
            None => {
                assert forall|j: int| 0 <= j < tags.len() implies !tags[j].has_payload by {
                    if j > 0 {
                        assert(rest[j - 1] == tags[j]);
                    }
                }
            },
        }
    }
}

/// Whether the override of some tag is not written as a name with a text.
pub open spec fn some_override_malformed(tags: Seq<TagInput>) -> bool {
    exists|i: int|
        0 <= i < tags.len() && (#[trigger] lookup(
            tags[i].directives@,
            OptionKey::RenameOverride,
        )) is Malformed
}

/// The checked form of one declared tag whose override is well formed.
pub open spec fn tag_spec_of(tag: TagInput) -> TagSpecView {
    TagSpecView {
        identifier: tag.identifier@,
        rename_override: found_text(lookup(tag.directives@, OptionKey::RenameOverride)),
    }
}

/// The checked form of the declared tags, or the first reason to refuse
/// them: a tag with data comes before a malformed override, whatever their
/// positions, and among the tags with data the first is named.
pub open spec fn resolved_tags(tags: Seq<TagInput>) -> Result<Seq<TagSpecView>, ConfigErrorView> {
    match first_payload(tags) {
        Some(i) => Err(ConfigErrorView::TagHasPayload { tag: tags[i].identifier@ }),
        None => if some_override_malformed(tags) {
            Err(ConfigErrorView::MalformedDirective { key: OptionKey::RenameOverride })
        } else {
            Ok(Seq::new(tags.len(), |i: int| tag_spec_of(tags[i])))
        },
    }
}

/// The checked form of a declared item for the given backends, or the first
/// reason to refuse it: the options on the type are checked first, then that
/// the item is an enumeration, then its tags.
pub open spec fn resolved(input: EnumInput, backends: BackendSet) -> Result<
    EnumSpecView,
    ConfigErrorView,
> {
    match resolved_config(input.name@, input.directives@, backends) {
        Err(e) => Err(e),
        Ok(config) => match input.tags {
            None => Err(ConfigErrorView::NotAnEnum),
            Some(tags) => match resolved_tags(tags@) {
                Err(e) => Err(e),
                Ok(tags) => Ok(EnumSpecView { name: input.name@, tags, config }),
            },
        },
    }
}

/// Whether no two of the declared tags have the same identifier.
pub open spec fn declared_distinct(tags: Seq<TagInput>) -> bool {
    forall|i: int, j: int|
        #![trigger tags[i], tags[j]]
        0 <= i < j < tags.len() ==> tags[i].identifier@ != tags[j].identifier@
}

impl EnumSpecView {
    /// Whether no two tags have the same identifier.
    pub open spec fn distinct_tags(self) -> bool {
        forall|i: int, j: int|
            #![trigger self.tags[i], self.tags[j]]
            0 <= i < j < self.tags.len() ==> self.tags[i].identifier != self.tags[j].identifier
    }
}

/// Checking keeps every tag at its position and under its identifier, so
/// that tags declared under distinct identifiers stay distinct.
pub proof fn lemma_resolved_keeps_tags(input: EnumInput, backends: BackendSet)
    requires
        resolved(input, backends) is Ok,
    ensures
        input.tags is Some,
        resolved(input, backends)->Ok_0.name == input.name@,
        resolved(input, backends)->Ok_0.tags.len() == input.tags->0@.len(),
        forall|i: int|
            0 <= i < input.tags->0@.len() ==> (#[trigger] resolved(
                input,
                backends,
            )->Ok_0.tags[i]).identifier == input.tags->0@[i].identifier@,
        declared_distinct(input.tags->0@) ==> resolved(input, backends)->Ok_0.distinct_tags(),
{
    let tags = input.tags->0@;
    let spec = resolved(input, backends)->Ok_0;
    assert(spec.tags == Seq::new(tags.len(), |i: int| tag_spec_of(tags[i])));
    if declared_distinct(tags) {
        assert forall|i: int, j: int|
            #![trigger spec.tags[i], spec.tags[j]]
            0 <= i < j < spec.tags.len() implies spec.tags[i].identifier
            != spec.tags[j].identifier by {
            assert(tags[i].identifier@ != tags[j].identifier@);
        }
    }
}

/// A result of checking tags, with its texts as sequences of characters.
pub open spec fn tags_view(outcome: Result<Vec<TagSpec>, ConfigError>) -> Result<
    Seq<TagSpecView>,
    ConfigErrorView,
> {
    match outcome {
        Ok(tags) => Ok(tag_views(tags@)),
        Err(e) => Err(e@),
    }
}

/// A result of checking an item, with its texts as sequences of characters.
pub open spec fn spec_view(outcome: Result<EnumSpec, ConfigError>) -> Result<
    EnumSpecView,
    ConfigErrorView,
> {
    match outcome {
        Ok(spec) => Ok(spec@),
        Err(e) => Err(e@),
    }
}

/// Checks the declared tags: none may carry data, and an override must be
/// written as a name with a text.
pub fn resolve_tags(tags: &Vec<TagInput>) -> (outcome: Result<Vec<TagSpec>, ConfigError>)
    ensures
        tags_view(outcome) == resolved_tags(tags@),
{
    proof {
        lemma_first_payload(tags@);
    }
    let mut i: usize = 0;
    while i < tags.len()
        invariant
            i <= tags@.len(),
            forall|j: int| 0 <= j < i ==> !tags@[j].has_payload,
        decreases tags@.len() - i,
    {
        if tags[i].has_payload {
            proof {
                lemma_first_payload(tags@);
            }
            return Err(ConfigError::TagHasPayload { tag: tags[i].identifier.clone() });
        }
        i += 1;
    }
    let mut checked: Vec<TagSpec> = Vec::new();
    let mut k: usize = 0;
    while k < tags.len()
        invariant
            k <= tags@.len(),
            first_payload(tags@) is None,
            checked@.len() == k,
            forall|j: int|
                0 <= j < k ==> !((#[trigger] lookup(
                    tags@[j].directives@,
                    OptionKey::RenameOverride,
                )) is Malformed),
            forall|j: int| 0 <= j < k ==> (#[trigger] checked@[j])@ == tag_spec_of(tags@[j]),
        decreases tags@.len() - k,
    {
        let tag = &tags[k];
        let rename_override = match val_from_attrs(&tag.directives, OptionKey::RenameOverride) {
            Ok(found) => found,
            Err(e) => { return Err(e); },
        };
        checked.push(TagSpec { identifier: tag.identifier.clone(), rename_override });
        k += 1;
    }
    proof {
        assert(tag_views(checked@) =~= Seq::new(tags@.len(), |i: int| tag_spec_of(tags@[i])));
    }
    Ok(checked)
}

impl EnumSpec {
    /// Checks a declared item and the options written on it, and fills in
    /// what the options leave open.
    pub fn resolve(input: &EnumInput, backends: BackendSet) -> (outcome: Result<
        EnumSpec,
        ConfigError,
    >)
        ensures
            spec_view(outcome) == resolved(*input, backends),
    {
        let config = match TypeConfig::resolve(input.name.as_str(), &input.directives, backends) {
            Ok(config) => config,
            Err(e) => { return Err(e); },
        };
        let tags = match &input.tags {
            Some(tags) => tags,
            None => { return Err(ConfigError::NotAnEnum); },
        };
        let tags = match resolve_tags(tags) {
            Ok(tags) => tags,
            Err(e) => { return Err(e); },
        };
        Ok(EnumSpec { name: input.name.clone(), tags, config })
    }
}

} // verus!
