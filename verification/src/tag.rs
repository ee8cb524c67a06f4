//! Typed key/value attributes attached to spans, log entries and the process.

use vstd::prelude::*;

verus! {

/// Name under which this library reports itself in the identity tags.
pub const LIBRARY_NAME: &'static str = "mick-jaeger";

/// Version under which this library reports itself in the identity tags.
pub const LIBRARY_VERSION: &'static str = "0.1.0";

/// The value carried by a [`Tag`]: exactly one of the supported kinds.
#[derive(Debug, PartialEq, Eq)]
pub enum TagValue {
    /// A text value.
    Str(String),
    /// A signed 64-bit integer.
    Long(i64),
    /// A double-precision number, carried as its IEEE 754 bit pattern.
    Double(u64),
    /// A boolean.
    Bool(bool),
    /// Raw bytes.
    Binary(Vec<u8>),
}

/// A key together with exactly one typed value.
#[derive(Debug, PartialEq, Eq)]
pub struct Tag {
    pub key: String,
    pub value: TagValue,
}

/// Mathematical model of a [`TagValue`].
pub enum TagValueView {
    Str(Seq<char>),
    Long(i64),
    Double(u64),
    Bool(bool),
    Binary(Seq<u8>),
}

/// Mathematical model of a [`Tag`].
pub struct TagView {
    pub key: Seq<char>,
    pub value: TagValueView,
}

impl View for TagValue {
    type V = TagValueView;

    open spec fn view(&self) -> TagValueView {
        match self {
            TagValue::Str(text) => TagValueView::Str(text@),
            TagValue::Long(number) => TagValueView::Long(*number),
            TagValue::Double(bits) => TagValueView::Double(*bits),
            TagValue::Bool(flag) => TagValueView::Bool(*flag),
            TagValue::Binary(bytes) => TagValueView::Binary(bytes@),
        }
    }
}

impl View for Tag {
    type V = TagView;

    open spec fn view(&self) -> TagView {
        TagView { key: self.key@, value: self.value@ }
    }
}

/// The model of a sequence of tags: the model of each, in the same order.
pub open spec fn tags_view(tags: Seq<Tag>) -> Seq<TagView> {
    Seq::new(tags.len(), |i: int| tags[i]@)
}

/// The model of a text tag.
pub open spec fn string_tag_view(key: Seq<char>, value: Seq<char>) -> TagView {
    TagView { key, value: TagValueView::Str(value) }
}

/// The model of an integer tag.
pub open spec fn int_tag_view(key: Seq<char>, value: i64) -> TagView {
    TagView { key, value: TagValueView::Long(value) }
}

/// The model of the two identity tags: the library's name, then its version.
pub open spec fn base_tags_view() -> Seq<TagView> {
    seq![
        string_tag_view("otel.library.name"@, LIBRARY_NAME@),
        string_tag_view("otel.library.version"@, LIBRARY_VERSION@),
    ]
}

/// Builds a tag holding a text value.
pub fn string_tag(key: &str, value: &str) -> (tag: Tag)
    ensures
        tag@ == string_tag_view(key@, value@),
{
    Tag { key: key.to_owned(), value: TagValue::Str(value.to_owned()) }
}

/// Builds a tag holding an integer value.
pub fn int_tag(key: &str, value: i64) -> (tag: Tag)
    ensures
        tag@ == int_tag_view(key@, value),
{
    Tag { key: key.to_owned(), value: TagValue::Long(value) }
}

/// The two tags every span and every process starts with: the library's
/// name and its version, in that order.
pub fn base_tags() -> (tags: Vec<Tag>)
    ensures
        tags_view(tags@) == base_tags_view(),
{
    let mut tags: Vec<Tag> = Vec::new();
    tags.push(string_tag("otel.library.name", LIBRARY_NAME));
    tags.push(string_tag("otel.library.version", LIBRARY_VERSION));
    assert(tags_view(tags@) =~= base_tags_view());
    tags
}

/// Appending one tag to a sequence appends its model to the sequence's model.
pub proof fn lemma_tags_view_push(tags: Seq<Tag>, tag: Tag)
    ensures
        tags_view(tags.push(tag)) == tags_view(tags).push(tag@),
{
    assert(tags_view(tags.push(tag)) =~= tags_view(tags).push(tag@));
}

impl Clone for TagValue {
    /// A deep copy of the value.
    fn clone(&self) -> (copy: TagValue)
        ensures
            copy@ == self@,
    {
        match self {
            TagValue::Str(text) => TagValue::Str(text.clone()),
            TagValue::Long(number) => TagValue::Long(*number),
            TagValue::Double(bits) => TagValue::Double(*bits),
            TagValue::Bool(flag) => TagValue::Bool(*flag),
            TagValue::Binary(bytes) => TagValue::Binary(bytes.clone()),
        }
    }
}

impl Clone for Tag {
    /// A deep copy of the tag.
    fn clone(&self) -> (copy: Tag)
        ensures
            copy@ == self@,
    {
        Tag { key: self.key.clone(), value: self.value.clone() }
    }
}

/// A deep copy of a list of tags, in the same order.
pub fn clone_tags(tags: &Vec<Tag>) -> (copy: Vec<Tag>)
    ensures
        tags_view(copy@) == tags_view(tags@),
{
    let copy = tags.clone();
    assert(tags_view(copy@) =~= tags_view(tags@));
    copy
}

} // verus!
