//! Writing tagged Blaze TDF values into a byte buffer with the serializer
//! of the `tdf` crate.
//!
//! Each writer appends to a `Vec<u8>` exactly the bytes that the matching
//! `TdfSerializer` method appends; those bytes are named by the spec
//! functions below, so callers can state which values they write, in
//! which order.
use vstd::prelude::*;
use tdf::TdfSerialize;
use tdf::TdfSerializeOwned;
use tdf::TdfSerializer;
use crate::attrs::pair_texts;

verus! {

/// A tag of up to four ASCII characters; a shorter tag ends in `'\0'`
/// characters, which the encoding of a tag ignores.
pub type Tag = [char; 4];

/// A tag that the serializer accepts: not empty, ASCII only.
pub open spec fn valid_tag(tag: Tag) -> bool {
    (tag[0] as u32) != 0 && forall|i: int| 0 <= i < 4 ==> (#[trigger] tag[i] as u32) < 128
}

/// Kinds of TDF values that lists and maps here hold.
#[derive(Clone, Copy, PartialEq, Eq, Structural)]
pub enum TdfKind {
    VarInt,
    String,
    Group,
}

/// Bytes of `tag_zero(tag)`.
pub uninterp spec fn tdf_tag_zero(tag: Tag) -> Seq<u8>;

/// Bytes of `tag_u8(tag, value)`.
pub uninterp spec fn tdf_tag_u8(tag: Tag, value: u8) -> Seq<u8>;

/// Bytes of `tag_u16(tag, value)`.
pub uninterp spec fn tdf_tag_u16(tag: Tag, value: u16) -> Seq<u8>;

/// Bytes of `tag_u32(tag, value)`.
pub uninterp spec fn tdf_tag_u32(tag: Tag, value: u32) -> Seq<u8>;

/// Bytes of `tag_u64(tag, value)`.
pub uninterp spec fn tdf_tag_u64(tag: Tag, value: u64) -> Seq<u8>;

/// Bytes of `tag_usize(tag, value)`.
pub uninterp spec fn tdf_tag_usize(tag: Tag, value: usize) -> Seq<u8>;

/// Bytes of `tag_bool(tag, value)`.
pub uninterp spec fn tdf_tag_bool(tag: Tag, value: bool) -> Seq<u8>;

/// Bytes of `tag_str(tag, value)` for a string with characters `value`.
pub uninterp spec fn tdf_tag_str(tag: Tag, value: Seq<char>) -> Seq<u8>;

/// Bytes of `tag_str_empty(tag)`.
pub uninterp spec fn tdf_tag_str_empty(tag: Tag) -> Seq<u8>;

/// Bytes of `tag_var_int_list_empty(tag)`.
pub uninterp spec fn tdf_tag_var_int_list_empty(tag: Tag) -> Seq<u8>;

/// Bytes of `tag_blob_empty(tag)`.
pub uninterp spec fn tdf_tag_blob_empty(tag: Tag) -> Seq<u8>;

/// Bytes of `tag_group(tag)`, the start of a group.
pub uninterp spec fn tdf_tag_group(tag: Tag) -> Seq<u8>;

/// Bytes of `tag_list_start(tag, ty, length)`.
pub uninterp spec fn tdf_tag_list_start(tag: Tag, ty: TdfKind, length: usize) -> Seq<u8>;

/// Bytes of `tag_map_start(tag, key, value, length)`.
pub uninterp spec fn tdf_tag_map_start(tag: Tag, key: TdfKind, value: TdfKind, length: usize) -> Seq<u8>;

/// Bytes of `tag_union_unset(tag)`.
pub uninterp spec fn tdf_tag_union_unset(tag: Tag) -> Seq<u8>;

/// Bytes of `tag_union_start(tag, key)`: the tag of a tagged union and
/// the key of the value that follows.
pub uninterp spec fn tdf_tag_union_start(tag: Tag, key: u8) -> Seq<u8>;

/// Bytes of an untagged `u32` value (`<u32 as TdfSerializeOwned>`).
pub uninterp spec fn tdf_u32(value: u32) -> Seq<u8>;

/// Bytes of `tag_list_slice` with a list of `usize` values.
pub uninterp spec fn tdf_tag_list_usize(tag: Tag, values: Seq<usize>) -> Seq<u8>;

/// Bytes of the tag and value of the object ID made of `component`,
/// `ty` and `id` (`ObjectId::new_raw`).
pub uninterp spec fn tdf_tag_object_id(tag: Tag, component: u16, ty: u16, id: u64) -> Seq<u8>;

/// Bytes of the tag and value of the `TdfMap<String, String>` collected
/// from the pairs `entries`, given as character sequences.
pub uninterp spec fn tdf_tag_str_map(tag: Tag, entries: Seq<(Seq<char>, Seq<char>)>) -> Seq<u8>;

/// Bytes of an untagged string value with characters `value`
/// (`<&str as TdfSerialize>::serialize`).
pub uninterp spec fn tdf_str(value: Seq<char>) -> Seq<u8>;

/// Bytes of `tag_list_slice` with a list of `i32` values.
pub uninterp spec fn tdf_tag_list_i32(tag: Tag, values: Seq<i32>) -> Seq<u8>;

/// Bytes of `tag_map_tuples` with string keys and string values, given as
/// character sequences.
pub uninterp spec fn tdf_tag_map_strs(tag: Tag, entries: Seq<(Seq<char>, Seq<char>)>) -> Seq<u8>;

/// `TdfSerializer::tag_zero`: appends the tag and a zero integer.
#[verifier::external_body]
pub(crate) fn tag_zero(w: &mut Vec<u8>, tag: Tag)
    requires
        valid_tag(tag),
    ensures
        final(w)@ == old(w)@ + tdf_tag_zero(tag),
{
    w.tag_zero(&[tag[0] as u8, tag[1] as u8, tag[2] as u8, tag[3] as u8]);
}

/// `TdfSerializer::tag_u8`: appends the tag and the integer.
#[verifier::external_body]
pub(crate) fn tag_u8(w: &mut Vec<u8>, tag: Tag, value: u8)
    requires
        valid_tag(tag),
    ensures
        final(w)@ == old(w)@ + tdf_tag_u8(tag, value),
{
    w.tag_u8(&[tag[0] as u8, tag[1] as u8, tag[2] as u8, tag[3] as u8], value);
}

/// `TdfSerializer::tag_u16`: appends the tag and the integer.
#[verifier::external_body]
pub(crate) fn tag_u16(w: &mut Vec<u8>, tag: Tag, value: u16)
    requires
        valid_tag(tag),
    ensures
        final(w)@ == old(w)@ + tdf_tag_u16(tag, value),
{
    w.tag_u16(&[tag[0] as u8, tag[1] as u8, tag[2] as u8, tag[3] as u8], value);
}

/// `TdfSerializer::tag_u32`: appends the tag and the integer.
#[verifier::external_body]
pub(crate) fn tag_u32(w: &mut Vec<u8>, tag: Tag, value: u32)
    requires
        valid_tag(tag),
    ensures
        final(w)@ == old(w)@ + tdf_tag_u32(tag, value),
{
    w.tag_u32(&[tag[0] as u8, tag[1] as u8, tag[2] as u8, tag[3] as u8], value);
}

/// `TdfSerializer::tag_u64`: appends the tag and the integer.
#[verifier::external_body]
pub(crate) fn tag_u64(w: &mut Vec<u8>, tag: Tag, value: u64)
    requires
        valid_tag(tag),
    ensures
        final(w)@ == old(w)@ + tdf_tag_u64(tag, value),
{
    w.tag_u64(&[tag[0] as u8, tag[1] as u8, tag[2] as u8, tag[3] as u8], value);
}

/// `TdfSerializer::tag_usize`: appends the tag and the integer.
#[verifier::external_body]
pub(crate) fn tag_usize(w: &mut Vec<u8>, tag: Tag, value: usize)
    requires
        valid_tag(tag),
    ensures
        final(w)@ == old(w)@ + tdf_tag_usize(tag, value),
{
    w.tag_usize(&[tag[0] as u8, tag[1] as u8, tag[2] as u8, tag[3] as u8], value);
}

/// `TdfSerializer::tag_bool`: appends the tag and the boolean.
#[verifier::external_body]
pub(crate) fn tag_bool(w: &mut Vec<u8>, tag: Tag, value: bool)
    requires
        valid_tag(tag),
    ensures
        final(w)@ == old(w)@ + tdf_tag_bool(tag, value),
{
    w.tag_bool(&[tag[0] as u8, tag[1] as u8, tag[2] as u8, tag[3] as u8], value);
}

/// `TdfSerializer::tag_str`: appends the tag and the string.
#[verifier::external_body]
pub(crate) fn tag_str(w: &mut Vec<u8>, tag: Tag, value: &str)
    requires
        valid_tag(tag),
    ensures
        final(w)@ == old(w)@ + tdf_tag_str(tag, value@),
{
    w.tag_str(&[tag[0] as u8, tag[1] as u8, tag[2] as u8, tag[3] as u8], value);
}

/// `TdfSerializer::tag_str_empty`: appends the tag and an empty string.
#[verifier::external_body]
pub(crate) fn tag_str_empty(w: &mut Vec<u8>, tag: Tag)
    requires
        valid_tag(tag),
    ensures
        final(w)@ == old(w)@ + tdf_tag_str_empty(tag),
{
    w.tag_str_empty(&[tag[0] as u8, tag[1] as u8, tag[2] as u8, tag[3] as u8]);
}

/// `TdfSerializer::tag_blob_empty`: appends the tag and an empty blob.
#[verifier::external_body]
pub(crate) fn tag_blob_empty(w: &mut Vec<u8>, tag: Tag)
    requires
        valid_tag(tag),
    ensures
        final(w)@ == old(w)@ + tdf_tag_blob_empty(tag),
{
    w.tag_blob_empty(&[tag[0] as u8, tag[1] as u8, tag[2] as u8, tag[3] as u8]);
}

/// `TdfSerializer::tag_var_int_list_empty`: appends the tag and an empty
/// list of integers.
#[verifier::external_body]
pub(crate) fn tag_var_int_list_empty(w: &mut Vec<u8>, tag: Tag)
    requires
        valid_tag(tag),
    ensures
        final(w)@ == old(w)@ + tdf_tag_var_int_list_empty(tag),
{
    w.tag_var_int_list_empty(&[tag[0] as u8, tag[1] as u8, tag[2] as u8, tag[3] as u8]);
}

/// `TdfSerializer::tag_group`: appends the tag that starts a group.
#[verifier::external_body]
pub(crate) fn tag_group(w: &mut Vec<u8>, tag: Tag)
    requires
        valid_tag(tag),
    ensures
        final(w)@ == old(w)@ + tdf_tag_group(tag),
{
    w.tag_group(&[tag[0] as u8, tag[1] as u8, tag[2] as u8, tag[3] as u8]);
}

/// `TdfSerializer::tag_group_end`: appends the zero byte that ends a group.
#[verifier::external_body]
pub(crate) fn tag_group_end(w: &mut Vec<u8>)
    ensures
        final(w)@ == old(w)@.push(0u8),
{
    w.tag_group_end();
}

/// `TdfSerializer::write_byte`: appends one raw byte.
#[verifier::external_body]
pub(crate) fn write_byte(w: &mut Vec<u8>, value: u8)
    ensures
        final(w)@ == old(w)@.push(value),
{
    w.write_byte(value);
}

/// `TdfSerializer::tag_list_start`: appends the tag and the header of a
/// list of `length` values of kind `ty`.
#[verifier::external_body]
pub(crate) fn tag_list_start(w: &mut Vec<u8>, tag: Tag, ty: TdfKind, length: usize)
    requires
        valid_tag(tag),
    ensures
        final(w)@ == old(w)@ + tdf_tag_list_start(tag, ty, length),
{
    let ty = match ty {
        TdfKind::VarInt => tdf::TdfType::VarInt,
        TdfKind::String => tdf::TdfType::String,
        TdfKind::Group => tdf::TdfType::Group,
    };
    w.tag_list_start(&[tag[0] as u8, tag[1] as u8, tag[2] as u8, tag[3] as u8], ty, length);
}

/// `TdfSerializer::tag_map_start`: appends the tag and the header of a
/// map of `length` entries with keys of kind `key` and values of kind
/// `value`.
#[verifier::external_body]
pub(crate) fn tag_map_start(w: &mut Vec<u8>, tag: Tag, key: TdfKind, value: TdfKind, length: usize)
    requires
        valid_tag(tag),
    ensures
        final(w)@ == old(w)@ + tdf_tag_map_start(tag, key, value, length),
{
    let key = match key {
        TdfKind::VarInt => tdf::TdfType::VarInt,
        TdfKind::String => tdf::TdfType::String,
        TdfKind::Group => tdf::TdfType::Group,
    };
    let value = match value {
        TdfKind::VarInt => tdf::TdfType::VarInt,
        TdfKind::String => tdf::TdfType::String,
        TdfKind::Group => tdf::TdfType::Group,
    };
    w.tag_map_start(&[tag[0] as u8, tag[1] as u8, tag[2] as u8, tag[3] as u8], key, value, length);
}

/// `TdfSerializer::tag_union_unset`: appends the tag of a tagged union
/// with no value set.
#[verifier::external_body]
pub(crate) fn tag_union_unset(w: &mut Vec<u8>, tag: Tag)
    requires
        valid_tag(tag),
    ensures
        final(w)@ == old(w)@ + tdf_tag_union_unset(tag),
{
    w.tag_union_unset(&[tag[0] as u8, tag[1] as u8, tag[2] as u8, tag[3] as u8]);
}

/// `TdfSerializer::tag_union_start`: appends the tag of a tagged union
/// and the key of its value.
#[verifier::external_body]
pub(crate) fn tag_union_start(w: &mut Vec<u8>, tag: Tag, key: u8)
    requires
        valid_tag(tag),
    ensures
        final(w)@ == old(w)@ + tdf_tag_union_start(tag, key),
{
    w.tag_union_start(&[tag[0] as u8, tag[1] as u8, tag[2] as u8, tag[3] as u8], key);
}

/// `<u32 as TdfSerializeOwned>::serialize_owned`: appends an untagged
/// integer.
#[verifier::external_body]
pub(crate) fn write_u32(w: &mut Vec<u8>, value: u32)
    ensures
        final(w)@ == old(w)@ + tdf_u32(value),
{
    value.serialize_owned(w);
}

/// `TdfSerializer::tag_list_slice` over `usize` values.
#[verifier::external_body]
pub(crate) fn tag_list_usize(w: &mut Vec<u8>, tag: Tag, values: &[usize])
    requires
        valid_tag(tag),
    ensures
        final(w)@ == old(w)@ + tdf_tag_list_usize(tag, values@),
{
    w.tag_list_slice(&[tag[0] as u8, tag[1] as u8, tag[2] as u8, tag[3] as u8], values);
}

/// `TdfSerializer::tag_alt` with `ObjectId::new_raw(component, ty, id)`.
#[verifier::external_body]
pub(crate) fn tag_object_id(w: &mut Vec<u8>, tag: Tag, component: u16, ty: u16, id: u64)
    requires
        valid_tag(tag),
    ensures
        final(w)@ == old(w)@ + tdf_tag_object_id(tag, component, ty, id),
{
    w.tag_alt(&[tag[0] as u8, tag[1] as u8, tag[2] as u8, tag[3] as u8], tdf::ObjectId::new_raw(component, ty, id));
}

/// `TdfSerializer::tag_ref` with the `TdfMap<String, String>` collected
/// from `entries` (the map keeps its entries ordered by key, one per key).
#[verifier::external_body]
pub(crate) fn tag_str_map(w: &mut Vec<u8>, tag: Tag, entries: &Vec<(String, String)>)
    requires
        valid_tag(tag),
    ensures
        final(w)@ == old(w)@ + tdf_tag_str_map(tag, pair_texts(entries@)),
{
    let map: tdf::TdfMap<String, String> = entries.iter().cloned().collect();
    w.tag_ref(&[tag[0] as u8, tag[1] as u8, tag[2] as u8, tag[3] as u8], &map);
}

/// `<&str as TdfSerialize>::serialize`: appends an untagged string.
#[verifier::external_body]
pub(crate) fn write_str(w: &mut Vec<u8>, value: &str)
    ensures
        final(w)@ == old(w)@ + tdf_str(value@),
{
    value.serialize(w);
}

/// `TdfSerializer::tag_list_slice` over `i32` values.
#[verifier::external_body]
pub(crate) fn tag_list_i32(w: &mut Vec<u8>, tag: Tag, values: &[i32])
    requires
        valid_tag(tag),
    ensures
        final(w)@ == old(w)@ + tdf_tag_list_i32(tag, values@),
{
    w.tag_list_slice(&[tag[0] as u8, tag[1] as u8, tag[2] as u8, tag[3] as u8], values);
}

/// `TdfSerializer::tag_map_tuples` over string keys and string values.
#[verifier::external_body]
pub(crate) fn tag_map_strs(w: &mut Vec<u8>, tag: Tag, entries: &[(&str, &str)])
    requires
        valid_tag(tag),
    ensures
        final(w)@ == old(w)@ + tdf_tag_map_strs(
            tag,
            entries@.map_values(|e: (&str, &str)| (e.0@, e.1@)),
        ),
{
    w.tag_map_tuples(&[tag[0] as u8, tag[1] as u8, tag[2] as u8, tag[3] as u8], entries);
}

} // verus!
