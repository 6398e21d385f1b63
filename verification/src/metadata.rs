//! The names under which a track is known, and the message that announces them.

use crate::bytes::{byte_span, le_bytes, le_round_trip, le_value, push_le};
use crate::text::{is_truncation, trim, trimmed, truncate_utf8};
use vstd::prelude::*;
use vstd::utf8::encode_utf8;

verus! {

/// The most bytes of a metadata field that are kept.
pub const MAX_METADATA_FIELD_BYTES: usize = 512;

/// The text of an optional string.
pub open spec fn text_of(field: Option<String>) -> Option<Seq<char>> {
    match field {
        Some(text) => Some(text@),
        None => None,
    }
}

/// The names of a track.
#[derive(Debug, PartialEq, Eq)]
pub struct TrackMetadata {
    pub instance_id: Option<String>,
    pub label: Option<String>,
}

impl View for TrackMetadata {
    type V = (Option<Seq<char>>, Option<Seq<char>>);

    open spec fn view(&self) -> (Option<Seq<char>>, Option<Seq<char>>) {
        (text_of(self.instance_id), text_of(self.label))
    }
}

impl Default for TrackMetadata {
    fn default() -> (metadata: Self)
        ensures
            metadata@ == (None::<Seq<char>>, None::<Seq<char>>),
    {
        TrackMetadata { instance_id: None, label: None }
    }
}

impl Clone for TrackMetadata {
    fn clone(&self) -> (copy: Self)
        ensures
            copy@ == self@,
    {
        TrackMetadata {
            instance_id: copy_text(&self.instance_id),
            label: copy_text(&self.label),
        }
    }
}

/// Copies an optional string.
fn copy_text(field: &Option<String>) -> (copy: Option<String>)
    ensures
        text_of(copy) == text_of(*field),
{
    match field {
        Some(text) => Some(text.clone()),
        None => None,
    }
}

/// Whether two optional strings hold the same text.
fn same_text(one: &Option<String>, other: &Option<String>) -> (same: bool)
    ensures
        same == (text_of(*one) == text_of(*other)),
{
    match (one, other) {
        (Some(one), Some(other)) => *one == *other,
        (None, None) => true,
        _ => false,
    }
}

impl TrackMetadata {
    /// Whether no name is set.
    pub fn is_empty(&self) -> (empty: bool)
        ensures
            empty == (self@ == (None::<Seq<char>>, None::<Seq<char>>)),
    {
        self.instance_id.is_none() && self.label.is_none()
    }

    /// Whether both names are the same.
    pub fn same_as(&self, other: &TrackMetadata) -> (same: bool)
        ensures
            same == (self@ == other@),
    {
        same_text(&self.instance_id, &other.instance_id) && same_text(&self.label, &other.label)
    }
}

/// The metadata that a processor shows its worker, and a number that changes with it.
#[derive(Debug)]
pub struct PublishedMetadata {
    pub metadata: TrackMetadata,
    pub version: u64,
}

impl PublishedMetadata {
    /// No names yet.
    pub fn new() -> (published: Self)
        ensures
            published.metadata@ == (None::<Seq<char>>, None::<Seq<char>>),
            published.version == 0,
    {
        PublishedMetadata { metadata: TrackMetadata::default(), version: 0 }
    }

    /// What setting the names leads to: they are shown, and the version moves on if they differ from
    /// those before.
    pub open spec fn renamed(
        self,
        names: (Option<Seq<char>>, Option<Seq<char>>),
        after: PublishedMetadata,
        changed: bool,
    ) -> bool {
        &&& changed == (self.metadata@ != names)
        &&& after.metadata@ == names
        &&& after.version == (if changed {
            crate::status::counted(self.version, 1)
        } else {
            self.version
        })
    }

    /// Replaces the names. The version moves on only if they differ from those before. Returns
    /// whether they do.
    pub fn set_track_metadata(
        &mut self,
        instance_id: Option<String>,
        label: Option<String>,
    ) -> (changed: bool)
        ensures
            old(self).renamed((text_of(instance_id), text_of(label)), *final(self), changed),
    {
        let next = TrackMetadata { instance_id, label };
        if self.metadata.same_as(&next) {
            return false;
        }
        self.metadata = next;
        self.version = self.version.wrapping_add(1);
        true
    }
}

/// The text of an optional string slice.
pub open spec fn slice_text(value: Option<&str>) -> Option<Seq<char>> {
    match value {
        Some(text) => Some(text@),
        None => None,
    }
}

/// Whether `value` sets the field to `field`: trimmed, cut to the field's length, and none if
/// nothing is left.
pub open spec fn sets_field(value: Option<Seq<char>>, field: Option<Seq<char>>) -> bool {
    &&& field is Some <==> value is Some && trimmed(value->0).len() > 0
    &&& field matches Some(text) ==> is_truncation(
        trimmed(value->0),
        MAX_METADATA_FIELD_BYTES as int,
        text,
    )
}

/// The field that `value` sets.
pub fn metadata_field(value: Option<&str>) -> (field: Option<String>)
    ensures
        sets_field(slice_text(value), text_of(field)),
{
    match value {
        None => None,
        Some(value) => {
            let trimmed = trim(value);
            if trimmed.is_empty() {
                None
            } else {
                Some(truncate_utf8(trimmed, MAX_METADATA_FIELD_BYTES).to_owned())
            }
        },
    }
}

/// The UTF-8 of an optional field, empty if there is none.
pub open spec fn field_bytes(field: Option<Seq<char>>) -> Seq<u8> {
    match field {
        Some(text) => encode_utf8(text),
        None => Seq::empty(),
    }
}

/// The message that names stream `stream_id`: a mark, the stream, the low two bytes of the length
/// of each field, and the fields.
pub open spec fn control_message(
    stream_id: u16,
    metadata: (Option<Seq<char>>, Option<Seq<char>>),
) -> Seq<u8> {
    let instance_id = field_bytes(metadata.0);
    let label = field_bytes(metadata.1);
    seq![0x4Du8, 0x45u8, 0x54u8, 0x41u8] + le_bytes(stream_id as nat, 2) + le_bytes(
        instance_id.len(),
        2,
    ) + le_bytes(label.len(), 2) + instance_id + label
}

/// Whether `message` is what is sent to name stream `stream_id`; there is nothing to send if no name
/// is set.
pub open spec fn announces(
    stream_id: u16,
    metadata: (Option<Seq<char>>, Option<Seq<char>>),
    message: Option<Seq<u8>>,
) -> bool {
    if metadata == (None::<Seq<char>>, None::<Seq<char>>) {
        message is None
    } else {
        message == Some(control_message(stream_id, metadata))
    }
}

/// Builds the message that names stream `stream_id`. There is none to send if no name is set.
pub fn metadata_control_message(stream_id: u16, metadata: &TrackMetadata) -> (message: Option<
    Vec<u8>,
>)
    ensures
        announces(
            stream_id,
            metadata@,
            match message {
                Some(bytes) => Some(bytes@),
                None => None,
            },
        ),
{
    if metadata.is_empty() {
        return None;
    }
    let instance_id: &str = match &metadata.instance_id {
        Some(text) => text.as_str(),
        None => "",
    };
    let label: &str = match &metadata.label {
        Some(text) => text.as_str(),
        None => "",
    };
    proof {
        reveal_strlit("");
        assert(encode_utf8(instance_id@) =~= field_bytes(metadata@.0));
        assert(encode_utf8(label@) =~= field_bytes(metadata@.1));
    }
    let mut out: Vec<u8> = Vec::new();
    out.push(0x4D);
    out.push(0x45);
    out.push(0x54);
    out.push(0x41);
    push_le(&mut out, stream_id as u64, 2);
    push_le(&mut out, instance_id.as_bytes().len() as u64, 2);
    push_le(&mut out, label.as_bytes().len() as u64, 2);
    out.extend_from_slice(instance_id.as_bytes());
    out.extend_from_slice(label.as_bytes());
    assert(out@ =~= control_message(stream_id, metadata@));
    Some(out)
}

/// A receiver reads from a control message the stream and both fields, as long as each field's
/// length fits its two bytes. Every field that passed through `metadata_field` does.
pub proof fn control_message_reads_back(
    stream_id: u16,
    metadata: (Option<Seq<char>>, Option<Seq<char>>),
)
    requires
        field_bytes(metadata.0).len() <= 0xFFFF,
        field_bytes(metadata.1).len() <= 0xFFFF,
    ensures
        ({
            let bytes = control_message(stream_id, metadata);
            let split = 10 + le_value(bytes.subrange(6, 8)) as int;
            &&& le_value(bytes.subrange(4, 6)) == stream_id
            &&& bytes.len() == split + le_value(bytes.subrange(8, 10))
            &&& bytes.subrange(10, split) == field_bytes(metadata.0)
            &&& bytes.subrange(split, bytes.len() as int) == field_bytes(metadata.1)
        }),
{
    let bytes = control_message(stream_id, metadata);
    let instance_id = field_bytes(metadata.0);
    let label = field_bytes(metadata.1);
    assert(byte_span(2) == 0x1_0000) by {
        reveal_with_fuel(byte_span, 3);
    }
    le_round_trip(stream_id as nat, 2);
    le_round_trip(instance_id.len(), 2);
    le_round_trip(label.len(), 2);
    assert(bytes.subrange(4, 6) =~= le_bytes(stream_id as nat, 2));
    assert(bytes.subrange(6, 8) =~= le_bytes(instance_id.len(), 2));
    assert(bytes.subrange(8, 10) =~= le_bytes(label.len(), 2));
    assert(bytes.subrange(10, 10int + instance_id.len()) =~= instance_id);
    assert(bytes.subrange(10int + instance_id.len(), bytes.len() as int) =~= label);
}

/// A field that was set is never empty and never longer than its limit.
pub proof fn field_is_bounded(value: Option<Seq<char>>, field: Seq<char>)
    requires
        sets_field(value, Some(field)),
    ensures
        0 < field.len(),
        encode_utf8(field).len() <= MAX_METADATA_FIELD_BYTES,
{
    crate::text::truncation_keeps_something(
        trimmed(value->0),
        MAX_METADATA_FIELD_BYTES as int,
        field,
    );
}

/// A field is set exactly if its value holds something besides white space. It is the value without
/// the white space around it, kept whole if that takes 512 bytes at most; and else as many whole
/// characters of it as 512 bytes hold, so that one more would not fit.
pub proof fn fields_keep_what_fits(
    value: Option<Seq<char>>,
    field: Option<Seq<char>>,
    count: int,
) -> (start: int)
    requires
        sets_field(value, field),
    ensures
        value is None ==> field is None,
        value matches Some(text) ==> (field is None <==> forall|i: int|
            0 <= i < text.len() ==> crate::text::is_white_space(#[trigger] text[i])),
        value matches Some(text) ==> field matches Some(kept) ==> {
            &&& 0 <= start <= start + kept.len() <= text.len()
            &&& kept == text.subrange(start, start + kept.len())
            &&& forall|i: int|
                0 <= i < start ==> crate::text::is_white_space(#[trigger] text[i])
            &&& !crate::text::is_white_space(kept[0])
            &&& 0 < encode_utf8(kept).len() <= 512
            &&& start + kept.len() < count <= start + trimmed(text).len() ==> encode_utf8(
                text.subrange(start, count),
            ).len() > 512
            &&& encode_utf8(trimmed(text)).len() <= 512 ==> kept == trimmed(text)
        },
{
    if let Some(text) = value {
        let whole = trimmed(text);
        let start = crate::text::trimming_takes_off_the_ends(text);
        if whole.len() > 0 {
            assert(!crate::text::is_white_space(text[start]));
            let kept = field->0;
            field_is_bounded(value, kept);
            assert(kept =~= text.subrange(start, start + kept.len()));
            assert(kept[0] == whole[0]);
            if encode_utf8(kept).len() == 0 {
                vstd::utf8::encode_utf8_decode_utf8(kept);
            }
            if start + kept.len() < count <= start + whole.len() {
                crate::text::truncation_is_the_longest(
                    whole,
                    MAX_METADATA_FIELD_BYTES as int,
                    kept,
                    count - start,
                );
                assert(whole.take(count - start) =~= text.subrange(start, count));
            }
        }
        start
    } else {
        0
    }
}

/// The names that are seen of a track are the texts that it has.
pub proof fn names_are_texts(metadata: TrackMetadata)
    ensures
        metadata@.0 is Some <==> metadata.instance_id is Some,
        metadata.instance_id matches Some(text) ==> metadata@.0 == Some(text@),
        metadata@.1 is Some <==> metadata.label is Some,
        metadata.label matches Some(text) ==> metadata@.1 == Some(text@),
{
}

/// A value that is given to a field is the text that it holds.
pub proof fn values_are_texts(value: Option<&str>)
    ensures
        slice_text(value) is Some <==> value is Some,
        value matches Some(text) ==> slice_text(value) == Some(text@),
{
}

/// What a value sets its field to is fixed.
pub proof fn field_is_unique(
    value: Option<Seq<char>>,
    one: Option<Seq<char>>,
    other: Option<Seq<char>>,
)
    requires
        sets_field(value, one),
        sets_field(value, other),
    ensures
        one == other,
{
    if one is Some {
        crate::text::truncation_is_unique(
            trimmed(value->0),
            MAX_METADATA_FIELD_BYTES as int,
            one->0,
            other->0,
        );
    }
}

} // verus!
