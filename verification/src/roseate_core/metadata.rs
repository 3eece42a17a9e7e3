//! The metadata roseate shows of an image, read from its Exif chunk.
use vstd::prelude::*;
use crate::roseate_core::error::Error;

verus! {

pub struct Location {
    pub longitude: Option<String>,
    pub latitude: Option<String>,
    pub altitude: Option<String>,
}

pub struct ImageMetadata {
    pub model: Option<String>,
    pub iso: Option<String>,
    pub aperture: Option<String>,
    pub focal_length: Option<String>,
    pub exposure_time: Option<String>,
    pub originally_created: Option<String>,
    pub location: Location,
}

/// The Exif tags roseate reads, all from the primary image.
#[derive(Debug, Clone, Copy, PartialEq, Eq, Structural)]
pub enum ExifTag {
    Model,
    Make,
    ExposureTime,
    GPSLongitude,
    GPSLatitude,
    GPSAltitude,
    PhotographicSensitivity,
    ApertureValue,
    FocalLength,
    DateTimeOriginal,
}

/// How the Exif reader shows the value of each tag roseate reads, for the tags
/// the chunk has.
pub struct ExifFieldTexts {
    pub model: Option<String>,
    pub make: Option<String>,
    pub exposure_time: Option<String>,
    pub gps_longitude: Option<String>,
    pub gps_latitude: Option<String>,
    pub gps_altitude: Option<String>,
    pub photographic_sensitivity: Option<String>,
    pub aperture_value: Option<String>,
    pub focal_length: Option<String>,
    pub date_time_original: Option<String>,
}

impl Default for Location {
    fn default() -> (location: Self)
        ensures
            location.longitude is None && location.latitude is None && location.altitude is None,
    {
        Self { longitude: None, latitude: None, altitude: None }
    }
}

impl Default for ImageMetadata {
    fn default() -> (metadata: Self)
        ensures
            metadata.model is None && metadata.iso is None && metadata.aperture is None,
            metadata.focal_length is None && metadata.exposure_time is None,
            metadata.originally_created is None,
            metadata.location.longitude is None && metadata.location.latitude is None,
            metadata.location.altitude is None,
    {
        Self {
            model: None,
            iso: None,
            aperture: None,
            focal_length: None,
            exposure_time: None,
            originally_created: None,
            location: Location::default(),
        }
    }
}

impl Clone for Location {
    fn clone(&self) -> (copy: Self)
        ensures
            copy == *self,
    {
        Self {
            longitude: self.longitude.clone(),
            latitude: self.latitude.clone(),
            altitude: self.altitude.clone(),
        }
    }
}

impl Clone for ImageMetadata {
    fn clone(&self) -> (copy: Self)
        ensures
            copy == *self,
    {
        Self {
            model: self.model.clone(),
            iso: self.iso.clone(),
            aperture: self.aperture.clone(),
            focal_length: self.focal_length.clone(),
            exposure_time: self.exposure_time.clone(),
            originally_created: self.originally_created.clone(),
            location: self.location.clone(),
        }
    }
}

/// `text` without the double quotes at its start.
pub open spec fn without_leading_quotes(text: Seq<char>) -> Seq<char>
    decreases text.len(),
{
    if text.len() > 0 && text[0] == '"' {
        without_leading_quotes(text.drop_first())
    } else {
        text
    }
}

/// `text` without the double quotes at its end.
pub open spec fn without_trailing_quotes(text: Seq<char>) -> Seq<char>
    decreases text.len(),
{
    if text.len() > 0 && text.last() == '"' {
        without_trailing_quotes(text.drop_last())
    } else {
        text
    }
}

/// `text` with the double quotes at both of its ends trimmed off,
/// as `str::trim_matches('"')` trims them.
pub open spec fn trim_quotes(text: Seq<char>) -> Seq<char> {
    without_trailing_quotes(without_leading_quotes(text))
}

/// The part of `text` before its first `.`, if it has one, as `str::split_once(".")`
/// finds it.
pub open spec fn before_first_dot(text: Seq<char>) -> Option<Seq<char>> {
    if exists|i: int| 0 <= i < text.len() && text[i] == '.' {
        let first = choose|i: int| 0 <= i < text.len() && text[i] == '.' && forall|j: int|
            0 <= j < i ==> text[j] != '.';
        Some(text.subrange(0, first))
    } else {
        None
    }
}

/// The view of an optional text.
pub open spec fn opt_view(text: Option<String>) -> Option<Seq<char>> {
    match text {
        Some(t) => Some(t@),
        None => None,
    }
}

/// An optional field's text with its quotes trimmed off.
pub open spec fn trimmed_field(text: Option<Seq<char>>) -> Option<Seq<char>> {
    match text {
        Some(t) => Some(trim_quotes(t)),
        None => None,
    }
}

/// The camera model, followed by its maker in brackets when the chunk names one.
pub open spec fn model_text(model: Option<Seq<char>>, make: Option<Seq<char>>) -> Option<Seq<char>> {
    match model {
        None => None,
        Some(model) => match make {
            None => Some(trim_quotes(model)),
            Some(make) => Some(trim_quotes(model) + " ("@ + trim_quotes(make) + ")"@),
        },
    }
}

/// The whole seconds of an exposure time, when its text has a decimal point.
pub open spec fn exposure_text(exposure_time: Option<Seq<char>>) -> Option<Seq<char>> {
    match exposure_time {
        None => None,
        Some(text) => before_first_dot(text),
    }
}

/// The text `fields` holds for `tag`.
pub open spec fn field_text(fields: ExifFieldTexts, tag: ExifTag) -> Option<Seq<char>> {
    match tag {
        ExifTag::Model => opt_view(fields.model),
        ExifTag::Make => opt_view(fields.make),
        ExifTag::ExposureTime => opt_view(fields.exposure_time),
        ExifTag::GPSLongitude => opt_view(fields.gps_longitude),
        ExifTag::GPSLatitude => opt_view(fields.gps_latitude),
        ExifTag::GPSAltitude => opt_view(fields.gps_altitude),
        ExifTag::PhotographicSensitivity => opt_view(fields.photographic_sensitivity),
        ExifTag::ApertureValue => opt_view(fields.aperture_value),
        ExifTag::FocalLength => opt_view(fields.focal_length),
        ExifTag::DateTimeOriginal => opt_view(fields.date_time_original),
    }
}

/// Whether `metadata` is what roseate shows of an image whose Exif field for each tag
/// reads `field(tag)` (`None` for a field the image does not have).
pub open spec fn shows_fields(metadata: ImageMetadata, field: spec_fn(ExifTag) -> Option<Seq<char>>) -> bool {
    &&& opt_view(metadata.model) == model_text(field(ExifTag::Model), field(ExifTag::Make))
    &&& opt_view(metadata.iso) == trimmed_field(field(ExifTag::PhotographicSensitivity))
    &&& opt_view(metadata.aperture) == trimmed_field(field(ExifTag::ApertureValue))
    &&& opt_view(metadata.focal_length) == trimmed_field(field(ExifTag::FocalLength))
    &&& opt_view(metadata.exposure_time) == exposure_text(field(ExifTag::ExposureTime))
    &&& opt_view(metadata.originally_created) == trimmed_field(field(ExifTag::DateTimeOriginal))
    &&& opt_view(metadata.location.longitude) == trimmed_field(field(ExifTag::GPSLongitude))
    &&& opt_view(metadata.location.latitude) == trimmed_field(field(ExifTag::GPSLatitude))
    &&& opt_view(metadata.location.altitude) == trimmed_field(field(ExifTag::GPSAltitude))
}

/// `text` with the double quotes at both of its ends trimmed off.
pub fn trim_quotes_text(text: &str) -> (trimmed: String)
    ensures
        trimmed@ == trim_quotes(text@),
{
    let len = text.unicode_len();
    let mut start: usize = 0;
    assert(text@.subrange(0, len as int) =~= text@);
    while start < len && text.get_char(start) == '"'
        invariant
            len == text@.len(),
            start <= len,
            without_leading_quotes(text@) == without_leading_quotes(text@.subrange(start as int, len as int)),
        decreases len - start,
    {
        assert(text@.subrange(start as int, len as int).drop_first() =~= text@.subrange(start + 1, len as int));
        start = start + 1;
    }
    assert(without_leading_quotes(text@.subrange(start as int, len as int)) == text@.subrange(start as int, len as int));
    let mut end: usize = len;
    while end > start && text.get_char(end - 1) == '"'
        invariant
            len == text@.len(),
            start <= end <= len,
            trim_quotes(text@) == without_trailing_quotes(text@.subrange(start as int, end as int)),
        decreases end,
    {
        assert(text@.subrange(start as int, end as int).drop_last() =~= text@.subrange(start as int, end - 1));
        end = end - 1;
    }
    assert(without_trailing_quotes(text@.subrange(start as int, end as int)) == text@.subrange(start as int, end as int));
    String::from_str(text.substring_char(start, end))
}

/// The part of `text` before its first `.`, if it has one.
pub fn text_before_first_dot(text: &str) -> (part: Option<String>)
    ensures
        opt_view(part) == before_first_dot(text@),
{
    let len = text.unicode_len();
    let mut index: usize = 0;
    while index < len
        invariant
            len == text@.len(),
            index <= len,
            forall|j: int| 0 <= j < index ==> text@[j] != '.',
        decreases len - index,
    {
        if text.get_char(index) == '.' {
            let ghost first = choose|i: int| 0 <= i < text@.len() && text@[i] == '.' && forall|j: int|
                0 <= j < i ==> text@[j] != '.';
            assert(first == index) by {
                if first < index {
                    assert(text@[first] != '.');
                } else if first > index {
                    assert(text@[index as int] != '.');
                }
            }
            return Some(String::from_str(text.substring_char(0, index)));
        }
        index = index + 1;
    }
    None
}

/// The field's text with its quotes trimmed off.
fn trimmed(text: &Option<String>) -> (result: Option<String>)
    ensures
        opt_view(result) == trimmed_field(opt_view(*text)),
{
    match text {
        Some(text) => Some(trim_quotes_text(text.as_str())),
        None => None,
    }
}

#[verifier::external_type_specification]
#[verifier::external_body]
pub struct ExExifTag(exif::Tag);

/// The error text with which the Exif reader (`exif::Reader::read_raw`) refuses
/// `chunk`, or `None` when it parses it.
pub uninterp spec fn exif_read_error(chunk: Seq<u8>) -> Option<Seq<char>>;

/// How the Exif reader shows the field `tag` of the primary image of `chunk`
/// (`Exif::get_field`, then `Field::display_value`): `None` when `chunk` has no such
/// field or the reader refuses it.
pub uninterp spec fn exif_field_display(chunk: Seq<u8>, tag: ExifTag) -> Option<Seq<char>>;

/// `exif::Reader::new().read_raw(chunk)`, keeping only its error's text.
/// Whether it fails, and with which text, is named `exif_read_error`.
#[verifier::external_body]
fn exif_error_text(chunk: &Vec<u8>) -> (error: Option<String>)
    ensures
        opt_view(error) == exif_read_error(chunk@),
{
    exif::Reader::new().read_raw(chunk.clone()).err().map(|error| error.to_string())
}

/// The `exif::Tag` for each tag roseate reads, one for one.
#[verifier::external_body]
fn exif_tag(tag: ExifTag) -> exif::Tag {
    match tag {
        ExifTag::Model => exif::Tag::Model,
        ExifTag::Make => exif::Tag::Make,
        ExifTag::ExposureTime => exif::Tag::ExposureTime,
        ExifTag::GPSLongitude => exif::Tag::GPSLongitude,
        ExifTag::GPSLatitude => exif::Tag::GPSLatitude,
        ExifTag::GPSAltitude => exif::Tag::GPSAltitude,
        ExifTag::PhotographicSensitivity => exif::Tag::PhotographicSensitivity,
        ExifTag::ApertureValue => exif::Tag::ApertureValue,
        ExifTag::FocalLength => exif::Tag::FocalLength,
        ExifTag::DateTimeOriginal => exif::Tag::DateTimeOriginal,
    }
}

/// The Exif reader's parse of `chunk`, its field for `tag` in the primary image
/// (`Exif::get_field`) shown through `Field::display_value`; the result is named
/// `exif_field_display`.
#[verifier::external_body]
fn exif_field_text(chunk: &Vec<u8>, tag: ExifTag) -> (text: Option<String>)
    ensures
        opt_view(text) == exif_field_display(chunk@, tag),
{
    let exif = exif::Reader::new().read_raw(chunk.clone()).ok()?;
    let field = exif.get_field(exif_tag(tag), exif::In::PRIMARY)?;
    Some(field.display_value().to_string())
}

impl ImageMetadata {
    /// The metadata roseate shows of an image whose Exif fields read `fields`:
    /// quotes trimmed off, the model followed by its maker in brackets, and the
    /// whole seconds of the exposure time.
    pub fn from_exif_fields(fields: &ExifFieldTexts) -> (metadata: Self)
        ensures
            shows_fields(metadata, |tag: ExifTag| field_text(*fields, tag)),
            opt_view(metadata.model) == model_text(opt_view(fields.model), opt_view(fields.make)),
            opt_view(metadata.iso) == trimmed_field(opt_view(fields.photographic_sensitivity)),
            opt_view(metadata.aperture) == trimmed_field(opt_view(fields.aperture_value)),
            opt_view(metadata.focal_length) == trimmed_field(opt_view(fields.focal_length)),
            opt_view(metadata.exposure_time) == exposure_text(opt_view(fields.exposure_time)),
            opt_view(metadata.originally_created) == trimmed_field(opt_view(fields.date_time_original)),
            opt_view(metadata.location.longitude) == trimmed_field(opt_view(fields.gps_longitude)),
            opt_view(metadata.location.latitude) == trimmed_field(opt_view(fields.gps_latitude)),
            opt_view(metadata.location.altitude) == trimmed_field(opt_view(fields.gps_altitude)),
    {
        let model = match &fields.model {
            Some(model) => {
                let mut text = trim_quotes_text(model.as_str());
                if let Some(make) = &fields.make {
                    text.append(" (");
                    text.append(trim_quotes_text(make.as_str()).as_str());
                    text.append(")");
                }
                Some(text)
            },
            None => None,
        };
        let exposure_time = match &fields.exposure_time {
            Some(text) => text_before_first_dot(text.as_str()),
            None => None,
        };
        Self {
            model,
            iso: trimmed(&fields.photographic_sensitivity),
            aperture: trimmed(&fields.aperture_value),
            focal_length: trimmed(&fields.focal_length),
            exposure_time,
            originally_created: trimmed(&fields.date_time_original),
            location: Location {
                longitude: trimmed(&fields.gps_longitude),
                latitude: trimmed(&fields.gps_latitude),
                altitude: trimmed(&fields.gps_altitude),
            },
        }
    }

    /// Reads and parses an Exif chunk into the metadata roseate shows. Fails with
    /// `ExifReaderImageMetadataParseFailure` exactly when the Exif reader refuses the chunk;
    /// otherwise shows the fields the reader finds in it.
    pub fn new(exif_chunk: Vec<u8>) -> (result: Result<Self, Error>)
        ensures
            result is Err <==> exif_read_error(exif_chunk@) is Some,
            result matches Err(e) ==> (e matches Error::ExifReaderImageMetadataParseFailure { error }
                && Some(error@) == exif_read_error(exif_chunk@)),
            result matches Ok(metadata) ==> shows_fields(
                metadata,
                |tag: ExifTag| exif_field_display(exif_chunk@, tag),
            ),
            result matches Ok(metadata) ==> {
                let shown = |tag: ExifTag| exif_field_display(exif_chunk@, tag);
                &&& opt_view(metadata.model) == model_text(shown(ExifTag::Model), shown(ExifTag::Make))
                &&& opt_view(metadata.iso) == trimmed_field(shown(ExifTag::PhotographicSensitivity))
                &&& opt_view(metadata.aperture) == trimmed_field(shown(ExifTag::ApertureValue))
                &&& opt_view(metadata.focal_length) == trimmed_field(shown(ExifTag::FocalLength))
                &&& opt_view(metadata.exposure_time) == exposure_text(shown(ExifTag::ExposureTime))
                &&& opt_view(metadata.originally_created) == trimmed_field(shown(ExifTag::DateTimeOriginal))
                &&& opt_view(metadata.location.longitude) == trimmed_field(shown(ExifTag::GPSLongitude))
                &&& opt_view(metadata.location.latitude) == trimmed_field(shown(ExifTag::GPSLatitude))
                &&& opt_view(metadata.location.altitude) == trimmed_field(shown(ExifTag::GPSAltitude))
            },
    {
        if let Some(error) = exif_error_text(&exif_chunk) {
            return Err(Error::ExifReaderImageMetadataParseFailure { error });
        }
        let fields = ExifFieldTexts {
            model: exif_field_text(&exif_chunk, ExifTag::Model),
            make: exif_field_text(&exif_chunk, ExifTag::Make),
            exposure_time: exif_field_text(&exif_chunk, ExifTag::ExposureTime),
            gps_longitude: exif_field_text(&exif_chunk, ExifTag::GPSLongitude),
            gps_latitude: exif_field_text(&exif_chunk, ExifTag::GPSLatitude),
            gps_altitude: exif_field_text(&exif_chunk, ExifTag::GPSAltitude),
            photographic_sensitivity: exif_field_text(&exif_chunk, ExifTag::PhotographicSensitivity),
            aperture_value: exif_field_text(&exif_chunk, ExifTag::ApertureValue),
            focal_length: exif_field_text(&exif_chunk, ExifTag::FocalLength),
            date_time_original: exif_field_text(&exif_chunk, ExifTag::DateTimeOriginal),
        };
        let metadata = Self::from_exif_fields(&fields);
        proof {
            let read = |tag: ExifTag| field_text(fields, tag);
            let shown = |tag: ExifTag| exif_field_display(exif_chunk@, tag);
            assert forall|tag: ExifTag| #[trigger] read(tag) == shown(tag) by {
                match tag {
                    ExifTag::Model => {},
                    ExifTag::Make => {},
                    ExifTag::ExposureTime => {},
                    ExifTag::GPSLongitude => {},
                    ExifTag::GPSLatitude => {},
                    ExifTag::GPSAltitude => {},
                    ExifTag::PhotographicSensitivity => {},
                    ExifTag::ApertureValue => {},
                    ExifTag::FocalLength => {},
                    ExifTag::DateTimeOriginal => {},
                }
            }
            assert(read =~= shown);
        }
        Ok(metadata)
    }
}

} // verus!
