//! The element readers: one loop per entity over the event stream, each
//! proved to read exactly what the grammar says.
use crate::enums::{
    BuildType, Intensity, SensorState, Sport, TrainingType, TriggerMethod, UnknownEnumValueError,
};
use crate::grammar::{
    activity_handler, activity_in, activity_list_handler, activity_list_in, application_handler,
    application_in, as_bool, as_build_type, as_decimal, as_intensity, as_sensor_state, as_sport,
    as_timestamp, as_training_type, as_trigger_method, as_u16, as_u32, as_u8, attribute_fold,
    attributes_of, build_handler, build_in, build_type_leaf, database_handler, database_in,
    decimal_leaf, device_handler, device_in, first_with_key, intensity_leaf, lap_attributes,
    lap_handler, lap_in, leaf_text, lemma_activity_handler, lemma_activity_list_handler,
    lemma_application_handler, lemma_build_handler, lemma_database_handler,
    lemma_device_handler, lemma_lap_handler, lemma_plan_handler, lemma_position_handler,
    lemma_quick_workout_handler, lemma_track_handler, lemma_track_point_handler,
    lemma_training_handler, lemma_value_handler, lemma_version_handler, plan_attributes,
    plan_handler, plan_in, plan_initial, position_handler, position_in, quick_workout_handler,
    quick_workout_in, scan, sensor_state_leaf, shrinking, source_in, sport_leaf, timestamp_leaf,
    track_handler, track_in, track_point_handler, track_point_in, training_handler, training_in,
    trigger_method_leaf, type_of, u16_leaf, u32_leaf, u8_leaf, value_handler, value_in,
    version_handler, version_in, Failure,
};
use crate::text::{has_name, parse_bool, parse_unsigned, same_text};
use crate::timestamp::{parse_timestamp, Timestamp};
use crate::types::{
    points_view, Activity, ActivityLap, ActivityList, ActivityView, Application, Build, Decimal,
    Device, Plan, Position, QuickWorkout, SourceType, TrackPoint, TrackPointView, Training,
    TrainingCenterDatabase, Version,
};
use crate::xml::{
    attribute_list, attribute_view, unescaped_value, well_ended, StartTag, XmlEvent, XmlReader,
};
use vstd::prelude::*;

verus! {

/// Why a document could not be read.
#[derive(Debug)]
pub enum ReadError {
    XmlReadError(quick_xml::Error),
    ParseIntError(String),
    ParseFloatError(String),
    ParseBoolError(String),
    TypeNotDefined,
    UnknownEnumValue(UnknownEnumValueError),
    ParseDateError(String),
    /// The input ended before the element being read was closed.
    UnexpectedEof,
}

impl ReadError {
    pub open spec fn failure(&self) -> Failure {
        match self {
            ReadError::XmlReadError(_) => Failure::Markup,
            ReadError::ParseIntError(t) => Failure::Int(t@),
            ReadError::ParseFloatError(t) => Failure::Float(t@),
            ReadError::ParseBoolError(t) => Failure::Bool(t@),
            ReadError::TypeNotDefined => Failure::TypeNotDefined,
            ReadError::UnknownEnumValue(e) => Failure::UnknownEnum(e.kind(), e.text()),
            ReadError::ParseDateError(t) => Failure::Date(t@),
            ReadError::UnexpectedEof => Failure::Truncated,
        }
    }
}

pub open spec fn plain<T>(r: Result<T, ReadError>) -> Result<T, Failure> {
    match r {
        Ok(v) => Ok(v),
        Err(e) => Err(e.failure()),
    }
}

pub open spec fn viewed<T: View>(r: Result<T, ReadError>) -> Result<T::V, Failure> {
    match r {
        Ok(v) => Ok(v@),
        Err(e) => Err(e.failure()),
    }
}

pub open spec fn opt_viewed<T: View>(r: Result<Option<T>, ReadError>) -> Result<Option<T::V>, Failure> {
    match r {
        Ok(Some(v)) => Ok(Some(v@)),
        Ok(None) => Ok(None),
        Err(e) => Err(e.failure()),
    }
}

/// Takes the next event; the end of input and markup errors become errors.
fn pull(reader: &mut XmlReader) -> (r: Result<XmlEvent, ReadError>)
    requires
        well_ended(old(reader).pending()),
    ensures
        final(reader).pending() == old(reader).pending().drop_first(),
        match r {
            Ok(e) => {
                &&& old(reader).pending()[0] == Some(e)
                &&& !(e is Eof)
                &&& well_ended(final(reader).pending())
            },
            Err(err) => {
                ||| old(reader).pending()[0] is None && err.failure() == Failure::Markup
                ||| old(reader).pending()[0] == Some(XmlEvent::Eof) && err.failure()
                    == Failure::Truncated
            },
        },
{
    let ghost s = reader.pending();
    match reader.next_event() {
        Ok(XmlEvent::Eof) => Err(ReadError::UnexpectedEof),
        Ok(e) => {
            assert(s.len() > 1);
            assert(s.drop_first().last() == s.last());
            Ok(e)
        },
        Err(e) => Err(ReadError::XmlReadError(e)),
    }
}

/// The text that follows a start tag, if the next event is text.
fn read_text(reader: &mut XmlReader) -> (r: Result<Option<String>, ReadError>)
    requires
        well_ended(old(reader).pending()),
    ensures
        (opt_viewed(r), final(reader).pending()) == leaf_text(old(reader).pending()),
        r is Ok ==> well_ended(final(reader).pending()),
{
    let ev = match pull(reader) {
        Ok(ev) => ev,
        Err(e) => return Err(e),
    };
    match ev {
        XmlEvent::Text(raw) => match reader.decode_text(raw.as_slice()) {
            Ok(t) => Ok(Some(t)),
            Err(e) => Err(ReadError::XmlReadError(e)),
        },
        _ => Ok(None),
    }
}

/// An attribute value, decoded.
fn read_attribute(reader: &XmlReader, raw: &[u8]) -> (r: Result<String, ReadError>)
    ensures
        match r {
            Ok(t) => unescaped_value(raw@) == Some(t@),
            Err(e) => unescaped_value(raw@) is None && e.failure() == Failure::Markup,
        },
{
    match reader.decode_value(raw) {
        Ok(t) => Ok(t),
        Err(e) => Err(ReadError::XmlReadError(e)),
    }
}

fn parse_u8(t: &str) -> (r: Result<u8, ReadError>)
    ensures
        plain(r) == as_u8(t@),
{
    match parse_unsigned(t, 255) {
        Some(v) => Ok(v as u8),
        None => Err(ReadError::ParseIntError(t.to_owned())),
    }
}

fn parse_u16(t: &str) -> (r: Result<u16, ReadError>)
    ensures
        plain(r) == as_u16(t@),
{
    match parse_unsigned(t, 65535) {
        Some(v) => Ok(v as u16),
        None => Err(ReadError::ParseIntError(t.to_owned())),
    }
}

fn parse_u32(t: &str) -> (r: Result<u32, ReadError>)
    ensures
        plain(r) == as_u32(t@),
{
    match parse_unsigned(t, 4294967295) {
        Some(v) => Ok(v),
        None => Err(ReadError::ParseIntError(t.to_owned())),
    }
}

fn parse_decimal(t: &str) -> (r: Result<Decimal, ReadError>)
    ensures
        viewed(r) == as_decimal(t@),
{
    match Decimal::parse(t) {
        Some(d) => Ok(d),
        None => Err(ReadError::ParseFloatError(t.to_owned())),
    }
}

fn parse_flag(t: &str) -> (r: Result<bool, ReadError>)
    ensures
        plain(r) == as_bool(t@),
{
    match parse_bool(t) {
        Some(b) => Ok(b),
        None => Err(ReadError::ParseBoolError(t.to_owned())),
    }
}

fn parse_date(t: &str) -> (r: Result<Timestamp, ReadError>)
    ensures
        plain(r) == as_timestamp(t@),
{
    match parse_timestamp(t) {
        Some(d) => Ok(d),
        None => Err(ReadError::ParseDateError(t.to_owned())),
    }
}

fn parse_build_type(t: &str) -> (r: Result<BuildType, ReadError>)
    ensures
        plain(r) == as_build_type(t@),
{
    match BuildType::from_str(t) {
        Ok(v) => Ok(v),
        Err(e) => Err(ReadError::UnknownEnumValue(e)),
    }
}

fn parse_training_type(t: &str) -> (r: Result<TrainingType, ReadError>)
    ensures
        plain(r) == as_training_type(t@),
{
    match TrainingType::from_str(t) {
        Ok(v) => Ok(v),
        Err(e) => Err(ReadError::UnknownEnumValue(e)),
    }
}

fn parse_sensor_state(t: &str) -> (r: Result<SensorState, ReadError>)
    ensures
        plain(r) == as_sensor_state(t@),
{
    match SensorState::from_str(t) {
        Ok(v) => Ok(v),
        Err(e) => Err(ReadError::UnknownEnumValue(e)),
    }
}

fn parse_intensity(t: &str) -> (r: Result<Intensity, ReadError>)
    ensures
        plain(r) == as_intensity(t@),
{
    match Intensity::from_str(t) {
        Ok(v) => Ok(v),
        Err(e) => Err(ReadError::UnknownEnumValue(e)),
    }
}

fn parse_trigger_method(t: &str) -> (r: Result<TriggerMethod, ReadError>)
    ensures
        plain(r) == as_trigger_method(t@),
{
    match TriggerMethod::from_str(t) {
        Ok(v) => Ok(v),
        Err(e) => Err(ReadError::UnknownEnumValue(e)),
    }
}

fn parse_sport(t: &str) -> (r: Result<Sport, ReadError>)
    ensures
        plain(r) == as_sport(t@),
{
    match Sport::from_str(t) {
        Ok(v) => Ok(v),
        Err(e) => Err(ReadError::UnknownEnumValue(e)),
    }
}

// One reader for each kind of scalar leaf.
fn read_u8(reader: &mut XmlReader) -> (r: Result<Option<u8>, ReadError>)
    requires
        well_ended(old(reader).pending()),
    ensures
        (plain(r), final(reader).pending()) == u8_leaf(old(reader).pending()),
        r is Ok ==> well_ended(final(reader).pending()),
{
    match read_text(reader) {
        Ok(Some(t)) => match parse_u8(&t) {
            Ok(v) => Ok(Some(v)),
            Err(e) => Err(e),
        },
        Ok(None) => Ok(None),
        Err(e) => Err(e),
    }
}

fn read_u16(reader: &mut XmlReader) -> (r: Result<Option<u16>, ReadError>)
    requires
        well_ended(old(reader).pending()),
    ensures
        (plain(r), final(reader).pending()) == u16_leaf(old(reader).pending()),
        r is Ok ==> well_ended(final(reader).pending()),
{
    match read_text(reader) {
        Ok(Some(t)) => match parse_u16(&t) {
            Ok(v) => Ok(Some(v)),
            Err(e) => Err(e),
        },
        Ok(None) => Ok(None),
        Err(e) => Err(e),
    }
}

fn read_u32(reader: &mut XmlReader) -> (r: Result<Option<u32>, ReadError>)
    requires
        well_ended(old(reader).pending()),
    ensures
        (plain(r), final(reader).pending()) == u32_leaf(old(reader).pending()),
        r is Ok ==> well_ended(final(reader).pending()),
{
    match read_text(reader) {
        Ok(Some(t)) => match parse_u32(&t) {
            Ok(v) => Ok(Some(v)),
            Err(e) => Err(e),
        },
        Ok(None) => Ok(None),
        Err(e) => Err(e),
    }
}

fn read_decimal(reader: &mut XmlReader) -> (r: Result<Option<Decimal>, ReadError>)
    requires
        well_ended(old(reader).pending()),
    ensures
        (opt_viewed(r), final(reader).pending()) == decimal_leaf(old(reader).pending()),
        r is Ok ==> well_ended(final(reader).pending()),
{
    match read_text(reader) {
        Ok(Some(t)) => match parse_decimal(&t) {
            Ok(v) => Ok(Some(v)),
            Err(e) => Err(e),
        },
        Ok(None) => Ok(None),
        Err(e) => Err(e),
    }
}

fn read_timestamp(reader: &mut XmlReader) -> (r: Result<Option<Timestamp>, ReadError>)
    requires
        well_ended(old(reader).pending()),
    ensures
        (plain(r), final(reader).pending()) == timestamp_leaf(old(reader).pending()),
        r is Ok ==> well_ended(final(reader).pending()),
{
    match read_text(reader) {
        Ok(Some(t)) => match parse_date(&t) {
            Ok(v) => Ok(Some(v)),
            Err(e) => Err(e),
        },
        Ok(None) => Ok(None),
        Err(e) => Err(e),
    }
}

fn read_build_type(reader: &mut XmlReader) -> (r: Result<Option<BuildType>, ReadError>)
    requires
        well_ended(old(reader).pending()),
    ensures
        (plain(r), final(reader).pending()) == build_type_leaf(old(reader).pending()),
        r is Ok ==> well_ended(final(reader).pending()),
{
    match read_text(reader) {
        Ok(Some(t)) => match parse_build_type(&t) {
            Ok(v) => Ok(Some(v)),
            Err(e) => Err(e),
        },
        Ok(None) => Ok(None),
        Err(e) => Err(e),
    }
}

fn read_sensor_state(reader: &mut XmlReader) -> (r: Result<Option<SensorState>, ReadError>)
    requires
        well_ended(old(reader).pending()),
    ensures
        (plain(r), final(reader).pending()) == sensor_state_leaf(old(reader).pending()),
        r is Ok ==> well_ended(final(reader).pending()),
{
    match read_text(reader) {
        Ok(Some(t)) => match parse_sensor_state(&t) {
            Ok(v) => Ok(Some(v)),
            Err(e) => Err(e),
        },
        Ok(None) => Ok(None),
        Err(e) => Err(e),
    }
}

fn read_intensity(reader: &mut XmlReader) -> (r: Result<Option<Intensity>, ReadError>)
    requires
        well_ended(old(reader).pending()),
    ensures
        (plain(r), final(reader).pending()) == intensity_leaf(old(reader).pending()),
        r is Ok ==> well_ended(final(reader).pending()),
{
    match read_text(reader) {
        Ok(Some(t)) => match parse_intensity(&t) {
            Ok(v) => Ok(Some(v)),
            Err(e) => Err(e),
        },
        Ok(None) => Ok(None),
        Err(e) => Err(e),
    }
}

fn read_trigger_method(reader: &mut XmlReader) -> (r: Result<Option<TriggerMethod>, ReadError>)
    requires
        well_ended(old(reader).pending()),
    ensures
        (plain(r), final(reader).pending()) == trigger_method_leaf(old(reader).pending()),
        r is Ok ==> well_ended(final(reader).pending()),
{
    match read_text(reader) {
        Ok(Some(t)) => match parse_trigger_method(&t) {
            Ok(v) => Ok(Some(v)),
            Err(e) => Err(e),
        },
        Ok(None) => Ok(None),
        Err(e) => Err(e),
    }
}

fn read_sport(reader: &mut XmlReader) -> (r: Result<Option<Sport>, ReadError>)
    requires
        well_ended(old(reader).pending()),
    ensures
        (plain(r), final(reader).pending()) == sport_leaf(old(reader).pending()),
        r is Ok ==> well_ended(final(reader).pending()),
{
    match read_text(reader) {
        Ok(Some(t)) => match parse_sport(&t) {
            Ok(v) => Ok(Some(v)),
            Err(e) => Err(e),
        },
        Ok(None) => Ok(None),
        Err(e) => Err(e),
    }
}

/// Reads a `Version` element's content.
pub fn read_version(reader: &mut XmlReader) -> (r: Result<Version, ReadError>)
    requires
        well_ended(old(reader).pending()),
    ensures
        (plain(r), final(reader).pending()) == version_in(old(reader).pending()),
        r is Ok ==> well_ended(final(reader).pending()),
{
    let mut version = Version::zero();
    proof {
        lemma_version_handler();
    }
    loop
        invariant
            well_ended(reader.pending()),
            shrinking(version_handler()),
            scan(reader.pending(), "Version"@, version, version_handler()) == version_in(
                old(reader).pending(),
            ),
        decreases reader.pending().len(),
    {
        let ev = match pull(reader) {
            Ok(ev) => ev,
            Err(e) => return Err(e),
        };
        match ev {
            XmlEvent::Start(tag) => {
                let n = tag.name.as_slice();
                if has_name(n, "VersionMajor") {
                    match read_u16(reader) {
                        Ok(Some(v)) => version.version_major = v,
                        Ok(None) => {},
                        Err(e) => return Err(e),
                    }
                } else if has_name(n, "VersionMinor") {
                    match read_u16(reader) {
                        Ok(Some(v)) => version.version_minor = v,
                        Ok(None) => {},
                        Err(e) => return Err(e),
                    }
                } else if has_name(n, "BuildMajor") {
                    match read_u16(reader) {
                        Ok(Some(v)) => version.build_major = Some(v),
                        Ok(None) => {},
                        Err(e) => return Err(e),
                    }
                } else if has_name(n, "BuildMinor") {
                    match read_u16(reader) {
                        Ok(Some(v)) => version.build_minor = Some(v),
                        Ok(None) => {},
                        Err(e) => return Err(e),
                    }
                }
            },
            XmlEvent::End(name) => {
                if has_name(name.as_slice(), "Version") {
                    return Ok(version);
                }
            },
            _ => {},
        }
    }
}

/// Reads a `Build` element's content.
pub fn read_build(reader: &mut XmlReader) -> (r: Result<Build, ReadError>)
    requires
        well_ended(old(reader).pending()),
    ensures
        (viewed(r), final(reader).pending()) == build_in(old(reader).pending()),
        r is Ok ==> well_ended(final(reader).pending()),
{
    let mut build = Build {
        version: Version::zero(),
        build_type: None,
        time: None,
        builder: None,
    };
    proof {
        lemma_build_handler();
    }
    loop
        invariant
            well_ended(reader.pending()),
            shrinking(build_handler()),
            scan(reader.pending(), "Build"@, build@, build_handler()) == build_in(
                old(reader).pending(),
            ),
        decreases reader.pending().len(),
    {
        let ev = match pull(reader) {
            Ok(ev) => ev,
            Err(e) => return Err(e),
        };
        match ev {
            XmlEvent::Start(tag) => {
                let n = tag.name.as_slice();
                if has_name(n, "Version") {
                    match read_version(reader) {
                        Ok(v) => build.version = v,
                        Err(e) => return Err(e),
                    }
                } else if has_name(n, "Time") {
                    match read_text(reader) {
                        Ok(Some(v)) => build.time = Some(v),
                        Ok(None) => {},
                        Err(e) => return Err(e),
                    }
                } else if has_name(n, "Build") {
                    match read_text(reader) {
                        Ok(Some(v)) => build.builder = Some(v),
                        Ok(None) => {},
                        Err(e) => return Err(e),
                    }
                } else if has_name(n, "Type") {
                    match read_build_type(reader) {
                        Ok(Some(v)) => build.build_type = Some(v),
                        Ok(None) => {},
                        Err(e) => return Err(e),
                    }
                }
            },
            XmlEvent::End(name) => {
                if has_name(name.as_slice(), "Build") {
                    return Ok(build);
                }
            },
            _ => {},
        }
    }
}

/// Reads the content of an application element that ends with `close_tag`.
pub fn read_application(reader: &mut XmlReader, close_tag: &str) -> (r: Result<Application, ReadError>)
    requires
        well_ended(old(reader).pending()),
    ensures
        (viewed(r), final(reader).pending()) == application_in(old(reader).pending(), close_tag@),
        r is Ok ==> well_ended(final(reader).pending()),
{
    let mut a = Application {
        name: String::new(),
        build: Build {
            version: Version::zero(),
            build_type: None,
            time: None,
            builder: None,
        },
        lang_id: String::new(),
        part_number: String::new(),
    };
    proof {
        lemma_application_handler();
    }
    loop
        invariant
            well_ended(reader.pending()),
            shrinking(application_handler()),
            scan(reader.pending(), close_tag@, a@, application_handler()) == application_in(
                old(reader).pending(),
                close_tag@,
            ),
        decreases reader.pending().len(),
    {
        let ev = match pull(reader) {
            Ok(ev) => ev,
            Err(e) => return Err(e),
        };
        match ev {
            XmlEvent::Start(tag) => {
                let n = tag.name.as_slice();
                if has_name(n, "Name") {
                    match read_text(reader) {
                        Ok(Some(v)) => a.name = v,
                        Ok(None) => {},
                        Err(e) => return Err(e),
                    }
                } else if has_name(n, "Build") {
                    match read_build(reader) {
                        Ok(b) => a.build = b,
                        Err(e) => return Err(e),
                    }
                } else if has_name(n, "LangID") {
                    match read_text(reader) {
                        Ok(Some(v)) => a.lang_id = v,
                        Ok(None) => {},
                        Err(e) => return Err(e),
                    }
                } else if has_name(n, "PartNumber") {
                    match read_text(reader) {
                        Ok(Some(v)) => a.part_number = v,
                        Ok(None) => {},
                        Err(e) => return Err(e),
                    }
                }
            },
            XmlEvent::End(name) => {
                if has_name(name.as_slice(), close_tag) {
                    return Ok(a);
                }
            },
            _ => {},
        }
    }
}

/// Reads the content of a device element that ends with `close_tag`.
pub fn read_device(reader: &mut XmlReader, close_tag: &str) -> (r: Result<Device, ReadError>)
    requires
        well_ended(old(reader).pending()),
    ensures
        (viewed(r), final(reader).pending()) == device_in(old(reader).pending(), close_tag@),
        r is Ok ==> well_ended(final(reader).pending()),
{
    let mut d = Device {
        name: String::new(),
        unit_id: 0,
        product_id: 0,
        version: Version::zero(),
    };
    proof {
        lemma_device_handler();
    }
    loop
        invariant
            well_ended(reader.pending()),
            shrinking(device_handler()),
            scan(reader.pending(), close_tag@, d@, device_handler()) == device_in(
                old(reader).pending(),
                close_tag@,
            ),
        decreases reader.pending().len(),
    {
        let ev = match pull(reader) {
            Ok(ev) => ev,
            Err(e) => return Err(e),
        };
        match ev {
            XmlEvent::Start(tag) => {
                let n = tag.name.as_slice();
                if has_name(n, "Name") {
                    match read_text(reader) {
                        Ok(Some(v)) => d.name = v,
                        Ok(None) => {},
                        Err(e) => return Err(e),
                    }
                } else if has_name(n, "UnitId") {
                    match read_u32(reader) {
                        Ok(Some(v)) => d.unit_id = v,
                        Ok(None) => {},
                        Err(e) => return Err(e),
                    }
                } else if has_name(n, "ProductID") {
                    match read_u16(reader) {
                        Ok(Some(v)) => d.product_id = v,
                        Ok(None) => {},
                        Err(e) => return Err(e),
                    }
                } else if has_name(n, "Version") {
                    match read_version(reader) {
                        Ok(v) => d.version = v,
                        Err(e) => return Err(e),
                    }
                }
            },
            XmlEvent::End(name) => {
                if has_name(name.as_slice(), close_tag) {
                    return Ok(d);
                }
            },
            _ => {},
        }
    }
}

/// The type discriminant (`xsi:type`) of a polymorphic element.
pub fn read_type(reader: &XmlReader, e: &StartTag) -> (r: Result<String, ReadError>)
    ensures
        viewed(r) == type_of(*e),
{
    let items = attribute_list(e.attributes.as_slice());
    let ghost all = attributes_of(*e);
    assert(all.skip(0) =~= all);
    let mut i: usize = 0;
    while i < items.len()
        invariant
            all == attributes_of(*e),
            items@.len() == all.len(),
            forall|j: int| 0 <= j < items@.len() ==> attribute_view(#[trigger] items@[j]) == all[j],
            i <= items.len(),
            first_with_key(all.skip(i as int), "xsi:type"@) == first_with_key(all, "xsi:type"@),
        decreases items.len() - i,
    {
        assert(all.skip(i as int).drop_first() =~= all.skip(i + 1));
        assert(all.skip(i as int)[0] == all[i as int]);
        assert(attribute_view(items@[i as int]) == all[i as int]);
        match &items[i] {
            Some((k, v)) => {
                if has_name(k.as_slice(), "xsi:type") {
                    return read_attribute(reader, v.as_slice());
                }
            },
            None => {},
        }
        i = i + 1;
    }
    assert(all.skip(i as int).len() == 0);
    Err(ReadError::TypeNotDefined)
}

/// Reads a polymorphic `Author` or `Creator` element that ends with `close_tag`;
/// `None` where its type is neither an application nor a device.
pub fn read_source(reader: &mut XmlReader, e: &StartTag, close_tag: &str) -> (r: Result<
    Option<SourceType>,
    ReadError,
>)
    requires
        well_ended(old(reader).pending()),
    ensures
        (opt_viewed(r), final(reader).pending()) == source_in(*e, old(reader).pending(), close_tag@),
        r is Ok ==> well_ended(final(reader).pending()),
{
    let e_type = match read_type(reader, e) {
        Ok(t) => t,
        Err(err) => return Err(err),
    };
    if same_text(e_type.as_str(), "Application_t") {
        match read_application(reader, close_tag) {
            Ok(a) => Ok(Some(SourceType::Application(a))),
            Err(err) => Err(err),
        }
    } else if same_text(e_type.as_str(), "Device_t") {
        match read_device(reader, close_tag) {
            Ok(d) => Ok(Some(SourceType::Device(d))),
            Err(err) => Err(err),
        }
    } else {
        Ok(None)
    }
}

/// Reads the content of a position element that ends with `close_tag`.
pub fn read_position(reader: &mut XmlReader, close_tag: &str) -> (r: Result<Position, ReadError>)
    requires
        well_ended(old(reader).pending()),
    ensures
        (viewed(r), final(reader).pending()) == position_in(old(reader).pending(), close_tag@),
        r is Ok ==> well_ended(final(reader).pending()),
{
    let mut pos = Position { latitude_degrees: Decimal::zero(), longitude_degrees: Decimal::zero() };
    proof {
        lemma_position_handler();
    }
    loop
        invariant
            well_ended(reader.pending()),
            shrinking(position_handler()),
            scan(reader.pending(), close_tag@, pos@, position_handler()) == position_in(
                old(reader).pending(),
                close_tag@,
            ),
        decreases reader.pending().len(),
    {
        let ev = match pull(reader) {
            Ok(ev) => ev,
            Err(e) => return Err(e),
        };
        match ev {
            XmlEvent::Start(tag) => {
                let n = tag.name.as_slice();
                if has_name(n, "LatitudeDegrees") {
                    match read_decimal(reader) {
                        Ok(Some(v)) => pos.latitude_degrees = v,
                        Ok(None) => {},
                        Err(e) => return Err(e),
                    }
                } else if has_name(n, "LongitudeDegrees") {
                    match read_decimal(reader) {
                        Ok(Some(v)) => pos.longitude_degrees = v,
                        Ok(None) => {},
                        Err(e) => return Err(e),
                    }
                }
            },
            XmlEvent::End(name) => {
                if has_name(name.as_slice(), close_tag) {
                    return Ok(pos);
                }
            },
            _ => {},
        }
    }
}

/// Reads a heart rate wrapped in a `Value` element, up to the end of `Value`;
/// `current` stays where no value is read.
pub fn read_value(reader: &mut XmlReader, current: Option<u8>) -> (r: Result<Option<u8>, ReadError>)
    requires
        well_ended(old(reader).pending()),
    ensures
        (plain(r), final(reader).pending()) == value_in(old(reader).pending(), current),
        r is Ok ==> well_ended(final(reader).pending()),
{
    let mut value = current;
    proof {
        lemma_value_handler();
    }
    loop
        invariant
            well_ended(reader.pending()),
            shrinking(value_handler()),
            scan(reader.pending(), "Value"@, value, value_handler()) == value_in(
                old(reader).pending(),
                current,
            ),
        decreases reader.pending().len(),
    {
        let ev = match pull(reader) {
            Ok(ev) => ev,
            Err(e) => return Err(e),
        };
        match ev {
            XmlEvent::Start(tag) => {
                if has_name(tag.name.as_slice(), "Value") {
                    match read_u8(reader) {
                        Ok(Some(v)) => value = Some(v),
                        Ok(None) => {},
                        Err(e) => return Err(e),
                    }
                }
            },
            XmlEvent::End(name) => {
                if has_name(name.as_slice(), "Value") {
                    return Ok(value);
                }
            },
            _ => {},
        }
    }
}

/// Reads the content of a track point element that ends with `close_tag`.
pub fn read_track_point(reader: &mut XmlReader, close_tag: &str) -> (r: Result<TrackPoint, ReadError>)
    requires
        well_ended(old(reader).pending()),
    ensures
        (viewed(r), final(reader).pending()) == track_point_in(old(reader).pending(), close_tag@),
        r is Ok ==> well_ended(final(reader).pending()),
{
    let mut tp = TrackPoint::default();
    proof {
        lemma_track_point_handler();
    }
    loop
        invariant
            well_ended(reader.pending()),
            shrinking(track_point_handler()),
            scan(reader.pending(), close_tag@, tp@, track_point_handler()) == track_point_in(
                old(reader).pending(),
                close_tag@,
            ),
        decreases reader.pending().len(),
    {
        let ev = match pull(reader) {
            Ok(ev) => ev,
            Err(e) => return Err(e),
        };
        match ev {
            XmlEvent::Start(tag) => {
                let n = tag.name.as_slice();
                if has_name(n, "Time") {
                    match read_timestamp(reader) {
                        Ok(Some(v)) => tp.time = v,
                        Ok(None) => {},
                        Err(e) => return Err(e),
                    }
                } else if has_name(n, "Position") {
                    match read_position(reader, "Position") {
                        Ok(p) => tp.position = Some(p),
                        Err(e) => return Err(e),
                    }
                } else if has_name(n, "AltitudeMeters") {
                    match read_decimal(reader) {
                        Ok(Some(v)) => tp.altitude_meters = Some(v),
                        Ok(None) => {},
                        Err(e) => return Err(e),
                    }
                } else if has_name(n, "DistanceMeters") {
                    match read_decimal(reader) {
                        Ok(Some(v)) => tp.distance_meters = Some(v),
                        Ok(None) => {},
                        Err(e) => return Err(e),
                    }
                } else if has_name(n, "HeartRateBpm") {
                    match read_value(reader, tp.heart_rate_bpm) {
                        Ok(v) => tp.heart_rate_bpm = v,
                        Err(e) => return Err(e),
                    }
                } else if has_name(n, "Cadence") {
                    match read_u8(reader) {
                        Ok(Some(v)) => tp.cadence = Some(v),
                        Ok(None) => {},
                        Err(e) => return Err(e),
                    }
                } else if has_name(n, "SensorState") {
                    match read_sensor_state(reader) {
                        Ok(Some(v)) => tp.sensor_state = Some(v),
                        Ok(None) => {},
                        Err(e) => return Err(e),
                    }
                }
            },
            XmlEvent::End(name) => {
                if has_name(name.as_slice(), close_tag) {
                    return Ok(tp);
                }
            },
            _ => {},
        }
    }
}

pub open spec fn points_outcome(r: Result<Vec<TrackPoint>, ReadError>) -> Result<
    Seq<TrackPointView>,
    Failure,
> {
    match r {
        Ok(v) => Ok(points_view(v@)),
        Err(e) => Err(e.failure()),
    }
}

/// Reads the track points of a track element that ends with `close_tag`.
pub fn read_track(reader: &mut XmlReader, close_tag: &str) -> (r: Result<Vec<TrackPoint>, ReadError>)
    requires
        well_ended(old(reader).pending()),
    ensures
        (points_outcome(r), final(reader).pending()) == track_in(old(reader).pending(), close_tag@),
        r is Ok ==> well_ended(final(reader).pending()),
{
    let mut track: Vec<TrackPoint> = Vec::new();
    proof {
        lemma_track_handler();
        assert(points_view(track@) =~= Seq::<TrackPointView>::empty());
    }
    loop
        invariant
            well_ended(reader.pending()),
            shrinking(track_handler()),
            scan(reader.pending(), close_tag@, points_view(track@), track_handler()) == track_in(
                old(reader).pending(),
                close_tag@,
            ),
        decreases reader.pending().len(),
    {
        let ev = match pull(reader) {
            Ok(ev) => ev,
            Err(e) => return Err(e),
        };
        match ev {
            XmlEvent::Start(tag) => {
                if has_name(tag.name.as_slice(), "Trackpoint") {
                    match read_track_point(reader, "Trackpoint") {
                        Ok(p) => {
                            let ghost before = points_view(track@);
                            let ghost pv = p@;
                            track.push(p);
                            assert(points_view(track@) =~= before.push(pv));
                        },
                        Err(e) => return Err(e),
                    }
                }
            },
            XmlEvent::End(name) => {
                if has_name(name.as_slice(), close_tag) {
                    return Ok(track);
                }
            },
            _ => {},
        }
    }
}

/// Reads a lap element that ends with `close_tag`; its start time comes from the
/// `StartTime` attribute of `lap_element`.
pub fn read_activity_lap(
    reader: &mut XmlReader,
    close_tag: &str,
    lap_element: &StartTag,
) -> (r: Result<ActivityLap, ReadError>)
    requires
        well_ended(old(reader).pending()),
    ensures
        (viewed(r), final(reader).pending()) == lap_in(*lap_element, old(reader).pending(), close_tag@),
        r is Ok ==> well_ended(final(reader).pending()),
{
    let mut a_lap = ActivityLap::default();
    let items = attribute_list(lap_element.attributes.as_slice());
    let ghost all = attributes_of(*lap_element);
    assert(all.skip(0) =~= all);
    let mut i: usize = 0;
    while i < items.len()
        invariant
            all == attributes_of(*lap_element),
            items@.len() == all.len(),
            forall|j: int| 0 <= j < items@.len() ==> attribute_view(#[trigger] items@[j]) == all[j],
            i <= items.len(),
            attribute_fold(all.skip(i as int), a_lap@, lap_attributes()) == attribute_fold(
                all,
                ActivityLap::initial(),
                lap_attributes(),
            ),
        decreases items.len() - i,
    {
        assert(all.skip(i as int).drop_first() =~= all.skip(i + 1));
        assert(all.skip(i as int)[0] == all[i as int]);
        assert(attribute_view(items@[i as int]) == all[i as int]);
        match &items[i] {
            Some((k, v)) => {
                if has_name(k.as_slice(), "StartTime") {
                    let t = match read_attribute(reader, v.as_slice()) {
                        Ok(t) => t,
                        Err(e) => return Err(e),
                    };
                    match parse_date(&t) {
                        Ok(d) => a_lap.start_time = d,
                        Err(e) => return Err(e),
                    }
                }
            },
            None => {},
        }
        i = i + 1;
    }
    assert(all.skip(i as int).len() == 0);
    proof {
        lemma_lap_handler();
    }
    loop
        invariant
            well_ended(reader.pending()),
            shrinking(lap_handler()),
            scan(reader.pending(), close_tag@, a_lap@, lap_handler()) == lap_in(
                *lap_element,
                old(reader).pending(),
                close_tag@,
            ),
        decreases reader.pending().len(),
    {
        let ev = match pull(reader) {
            Ok(ev) => ev,
            Err(e) => return Err(e),
        };
        match ev {
            XmlEvent::Start(tag) => {
                let n = tag.name.as_slice();
                if has_name(n, "TotalTimeSeconds") {
                    match read_decimal(reader) {
                        Ok(Some(v)) => a_lap.total_time_seconds = v,
                        Ok(None) => {},
                        Err(e) => return Err(e),
                    }
                } else if has_name(n, "DistanceMeters") {
                    match read_decimal(reader) {
                        Ok(Some(v)) => a_lap.distance_meters = v,
                        Ok(None) => {},
                        Err(e) => return Err(e),
                    }
                } else if has_name(n, "MaximumSpeed") {
                    match read_decimal(reader) {
                        Ok(Some(v)) => a_lap.maximum_speed = Some(v),
                        Ok(None) => {},
                        Err(e) => return Err(e),
                    }
                } else if has_name(n, "Calories") {
                    match read_u16(reader) {
                        Ok(Some(v)) => a_lap.calories = v,
                        Ok(None) => {},
                        Err(e) => return Err(e),
                    }
                } else if has_name(n, "AverageHeartRateBpm") {
                    match read_value(reader, a_lap.average_heart_rate_bpm) {
                        Ok(v) => a_lap.average_heart_rate_bpm = v,
                        Err(e) => return Err(e),
                    }
                } else if has_name(n, "MaximumHeartRateBpm") {
                    match read_value(reader, a_lap.maximum_heart_rate_bpm) {
                        Ok(v) => a_lap.maximum_heart_rate_bpm = v,
                        Err(e) => return Err(e),
                    }
                } else if has_name(n, "Intensity") {
                    match read_intensity(reader) {
                        Ok(Some(v)) => a_lap.intensity = v,
                        Ok(None) => {},
                        Err(e) => return Err(e),
                    }
                } else if has_name(n, "Cadence") {
                    match read_u8(reader) {
                        Ok(Some(v)) => a_lap.cadence = Some(v),
                        Ok(None) => {},
                        Err(e) => return Err(e),
                    }
                } else if has_name(n, "TriggerMethod") {
                    match read_trigger_method(reader) {
                        Ok(Some(v)) => a_lap.trigger_method = v,
                        Ok(None) => {},
                        Err(e) => return Err(e),
                    }
                } else if has_name(n, "Track") {
                    match read_track(reader, "Track") {
                        Ok(p) => a_lap.track_points = p,
                        Err(e) => return Err(e),
                    }
                } else if has_name(n, "Notes") {
                    match read_text(reader) {
                        Ok(Some(v)) => a_lap.notes = Some(v),
                        Ok(None) => {},
                        Err(e) => return Err(e),
                    }
                }
            },
            XmlEvent::End(name) => {
                if has_name(name.as_slice(), close_tag) {
                    return Ok(a_lap);
                }
            },
            _ => {},
        }
    }
}

/// Reads a plan element that ends with `close_tag`; its type and interval flag
/// come from the attributes of `plan_element`.
pub fn read_plan(
    reader: &mut XmlReader,
    close_tag: &str,
    plan_element: &StartTag,
) -> (r: Result<Plan, ReadError>)
    requires
        well_ended(old(reader).pending()),
    ensures
        (viewed(r), final(reader).pending()) == plan_in(
            *plan_element,
            old(reader).pending(),
            close_tag@,
        ),
        r is Ok ==> well_ended(final(reader).pending()),
{
    let mut plan = Plan { name: None, training_type: TrainingType::Workout, interval_workout: false };
    let items = attribute_list(plan_element.attributes.as_slice());
    let ghost all = attributes_of(*plan_element);
    assert(all.skip(0) =~= all);
    let mut i: usize = 0;
    while i < items.len()
        invariant
            all == attributes_of(*plan_element),
            items@.len() == all.len(),
            forall|j: int| 0 <= j < items@.len() ==> attribute_view(#[trigger] items@[j]) == all[j],
            i <= items.len(),
            attribute_fold(all.skip(i as int), plan@, plan_attributes()) == attribute_fold(
                all,
                plan_initial(),
                plan_attributes(),
            ),
        decreases items.len() - i,
    {
        assert(all.skip(i as int).drop_first() =~= all.skip(i + 1));
        assert(all.skip(i as int)[0] == all[i as int]);
        assert(attribute_view(items@[i as int]) == all[i as int]);
        match &items[i] {
            Some((k, v)) => {
                if has_name(k.as_slice(), "Type") {
                    let t = match read_attribute(reader, v.as_slice()) {
                        Ok(t) => t,
                        Err(e) => return Err(e),
                    };
                    match parse_training_type(&t) {
                        Ok(x) => plan.training_type = x,
                        Err(e) => return Err(e),
                    }
                } else if has_name(k.as_slice(), "IntervalWorkout") {
                    let t = match read_attribute(reader, v.as_slice()) {
                        Ok(t) => t,
                        Err(e) => return Err(e),
                    };
                    match parse_flag(&t) {
                        Ok(x) => plan.interval_workout = x,
                        Err(e) => return Err(e),
                    }
                }
            },
            None => {},
        }
        i = i + 1;
    }
    assert(all.skip(i as int).len() == 0);
    proof {
        lemma_plan_handler();
    }
    loop
        invariant
            well_ended(reader.pending()),
            shrinking(plan_handler()),
            scan(reader.pending(), close_tag@, plan@, plan_handler()) == plan_in(
                *plan_element,
                old(reader).pending(),
                close_tag@,
            ),
        decreases reader.pending().len(),
    {
        let ev = match pull(reader) {
            Ok(ev) => ev,
            Err(e) => return Err(e),
        };
        match ev {
            XmlEvent::Start(tag) => {
                if has_name(tag.name.as_slice(), "Name") {
                    match read_text(reader) {
                        Ok(Some(v)) => plan.name = Some(v),
                        Ok(None) => {},
                        Err(e) => return Err(e),
                    }
                }
            },
            XmlEvent::End(name) => {
                if has_name(name.as_slice(), close_tag) {
                    return Ok(plan);
                }
            },
            _ => {},
        }
    }
}

/// Reads the content of a quick workout element that ends with `close_tag`.
pub fn read_quick_workout(reader: &mut XmlReader, close_tag: &str) -> (r: Result<
    QuickWorkout,
    ReadError,
>)
    requires
        well_ended(old(reader).pending()),
    ensures
        (viewed(r), final(reader).pending()) == quick_workout_in(old(reader).pending(), close_tag@),
        r is Ok ==> well_ended(final(reader).pending()),
{
    let mut quick_workout = QuickWorkout {
        total_time_seconds: Decimal::zero(),
        distance_meters: Decimal::zero(),
    };
    proof {
        lemma_quick_workout_handler();
    }
    loop
        invariant
            well_ended(reader.pending()),
            shrinking(quick_workout_handler()),
            scan(reader.pending(), close_tag@, quick_workout@, quick_workout_handler())
                == quick_workout_in(old(reader).pending(), close_tag@),
        decreases reader.pending().len(),
    {
        let ev = match pull(reader) {
            Ok(ev) => ev,
            Err(e) => return Err(e),
        };
        match ev {
            XmlEvent::Start(tag) => {
                let n = tag.name.as_slice();
                if has_name(n, "TotalTimeSeconds") {
                    match read_decimal(reader) {
                        Ok(Some(v)) => quick_workout.total_time_seconds = v,
                        Ok(None) => {},
                        Err(e) => return Err(e),
                    }
                } else if has_name(n, "DistanceMeters") {
                    match read_decimal(reader) {
                        Ok(Some(v)) => quick_workout.distance_meters = v,
                        Ok(None) => {},
                        Err(e) => return Err(e),
                    }
                }
            },
            XmlEvent::End(name) => {
                if has_name(name.as_slice(), close_tag) {
                    return Ok(quick_workout);
                }
            },
            _ => {},
        }
    }
}

/// Reads the content of a training element that ends with `close_tag`.
pub fn read_training(reader: &mut XmlReader, close_tag: &str) -> (r: Result<Training, ReadError>)
    requires
        well_ended(old(reader).pending()),
    ensures
        (viewed(r), final(reader).pending()) == training_in(old(reader).pending(), close_tag@),
        r is Ok ==> well_ended(final(reader).pending()),
{
    let mut training = Training { quick_workout_results: None, plan: None, virtual_partner: false };
    proof {
        lemma_training_handler();
    }
    loop
        invariant
            well_ended(reader.pending()),
            shrinking(training_handler()),
            scan(reader.pending(), close_tag@, training@, training_handler()) == training_in(
                old(reader).pending(),
                close_tag@,
            ),
        decreases reader.pending().len(),
    {
        let ev = match pull(reader) {
            Ok(ev) => ev,
            Err(e) => return Err(e),
        };
        match ev {
            XmlEvent::Start(tag) => {
                let n = tag.name.as_slice();
                if has_name(n, "QuickWorkoutResults") {
                    match read_quick_workout(reader, "QuickWorkoutResults") {
                        Ok(q) => training.quick_workout_results = Some(q),
                        Err(e) => return Err(e),
                    }
                } else if has_name(n, "Plan") {
                    match read_plan(reader, "Plan", &tag) {
                        Ok(p) => training.plan = Some(p),
                        Err(e) => return Err(e),
                    }
                }
            },
            XmlEvent::End(name) => {
                if has_name(name.as_slice(), close_tag) {
                    return Ok(training);
                }
            },
            _ => {},
        }
    }
}

/// Reads the content of an activity element that ends with `close_tag`.
pub fn read_activity(reader: &mut XmlReader, close_tag: &str) -> (r: Result<Activity, ReadError>)
    requires
        well_ended(old(reader).pending()),
    ensures
        (viewed(r), final(reader).pending()) == activity_in(old(reader).pending(), close_tag@),
        r is Ok ==> well_ended(final(reader).pending()),
{
    let mut activity = Activity::default();
    proof {
        lemma_activity_handler();
    }
    loop
        invariant
            well_ended(reader.pending()),
            shrinking(activity_handler()),
            scan(reader.pending(), close_tag@, activity@, activity_handler()) == activity_in(
                old(reader).pending(),
                close_tag@,
            ),
        decreases reader.pending().len(),
    {
        let ev = match pull(reader) {
            Ok(ev) => ev,
            Err(e) => return Err(e),
        };
        match ev {
            XmlEvent::Start(tag) => {
                let n = tag.name.as_slice();
                if has_name(n, "Id") {
                    match read_timestamp(reader) {
                        Ok(Some(v)) => activity.id = v,
                        Ok(None) => {},
                        Err(e) => return Err(e),
                    }
                } else if has_name(n, "Lap") {
                    match read_activity_lap(reader, "Lap", &tag) {
                        Ok(lap) => {
                            let ghost before = activity@.laps;
                            let ghost lv = lap@;
                            activity.laps.push(lap);
                            assert(activity@.laps =~= before.push(lv));
                        },
                        Err(e) => return Err(e),
                    }
                } else if has_name(n, "Notes") {
                    match read_text(reader) {
                        Ok(Some(v)) => activity.notes = Some(v),
                        Ok(None) => {},
                        Err(e) => return Err(e),
                    }
                } else if has_name(n, "Training") {
                    match read_training(reader, "Training") {
                        Ok(t) => activity.training = Some(t),
                        Err(e) => return Err(e),
                    }
                } else if has_name(n, "Creator") {
                    match read_source(reader, &tag, "Creator") {
                        Ok(Some(c)) => activity.creator = Some(c),
                        Ok(None) => {},
                        Err(e) => return Err(e),
                    }
                } else if has_name(n, "Sport") {
                    match read_sport(reader) {
                        Ok(Some(v)) => activity.sport = v,
                        Ok(None) => {},
                        Err(e) => return Err(e),
                    }
                }
            },
            XmlEvent::End(name) => {
                if has_name(name.as_slice(), close_tag) {
                    return Ok(activity);
                }
            },
            _ => {},
        }
    }
}

/// Reads the activities of an activity list element that ends with `close_tag`.
pub fn read_activity_list(reader: &mut XmlReader, close_tag: &str) -> (r: Result<
    ActivityList,
    ReadError,
>)
    requires
        well_ended(old(reader).pending()),
    ensures
        (viewed(r), final(reader).pending()) == activity_list_in(old(reader).pending(), close_tag@),
        r is Ok ==> well_ended(final(reader).pending()),
{
    let mut al = ActivityList { activities: Vec::new(), multi_sport_sessions: Vec::new() };
    proof {
        lemma_activity_list_handler();
        assert(al@.activities =~= Seq::<ActivityView>::empty());
    }
    loop
        invariant
            well_ended(reader.pending()),
            shrinking(activity_list_handler()),
            al.multi_sport_sessions@.len() == 0,
            scan(reader.pending(), close_tag@, al@, activity_list_handler()) == activity_list_in(
                old(reader).pending(),
                close_tag@,
            ),
        decreases reader.pending().len(),
    {
        let ev = match pull(reader) {
            Ok(ev) => ev,
            Err(e) => return Err(e),
        };
        match ev {
            XmlEvent::Start(tag) => {
                if has_name(tag.name.as_slice(), "Activity") {
                    match read_activity(reader, "Activity") {
                        Ok(a) => {
                            let ghost before = al@.activities;
                            let ghost av = a@;
                            al.activities.push(a);
                            assert(al@.activities =~= before.push(av));
                        },
                        Err(e) => return Err(e),
                    }
                }
            },
            XmlEvent::End(name) => {
                if has_name(name.as_slice(), close_tag) {
                    return Ok(al);
                }
            },
            _ => {},
        }
    }
}

/// Reads a whole document up to the end of `TrainingCenterDatabase`.
pub fn read_training_center(reader: &mut XmlReader) -> (r: Result<TrainingCenterDatabase, ReadError>)
    requires
        well_ended(old(reader).pending()),
    ensures
        (viewed(r), final(reader).pending()) == database_in(old(reader).pending()),
{
    let mut tc_db = TrainingCenterDatabase {
        folders: None,
        activity_list: None,
        workout_list: None,
        course_list: None,
        author: None,
    };
    proof {
        lemma_database_handler();
    }
    loop
        invariant
            well_ended(reader.pending()),
            shrinking(database_handler()),
            scan(reader.pending(), "TrainingCenterDatabase"@, tc_db@, database_handler())
                == database_in(old(reader).pending()),
        decreases reader.pending().len(),
    {
        let ev = match pull(reader) {
            Ok(ev) => ev,
            Err(e) => return Err(e),
        };
        match ev {
            XmlEvent::Start(tag) => {
                let n = tag.name.as_slice();
                if has_name(n, "Author") {
                    match read_source(reader, &tag, "Author") {
                        Ok(Some(c)) => tc_db.author = Some(c),
                        Ok(None) => {},
                        Err(e) => return Err(e),
                    }
                } else if has_name(n, "Activities") {
                    match read_activity_list(reader, "Activities") {
                        Ok(l) => tc_db.activity_list = Some(l),
                        Err(e) => return Err(e),
                    }
                }
            },
            XmlEvent::End(name) => {
                if has_name(name.as_slice(), "TrainingCenterDatabase") {
                    return Ok(tc_db);
                }
            },
            _ => {},
        }
    }
}

} // verus!
