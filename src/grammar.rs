//! What reading a document means, stated over the stream of XML events: one
//! generic element scanner, and for each entity a handler that says what each
//! child element contributes.
use crate::enums::{BuildType, EnumKind, Intensity, SensorState, Sport, TrainingType, TriggerMethod};
use crate::text::{bool_value, is_float_literal, spelled, unsigned_value};
use crate::timestamp::{rfc3339_value, Timestamp};
use crate::types::{
    ActivityListView, ActivityView, ApplicationView, BuildView, DatabaseView, DeviceView, LapView,
    PlanView, PositionView, QuickWorkoutView, SourceView, TrackPointView, TrainingView, Version,
};
use crate::xml::{
    attribute_items, unescaped_text, unescaped_value, AttributeItem, Events, StartTag, XmlEvent,
};
use vstd::prelude::*;

verus! {

/// Why reading a document failed.
pub enum Failure {
    /// The markup is malformed, or text or an attribute value cannot be decoded.
    Markup,
    /// The input ended before the element being read was closed.
    Truncated,
    Int(Seq<char>),
    Float(Seq<char>),
    Bool(Seq<char>),
    Date(Seq<char>),
    /// A polymorphic element has no `xsi:type` attribute.
    TypeNotDefined,
    UnknownEnum(EnumKind, Seq<char>),
}

/// The result of reading from a stream, and the events left after it.
pub type Step<A> = (Result<A, Failure>, Events);

/// What a child element contributes to the entity `A` being read.
pub type Handler<A> = spec_fn(StartTag, Events, A) -> Step<A>;

pub open spec fn apply<T, A>(r: Step<T>, f: spec_fn(T) -> A) -> Step<A> {
    (
        match r.0 {
            Ok(v) => Ok(f(v)),
            Err(e) => Err(e),
        },
        r.1,
    )
}

/// A handler never gives back more events than it was handed.
pub open spec fn shrinking<A>(h: Handler<A>) -> bool {
    forall|tag: StartTag, t: Events, a: A| #[trigger] h(tag, t, a).1.len() <= t.len()
}

/// Reads an element's content up to its end tag `close`: each start tag goes to
/// the handler, other events are passed over.
pub open spec fn scan<A>(s: Events, close: Seq<char>, acc: A, h: Handler<A>) -> Step<A>
    decreases s.len(),
    when shrinking(h)
{
    if s.len() == 0 {
        (Err(Failure::Truncated), s)
    } else {
        let rest = s.drop_first();
        match s[0] {
            None => (Err(Failure::Markup), rest),
            Some(XmlEvent::Eof) => (Err(Failure::Truncated), rest),
            Some(XmlEvent::End(name)) => if spelled(name@, close) {
                (Ok(acc), rest)
            } else {
                scan(rest, close, acc, h)
            },
            Some(XmlEvent::Start(tag)) => {
                let step = h(tag, rest, acc);
                match step.0 {
                    Ok(a) => scan(step.1, close, a, h),
                    Err(f) => (Err(f), step.1),
                }
            },
            Some(_) => scan(rest, close, acc, h),
        }
    }
}

pub proof fn lemma_scan_shrinks<A>(s: Events, close: Seq<char>, acc: A, h: Handler<A>)
    requires
        shrinking(h),
    ensures
        scan(s, close, acc, h).1.len() <= s.len(),
    decreases s.len(),
{
    if s.len() > 0 {
        let rest = s.drop_first();
        match s[0] {
            Some(XmlEvent::End(name)) => {
                if !spelled(name@, close) {
                    lemma_scan_shrinks(rest, close, acc, h);
                }
            },
            Some(XmlEvent::Start(tag)) => {
                let step = h(tag, rest, acc);
                assert(step.1.len() <= rest.len());
                if let Ok(a) = step.0 {
                    lemma_scan_shrinks(step.1, close, a, h);
                }
            },
            Some(XmlEvent::Text(_)) => lemma_scan_shrinks(rest, close, acc, h),
            Some(XmlEvent::Other) => lemma_scan_shrinks(rest, close, acc, h),
            _ => {},
        }
    }
}

/// The text that follows a start tag, if the next event is text.
pub open spec fn leaf_text(t: Events) -> Step<Option<Seq<char>>> {
    if t.len() == 0 {
        (Err(Failure::Truncated), t)
    } else {
        let rest = t.drop_first();
        match t[0] {
            None => (Err(Failure::Markup), rest),
            Some(XmlEvent::Eof) => (Err(Failure::Truncated), rest),
            Some(XmlEvent::Text(raw)) => match unescaped_text(raw@) {
                Some(c) => (Ok(Some(c)), rest),
                None => (Err(Failure::Markup), rest),
            },
            Some(_) => (Ok(None), rest),
        }
    }
}

/// A scalar leaf: the text that follows, converted.
pub open spec fn leaf<T>(t: Events, conv: spec_fn(Seq<char>) -> Result<T, Failure>) -> Step<Option<T>> {
    let step = leaf_text(t);
    (
        match step.0 {
            Err(f) => Err(f),
            Ok(None) => Ok(None),
            Ok(Some(c)) => match conv(c) {
                Ok(v) => Ok(Some(v)),
                Err(f) => Err(f),
            },
        },
        step.1,
    )
}

/// A mandatory field: a value read replaces it, no text leaves it as it was.
pub open spec fn keep<T>(o: Option<T>, old: T) -> T {
    match o {
        Some(v) => v,
        None => old,
    }
}

/// An optional field: a value read becomes present, no text leaves it as it was.
pub open spec fn keep_opt<T>(o: Option<T>, old: Option<T>) -> Option<T> {
    match o {
        Some(v) => Some(v),
        None => old,
    }
}

pub open spec fn as_text(c: Seq<char>) -> Result<Seq<char>, Failure> {
    Ok(c)
}

pub open spec fn as_unsigned(c: Seq<char>, max: nat) -> Result<nat, Failure> {
    match unsigned_value(c) {
        Some(v) => if v <= max {
            Ok(v)
        } else {
            Err(Failure::Int(c))
        },
        None => Err(Failure::Int(c)),
    }
}

pub open spec fn as_u8(c: Seq<char>) -> Result<u8, Failure> {
    match as_unsigned(c, 255) {
        Ok(v) => Ok(v as u8),
        Err(f) => Err(f),
    }
}

pub open spec fn as_u16(c: Seq<char>) -> Result<u16, Failure> {
    match as_unsigned(c, 65535) {
        Ok(v) => Ok(v as u16),
        Err(f) => Err(f),
    }
}

pub open spec fn as_u32(c: Seq<char>) -> Result<u32, Failure> {
    match as_unsigned(c, 4294967295) {
        Ok(v) => Ok(v as u32),
        Err(f) => Err(f),
    }
}

pub open spec fn as_decimal(c: Seq<char>) -> Result<Seq<char>, Failure> {
    if is_float_literal(c) {
        Ok(c)
    } else {
        Err(Failure::Float(c))
    }
}

pub open spec fn as_bool(c: Seq<char>) -> Result<bool, Failure> {
    match bool_value(c) {
        Some(b) => Ok(b),
        None => Err(Failure::Bool(c)),
    }
}

pub open spec fn as_timestamp(c: Seq<char>) -> Result<Timestamp, Failure> {
    match rfc3339_value(c) {
        Some(t) => Ok(t),
        None => Err(Failure::Date(c)),
    }
}

pub open spec fn as_enum<T>(c: Seq<char>, v: Option<T>, kind: EnumKind) -> Result<T, Failure> {
    match v {
        Some(x) => Ok(x),
        None => Err(Failure::UnknownEnum(kind, c)),
    }
}

pub open spec fn as_build_type(c: Seq<char>) -> Result<BuildType, Failure> {
    as_enum(c, BuildType::from_literal(c), EnumKind::BuildType)
}

pub open spec fn as_training_type(c: Seq<char>) -> Result<TrainingType, Failure> {
    as_enum(c, TrainingType::from_literal(c), EnumKind::TrainingType)
}

pub open spec fn as_sensor_state(c: Seq<char>) -> Result<SensorState, Failure> {
    as_enum(c, SensorState::from_literal(c), EnumKind::SensorState)
}

pub open spec fn as_intensity(c: Seq<char>) -> Result<Intensity, Failure> {
    as_enum(c, Intensity::from_literal(c), EnumKind::Intensity)
}

pub open spec fn as_trigger_method(c: Seq<char>) -> Result<TriggerMethod, Failure> {
    as_enum(c, TriggerMethod::from_literal(c), EnumKind::TriggerMethod)
}

pub open spec fn as_sport(c: Seq<char>) -> Result<Sport, Failure> {
    as_enum(c, Sport::from_literal(c), EnumKind::Sport)
}

// Scalar leaves of each kind.
pub open spec fn text_leaf(t: Events) -> Step<Option<Seq<char>>> {
    leaf(t, |c| as_text(c))
}

pub open spec fn u8_leaf(t: Events) -> Step<Option<u8>> {
    leaf(t, |c| as_u8(c))
}

pub open spec fn u16_leaf(t: Events) -> Step<Option<u16>> {
    leaf(t, |c| as_u16(c))
}

pub open spec fn u32_leaf(t: Events) -> Step<Option<u32>> {
    leaf(t, |c| as_u32(c))
}

pub open spec fn decimal_leaf(t: Events) -> Step<Option<Seq<char>>> {
    leaf(t, |c| as_decimal(c))
}

pub open spec fn timestamp_leaf(t: Events) -> Step<Option<Timestamp>> {
    leaf(t, |c| as_timestamp(c))
}

pub open spec fn build_type_leaf(t: Events) -> Step<Option<BuildType>> {
    leaf(t, |c| as_build_type(c))
}

pub open spec fn sensor_state_leaf(t: Events) -> Step<Option<SensorState>> {
    leaf(t, |c| as_sensor_state(c))
}

pub open spec fn intensity_leaf(t: Events) -> Step<Option<Intensity>> {
    leaf(t, |c| as_intensity(c))
}

pub open spec fn trigger_method_leaf(t: Events) -> Step<Option<TriggerMethod>> {
    leaf(t, |c| as_trigger_method(c))
}

pub open spec fn sport_leaf(t: Events) -> Step<Option<Sport>> {
    leaf(t, |c| as_sport(c))
}

// Attributes.
pub open spec fn attributes_of(tag: StartTag) -> Seq<AttributeItem> {
    attribute_items(tag.attributes@)
}

/// The raw value of the first well-formed attribute named `key`.
pub open spec fn first_with_key(items: Seq<AttributeItem>, key: Seq<char>) -> Option<Seq<u8>>
    decreases items.len(),
{
    if items.len() == 0 {
        None
    } else {
        match items[0] {
            Some((k, v)) => if spelled(k, key) {
                Some(v)
            } else {
                first_with_key(items.drop_first(), key)
            },
            None => first_with_key(items.drop_first(), key),
        }
    }
}

/// The type discriminant of a polymorphic element.
pub open spec fn type_of(tag: StartTag) -> Result<Seq<char>, Failure> {
    match first_with_key(attributes_of(tag), "xsi:type"@) {
        None => Err(Failure::TypeNotDefined),
        Some(raw) => match unescaped_value(raw) {
            Some(c) => Ok(c),
            None => Err(Failure::Markup),
        },
    }
}

/// Applies `f` to each well-formed attribute in turn, stopping at the first failure.
pub open spec fn attribute_fold<A>(
    items: Seq<AttributeItem>,
    acc: A,
    f: spec_fn(Seq<u8>, Seq<u8>, A) -> Result<A, Failure>,
) -> Result<A, Failure>
    decreases items.len(),
{
    if items.len() == 0 {
        Ok(acc)
    } else {
        match items[0] {
            Some((k, v)) => match f(k, v, acc) {
                Ok(a) => attribute_fold(items.drop_first(), a, f),
                Err(e) => Err(e),
            },
            None => attribute_fold(items.drop_first(), acc, f),
        }
    }
}

/// An attribute value, decoded and converted.
pub open spec fn attribute_as<T>(
    raw: Seq<u8>,
    conv: spec_fn(Seq<char>) -> Result<T, Failure>,
) -> Result<T, Failure> {
    match unescaped_value(raw) {
        Some(c) => conv(c),
        None => Err(Failure::Markup),
    }
}

pub open spec fn or_fail<T, A>(r: Result<T, Failure>, f: spec_fn(T) -> A) -> Result<A, Failure> {
    match r {
        Ok(v) => Ok(f(v)),
        Err(e) => Err(e),
    }
}

// Version and build.
pub open spec fn version_initial() -> Version {
    Version { version_major: 0, version_minor: 0, build_major: None, build_minor: None }
}

pub open spec fn version_field(tag: StartTag, t: Events, a: Version) -> Step<Version> {
    let n = tag.name@;
    if spelled(n, "VersionMajor"@) {
        apply(u16_leaf(t), |v| Version { version_major: keep(v, a.version_major), ..a })
    } else if spelled(n, "VersionMinor"@) {
        apply(u16_leaf(t), |v| Version { version_minor: keep(v, a.version_minor), ..a })
    } else if spelled(n, "BuildMajor"@) {
        apply(u16_leaf(t), |v| Version { build_major: keep_opt(v, a.build_major), ..a })
    } else if spelled(n, "BuildMinor"@) {
        apply(u16_leaf(t), |v| Version { build_minor: keep_opt(v, a.build_minor), ..a })
    } else {
        (Ok(a), t)
    }
}

pub open spec fn version_handler() -> Handler<Version> {
    |tag: StartTag, t: Events, a: Version| version_field(tag, t, a)
}

pub open spec fn version_in(s: Events) -> Step<Version> {
    scan(s, "Version"@, version_initial(), version_handler())
}

pub open spec fn build_initial() -> BuildView {
    BuildView { version: version_initial(), build_type: None, time: None, builder: None }
}

pub open spec fn build_field(tag: StartTag, t: Events, a: BuildView) -> Step<BuildView> {
    let n = tag.name@;
    if spelled(n, "Version"@) {
        apply(version_in(t), |v| BuildView { version: v, ..a })
    } else if spelled(n, "Time"@) {
        apply(text_leaf(t), |v| BuildView { time: keep_opt(v, a.time), ..a })
    } else if spelled(n, "Build"@) {
        apply(text_leaf(t), |v| BuildView { builder: keep_opt(v, a.builder), ..a })
    } else if spelled(n, "Type"@) {
        apply(
            build_type_leaf(t),
            |v| BuildView { build_type: keep_opt(v, a.build_type), ..a },
        )
    } else {
        (Ok(a), t)
    }
}

pub open spec fn build_handler() -> Handler<BuildView> {
    |tag: StartTag, t: Events, a: BuildView| build_field(tag, t, a)
}

pub open spec fn build_in(s: Events) -> Step<BuildView> {
    scan(s, "Build"@, build_initial(), build_handler())
}

// Sources.
pub open spec fn application_initial() -> ApplicationView {
    ApplicationView {
        name: Seq::empty(),
        build: build_initial(),
        lang_id: Seq::empty(),
        part_number: Seq::empty(),
    }
}

pub open spec fn application_field(
    tag: StartTag,
    t: Events,
    a: ApplicationView,
) -> Step<ApplicationView> {
    let n = tag.name@;
    if spelled(n, "Name"@) {
        apply(text_leaf(t), |v| ApplicationView { name: keep(v, a.name), ..a })
    } else if spelled(n, "Build"@) {
        apply(build_in(t), |b| ApplicationView { build: b, ..a })
    } else if spelled(n, "LangID"@) {
        apply(text_leaf(t), |v| ApplicationView { lang_id: keep(v, a.lang_id), ..a })
    } else if spelled(n, "PartNumber"@) {
        apply(text_leaf(t), |v| ApplicationView { part_number: keep(v, a.part_number), ..a })
    } else {
        (Ok(a), t)
    }
}

pub open spec fn application_handler() -> Handler<ApplicationView> {
    |tag: StartTag, t: Events, a: ApplicationView| application_field(tag, t, a)
}

pub open spec fn application_in(s: Events, close: Seq<char>) -> Step<ApplicationView> {
    scan(s, close, application_initial(), application_handler())
}

pub open spec fn device_initial() -> DeviceView {
    DeviceView { name: Seq::empty(), unit_id: 0, product_id: 0, version: version_initial() }
}

pub open spec fn device_field(tag: StartTag, t: Events, a: DeviceView) -> Step<DeviceView> {
    let n = tag.name@;
    if spelled(n, "Name"@) {
        apply(text_leaf(t), |v| DeviceView { name: keep(v, a.name), ..a })
    } else if spelled(n, "UnitId"@) {
        apply(u32_leaf(t), |v| DeviceView { unit_id: keep(v, a.unit_id), ..a })
    } else if spelled(n, "ProductID"@) {
        apply(u16_leaf(t), |v| DeviceView { product_id: keep(v, a.product_id), ..a })
    } else if spelled(n, "Version"@) {
        apply(version_in(t), |v| DeviceView { version: v, ..a })
    } else {
        (Ok(a), t)
    }
}

pub open spec fn device_handler() -> Handler<DeviceView> {
    |tag: StartTag, t: Events, a: DeviceView| device_field(tag, t, a)
}

pub open spec fn device_in(s: Events, close: Seq<char>) -> Step<DeviceView> {
    scan(s, close, device_initial(), device_handler())
}

/// A polymorphic `Author` or `Creator` element named `close`: its type decides
/// how it is read, and an unknown type leaves it unread (`None`).
pub open spec fn source_in(tag: StartTag, t: Events, close: Seq<char>) -> Step<Option<SourceView>> {
    match type_of(tag) {
        Err(f) => (Err(f), t),
        Ok(ty) => if ty == "Application_t"@ {
            apply(application_in(t, close), |a| Some(SourceView::Application(a)))
        } else if ty == "Device_t"@ {
            apply(device_in(t, close), |d| Some(SourceView::Device(d)))
        } else {
            (Ok(None), t)
        },
    }
}

// Track points.
pub open spec fn position_initial() -> PositionView {
    PositionView { latitude_degrees: "0"@, longitude_degrees: "0"@ }
}

pub open spec fn position_field(tag: StartTag, t: Events, a: PositionView) -> Step<PositionView> {
    let n = tag.name@;
    if spelled(n, "LatitudeDegrees"@) {
        apply(
            decimal_leaf(t),
            |v| PositionView { latitude_degrees: keep(v, a.latitude_degrees), ..a },
        )
    } else if spelled(n, "LongitudeDegrees"@) {
        apply(
            decimal_leaf(t),
            |v| PositionView { longitude_degrees: keep(v, a.longitude_degrees), ..a },
        )
    } else {
        (Ok(a), t)
    }
}

pub open spec fn position_handler() -> Handler<PositionView> {
    |tag: StartTag, t: Events, a: PositionView| position_field(tag, t, a)
}

pub open spec fn position_in(s: Events, close: Seq<char>) -> Step<PositionView> {
    scan(s, close, position_initial(), position_handler())
}

/// A heart rate wrapped in a `Value` element: read up to the end of `Value`.
pub open spec fn value_field(tag: StartTag, t: Events, a: Option<u8>) -> Step<Option<u8>> {
    if spelled(tag.name@, "Value"@) {
        apply(u8_leaf(t), |v| keep_opt(v, a))
    } else {
        (Ok(a), t)
    }
}

pub open spec fn value_handler() -> Handler<Option<u8>> {
    |tag: StartTag, t: Events, a: Option<u8>| value_field(tag, t, a)
}

pub open spec fn value_in(s: Events, current: Option<u8>) -> Step<Option<u8>> {
    scan(s, "Value"@, current, value_handler())
}

pub open spec fn track_point_field(
    tag: StartTag,
    t: Events,
    a: TrackPointView,
) -> Step<TrackPointView> {
    let n = tag.name@;
    if spelled(n, "Time"@) {
        apply(timestamp_leaf(t), |v| TrackPointView { time: keep(v, a.time), ..a })
    } else if spelled(n, "Position"@) {
        apply(position_in(t, "Position"@), |p| TrackPointView { position: Some(p), ..a })
    } else if spelled(n, "AltitudeMeters"@) {
        apply(
            decimal_leaf(t),
            |v| TrackPointView { altitude_meters: keep_opt(v, a.altitude_meters), ..a },
        )
    } else if spelled(n, "DistanceMeters"@) {
        apply(
            decimal_leaf(t),
            |v| TrackPointView { distance_meters: keep_opt(v, a.distance_meters), ..a },
        )
    } else if spelled(n, "HeartRateBpm"@) {
        apply(value_in(t, a.heart_rate_bpm), |v| TrackPointView { heart_rate_bpm: v, ..a })
    } else if spelled(n, "Cadence"@) {
        apply(u8_leaf(t), |v| TrackPointView { cadence: keep_opt(v, a.cadence), ..a })
    } else if spelled(n, "SensorState"@) {
        apply(
            sensor_state_leaf(t),
            |v| TrackPointView { sensor_state: keep_opt(v, a.sensor_state), ..a },
        )
    } else {
        (Ok(a), t)
    }
}

pub open spec fn track_point_handler() -> Handler<TrackPointView> {
    |tag: StartTag, t: Events, a: TrackPointView| track_point_field(tag, t, a)
}

pub open spec fn track_point_in(s: Events, close: Seq<char>) -> Step<TrackPointView> {
    scan(s, close, crate::types::TrackPoint::initial(), track_point_handler())
}

pub open spec fn track_field(
    tag: StartTag,
    t: Events,
    a: Seq<TrackPointView>,
) -> Step<Seq<TrackPointView>> {
    if spelled(tag.name@, "Trackpoint"@) {
        apply(track_point_in(t, "Trackpoint"@), |p| a.push(p))
    } else {
        (Ok(a), t)
    }
}

pub open spec fn track_handler() -> Handler<Seq<TrackPointView>> {
    |tag: StartTag, t: Events, a: Seq<TrackPointView>| track_field(tag, t, a)
}

pub open spec fn track_in(s: Events, close: Seq<char>) -> Step<Seq<TrackPointView>> {
    scan(s, close, Seq::empty(), track_handler())
}

// Laps.
pub open spec fn lap_attribute(k: Seq<u8>, v: Seq<u8>, a: LapView) -> Result<LapView, Failure> {
    if spelled(k, "StartTime"@) {
        or_fail(attribute_as(v, |c| as_timestamp(c)), |t| LapView { start_time: t, ..a })
    } else {
        Ok(a)
    }
}

pub open spec fn lap_attributes() -> spec_fn(Seq<u8>, Seq<u8>, LapView) -> Result<LapView, Failure> {
    |k: Seq<u8>, v: Seq<u8>, a: LapView| lap_attribute(k, v, a)
}

pub open spec fn lap_field(tag: StartTag, t: Events, a: LapView) -> Step<LapView> {
    let n = tag.name@;
    if spelled(n, "TotalTimeSeconds"@) {
        apply(
            decimal_leaf(t),
            |v| LapView { total_time_seconds: keep(v, a.total_time_seconds), ..a },
        )
    } else if spelled(n, "DistanceMeters"@) {
        apply(
            decimal_leaf(t),
            |v| LapView { distance_meters: keep(v, a.distance_meters), ..a },
        )
    } else if spelled(n, "MaximumSpeed"@) {
        apply(
            decimal_leaf(t),
            |v| LapView { maximum_speed: keep_opt(v, a.maximum_speed), ..a },
        )
    } else if spelled(n, "Calories"@) {
        apply(u16_leaf(t), |v| LapView { calories: keep(v, a.calories), ..a })
    } else if spelled(n, "AverageHeartRateBpm"@) {
        apply(
            value_in(t, a.average_heart_rate_bpm),
            |v| LapView { average_heart_rate_bpm: v, ..a },
        )
    } else if spelled(n, "MaximumHeartRateBpm"@) {
        apply(
            value_in(t, a.maximum_heart_rate_bpm),
            |v| LapView { maximum_heart_rate_bpm: v, ..a },
        )
    } else if spelled(n, "Intensity"@) {
        apply(
            intensity_leaf(t),
            |v| LapView { intensity: keep(v, a.intensity), ..a },
        )
    } else if spelled(n, "Cadence"@) {
        apply(u8_leaf(t), |v| LapView { cadence: keep_opt(v, a.cadence), ..a })
    } else if spelled(n, "TriggerMethod"@) {
        apply(
            trigger_method_leaf(t),
            |v| LapView { trigger_method: keep(v, a.trigger_method), ..a },
        )
    } else if spelled(n, "Track"@) {
        apply(track_in(t, "Track"@), |p| LapView { track_points: p, ..a })
    } else if spelled(n, "Notes"@) {
        apply(text_leaf(t), |v| LapView { notes: keep_opt(v, a.notes), ..a })
    } else {
        (Ok(a), t)
    }
}

pub open spec fn lap_handler() -> Handler<LapView> {
    |tag: StartTag, t: Events, a: LapView| lap_field(tag, t, a)
}

/// A lap: its start time comes from the start tag's `StartTime` attribute.
pub open spec fn lap_in(lap: StartTag, s: Events, close: Seq<char>) -> Step<LapView> {
    match attribute_fold(attributes_of(lap), crate::types::ActivityLap::initial(), lap_attributes()) {
        Err(f) => (Err(f), s),
        Ok(a) => scan(s, close, a, lap_handler()),
    }
}

// Training.
pub open spec fn plan_initial() -> PlanView {
    PlanView { name: None, training_type: TrainingType::Workout, interval_workout: false }
}

pub open spec fn plan_attribute(k: Seq<u8>, v: Seq<u8>, a: PlanView) -> Result<PlanView, Failure> {
    if spelled(k, "Type"@) {
        or_fail(attribute_as(v, |c| as_training_type(c)), |t| PlanView { training_type: t, ..a })
    } else if spelled(k, "IntervalWorkout"@) {
        or_fail(attribute_as(v, |c| as_bool(c)), |b| PlanView { interval_workout: b, ..a })
    } else {
        Ok(a)
    }
}

pub open spec fn plan_attributes() -> spec_fn(Seq<u8>, Seq<u8>, PlanView) -> Result<PlanView, Failure> {
    |k: Seq<u8>, v: Seq<u8>, a: PlanView| plan_attribute(k, v, a)
}

pub open spec fn plan_field(tag: StartTag, t: Events, a: PlanView) -> Step<PlanView> {
    if spelled(tag.name@, "Name"@) {
        apply(text_leaf(t), |v| PlanView { name: keep_opt(v, a.name), ..a })
    } else {
        (Ok(a), t)
    }
}

pub open spec fn plan_handler() -> Handler<PlanView> {
    |tag: StartTag, t: Events, a: PlanView| plan_field(tag, t, a)
}

/// A plan: its type and interval flag come from the start tag's attributes.
pub open spec fn plan_in(plan: StartTag, s: Events, close: Seq<char>) -> Step<PlanView> {
    match attribute_fold(attributes_of(plan), plan_initial(), plan_attributes()) {
        Err(f) => (Err(f), s),
        Ok(a) => scan(s, close, a, plan_handler()),
    }
}

pub open spec fn quick_workout_initial() -> QuickWorkoutView {
    QuickWorkoutView { total_time_seconds: "0"@, distance_meters: "0"@ }
}

pub open spec fn quick_workout_field(
    tag: StartTag,
    t: Events,
    a: QuickWorkoutView,
) -> Step<QuickWorkoutView> {
    let n = tag.name@;
    if spelled(n, "TotalTimeSeconds"@) {
        apply(
            decimal_leaf(t),
            |v| QuickWorkoutView { total_time_seconds: keep(v, a.total_time_seconds), ..a },
        )
    } else if spelled(n, "DistanceMeters"@) {
        apply(
            decimal_leaf(t),
            |v| QuickWorkoutView { distance_meters: keep(v, a.distance_meters), ..a },
        )
    } else {
        (Ok(a), t)
    }
}

pub open spec fn quick_workout_handler() -> Handler<QuickWorkoutView> {
    |tag: StartTag, t: Events, a: QuickWorkoutView| quick_workout_field(tag, t, a)
}

pub open spec fn quick_workout_in(s: Events, close: Seq<char>) -> Step<QuickWorkoutView> {
    scan(s, close, quick_workout_initial(), quick_workout_handler())
}

pub open spec fn training_initial() -> TrainingView {
    TrainingView { quick_workout_results: None, plan: None, virtual_partner: false }
}

pub open spec fn training_field(tag: StartTag, t: Events, a: TrainingView) -> Step<TrainingView> {
    let n = tag.name@;
    if spelled(n, "QuickWorkoutResults"@) {
        apply(
            quick_workout_in(t, "QuickWorkoutResults"@),
            |q| TrainingView { quick_workout_results: Some(q), ..a },
        )
    } else if spelled(n, "Plan"@) {
        apply(plan_in(tag, t, "Plan"@), |p| TrainingView { plan: Some(p), ..a })
    } else {
        (Ok(a), t)
    }
}

pub open spec fn training_handler() -> Handler<TrainingView> {
    |tag: StartTag, t: Events, a: TrainingView| training_field(tag, t, a)
}

pub open spec fn training_in(s: Events, close: Seq<char>) -> Step<TrainingView> {
    scan(s, close, training_initial(), training_handler())
}

// Activities.
pub open spec fn activity_field(tag: StartTag, t: Events, a: ActivityView) -> Step<ActivityView> {
    let n = tag.name@;
    if spelled(n, "Id"@) {
        apply(timestamp_leaf(t), |v| ActivityView { id: keep(v, a.id), ..a })
    } else if spelled(n, "Lap"@) {
        apply(lap_in(tag, t, "Lap"@), |l| ActivityView { laps: a.laps.push(l), ..a })
    } else if spelled(n, "Notes"@) {
        apply(text_leaf(t), |v| ActivityView { notes: keep_opt(v, a.notes), ..a })
    } else if spelled(n, "Training"@) {
        apply(training_in(t, "Training"@), |x| ActivityView { training: Some(x), ..a })
    } else if spelled(n, "Creator"@) {
        apply(source_in(tag, t, "Creator"@), |c| ActivityView { creator: keep_opt(c, a.creator), ..a })
    } else if spelled(n, "Sport"@) {
        apply(sport_leaf(t), |v| ActivityView { sport: keep(v, a.sport), ..a })
    } else {
        (Ok(a), t)
    }
}

pub open spec fn activity_handler() -> Handler<ActivityView> {
    |tag: StartTag, t: Events, a: ActivityView| activity_field(tag, t, a)
}

pub open spec fn activity_in(s: Events, close: Seq<char>) -> Step<ActivityView> {
    scan(s, close, crate::types::Activity::initial(), activity_handler())
}

pub open spec fn activity_list_initial() -> ActivityListView {
    ActivityListView { activities: Seq::empty(), multi_sport_sessions: 0 }
}

pub open spec fn activity_list_field(
    tag: StartTag,
    t: Events,
    a: ActivityListView,
) -> Step<ActivityListView> {
    if spelled(tag.name@, "Activity"@) {
        apply(
            activity_in(t, "Activity"@),
            |x| ActivityListView { activities: a.activities.push(x), ..a },
        )
    } else {
        (Ok(a), t)
    }
}

pub open spec fn activity_list_handler() -> Handler<ActivityListView> {
    |tag: StartTag, t: Events, a: ActivityListView| activity_list_field(tag, t, a)
}

pub open spec fn activity_list_in(s: Events, close: Seq<char>) -> Step<ActivityListView> {
    scan(s, close, activity_list_initial(), activity_list_handler())
}

// The document.
pub open spec fn database_initial() -> DatabaseView {
    DatabaseView { activity_list: None, author: None, extras: false }
}

pub open spec fn database_field(tag: StartTag, t: Events, a: DatabaseView) -> Step<DatabaseView> {
    let n = tag.name@;
    if spelled(n, "Author"@) {
        apply(source_in(tag, t, "Author"@), |c| DatabaseView { author: keep_opt(c, a.author), ..a })
    } else if spelled(n, "Activities"@) {
        apply(
            activity_list_in(t, "Activities"@),
            |l| DatabaseView { activity_list: Some(l), ..a },
        )
    } else {
        (Ok(a), t)
    }
}

pub open spec fn database_handler() -> Handler<DatabaseView> {
    |tag: StartTag, t: Events, a: DatabaseView| database_field(tag, t, a)
}

/// A whole document: everything up to the end of `TrainingCenterDatabase`.
pub open spec fn database_in(s: Events) -> Step<DatabaseView> {
    scan(s, "TrainingCenterDatabase"@, database_initial(), database_handler())
}

/// Reading a document leaves the folders, workout list and course list as they were.
pub proof fn lemma_database_keeps_extras(s: Events, acc: DatabaseView)
    ensures
        scan(s, "TrainingCenterDatabase"@, acc, database_handler()).0 matches Ok(d) ==> d.extras
            == acc.extras,
    decreases s.len(),
{
    lemma_database_handler();
    if s.len() > 0 {
        let rest = s.drop_first();
        match s[0] {
            Some(XmlEvent::End(name)) => {
                if !spelled(name@, "TrainingCenterDatabase"@) {
                    lemma_database_keeps_extras(rest, acc);
                }
            },
            Some(XmlEvent::Start(tag)) => {
                let step = database_handler()(tag, rest, acc);
                if let Ok(a) = step.0 {
                    assert(a.extras == acc.extras);
                    assert(step.1.len() < s.len());
                    lemma_database_keeps_extras(step.1, a);
                }
            },
            Some(XmlEvent::Text(_)) => lemma_database_keeps_extras(rest, acc),
            Some(XmlEvent::Other) => lemma_database_keeps_extras(rest, acc),
            _ => {},
        }
    }
}

// Every handler gives back no more events than it is handed.
pub proof fn lemma_version_handler()
    ensures
        shrinking(version_handler()),
{
}

pub proof fn lemma_build_handler()
    ensures
        shrinking(build_handler()),
{
    lemma_version_handler();
    assert forall|tag: StartTag, t: Events, a: BuildView|
        #[trigger] build_handler()(tag, t, a).1.len() <= t.len() by {
        lemma_scan_shrinks(t, "Version"@, version_initial(), version_handler());
    }
}

pub proof fn lemma_application_handler()
    ensures
        shrinking(application_handler()),
{
    lemma_build_handler();
    assert forall|tag: StartTag, t: Events, a: ApplicationView|
        #[trigger] application_handler()(tag, t, a).1.len() <= t.len() by {
        lemma_scan_shrinks(t, "Build"@, build_initial(), build_handler());
    }
}

pub proof fn lemma_device_handler()
    ensures
        shrinking(device_handler()),
{
    lemma_version_handler();
    assert forall|tag: StartTag, t: Events, a: DeviceView|
        #[trigger] device_handler()(tag, t, a).1.len() <= t.len() by {
        lemma_scan_shrinks(t, "Version"@, version_initial(), version_handler());
    }
}

pub proof fn lemma_source_shrinks(tag: StartTag, t: Events, close: Seq<char>)
    ensures
        source_in(tag, t, close).1.len() <= t.len(),
{
    lemma_application_handler();
    lemma_device_handler();
    lemma_scan_shrinks(t, close, application_initial(), application_handler());
    lemma_scan_shrinks(t, close, device_initial(), device_handler());
}

pub proof fn lemma_position_handler()
    ensures
        shrinking(position_handler()),
{
}

pub proof fn lemma_value_handler()
    ensures
        shrinking(value_handler()),
{
}

pub proof fn lemma_track_point_handler()
    ensures
        shrinking(track_point_handler()),
{
    lemma_position_handler();
    lemma_value_handler();
    assert forall|tag: StartTag, t: Events, a: TrackPointView|
        #[trigger] track_point_handler()(tag, t, a).1.len() <= t.len() by {
        lemma_scan_shrinks(t, "Position"@, position_initial(), position_handler());
        lemma_scan_shrinks(t, "Value"@, a.heart_rate_bpm, value_handler());
    }
}

pub proof fn lemma_track_handler()
    ensures
        shrinking(track_handler()),
{
    lemma_track_point_handler();
    assert forall|tag: StartTag, t: Events, a: Seq<TrackPointView>|
        #[trigger] track_handler()(tag, t, a).1.len() <= t.len() by {
        let start = crate::types::TrackPoint::initial();
        lemma_scan_shrinks(t, "Trackpoint"@, start, track_point_handler());
    }
}

pub proof fn lemma_lap_handler()
    ensures
        shrinking(lap_handler()),
{
    lemma_track_handler();
    lemma_value_handler();
    assert forall|tag: StartTag, t: Events, a: LapView|
        #[trigger] lap_handler()(tag, t, a).1.len() <= t.len() by {
        lemma_scan_shrinks(t, "Track"@, Seq::empty(), track_handler());
        lemma_scan_shrinks(t, "Value"@, a.average_heart_rate_bpm, value_handler());
        lemma_scan_shrinks(t, "Value"@, a.maximum_heart_rate_bpm, value_handler());
    }
}

pub proof fn lemma_lap_shrinks(tag: StartTag, t: Events, close: Seq<char>)
    ensures
        lap_in(tag, t, close).1.len() <= t.len(),
{
    lemma_lap_handler();
    let start = crate::types::ActivityLap::initial();
    if let Ok(a) = attribute_fold(attributes_of(tag), start, lap_attributes()) {
        lemma_scan_shrinks(t, close, a, lap_handler());
    }
}

pub proof fn lemma_plan_handler()
    ensures
        shrinking(plan_handler()),
{
}

pub proof fn lemma_quick_workout_handler()
    ensures
        shrinking(quick_workout_handler()),
{
}

pub proof fn lemma_training_handler()
    ensures
        shrinking(training_handler()),
{
    lemma_plan_handler();
    lemma_quick_workout_handler();
    assert forall|tag: StartTag, t: Events, a: TrainingView|
        #[trigger] training_handler()(tag, t, a).1.len() <= t.len() by {
        lemma_scan_shrinks(t, "QuickWorkoutResults"@, quick_workout_initial(), quick_workout_handler());
        if let Ok(p) = attribute_fold(attributes_of(tag), plan_initial(), plan_attributes()) {
            lemma_scan_shrinks(t, "Plan"@, p, plan_handler());
        }
    }
}

pub proof fn lemma_activity_handler()
    ensures
        shrinking(activity_handler()),
{
    lemma_training_handler();
    assert forall|tag: StartTag, t: Events, a: ActivityView|
        #[trigger] activity_handler()(tag, t, a).1.len() <= t.len() by {
        lemma_lap_shrinks(tag, t, "Lap"@);
        lemma_scan_shrinks(t, "Training"@, training_initial(), training_handler());
        lemma_source_shrinks(tag, t, "Creator"@);
    }
}

pub proof fn lemma_activity_list_handler()
    ensures
        shrinking(activity_list_handler()),
{
    lemma_activity_handler();
    assert forall|tag: StartTag, t: Events, a: ActivityListView|
        #[trigger] activity_list_handler()(tag, t, a).1.len() <= t.len() by {
        lemma_scan_shrinks(t, "Activity"@, crate::types::Activity::initial(), activity_handler());
    }
}

pub proof fn lemma_database_handler()
    ensures
        shrinking(database_handler()),
{
    lemma_activity_list_handler();
    assert forall|tag: StartTag, t: Events, a: DatabaseView|
        #[trigger] database_handler()(tag, t, a).1.len() <= t.len() by {
        lemma_source_shrinks(tag, t, "Author"@);
        lemma_scan_shrinks(t, "Activities"@, activity_list_initial(), activity_list_handler());
    }
}

} // verus!
