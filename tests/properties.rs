use quick_tcx::read::{read_activity_lap, read_value};
use quick_tcx::text::parse_unsigned;
use quick_tcx::timestamp::parse_timestamp;
use quick_tcx::xml::{StartTag, XmlReader};
use quick_tcx::{
    read, ActivityLap, ActivityLapExtension, ActivityTrackPointExtension, BuildType,
    CadenceSensorType, Decimal, Intensity, Plan, ReadError, SensorState, SourceType, Sport,
    TrackPoint, TrainingType, TriggerMethod, UnknownEnumValueError,
};

fn database(body: &str) -> String {
    format!(
        "<TrainingCenterDatabase xmlns:xsi=\"http://www.w3.org/2001/XMLSchema-instance\">{}</TrainingCenterDatabase>",
        body
    )
}

fn activity(body: &str) -> String {
    database(&format!("<Activities><Activity>{}</Activity></Activities>", body))
}

fn only_activity(doc: &str) -> quick_tcx::Activity {
    read(doc.as_bytes())
        .unwrap()
        .activity_list
        .unwrap()
        .activities
        .into_iter()
        .next()
        .unwrap()
}

#[test]
fn enum_literals_round_trip() {
    for (text, v) in [("Running", Sport::Running), ("Biking", Sport::Biking), ("Other", Sport::Other)] {
        assert_eq!(v, Sport::from_str(text).unwrap());
    }
    for (text, v) in [
        ("Internal", BuildType::Internal),
        ("Alpha", BuildType::Alpha),
        ("Beta", BuildType::Beta),
        ("Release", BuildType::Release),
    ] {
        assert_eq!(v, BuildType::from_str(text).unwrap());
    }
    assert_eq!(TrainingType::Workout, TrainingType::from_str("Workout").unwrap());
    assert_eq!(TrainingType::Course, TrainingType::from_str("Course").unwrap());
    assert_eq!(SensorState::Present, SensorState::from_str("Present").unwrap());
    assert_eq!(SensorState::Absent, SensorState::from_str("Absent").unwrap());
    assert_eq!(Intensity::Active, Intensity::from_str("Active").unwrap());
    assert_eq!(Intensity::Resting, Intensity::from_str("Resting").unwrap());
    for (text, v) in [
        ("Manual", TriggerMethod::Manual),
        ("Distance", TriggerMethod::Distance),
        ("Location", TriggerMethod::Location),
        ("Time", TriggerMethod::Time),
        ("HeartRate", TriggerMethod::HeartRate),
    ] {
        assert_eq!(v, TriggerMethod::from_str(text).unwrap());
    }
    assert_eq!(CadenceSensorType::Footpod, CadenceSensorType::from_str("Footpod").unwrap());
    assert_eq!(CadenceSensorType::Bike, CadenceSensorType::from_str("Bike").unwrap());
    assert_eq!(Sport::Biking, "Biking".parse::<Sport>().unwrap());
}

#[test]
fn enum_unknown_literal_names_the_enum() {
    assert!(matches!(Sport::from_str("running"), Err(UnknownEnumValueError::Sport(t)) if t == "running"));
    assert!(matches!(BuildType::from_str("Gamma"), Err(UnknownEnumValueError::BuildType(t)) if t == "Gamma"));
    assert!(matches!(TrainingType::from_str(""), Err(UnknownEnumValueError::TrainingType(t)) if t.is_empty()));
    assert!(matches!(SensorState::from_str("On"), Err(UnknownEnumValueError::SensorState(_))));
    assert!(matches!(Intensity::from_str("Idle"), Err(UnknownEnumValueError::Intensity(_))));
    assert!(matches!(TriggerMethod::from_str("Auto"), Err(UnknownEnumValueError::TriggerMethod(_))));
    assert!(matches!(CadenceSensorType::from_str("Wheel"), Err(UnknownEnumValueError::CadenceSensorType(_))));
}

#[test]
fn unknown_sport_in_document_fails() {
    let r = read(activity("<Sport>Swimming</Sport>").as_bytes());
    assert!(matches!(r, Err(ReadError::UnknownEnumValue(UnknownEnumValueError::Sport(t))) if t == "Swimming"));
}

#[test]
fn timestamps_keep_their_offset() {
    let t = parse_timestamp("2020-12-28T16:36:16.453+03:00").unwrap();
    assert_eq!((2020, 12, 28, 16, 36, 16), (t.year, t.month, t.day, t.hour, t.minute, t.second));
    assert_eq!(453_000_000, t.nanosecond);
    assert_eq!(10800, t.offset_seconds);
    let t = parse_timestamp("2020-12-28T13:36:16Z").unwrap();
    assert_eq!(0, t.offset_seconds);
    let t = parse_timestamp("2021-01-01T00:00:00-05:30").unwrap();
    assert_eq!(-19800, t.offset_seconds);
}

#[test]
fn malformed_timestamps_are_rejected() {
    assert_eq!(None, parse_timestamp("2020-12-28T13:36:16"));
    assert_eq!(None, parse_timestamp("2020-13-01T00:00:00Z"));
    assert_eq!(None, parse_timestamp("2020-02-30T00:00:00Z"));
    assert_eq!(None, parse_timestamp("28.12.2020 13:36"));
    assert_eq!(None, parse_timestamp(""));
}

#[test]
fn bad_date_in_document_fails() {
    let r = read(activity("<Id>2020-13-01T00:00:00Z</Id>").as_bytes());
    assert!(matches!(r, Err(ReadError::ParseDateError(t)) if t == "2020-13-01T00:00:00Z"));
}

#[test]
fn author_without_type_fails() {
    let doc = database("<Author><Name>Someone</Name></Author>");
    assert!(matches!(read(doc.as_bytes()), Err(ReadError::TypeNotDefined)));
    let doc = activity("<Creator><Name>Watch</Name></Creator>");
    assert!(matches!(read(doc.as_bytes()), Err(ReadError::TypeNotDefined)));
}

#[test]
fn author_of_unknown_type_is_absent() {
    let doc = database("<Author xsi:type=\"Robot_t\"><Name>R2</Name></Author>");
    let db = read(doc.as_bytes()).unwrap();
    assert!(db.author.is_none());
    let a = only_activity(&activity("<Creator xsi:type=\"Watch_t\"><Name>W</Name></Creator>"));
    assert!(a.creator.is_none());
}

#[test]
fn type_discriminant_is_unescaped() {
    let doc = database("<Author xsi:type=\"Device&#95;t\"><Name>Edge</Name><UnitId>7</UnitId></Author>");
    match read(doc.as_bytes()).unwrap().author {
        Some(SourceType::Device(d)) => {
            assert_eq!("Edge", d.name);
            assert_eq!(7, d.unit_id);
        },
        other => panic!("unexpected author {:?}", other),
    }
}

#[test]
fn reading_twice_gives_equal_trees() {
    let doc = activity(
        "<Id>2020-12-28T13:36:16.453Z</Id><Lap StartTime=\"2020-12-28T13:36:16Z\">\
         <Calories>5</Calories></Lap><Notes>n</Notes>",
    );
    let first = read(doc.as_bytes()).unwrap();
    let second = read(doc.as_bytes()).unwrap();
    assert_eq!(first, second);
}

#[test]
fn heart_rate_inside_value() {
    let a = only_activity(&activity(
        "<Lap StartTime=\"2020-12-28T13:36:16Z\"><AverageHeartRateBpm><Value>127</Value></AverageHeartRateBpm></Lap>",
    ));
    assert_eq!(Some(127), a.laps[0].average_heart_rate_bpm);
    assert_eq!(None, a.laps[0].maximum_heart_rate_bpm);
    let a = only_activity(&activity("<Lap StartTime=\"2020-12-28T13:36:16Z\"><Calories>1</Calories></Lap>"));
    assert_eq!(None, a.laps[0].average_heart_rate_bpm);
}

#[test]
fn value_reader_stops_at_end_of_value() {
    let doc = "<HeartRateBpm><Value>131</Value><Value>1</Value></HeartRateBpm>";
    let mut reader = XmlReader::new(doc.as_bytes());
    assert_eq!(Some(131), read_value(&mut reader, None).unwrap());
    let doc = "<HeartRateBpm><Value></Value></HeartRateBpm>";
    let mut reader = XmlReader::new(doc.as_bytes());
    assert!(matches!(read_value(&mut reader, Some(9)), Err(ReadError::ParseIntError(t)) if t.is_empty()));
}

#[test]
fn lap_start_time_comes_from_attribute() {
    let tag = StartTag { name: b"Lap".to_vec(), attributes: b" StartTime=\"2021-03-04T05:06:07+01:00\"".to_vec() };
    let mut reader = XmlReader::new("<Lap><Calories>12</Calories></Lap>".as_bytes());
    let lap = read_activity_lap(&mut reader, "Lap", &tag).unwrap();
    assert_eq!((2021, 3, 4, 5, 6, 7), (lap.start_time.year, lap.start_time.month, lap.start_time.day, lap.start_time.hour, lap.start_time.minute, lap.start_time.second));
    assert_eq!(3600, lap.start_time.offset_seconds);
    assert_eq!(12, lap.calories);
}

#[test]
fn missing_mandatory_fields_keep_defaults() {
    let a = only_activity(&activity("<Lap StartTime=\"2020-12-28T13:36:16Z\"></Lap>"));
    assert_eq!(Sport::Running, a.sport);
    assert_eq!(1970, a.id.year);
    let lap = &a.laps[0];
    assert_eq!(0, lap.calories);
    assert_eq!("0", lap.total_time_seconds.as_str());
    assert_eq!(Intensity::Active, lap.intensity);
    assert_eq!(TriggerMethod::Manual, lap.trigger_method);
    assert!(lap.track_points.is_empty());
}

#[test]
fn plan_attributes_are_read() {
    let a = only_activity(&activity(
        "<Training><Plan Type=\"Course\" IntervalWorkout=\"true\"><Name>Tempo</Name></Plan></Training>",
    ));
    let plan = a.training.unwrap().plan.unwrap();
    assert_eq!(TrainingType::Course, plan.training_type);
    assert!(plan.interval_workout);
    assert_eq!(Some("Tempo".to_string()), plan.name);
}

#[test]
fn bad_boolean_attribute_fails() {
    let r = read(activity("<Training><Plan IntervalWorkout=\"yes\"></Plan></Training>").as_bytes());
    assert!(matches!(r, Err(ReadError::ParseBoolError(t)) if t == "yes"));
}

#[test]
fn quick_workout_results() {
    let a = only_activity(&activity(
        "<Training VirtualPartner=\"true\"><QuickWorkoutResults><TotalTimeSeconds>60.5</TotalTimeSeconds>\
         <DistanceMeters>1e3</DistanceMeters></QuickWorkoutResults></Training>",
    ));
    let t = a.training.unwrap();
    let q = t.quick_workout_results.unwrap();
    assert_eq!("60.5", q.total_time_seconds.as_str());
    assert_eq!("1e3", q.distance_meters.as_str());
    assert!(!t.virtual_partner);
}

#[test]
fn integer_out_of_range_fails() {
    let r = read(activity("<Lap StartTime=\"2020-12-28T13:36:16Z\"><Calories>70000</Calories></Lap>").as_bytes());
    assert!(matches!(r, Err(ReadError::ParseIntError(t)) if t == "70000"));
    let r = read(activity("<Lap StartTime=\"2020-12-28T13:36:16Z\"><Cadence>-1</Cadence></Lap>").as_bytes());
    assert!(matches!(r, Err(ReadError::ParseIntError(t)) if t == "-1"));
}

#[test]
fn unsigned_literals() {
    assert_eq!(Some(255), parse_unsigned("255", 255));
    assert_eq!(None, parse_unsigned("256", 255));
    assert_eq!(Some(7), parse_unsigned("+007", 255));
    assert_eq!(None, parse_unsigned("+", 255));
    assert_eq!(None, parse_unsigned("", 255));
    assert_eq!(None, parse_unsigned(" 1", 255));
    assert_eq!(Some(4294967295), parse_unsigned("4294967295", 4294967295));
    assert_eq!(None, parse_unsigned("4294967296", 4294967295));
}

#[test]
fn float_literals() {
    for ok in ["1", "1.", ".5", "-2.5", "+1e5", "1E-3", "inf", "-Infinity", "NaN", "0.0"] {
        assert!(Decimal::parse(ok).is_some(), "{}", ok);
        assert_eq!(ok, Decimal::parse(ok).unwrap().as_str());
        assert!(ok.parse::<f64>().is_ok());
    }
    for bad in ["", ".", "e5", "1e", "1e+", "abc", "1.2.3", " 1", "in", "--1"] {
        assert!(Decimal::parse(bad).is_none(), "{}", bad);
        assert!(bad.parse::<f64>().is_err());
    }
}

#[test]
fn bad_float_in_document_fails() {
    let r = read(activity("<Lap StartTime=\"2020-12-28T13:36:16Z\"><DistanceMeters>far</DistanceMeters></Lap>").as_bytes());
    assert!(matches!(r, Err(ReadError::ParseFloatError(t)) if t == "far"));
}

#[test]
fn text_is_unescaped() {
    let a = only_activity(&activity("<Notes>fast &amp; flat &lt;10k&gt;</Notes>"));
    assert_eq!(Some("fast & flat <10k>".to_string()), a.notes);
}

#[test]
fn bad_escape_fails() {
    let r = read(activity("<Notes>a &bogus; b</Notes>").as_bytes());
    assert!(matches!(r, Err(ReadError::XmlReadError(_))));
}

#[test]
fn mismatched_tags_fail() {
    let r = read(database("<Activities><Activity></Activities>").as_bytes());
    assert!(matches!(r, Err(ReadError::XmlReadError(_))));
}

#[test]
fn truncated_input_fails() {
    assert!(matches!(read(b""), Err(ReadError::UnexpectedEof)));
    assert!(matches!(read(b"<TrainingCenterDatabase><Activities>"), Err(ReadError::UnexpectedEof)));
}

#[test]
fn sections_are_optional() {
    let db = read(database("").as_bytes()).unwrap();
    assert!(db.activity_list.is_none());
    assert!(db.author.is_none());
    assert!(db.folders.is_none() && db.workout_list.is_none() && db.course_list.is_none());
}

#[test]
fn unknown_elements_are_skipped() {
    let a = only_activity(&activity("<Extensions><Foo>bar</Foo></Extensions><Sport>Biking</Sport>"));
    assert_eq!(Sport::Biking, a.sport);
}

#[test]
fn lap_validation_reports_fields() {
    let mut lap = ActivityLap::default();
    assert!(lap.validate().is_ok());
    lap.cadence = Some(255);
    lap.average_heart_rate_bpm = Some(0);
    let e = lap.validate().unwrap_err();
    assert!(e.field_errors().contains_key("cadence"));
    assert!(e.field_errors().contains_key("average_heart_rate_bpm"));
    assert!(!e.field_errors().contains_key("maximum_heart_rate_bpm"));
    assert_eq!(2, e.field_errors().len());
}

#[test]
fn other_validations() {
    let mut tp = TrackPoint::default();
    assert!(tp.validate().is_ok());
    tp.cadence = Some(255);
    assert!(tp.validate().unwrap_err().field_errors().contains_key("cadence"));
    let mut plan = Plan::default();
    assert!(plan.validate().is_ok());
    plan.name = Some("a name that is far too long".to_string());
    assert!(plan.validate().unwrap_err().field_errors().contains_key("name"));
    plan.name = Some(String::new());
    assert!(plan.validate().is_err());
    let mut course_lap = quick_tcx::CourseLap {
        total_time_seconds: None,
        distance_meters: None,
        begin_position: None,
        begin_altitude_meters: None,
        end_position: None,
        end_altitude_meters: None,
        average_heart_rate_bpm: None,
        maximum_heart_rate_bpm: None,
        intensity: None,
        cadence: Some(254),
    };
    assert!(course_lap.validate().is_ok());
    course_lap.cadence = Some(255);
    assert!(course_lap.validate().unwrap_err().field_errors().contains_key("cadence"));
    let mut ext = ActivityTrackPointExtension::default();
    assert!(ext.validate().is_ok());
    ext.run_cadence = Some(255);
    assert!(ext.validate().is_err());
    let mut lap_ext = ActivityLapExtension::default();
    lap_ext.max_run_cadence = Some(254);
    assert!(lap_ext.validate().is_ok());
    lap_ext.max_bike_cadence = Some(255);
    assert!(lap_ext.validate().unwrap_err().field_errors().contains_key("max_bike_cadence"));
}

#[test]
fn part_number_shape() {
    let mut app = quick_tcx::Application::default();
    app.lang_id = "EN".to_string();
    for ok in ["006-A0123-00", "ABC-12345-XY", "see 123-ABCDE-99"] {
        app.part_number = ok.to_string();
        assert!(app.validate().is_ok(), "{}", ok);
    }
    for bad in ["", "abc-12345-xy", "12-12345-12", "XXX_XXXXX_XX"] {
        app.part_number = bad.to_string();
        let e = app.validate().unwrap_err();
        assert!(e.field_errors().contains_key("part_number"), "{}", bad);
        assert!(!e.field_errors().contains_key("lang_id"));
    }
    app.part_number = "XXX-XXXXX-XX".to_string();
    app.lang_id = "ENG".to_string();
    assert!(app.validate().unwrap_err().field_errors().contains_key("lang_id"));
}
