use chrono::{DateTime, Datelike, FixedOffset, TimeZone, Timelike};
use quick_tcx::read::{read_device, read_training_center};
use quick_tcx::xml::XmlReader;
use quick_tcx::{
    Application, Build, Decimal, Device, Intensity, Plan, Position, SensorState, SourceType, Sport,
    Timestamp, Training, TrainingType, TriggerMethod, Version,
};

fn track_point(seconds: u32) -> String {
    format!(
        "<Trackpoint><Time>2020-12-28T13:{:02}:{:02}.453Z</Time>\
         <Position><LatitudeDegrees>51.752415</LatitudeDegrees>\
         <LongitudeDegrees>39.18763</LongitudeDegrees></Position>\
         <AltitudeMeters>178.615</AltitudeMeters><DistanceMeters>0.0</DistanceMeters>\
         <HeartRateBpm><Value>68</Value></HeartRateBpm><Cadence>0</Cadence>\
         <SensorState>Present</SensorState></Trackpoint>\n",
        36 + (17 + seconds) / 60,
        (17 + seconds) % 60
    )
}

fn lap(points: u32) -> String {
    let mut track = String::new();
    for i in 0..points {
        track.push_str(&track_point(i));
    }
    format!(
        "<Lap StartTime=\"2020-12-28T13:36:16.453Z\">\n\
         <TotalTimeSeconds>525.0</TotalTimeSeconds>\n\
         <DistanceMeters>1000.0</DistanceMeters>\n\
         <MaximumSpeed>2.330555650922987</MaximumSpeed>\n\
         <Calories>779</Calories>\n\
         <AverageHeartRateBpm><Value>127</Value></AverageHeartRateBpm>\n\
         <MaximumHeartRateBpm><Value>137</Value></MaximumHeartRateBpm>\n\
         <Intensity>Active</Intensity>\n\
         <Cadence>90</Cadence>\n\
         <TriggerMethod>Distance</TriggerMethod>\n\
         <Track>\n{}</Track>\n\
         </Lap>\n",
        track
    )
}

/// An export of one run: ten laps, the first with 525 track points, written by
/// a device and authored by a mobile application.
fn document() -> String {
    let mut laps = lap(525);
    for _ in 1..10 {
        laps.push_str(&lap(1));
    }
    format!(
        "<?xml version=\"1.0\" encoding=\"UTF-8\"?>\n\
         <TrainingCenterDatabase xmlns=\"http://www.garmin.com/xmlschemas/TrainingCenterDatabase/v2\" \
         xmlns:xsi=\"http://www.w3.org/2001/XMLSchema-instance\">\n\
         <Activities>\n\
         <Activity Sport=\"Running\">\n\
         <Id>2020-12-28T13:36:16.453Z</Id>\n\
         {}\
         <Training VirtualPartner=\"false\">\n\
         <Plan Type=\"Workout\" IntervalWorkout=\"false\"><Extensions/></Plan>\n\
         </Training>\n\
         <Creator xsi:type=\"Device_t\">\n\
         <Name>Polar Vantage V</Name>\n\
         <UnitId>0</UnitId>\n\
         <ProductID>203</ProductID>\n\
         <Version><VersionMajor>5</VersionMajor><VersionMinor>1</VersionMinor>\
         <BuildMajor>0</BuildMajor><BuildMinor>0</BuildMinor></Version>\n\
         </Creator>\n\
         <Sport>Running</Sport>\n\
         </Activity>\n\
         </Activities>\n\
         <Author xsi:type=\"Application_t\">\n\
         <Name>Polar Flow Mobile Viewer Android</Name>\n\
         <Build><Version><VersionMajor>0</VersionMajor><VersionMinor>0</VersionMinor></Version></Build>\n\
         <LangID>EN</LangID>\n\
         <PartNumber>XXX-XXXXX-XX</PartNumber>\n\
         </Author>\n\
         </TrainingCenterDatabase>\n",
        laps
    )
}

fn stamp(d: DateTime<FixedOffset>) -> Timestamp {
    Timestamp {
        year: d.year(),
        month: d.month(),
        day: d.day(),
        hour: d.hour(),
        minute: d.minute(),
        second: d.second(),
        nanosecond: d.nanosecond(),
        offset_seconds: d.offset().local_minus_utc(),
    }
}

fn value(d: &Decimal) -> f64 {
    d.as_str().parse::<f64>().unwrap()
}

#[test]
fn read_device_test() {
    let doc = document();
    let tcx_bytes: &[u8] = doc.as_bytes();
    let mut reader = XmlReader::new(tcx_bytes);
    let device = read_device(&mut reader, "Creator").unwrap();
    assert_eq!(
        Device {
            name: String::from("Polar Vantage V"),
            unit_id: 0,
            product_id: 203,
            version: Version {
                version_major: 5,
                version_minor: 1,
                build_major: Some(0),
                build_minor: Some(0),
            },
        },
        device
    )
}

#[test]
fn read_training_center_db_test() {
    let doc = document();
    let mut reader = XmlReader::new(doc.as_bytes());
    let tc = read_training_center(&mut reader).unwrap();
    assert_eq!(
        SourceType::Application(Application {
            name: "Polar Flow Mobile Viewer Android".to_string(),
            lang_id: "EN".to_string(),
            part_number: "XXX-XXXXX-XX".to_string(),
            build: Build {
                version: Version {
                    version_major: 0,
                    version_minor: 0,
                    build_major: None,
                    build_minor: None,
                },
                build_type: None,
                time: None,
                builder: None,
            },
        }),
        tc.author.unwrap()
    )
}

#[test]
fn read_activities_test() {
    let doc = document();
    let mut reader = XmlReader::new(doc.as_bytes());
    let tc = read_training_center(&mut reader).unwrap();
    assert_eq!(1, tc.activity_list.as_ref().unwrap().activities.len());
    assert_eq!(
        0,
        tc.activity_list
            .as_ref()
            .unwrap()
            .multi_sport_sessions
            .len()
    );
}

#[test]
#[allow(deprecated)]
fn read_activity_test() {
    let doc = document();
    let mut reader = XmlReader::new(doc.as_bytes());
    let tc = read_training_center(&mut reader).unwrap();
    let activity = tc
        .activity_list
        .unwrap()
        .activities
        .into_iter()
        .next()
        .unwrap();
    assert_eq!(Sport::Running, activity.sport);
    assert_eq!(
        stamp(
            FixedOffset::east(0)
                .ymd(2020, 12, 28)
                .and_hms_milli(13, 36, 16, 453)
        ),
        activity.id
    );
    assert_eq!(
        SourceType::Device(Device {
            name: String::from("Polar Vantage V"),
            unit_id: 0,
            product_id: 203,
            version: Version {
                version_major: 5,
                version_minor: 1,
                build_major: Some(0),
                build_minor: Some(0),
            },
        }),
        activity.creator.unwrap()
    );
    assert_eq!(
        Training {
            quick_workout_results: None,
            plan: Some(Plan {
                interval_workout: false,
                training_type: TrainingType::Workout,
                name: None,
            }),
            virtual_partner: false,
        },
        activity.training.unwrap()
    );
    assert_eq!(10, activity.laps.len());
}

#[test]
fn read_activity_lap_test() {
    let doc = document();
    let mut reader = XmlReader::new(doc.as_bytes());
    let tc = read_training_center(&mut reader).unwrap();
    let activity = tc
        .activity_list
        .unwrap()
        .activities
        .into_iter()
        .next()
        .unwrap();
    let lap = activity.laps.into_iter().next().unwrap();
    assert_eq!(1000.0, "1000.0".parse::<f64>().unwrap());
    assert_eq!(525.0, value(&lap.total_time_seconds));
    assert_eq!(1000.0, value(&lap.distance_meters));
    assert_eq!(Some(2.330555650922987), lap.maximum_speed.as_ref().map(value));
    assert_eq!(779, lap.calories);
    assert_eq!(Some(127), lap.average_heart_rate_bpm);
    assert_eq!(Some(137), lap.maximum_heart_rate_bpm);
    assert_eq!(Intensity::Active, lap.intensity);
    assert_eq!(Some(90), lap.cadence);
    assert_eq!(TriggerMethod::Distance, lap.trigger_method);
    assert_eq!(true, lap.validate().is_ok());
    assert_eq!(525, lap.track_points.len());
}

#[test]
#[allow(deprecated)]
fn read_track_point_test() {
    let doc = document();
    let mut reader = XmlReader::new(doc.as_bytes());
    let tc = read_training_center(&mut reader).unwrap();
    let activity = tc
        .activity_list
        .unwrap()
        .activities
        .into_iter()
        .next()
        .unwrap();
    let tp = activity
        .laps
        .into_iter()
        .next()
        .unwrap()
        .track_points
        .into_iter()
        .next()
        .unwrap();
    assert_eq!(
        stamp(
            FixedOffset::east(0)
                .ymd(2020, 12, 28)
                .and_hms_milli(13, 36, 17, 453)
        ),
        tp.time
    );
    let position: Position = tp.position.unwrap();
    assert_eq!(51.752415, value(&position.latitude_degrees));
    assert_eq!(39.18763, value(&position.longitude_degrees));
    assert_eq!(Some(178.615), tp.altitude_meters.as_ref().map(value));
    assert_eq!(Some(0.0), tp.distance_meters.as_ref().map(value));
    assert_eq!(Some(68), tp.heart_rate_bpm);
    assert_eq!(Some(0), tp.cadence);
    assert_eq!(Some(SensorState::Present), tp.sensor_state);
}

#[test]
fn test_application_validate() {
    let mut application = Application::default();
    let vr = application.validate().unwrap_err();
    assert_eq!(true, vr.field_errors().contains_key("part_number"));
    assert_eq!(true, vr.field_errors().contains_key("lang_id"));
    application.part_number = String::from("XXX-XXXXX-XX");
    application.lang_id = String::from("EN");
    assert_eq!(true, application.validate().is_ok())
}
