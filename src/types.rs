//! The tree of entities that a Training Center document describes.
use crate::enums::{
    BuildType, CadenceSensorType, CoursePointType, Duration, Intensity, SensorState, SpeedType, Sport,
    TrainingType, TriggerMethod,
};
use crate::text::{check_float_literal, is_float_literal};
use crate::timestamp::Timestamp;
use vstd::prelude::*;

verus! {

/// A floating-point quantity, kept as the literal it was written as.
#[derive(Debug, PartialEq)]
pub struct Decimal {
    text: String,
}

impl View for Decimal {
    type V = Seq<char>;

    closed spec fn view(&self) -> Seq<char> {
        self.text@
    }
}

impl Decimal {
    /// Accepts a floating-point literal: an optional sign, then `inf`, `infinity`
    /// or `nan` in any case, or digits with an optional point and exponent.
    pub fn parse(s: &str) -> (r: Option<Decimal>)
        ensures
            r is Some <==> is_float_literal(s@),
            r matches Some(d) ==> d@ == s@,
    {
        if check_float_literal(s) {
            Some(Decimal { text: s.to_owned() })
        } else {
            None
        }
    }

    /// The literal.
    pub fn as_str(&self) -> (r: &str)
        ensures
            r@ == self@,
    {
        self.text.as_str()
    }

    pub fn zero() -> (r: Decimal)
        ensures
            r@ == "0"@,
    {
        Decimal { text: "0".to_owned() }
    }
}

impl Default for Decimal {
    fn default() -> (r: Decimal)
        ensures
            r@ == "0"@,
    {
        Decimal::zero()
    }
}

pub open spec fn opt_view<T: View>(o: Option<T>) -> Option<T::V> {
    match o {
        Some(v) => Some(v@),
        None => None,
    }
}

#[derive(Debug, PartialEq)]
pub enum SourceType {
    Application(Application),
    Device(Device),
}

pub enum SourceView {
    Application(ApplicationView),
    Device(DeviceView),
}

impl View for SourceType {
    type V = SourceView;

    open spec fn view(&self) -> SourceView {
        match self {
            SourceType::Application(a) => SourceView::Application(a@),
            SourceType::Device(d) => SourceView::Device(d@),
        }
    }
}

#[derive(Debug, PartialEq)]
pub enum StepType {
    Step(Step),
    Repeat(Repeat),
}

#[derive(Debug, PartialEq)]
pub enum Target {
    Speed(Zone),
    HeartRate(Zone),
    Cadence(Cadence),
    NoTarget,
}

#[derive(Debug, PartialEq)]
pub enum Zone {
    PredefinedSpeedZone(u8),
    CustomSpeedZone(CustomSpeedZone),
    PredefinedHeartRateZone(u8),
    CustomHeartRateZone(CustomHeartRateZone),
}

/// Identifies a PC software application.
#[derive(Default, Debug, PartialEq)]
pub struct Application {
    pub name: String,
    pub build: Build,
    /// Specifies the two character ISO 693-1 language id that identifies the installed
    /// language of this application. see http://www.loc.gov/standards/iso639-2/
    /// for appropriate ISO identifiers
    pub lang_id: String,
    /// The formatted XXX-XXXXX-XX Garmin part number of a PC application.
    pub part_number: String,
}

pub struct ApplicationView {
    pub name: Seq<char>,
    pub build: BuildView,
    pub lang_id: Seq<char>,
    pub part_number: Seq<char>,
}

impl View for Application {
    type V = ApplicationView;

    open spec fn view(&self) -> ApplicationView {
        ApplicationView {
            name: self.name@,
            build: self.build@,
            lang_id: self.lang_id@,
            part_number: self.part_number@,
        }
    }
}

/// Information about the build.
#[derive(Default, Debug, PartialEq)]
pub struct Build {
    pub version: Version,
    pub build_type: Option<BuildType>,
    /// A string containing the date and time when an application was built.
    /// Note that this is not an xsd:dateTime type because this string is
    /// generated by the compiler and cannot be readily converted to the
    /// xsd:dateTime format.
    pub time: Option<String>,
    /// The login name of the engineer who created this build.
    pub builder: Option<String>,
}

pub struct BuildView {
    pub version: Version,
    pub build_type: Option<BuildType>,
    pub time: Option<Seq<char>>,
    pub builder: Option<Seq<char>>,
}

impl View for Build {
    type V = BuildView;

    open spec fn view(&self) -> BuildView {
        BuildView {
            version: self.version,
            build_type: self.build_type,
            time: opt_view(self.time),
            builder: opt_view(self.builder),
        }
    }
}

#[derive(Default, Debug, Clone, Copy, PartialEq, Eq, Structural)]
pub struct Version {
    pub version_major: u16,
    pub version_minor: u16,
    pub build_major: Option<u16>,
    pub build_minor: Option<u16>,
}

impl Version {
    /// Version 0.0, with no build numbers.
    pub fn zero() -> (r: Version)
        ensures
            r == (Version { version_major: 0, version_minor: 0, build_major: None, build_minor: None }),
    {
        Version { version_major: 0, version_minor: 0, build_major: None, build_minor: None }
    }
}

/// Identifies the originating GPS device that tracked a run or
/// used to identify the type of device capable of handling
/// the data for loading.
#[derive(Default, Debug, PartialEq)]
pub struct Device {
    pub name: String,
    pub unit_id: u32,
    pub product_id: u16,
    pub version: Version,
}

pub struct DeviceView {
    pub name: Seq<char>,
    pub unit_id: u32,
    pub product_id: u16,
    pub version: Version,
}

impl View for Device {
    type V = DeviceView;

    open spec fn view(&self) -> DeviceView {
        DeviceView {
            name: self.name@,
            unit_id: self.unit_id,
            product_id: self.product_id,
            version: self.version,
        }
    }
}

#[derive(Debug, PartialEq)]
pub struct TrainingCenterDatabase {
    pub folders: Option<Folders>,
    pub activity_list: Option<ActivityList>,
    pub workout_list: Option<WorkoutList>,
    pub course_list: Option<CourseList>,
    pub author: Option<SourceType>,
}

/// What the reader fills in of a database; `extras` says whether any of the
/// folders, workout list or course list is present.
pub struct DatabaseView {
    pub activity_list: Option<ActivityListView>,
    pub author: Option<SourceView>,
    pub extras: bool,
}

impl View for TrainingCenterDatabase {
    type V = DatabaseView;

    open spec fn view(&self) -> DatabaseView {
        DatabaseView {
            activity_list: opt_view(self.activity_list),
            author: opt_view(self.author),
            extras: self.folders is Some || self.workout_list is Some || self.course_list is Some,
        }
    }
}

#[derive(Debug, PartialEq)]
pub struct CourseList {
    pub cources: Option<Vec<Course>>,
}

#[derive(Debug, PartialEq)]
pub struct Course {
    pub name: Option<String>,
    pub laps: Option<Vec<CourseLap>>,
    pub track_points: Option<Vec<TrackPoint>>,
    pub notes: Option<String>,
    pub course_point: Option<CoursePoint>,
    pub creator: Option<SourceType>,
}

#[derive(Debug, PartialEq)]
pub struct CoursePoint {
    pub name: Option<String>,
    pub time: Option<Timestamp>,
    pub position: Option<Position>,
    pub altitude_meters: Option<Decimal>,
    pub point_type: Option<CoursePointType>,
    pub notes: Option<String>,
}

#[derive(Debug, PartialEq)]
pub struct CourseLap {
    pub total_time_seconds: Option<Decimal>,
    pub distance_meters: Option<Decimal>,
    pub begin_position: Option<Position>,
    pub begin_altitude_meters: Option<Decimal>,
    pub end_position: Option<Position>,
    pub end_altitude_meters: Option<Decimal>,
    pub average_heart_rate_bpm: Option<u8>,
    pub maximum_heart_rate_bpm: Option<u8>,
    pub intensity: Option<Intensity>,
    pub cadence: Option<u8>,
}

#[derive(Debug, PartialEq)]
pub struct WorkoutList {
    pub workouts: Option<Vec<Workout>>,
}

#[derive(Debug, PartialEq)]
pub struct Workout {
    pub name: Option<String>,
    pub steps: Option<Vec<StepType>>,
    pub scheduled_on: Option<Timestamp>,
    pub notes: Option<String>,
    pub creator: Option<SourceType>,
    pub sport: Option<Sport>,
}

#[derive(Debug, PartialEq)]
pub struct Repeat {
    pub step_id: Option<u8>,
    pub repetitions: Option<u8>,
    pub children: Option<Vec<StepType>>,
}

#[derive(Debug, PartialEq)]
pub struct Step {
    pub step_id: Option<u8>,
    pub name: Option<String>,
    pub duration: Option<Duration>,
    pub intensity: Option<Intensity>,
    pub target: Option<Target>,
}

#[derive(Debug, PartialEq)]
pub struct Cadence {
    pub low: Option<Decimal>,
    pub high: Option<Decimal>,
}

#[derive(Debug, Clone, Copy, PartialEq, Eq, Structural)]
pub struct CustomHeartRateZone {
    pub low: Option<u8>,
    pub high: Option<u8>,
}

#[derive(Debug, PartialEq)]
pub struct CustomSpeedZone {
    pub view_as: Option<SpeedType>,
    pub low_in_meters_per_second: Option<Decimal>,
    pub high_in_meters_per_second: Option<Decimal>,
}

#[derive(Debug, PartialEq, Default)]
pub struct ActivityList {
    pub activities: Vec<Activity>,
    pub multi_sport_sessions: Vec<MultiSportSession>,
}

pub struct ActivityListView {
    pub activities: Seq<ActivityView>,
    pub multi_sport_sessions: nat,
}

impl View for ActivityList {
    type V = ActivityListView;

    open spec fn view(&self) -> ActivityListView {
        ActivityListView {
            activities: self.activities@.map_values(|a: Activity| a@),
            multi_sport_sessions: self.multi_sport_sessions@.len(),
        }
    }
}

#[derive(Debug, PartialEq)]
pub struct MultiSportSession {
    pub id: Option<Timestamp>,
    pub sports: Option<Vec<MultiActivity>>,
    pub notes: Option<String>,
}

#[derive(Debug, PartialEq)]
pub struct MultiActivity {
    pub transition: Option<ActivityLap>,
    pub activity: Option<Activity>,
}

#[derive(Debug, PartialEq)]
pub struct Folders {
    pub history: Option<History>,
    pub workouts: Option<Workouts>,
    pub courses: Option<Courses>,
}

#[derive(Debug, PartialEq)]
pub struct Courses {
    pub course_folder: Option<CourseFolder>,
}

#[derive(Debug, PartialEq)]
pub struct CourseFolder {
    pub folders: Option<Vec<CourseFolder>>,
    pub course_name_refs: Option<Vec<String>>,
    pub notes: Option<String>,
    pub name: Option<String>,
}

#[derive(Debug, PartialEq)]
pub struct Workouts {
    pub running: Option<WorkoutFolder>,
    pub biking: Option<WorkoutFolder>,
    pub other: Option<WorkoutFolder>,
}

#[derive(Debug, PartialEq)]
pub struct WorkoutFolder {
    pub folders: Option<Vec<WorkoutFolder>>,
    pub workout_name_refs: Option<Vec<String>>,
    pub name: Option<String>,
}

#[derive(Debug, PartialEq)]
pub struct History {
    pub running: Option<HistoryFolder>,
    pub biking: Option<HistoryFolder>,
    pub other: Option<HistoryFolder>,
    pub multi_sport: Option<MultiSportFolder>,
}

#[derive(Debug, PartialEq)]
pub struct MultiSportFolder {
    pub folders: Option<Vec<MultiSportFolder>>,
    pub multisport_activity_refs: Option<Vec<Timestamp>>,
    pub weeks: Option<Vec<Week>>,
    pub notes: Option<String>,
    pub name: Option<String>,
}

#[derive(Debug, PartialEq)]
pub struct HistoryFolder {
    pub folders: Option<Vec<HistoryFolder>>,
    pub activity_refs: Option<Vec<Timestamp>>,
    pub weeks: Option<Vec<Week>>,
    pub notes: Option<String>,
    pub name: Option<String>,
}

/// The week is written out only if the notes are present.
#[derive(Debug, PartialEq)]
pub struct Week {
    pub notes: Option<String>,
    pub start_day: Option<Timestamp>,
}

#[derive(Debug, PartialEq)]
pub struct Activity {
    pub id: Timestamp,
    pub laps: Vec<ActivityLap>,
    pub notes: Option<String>,
    pub training: Option<Training>,
    pub creator: Option<SourceType>,
    pub sport: Sport,
}

pub struct ActivityView {
    pub id: Timestamp,
    pub laps: Seq<LapView>,
    pub notes: Option<Seq<char>>,
    pub training: Option<TrainingView>,
    pub creator: Option<SourceView>,
    pub sport: Sport,
}

impl View for Activity {
    type V = ActivityView;

    open spec fn view(&self) -> ActivityView {
        ActivityView {
            id: self.id,
            laps: self.laps@.map_values(|l: ActivityLap| l@),
            notes: opt_view(self.notes),
            training: opt_view(self.training),
            creator: opt_view(self.creator),
            sport: self.sport,
        }
    }
}

impl Activity {
    pub open spec fn initial() -> ActivityView {
        ActivityView {
            id: Timestamp::unix_epoch(),
            laps: Seq::empty(),
            notes: None,
            training: None,
            creator: None,
            sport: Sport::Running,
        }
    }
}

impl Default for Activity {
    fn default() -> (r: Self)
        ensures
            r@ == Activity::initial(),
    {
        let r = Activity {
            id: Timestamp::epoch(),
            laps: Vec::new(),
            notes: None,
            training: None,
            creator: None,
            sport: Sport::Running,
        };
        assert(r@.laps =~= Seq::<LapView>::empty());
        r
    }
}

#[derive(Debug, PartialEq, Default)]
pub struct Training {
    pub quick_workout_results: Option<QuickWorkout>,
    pub plan: Option<Plan>,
    pub virtual_partner: bool,
}

pub struct TrainingView {
    pub quick_workout_results: Option<QuickWorkoutView>,
    pub plan: Option<PlanView>,
    pub virtual_partner: bool,
}

impl View for Training {
    type V = TrainingView;

    open spec fn view(&self) -> TrainingView {
        TrainingView {
            quick_workout_results: opt_view(self.quick_workout_results),
            plan: opt_view(self.plan),
            virtual_partner: self.virtual_partner,
        }
    }
}

#[derive(Debug, PartialEq, Default)]
pub struct Plan {
    /// Non empty string up to 15 bytes
    pub name: Option<String>,
    pub training_type: TrainingType,
    pub interval_workout: bool,
}

pub struct PlanView {
    pub name: Option<Seq<char>>,
    pub training_type: TrainingType,
    pub interval_workout: bool,
}

impl View for Plan {
    type V = PlanView;

    open spec fn view(&self) -> PlanView {
        PlanView {
            name: opt_view(self.name),
            training_type: self.training_type,
            interval_workout: self.interval_workout,
        }
    }
}

#[derive(Debug, PartialEq, Default)]
pub struct QuickWorkout {
    pub total_time_seconds: Decimal,
    pub distance_meters: Decimal,
}

pub struct QuickWorkoutView {
    pub total_time_seconds: Seq<char>,
    pub distance_meters: Seq<char>,
}

impl View for QuickWorkout {
    type V = QuickWorkoutView;

    open spec fn view(&self) -> QuickWorkoutView {
        QuickWorkoutView {
            total_time_seconds: self.total_time_seconds@,
            distance_meters: self.distance_meters@,
        }
    }
}

#[derive(Debug, PartialEq)]
pub struct ActivityLap {
    pub total_time_seconds: Decimal,
    pub distance_meters: Decimal,
    pub maximum_speed: Option<Decimal>,
    pub calories: u16,
    pub average_heart_rate_bpm: Option<u8>,
    pub maximum_heart_rate_bpm: Option<u8>,
    pub intensity: Intensity,
    pub cadence: Option<u8>,
    pub trigger_method: TriggerMethod,
    pub track_points: Vec<TrackPoint>,
    pub notes: Option<String>,
    pub start_time: Timestamp,
    pub extension: Option<ActivityLapExtension>,
}

/// What the reader fills in of a lap; `extended` says whether the vendor
/// extension block is present.
pub struct LapView {
    pub total_time_seconds: Seq<char>,
    pub distance_meters: Seq<char>,
    pub maximum_speed: Option<Seq<char>>,
    pub calories: u16,
    pub average_heart_rate_bpm: Option<u8>,
    pub maximum_heart_rate_bpm: Option<u8>,
    pub intensity: Intensity,
    pub cadence: Option<u8>,
    pub trigger_method: TriggerMethod,
    pub track_points: Seq<TrackPointView>,
    pub notes: Option<Seq<char>>,
    pub start_time: Timestamp,
    pub extended: bool,
}

impl View for ActivityLap {
    type V = LapView;

    open spec fn view(&self) -> LapView {
        LapView {
            total_time_seconds: self.total_time_seconds@,
            distance_meters: self.distance_meters@,
            maximum_speed: opt_view(self.maximum_speed),
            calories: self.calories,
            average_heart_rate_bpm: self.average_heart_rate_bpm,
            maximum_heart_rate_bpm: self.maximum_heart_rate_bpm,
            intensity: self.intensity,
            cadence: self.cadence,
            trigger_method: self.trigger_method,
            track_points: points_view(self.track_points@),
            notes: opt_view(self.notes),
            start_time: self.start_time,
            extended: self.extension is Some,
        }
    }
}

impl ActivityLap {
    pub open spec fn initial() -> LapView {
        LapView {
            total_time_seconds: "0"@,
            distance_meters: "0"@,
            maximum_speed: None,
            calories: 0,
            average_heart_rate_bpm: None,
            maximum_heart_rate_bpm: None,
            intensity: Intensity::Active,
            cadence: None,
            trigger_method: TriggerMethod::Manual,
            track_points: Seq::empty(),
            notes: None,
            start_time: Timestamp::unix_epoch(),
            extended: false,
        }
    }
}

impl Default for ActivityLap {
    fn default() -> (r: Self)
        ensures
            r@ == ActivityLap::initial(),
    {
        let r = ActivityLap {
            total_time_seconds: Decimal::zero(),
            distance_meters: Decimal::zero(),
            maximum_speed: None,
            calories: 0,
            average_heart_rate_bpm: None,
            maximum_heart_rate_bpm: None,
            intensity: Intensity::Active,
            cadence: None,
            trigger_method: TriggerMethod::Manual,
            track_points: Vec::new(),
            notes: None,
            start_time: Timestamp::epoch(),
            extension: None,
        };
        assert(r@.track_points =~= Seq::<TrackPointView>::empty());
        r
    }
}

pub open spec fn points_view(v: Seq<TrackPoint>) -> Seq<TrackPointView> {
    v.map_values(|p: TrackPoint| p@)
}

#[derive(Debug, PartialEq)]
pub struct TrackPoint {
    pub time: Timestamp,
    pub position: Option<Position>,
    pub altitude_meters: Option<Decimal>,
    pub distance_meters: Option<Decimal>,
    pub heart_rate_bpm: Option<u8>,
    pub cadence: Option<u8>,
    pub sensor_state: Option<SensorState>,
    pub extension: Option<ActivityTrackPointExtension>,
}

/// What the reader fills in of a track point; `extended` says whether the
/// vendor extension block is present.
pub struct TrackPointView {
    pub time: Timestamp,
    pub position: Option<PositionView>,
    pub altitude_meters: Option<Seq<char>>,
    pub distance_meters: Option<Seq<char>>,
    pub heart_rate_bpm: Option<u8>,
    pub cadence: Option<u8>,
    pub sensor_state: Option<SensorState>,
    pub extended: bool,
}

impl View for TrackPoint {
    type V = TrackPointView;

    open spec fn view(&self) -> TrackPointView {
        TrackPointView {
            time: self.time,
            position: opt_view(self.position),
            altitude_meters: opt_view(self.altitude_meters),
            distance_meters: opt_view(self.distance_meters),
            heart_rate_bpm: self.heart_rate_bpm,
            cadence: self.cadence,
            sensor_state: self.sensor_state,
            extended: self.extension is Some,
        }
    }
}

impl TrackPoint {
    pub open spec fn initial() -> TrackPointView {
        TrackPointView {
            time: Timestamp::unix_epoch(),
            position: None,
            altitude_meters: None,
            distance_meters: None,
            heart_rate_bpm: None,
            cadence: None,
            sensor_state: None,
            extended: false,
        }
    }
}

impl Default for TrackPoint {
    fn default() -> (r: Self)
        ensures
            r@ == TrackPoint::initial(),
    {
        TrackPoint {
            time: Timestamp::epoch(),
            position: None,
            altitude_meters: None,
            distance_meters: None,
            heart_rate_bpm: None,
            cadence: None,
            sensor_state: None,
            extension: None,
        }
    }
}

#[derive(Debug, PartialEq, Default)]
pub struct Position {
    pub latitude_degrees: Decimal,
    pub longitude_degrees: Decimal,
}

pub struct PositionView {
    pub latitude_degrees: Seq<char>,
    pub longitude_degrees: Seq<char>,
}

impl View for Position {
    type V = PositionView;

    open spec fn view(&self) -> PositionView {
        PositionView {
            latitude_degrees: self.latitude_degrees@,
            longitude_degrees: self.longitude_degrees@,
        }
    }
}

#[derive(Debug, PartialEq, Default)]
pub struct ActivityTrackPointExtension {
    pub speed: Option<Decimal>,
    pub run_cadence: Option<u8>,
    pub watts: Option<u16>,
    pub cadence_sensor: Option<CadenceSensorType>,
}

#[derive(Debug, PartialEq, Default)]
pub struct ActivityLapExtension {
    pub avg_speed: Option<Decimal>,
    pub max_bike_cadence: Option<u8>,
    pub avg_run_cadence: Option<u8>,
    pub max_run_cadence: Option<u8>,
    pub steps: Option<u16>,
    pub avg_watts: Option<u16>,
    pub max_watts: Option<u16>,
}

} // verus!
