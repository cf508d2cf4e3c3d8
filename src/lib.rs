//! Reads Training Center XML documents into a typed tree.
pub mod enums;
pub mod grammar;
pub mod laws;
pub mod read;
pub mod text;
pub mod timestamp;
pub mod types;
pub mod validate;
pub mod xml;

pub use crate::enums::{
    BuildType, CadenceSensorType, CoursePointType, Duration, Intensity, SensorState, SpeedType, Sport,
    TrainingType, TriggerMethod, UnknownEnumValueError,
};
pub use crate::read::ReadError;
pub use crate::timestamp::Timestamp;
pub use crate::types::{
    Activity, ActivityLap, ActivityLapExtension, ActivityList, ActivityTrackPointExtension,
    Application, Build, Cadence, Course, CourseFolder, CourseLap, CourseList, CoursePoint, Courses,
    CustomHeartRateZone, CustomSpeedZone, Decimal, Device, Folders, History, HistoryFolder,
    MultiActivity, MultiSportFolder, MultiSportSession, Plan, Position, QuickWorkout, Repeat,
    SourceType, Step, StepType, Target, TrackPoint, Training, TrainingCenterDatabase, Version,
    Week, Workout, WorkoutFolder, WorkoutList, Workouts, Zone,
};
pub use crate::validate::{FieldErrors, ValidationErrors};

use crate::grammar::{database_in, database_initial, lemma_database_keeps_extras};
use crate::read::{read_training_center, viewed};
use crate::xml::{xml_events, XmlReader};
use vstd::prelude::*;

verus! {

/// Reads a Training Center XML document into its tree, or gives the first error.
pub fn read(input: &[u8]) -> (r: Result<TrainingCenterDatabase, ReadError>)
    ensures
        viewed(r) == database_in(xml_events(input@)).0,
        r matches Ok(db) ==> db.folders is None && db.workout_list is None && db.course_list is None,
{
    let mut reader = XmlReader::new(input);
    proof {
        lemma_database_keeps_extras(xml_events(input@), database_initial());
    }
    read_training_center(&mut reader)
}

} // verus!
