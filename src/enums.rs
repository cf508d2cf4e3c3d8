//! The closed enumerations of the schema and their literals.
use crate::text::same_text;
use vstd::prelude::*;

verus! {

/// Which enumeration a text failed to name a value of.
#[derive(Debug, Clone, Copy, PartialEq, Eq, Structural)]
pub enum EnumKind {
    TrainingType,
    Sport,
    BuildType,
    Intensity,
    TriggerMethod,
    SensorState,
    CadenceSensorType,
}

/// A text that is not a literal of the enumeration it was read as.
#[derive(Debug)]
pub enum UnknownEnumValueError {
    TrainingType(String),
    Sport(String),
    BuildType(String),
    Intensity(String),
    TriggerMethod(String),
    SensorState(String),
    CadenceSensorType(String),
}

impl UnknownEnumValueError {
    pub open spec fn kind(&self) -> EnumKind {
        match self {
            UnknownEnumValueError::TrainingType(_) => EnumKind::TrainingType,
            UnknownEnumValueError::Sport(_) => EnumKind::Sport,
            UnknownEnumValueError::BuildType(_) => EnumKind::BuildType,
            UnknownEnumValueError::Intensity(_) => EnumKind::Intensity,
            UnknownEnumValueError::TriggerMethod(_) => EnumKind::TriggerMethod,
            UnknownEnumValueError::SensorState(_) => EnumKind::SensorState,
            UnknownEnumValueError::CadenceSensorType(_) => EnumKind::CadenceSensorType,
        }
    }

    /// The offending text.
    pub open spec fn text(&self) -> Seq<char> {
        match self {
            UnknownEnumValueError::TrainingType(t) => t@,
            UnknownEnumValueError::Sport(t) => t@,
            UnknownEnumValueError::BuildType(t) => t@,
            UnknownEnumValueError::Intensity(t) => t@,
            UnknownEnumValueError::TriggerMethod(t) => t@,
            UnknownEnumValueError::SensorState(t) => t@,
            UnknownEnumValueError::CadenceSensorType(t) => t@,
        }
    }
}

/// What parsing a text as an enumeration gives: the value it names, or an error
/// of the enumeration's kind carrying the text.
pub open spec fn enum_outcome<T>(
    r: Result<T, UnknownEnumValueError>,
    expected: Option<T>,
    kind: EnumKind,
    s: Seq<char>,
) -> bool {
    match expected {
        Some(v) => r == Ok::<T, UnknownEnumValueError>(v),
        None => r matches Err(e) && e.kind() == kind && e.text() == s,
    }
}

#[derive(Debug, Clone, Copy, PartialEq, Eq, Structural)]
pub enum BuildType {
    Internal,
    Alpha,
    Beta,
    Release,
}

impl BuildType {
    pub open spec fn literal(self) -> Seq<char> {
        match self {
            BuildType::Internal => "Internal"@,
            BuildType::Alpha => "Alpha"@,
            BuildType::Beta => "Beta"@,
            BuildType::Release => "Release"@,
        }
    }

    pub open spec fn from_literal(s: Seq<char>) -> Option<BuildType> {
        if s == "Internal"@ {
            Some(BuildType::Internal)
        } else if s == "Alpha"@ {
            Some(BuildType::Alpha)
        } else if s == "Beta"@ {
            Some(BuildType::Beta)
        } else if s == "Release"@ {
            Some(BuildType::Release)
        } else {
            None
        }
    }

    pub fn from_str(s: &str) -> (r: Result<BuildType, UnknownEnumValueError>)
        ensures
            enum_outcome(r, BuildType::from_literal(s@), EnumKind::BuildType, s@),
    {
        if same_text(s, "Internal") {
            Ok(BuildType::Internal)
        } else if same_text(s, "Alpha") {
            Ok(BuildType::Alpha)
        } else if same_text(s, "Beta") {
            Ok(BuildType::Beta)
        } else if same_text(s, "Release") {
            Ok(BuildType::Release)
        } else {
            Err(UnknownEnumValueError::BuildType(s.to_owned()))
        }
    }
}

#[derive(Debug, Clone, Copy, PartialEq, Eq, Structural)]
pub enum CoursePointType {
    Generic,
    Summit,
    Valley,
    Water,
    Food,
    Danger,
    Left,
    Right,
    Straight,
    FirstAid,
    Category4,
    Category3,
    Category2,
    Category1,
    HorsCategory,
    Sprint,
}

#[derive(Debug, Clone, Copy, PartialEq, Eq, Structural)]
pub enum SpeedType {
    Pace,
    Speed,
}

#[derive(Debug, Clone, Copy, PartialEq, Eq, Structural)]
pub enum Duration {
    Time(u16),
    Distance(u16),
    HeartRateAbove(u8),
    HeartRateBelow(u8),
    CaloriesBurned(u16),
}

#[derive(Debug, Clone, Copy, PartialEq, Eq, Structural)]
pub enum TrainingType {
    Workout,
    Course,
}

impl Default for TrainingType {
    fn default() -> (r: Self)
        ensures
            r == TrainingType::Workout,
    {
        TrainingType::Workout
    }
}

impl TrainingType {
    pub open spec fn literal(self) -> Seq<char> {
        match self {
            TrainingType::Workout => "Workout"@,
            TrainingType::Course => "Course"@,
        }
    }

    pub open spec fn from_literal(s: Seq<char>) -> Option<TrainingType> {
        if s == "Workout"@ {
            Some(TrainingType::Workout)
        } else if s == "Course"@ {
            Some(TrainingType::Course)
        } else {
            None
        }
    }

    pub fn from_str(s: &str) -> (r: Result<TrainingType, UnknownEnumValueError>)
        ensures
            enum_outcome(r, TrainingType::from_literal(s@), EnumKind::TrainingType, s@),
    {
        if same_text(s, "Workout") {
            Ok(TrainingType::Workout)
        } else if same_text(s, "Course") {
            Ok(TrainingType::Course)
        } else {
            Err(UnknownEnumValueError::TrainingType(s.to_owned()))
        }
    }
}

#[derive(Debug, Clone, Copy, PartialEq, Eq, Structural)]
pub enum SensorState {
    Present,
    Absent,
}

impl Default for SensorState {
    fn default() -> (r: Self)
        ensures
            r == SensorState::Present,
    {
        SensorState::Present
    }
}

impl SensorState {
    pub open spec fn literal(self) -> Seq<char> {
        match self {
            SensorState::Present => "Present"@,
            SensorState::Absent => "Absent"@,
        }
    }

    pub open spec fn from_literal(s: Seq<char>) -> Option<SensorState> {
        if s == "Present"@ {
            Some(SensorState::Present)
        } else if s == "Absent"@ {
            Some(SensorState::Absent)
        } else {
            None
        }
    }

    pub fn from_str(s: &str) -> (r: Result<SensorState, UnknownEnumValueError>)
        ensures
            enum_outcome(r, SensorState::from_literal(s@), EnumKind::SensorState, s@),
    {
        if same_text(s, "Present") {
            Ok(SensorState::Present)
        } else if same_text(s, "Absent") {
            Ok(SensorState::Absent)
        } else {
            Err(UnknownEnumValueError::SensorState(s.to_owned()))
        }
    }
}

#[derive(Debug, Clone, Copy, PartialEq, Eq, Structural)]
pub enum Intensity {
    Active,
    Resting,
}

impl Intensity {
    pub open spec fn literal(self) -> Seq<char> {
        match self {
            Intensity::Active => "Active"@,
            Intensity::Resting => "Resting"@,
        }
    }

    pub open spec fn from_literal(s: Seq<char>) -> Option<Intensity> {
        if s == "Active"@ {
            Some(Intensity::Active)
        } else if s == "Resting"@ {
            Some(Intensity::Resting)
        } else {
            None
        }
    }

    pub fn from_str(s: &str) -> (r: Result<Intensity, UnknownEnumValueError>)
        ensures
            enum_outcome(r, Intensity::from_literal(s@), EnumKind::Intensity, s@),
    {
        if same_text(s, "Active") {
            Ok(Intensity::Active)
        } else if same_text(s, "Resting") {
            Ok(Intensity::Resting)
        } else {
            Err(UnknownEnumValueError::Intensity(s.to_owned()))
        }
    }
}

#[derive(Debug, Clone, Copy, PartialEq, Eq, Structural)]
pub enum TriggerMethod {
    Manual,
    Distance,
    Location,
    Time,
    HeartRate,
}

impl TriggerMethod {
    pub open spec fn literal(self) -> Seq<char> {
        match self {
            TriggerMethod::Manual => "Manual"@,
            TriggerMethod::Distance => "Distance"@,
            TriggerMethod::Location => "Location"@,
            TriggerMethod::Time => "Time"@,
            TriggerMethod::HeartRate => "HeartRate"@,
        }
    }

    pub open spec fn from_literal(s: Seq<char>) -> Option<TriggerMethod> {
        if s == "Manual"@ {
            Some(TriggerMethod::Manual)
        } else if s == "Distance"@ {
            Some(TriggerMethod::Distance)
        } else if s == "Location"@ {
            Some(TriggerMethod::Location)
        } else if s == "Time"@ {
            Some(TriggerMethod::Time)
        } else if s == "HeartRate"@ {
            Some(TriggerMethod::HeartRate)
        } else {
            None
        }
    }

    pub fn from_str(s: &str) -> (r: Result<TriggerMethod, UnknownEnumValueError>)
        ensures
            enum_outcome(r, TriggerMethod::from_literal(s@), EnumKind::TriggerMethod, s@),
    {
        if same_text(s, "Manual") {
            Ok(TriggerMethod::Manual)
        } else if same_text(s, "Distance") {
            Ok(TriggerMethod::Distance)
        } else if same_text(s, "Location") {
            Ok(TriggerMethod::Location)
        } else if same_text(s, "Time") {
            Ok(TriggerMethod::Time)
        } else if same_text(s, "HeartRate") {
            Ok(TriggerMethod::HeartRate)
        } else {
            Err(UnknownEnumValueError::TriggerMethod(s.to_owned()))
        }
    }
}

#[derive(Debug, Clone, Copy, PartialEq, Eq, Structural)]
pub enum Sport {
    Running,
    Biking,
    Other,
}

impl Sport {
    pub open spec fn literal(self) -> Seq<char> {
        match self {
            Sport::Running => "Running"@,
            Sport::Biking => "Biking"@,
            Sport::Other => "Other"@,
        }
    }

    pub open spec fn from_literal(s: Seq<char>) -> Option<Sport> {
        if s == "Running"@ {
            Some(Sport::Running)
        } else if s == "Biking"@ {
            Some(Sport::Biking)
        } else if s == "Other"@ {
            Some(Sport::Other)
        } else {
            None
        }
    }

    pub fn from_str(s: &str) -> (r: Result<Sport, UnknownEnumValueError>)
        ensures
            enum_outcome(r, Sport::from_literal(s@), EnumKind::Sport, s@),
    {
        if same_text(s, "Running") {
            Ok(Sport::Running)
        } else if same_text(s, "Biking") {
            Ok(Sport::Biking)
        } else if same_text(s, "Other") {
            Ok(Sport::Other)
        } else {
            Err(UnknownEnumValueError::Sport(s.to_owned()))
        }
    }
}

#[derive(Debug, Clone, Copy, PartialEq, Eq, Structural)]
pub enum CadenceSensorType {
    Footpod,
    Bike,
}

impl CadenceSensorType {
    pub open spec fn literal(self) -> Seq<char> {
        match self {
            CadenceSensorType::Footpod => "Footpod"@,
            CadenceSensorType::Bike => "Bike"@,
        }
    }

    pub open spec fn from_literal(s: Seq<char>) -> Option<CadenceSensorType> {
        if s == "Footpod"@ {
            Some(CadenceSensorType::Footpod)
        } else if s == "Bike"@ {
            Some(CadenceSensorType::Bike)
        } else {
            None
        }
    }

    pub fn from_str(s: &str) -> (r: Result<CadenceSensorType, UnknownEnumValueError>)
        ensures
            enum_outcome(r, CadenceSensorType::from_literal(s@), EnumKind::CadenceSensorType, s@),
    {
        if same_text(s, "Footpod") {
            Ok(CadenceSensorType::Footpod)
        } else if same_text(s, "Bike") {
            Ok(CadenceSensorType::Bike)
        } else {
            Err(UnknownEnumValueError::CadenceSensorType(s.to_owned()))
        }
    }
}

impl std::str::FromStr for BuildType {
    type Err = UnknownEnumValueError;

    fn from_str(s: &str) -> Result<BuildType, UnknownEnumValueError> {
        BuildType::from_str(s)
    }
}

impl std::str::FromStr for TrainingType {
    type Err = UnknownEnumValueError;

    fn from_str(s: &str) -> Result<TrainingType, UnknownEnumValueError> {
        TrainingType::from_str(s)
    }
}

impl std::str::FromStr for SensorState {
    type Err = UnknownEnumValueError;

    fn from_str(s: &str) -> Result<SensorState, UnknownEnumValueError> {
        SensorState::from_str(s)
    }
}

impl std::str::FromStr for Intensity {
    type Err = UnknownEnumValueError;

    fn from_str(s: &str) -> Result<Intensity, UnknownEnumValueError> {
        Intensity::from_str(s)
    }
}

impl std::str::FromStr for TriggerMethod {
    type Err = UnknownEnumValueError;

    fn from_str(s: &str) -> Result<TriggerMethod, UnknownEnumValueError> {
        TriggerMethod::from_str(s)
    }
}

impl std::str::FromStr for Sport {
    type Err = UnknownEnumValueError;

    fn from_str(s: &str) -> Result<Sport, UnknownEnumValueError> {
        Sport::from_str(s)
    }
}

impl std::str::FromStr for CadenceSensorType {
    type Err = UnknownEnumValueError;

    fn from_str(s: &str) -> Result<CadenceSensorType, UnknownEnumValueError> {
        CadenceSensorType::from_str(s)
    }
}

} // verus!
