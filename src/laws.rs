//! Properties of reading that hold of every input.
use crate::enums::{
    BuildType, CadenceSensorType, Intensity, SensorState, Sport, TrainingType, TriggerMethod,
};
use crate::grammar::{
    activity_handler, attributes_of, database_handler, database_in, first_with_key,
    lemma_activity_handler, lemma_database_handler, scan, source_in, type_of, Failure,
};
use crate::text::spelled;
use crate::types::{ActivityView, DatabaseView, SourceView};
use crate::xml::{xml_events, Events, StartTag, XmlEvent};
use vstd::prelude::*;

verus! {

/// Each build type's literal reads back as that build type, and a text reads as a
/// build type only if it is that build type's literal.
pub proof fn lemma_build_type_literals(v: BuildType, s: Seq<char>)
    ensures
        BuildType::from_literal(v.literal()) == Some(v),
        BuildType::from_literal(s) matches Some(w) ==> s == w.literal(),
{
    reveal_strlit("Internal");
    assert("Internal"@[0] == 'I');
    reveal_strlit("Alpha");
    assert("Alpha"@[0] == 'A');
    reveal_strlit("Beta");
    assert("Beta"@[0] == 'B');
    reveal_strlit("Release");
    assert("Release"@[0] == 'R');
}

/// Each training type's literal reads back as that training type, and a text
/// reads as a training type only if it is that training type's literal.
pub proof fn lemma_training_type_literals(v: TrainingType, s: Seq<char>)
    ensures
        TrainingType::from_literal(v.literal()) == Some(v),
        TrainingType::from_literal(s) matches Some(w) ==> s == w.literal(),
{
    reveal_strlit("Workout");
    assert("Workout"@[0] == 'W');
    reveal_strlit("Course");
    assert("Course"@[0] == 'C');
}

/// Each sensor state's literal reads back as that sensor state, and a text reads
/// as a sensor state only if it is that sensor state's literal.
pub proof fn lemma_sensor_state_literals(v: SensorState, s: Seq<char>)
    ensures
        SensorState::from_literal(v.literal()) == Some(v),
        SensorState::from_literal(s) matches Some(w) ==> s == w.literal(),
{
    reveal_strlit("Present");
    assert("Present"@[0] == 'P');
    reveal_strlit("Absent");
    assert("Absent"@[0] == 'A');
}

/// Each intensity's literal reads back as that intensity, and a text reads as an
/// intensity only if it is that intensity's literal.
pub proof fn lemma_intensity_literals(v: Intensity, s: Seq<char>)
    ensures
        Intensity::from_literal(v.literal()) == Some(v),
        Intensity::from_literal(s) matches Some(w) ==> s == w.literal(),
{
    reveal_strlit("Active");
    assert("Active"@[0] == 'A');
    reveal_strlit("Resting");
    assert("Resting"@[0] == 'R');
}

/// Each trigger method's literal reads back as that trigger method, and a text
/// reads as a trigger method only if it is that trigger method's literal.
pub proof fn lemma_trigger_method_literals(v: TriggerMethod, s: Seq<char>)
    ensures
        TriggerMethod::from_literal(v.literal()) == Some(v),
        TriggerMethod::from_literal(s) matches Some(w) ==> s == w.literal(),
{
    reveal_strlit("Manual");
    assert("Manual"@[0] == 'M');
    reveal_strlit("Distance");
    assert("Distance"@[0] == 'D');
    reveal_strlit("Location");
    assert("Location"@[0] == 'L');
    reveal_strlit("Time");
    assert("Time"@[0] == 'T');
    reveal_strlit("HeartRate");
    assert("HeartRate"@[0] == 'H');
}

/// Each sport's literal reads back as that sport, and a text reads as a sport
/// only if it is that sport's literal.
pub proof fn lemma_sport_literals(v: Sport, s: Seq<char>)
    ensures
        Sport::from_literal(v.literal()) == Some(v),
        Sport::from_literal(s) matches Some(w) ==> s == w.literal(),
{
    reveal_strlit("Running");
    assert("Running"@[0] == 'R');
    reveal_strlit("Biking");
    assert("Biking"@[0] == 'B');
    reveal_strlit("Other");
    assert("Other"@[0] == 'O');
}

/// Each cadence sensor type's literal reads back as that sensor type, and a text
/// reads as a cadence sensor type only if it is that sensor type's literal.
pub proof fn lemma_cadence_sensor_type_literals(v: CadenceSensorType, s: Seq<char>)
    ensures
        CadenceSensorType::from_literal(v.literal()) == Some(v),
        CadenceSensorType::from_literal(s) matches Some(w) ==> s == w.literal(),
{
    reveal_strlit("Footpod");
    assert("Footpod"@[0] == 'F');
    reveal_strlit("Bike");
    assert("Bike"@[0] == 'B');
}

/// A polymorphic element without a type discriminant fails to read, whatever
/// its content.
pub proof fn lemma_source_without_type(tag: StartTag, t: Events, close: Seq<char>)
    requires
        first_with_key(attributes_of(tag), "xsi:type"@) is None,
    ensures
        source_in(tag, t, close).0 == Err::<Option<SourceView>, Failure>(Failure::TypeNotDefined),
{
}

/// A document whose next element is an `Author` without a type discriminant
/// fails with that error, whatever follows.
pub proof fn lemma_author_without_type(s: Events, acc: DatabaseView, tag: StartTag)
    requires
        s.len() > 0,
        s[0] == Some(XmlEvent::Start(tag)),
        spelled(tag.name@, "Author"@),
        first_with_key(attributes_of(tag), "xsi:type"@) is None,
    ensures
        scan(s, "TrainingCenterDatabase"@, acc, database_handler()).0 == Err::<DatabaseView, Failure>(
            Failure::TypeNotDefined,
        ),
{
    lemma_database_handler();
}

/// An activity whose next element is a `Creator` without a type discriminant
/// fails with that error, whatever follows.
pub proof fn lemma_creator_without_type(s: Events, close: Seq<char>, acc: ActivityView, tag: StartTag)
    requires
        s.len() > 0,
        s[0] == Some(XmlEvent::Start(tag)),
        spelled(tag.name@, "Creator"@),
        first_with_key(attributes_of(tag), "xsi:type"@) is None,
    ensures
        scan(s, close, acc, activity_handler()).0 == Err::<ActivityView, Failure>(
            Failure::TypeNotDefined,
        ),
{
    lemma_activity_handler();
    lemma_creator_is_no_other_child(tag.name@);
}

proof fn lemma_creator_is_no_other_child(n: Seq<u8>)
    requires
        spelled(n, "Creator"@),
    ensures
        !spelled(n, "Id"@),
        !spelled(n, "Lap"@),
        !spelled(n, "Notes"@),
        !spelled(n, "Training"@),
{
    reveal_strlit("Creator");
    reveal_strlit("Id");
    reveal_strlit("Lap");
    reveal_strlit("Notes");
    reveal_strlit("Training");
}

/// A polymorphic element whose type discriminant names neither an application
/// nor a device reads as absent and consumes nothing.
pub proof fn lemma_source_of_unknown_type(tag: StartTag, t: Events, close: Seq<char>, ty: Seq<char>)
    requires
        type_of(tag) == Ok::<Seq<char>, Failure>(ty),
        ty != "Application_t"@,
        ty != "Device_t"@,
    ensures
        source_in(tag, t, close) == (Ok::<Option<SourceView>, Failure>(None), t),
{
}

/// An `Author` whose type discriminant names neither an application nor a
/// device does not fail: it is passed over like an unknown element, and the
/// author stays as it was (absent, unless an earlier `Author` set it).
pub proof fn lemma_author_of_unknown_type(s: Events, acc: DatabaseView, tag: StartTag, ty: Seq<char>)
    requires
        s.len() > 0,
        s[0] == Some(XmlEvent::Start(tag)),
        spelled(tag.name@, "Author"@),
        type_of(tag) == Ok::<Seq<char>, Failure>(ty),
        ty != "Application_t"@,
        ty != "Device_t"@,
    ensures
        scan(s, "TrainingCenterDatabase"@, acc, database_handler()) == scan(
            s.drop_first(),
            "TrainingCenterDatabase"@,
            acc,
            database_handler(),
        ),
{
    lemma_database_handler();
    assert(DatabaseView { author: acc.author, ..acc } == acc);
}

/// A `Creator` whose type discriminant names neither an application nor a
/// device does not fail: it is passed over, and the creator stays as it was.
pub proof fn lemma_creator_of_unknown_type(
    s: Events,
    close: Seq<char>,
    acc: ActivityView,
    tag: StartTag,
    ty: Seq<char>,
)
    requires
        s.len() > 0,
        s[0] == Some(XmlEvent::Start(tag)),
        spelled(tag.name@, "Creator"@),
        type_of(tag) == Ok::<Seq<char>, Failure>(ty),
        ty != "Application_t"@,
        ty != "Device_t"@,
    ensures
        scan(s, close, acc, activity_handler()) == scan(s.drop_first(), close, acc, activity_handler()),
{
    lemma_activity_handler();
    lemma_creator_is_no_other_child(tag.name@);
    assert(ActivityView { creator: acc.creator, ..acc } == acc);
}

/// Reading the same bytes twice gives equal results.
pub proof fn lemma_read_is_deterministic(a: Seq<u8>, b: Seq<u8>)
    requires
        a == b,
    ensures
        database_in(xml_events(a)) == database_in(xml_events(b)),
{
}

} // verus!
