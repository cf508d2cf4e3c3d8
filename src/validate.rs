//! Field-level constraint checks on an already built value: lengths, ranges and
//! the shape of part numbers. A check collects every violated field.
use crate::text::{chars_of, same_text};
use crate::types::{
    ActivityLap, ActivityLapExtension, ActivityTrackPointExtension, Application, CourseLap, Plan,
    TrackPoint,
};
use vstd::prelude::*;

verus! {

/// The names of the fields that broke a constraint, in declaration order.
#[derive(Debug)]
pub struct FieldErrors {
    names: Vec<String>,
}

impl View for FieldErrors {
    type V = Seq<Seq<char>>;

    closed spec fn view(&self) -> Seq<Seq<char>> {
        self.names@.map_values(|n: String| n@)
    }
}

impl FieldErrors {
    /// Whether the field named `name` broke a constraint.
    pub fn contains_key(&self, name: &str) -> (r: bool)
        ensures
            r == self@.contains(name@),
    {
        let mut i: usize = 0;
        while i < self.names.len()
            invariant
                i <= self.names@.len(),
                self@ == self.names@.map_values(|n: String| n@),
                forall|j: int| 0 <= j < i ==> self@[j] != name@,
            decreases self.names.len() - i,
        {
            if same_text(self.names[i].as_str(), name) {
                assert(self@[i as int] == name@);
                return true;
            }
            i = i + 1;
        }
        false
    }

    pub fn len(&self) -> (r: usize)
        ensures
            r == self@.len(),
    {
        self.names.len()
    }
}

/// The outcome of a failed check.
#[derive(Debug)]
pub struct ValidationErrors {
    fields: FieldErrors,
}

impl View for ValidationErrors {
    type V = Seq<Seq<char>>;

    closed spec fn view(&self) -> Seq<Seq<char>> {
        self.fields@
    }
}

impl ValidationErrors {
    pub fn field_errors(&self) -> (r: &FieldErrors)
        ensures
            r@ == self@,
    {
        &self.fields
    }
}

/// Collects the names of violated fields.
struct Violations {
    names: Vec<String>,
}

impl View for Violations {
    type V = Seq<Seq<char>>;

    closed spec fn view(&self) -> Seq<Seq<char>> {
        self.names@.map_values(|n: String| n@)
    }
}

impl Violations {
    fn new() -> (r: Violations)
        ensures
            r@ == Seq::<Seq<char>>::empty(),
    {
        let r = Violations { names: Vec::new() };
        assert(r@ =~= Seq::<Seq<char>>::empty());
        r
    }

    /// Records `name` where `broken` holds.
    fn check(&mut self, broken: bool, name: &str)
        ensures
            final(self)@ == flag(old(self)@, broken, name@),
    {
        if broken {
            let ghost before = self@;
            self.names.push(name.to_owned());
            assert(self@ =~= before.push(name@));
        }
    }

    fn finish(self) -> (r: Result<(), ValidationErrors>)
        ensures
            outcome(r) == self@,
            r is Ok <==> self@.len() == 0,
    {
        if self.names.len() == 0 {
            Ok(())
        } else {
            let e = ValidationErrors { fields: FieldErrors { names: self.names } };
            Err(e)
        }
    }
}

/// `names` with `name` added where `broken` holds.
pub open spec fn flag(names: Seq<Seq<char>>, broken: bool, name: Seq<char>) -> Seq<Seq<char>> {
    if broken {
        names.push(name)
    } else {
        names
    }
}

/// The violated fields that a check reports; none where it passes.
pub open spec fn outcome(r: Result<(), ValidationErrors>) -> Seq<Seq<char>> {
    match r {
        Ok(()) => Seq::empty(),
        Err(e) => e@,
    }
}

/// An optional number below a lower bound.
pub open spec fn below(v: Option<u8>, min: u8) -> bool {
    v matches Some(x) && x < min
}

/// An optional number above an upper bound.
pub open spec fn above(v: Option<u8>, max: u8) -> bool {
    v matches Some(x) && x > max
}

fn is_below(v: Option<u8>, min: u8) -> (r: bool)
    ensures
        r == below(v, min),
{
    match v {
        Some(x) => x < min,
        None => false,
    }
}

fn is_above(v: Option<u8>, max: u8) -> (r: bool)
    ensures
        r == above(v, max),
{
    match v {
        Some(x) => x > max,
        None => false,
    }
}

/// The shape of a part number, `XXX-XXXXX-XX` with upper-case letters or digits.
pub const PART_NUMBER_PATTERN: &'static str = "[\\p{Lu}\\d]{3}-[\\p{Lu}\\d]{5}-[\\p{Lu}\\d]{2}";

/// Whether a regular expression is valid.
pub uninterp spec fn pattern_compiles(pattern: Seq<char>) -> bool;

/// Whether a regular expression matches somewhere in a text.
pub uninterp spec fn pattern_found(pattern: Seq<char>, text: Seq<char>) -> bool;

#[verifier::external_type_specification]
#[verifier::external_body]
pub struct ExRegex(regex::Regex);

/// A compiled regular expression together with its source.
struct Pattern {
    source: String,
    compiled: regex::Regex,
}

/// Relies on regex::Regex::new: it compiles exactly the valid patterns.
#[verifier::external_body]
fn compile(pattern: &str) -> (r: Option<Pattern>)
    ensures
        r is Some <==> pattern_compiles(pattern@),
        r matches Some(p) ==> p.source@ == pattern@,
{
    match regex::Regex::new(pattern) {
        Ok(compiled) => Some(Pattern { source: pattern.to_owned(), compiled }),
        Err(_) => None,
    }
}

/// Relies on regex::Regex::is_match: whether the pattern, compiled from
/// `p.source`, matches somewhere in `text`.
#[verifier::external_body]
fn is_match(p: &Pattern, text: &str) -> (r: bool)
    ensures
        r == pattern_found(p.source@, text@),
{
    p.compiled.is_match(text)
}

/// A part number has the expected shape somewhere in it.
pub open spec fn part_number_ok(s: Seq<char>) -> bool {
    pattern_compiles(PART_NUMBER_PATTERN@) && pattern_found(PART_NUMBER_PATTERN@, s)
}

fn check_part_number(s: &str) -> (r: bool)
    ensures
        r == part_number_ok(s@),
{
    match compile(PART_NUMBER_PATTERN) {
        Some(p) => is_match(&p, s),
        None => false,
    }
}

/// The number of characters of a text.
fn char_count(s: &str) -> (r: usize)
    ensures
        r == s@.len(),
{
    chars_of(s).len()
}

impl Application {
    /// The language id has exactly two characters; the part number has the shape
    /// `XXX-XXXXX-XX`.
    pub open spec fn violations(&self) -> Seq<Seq<char>> {
        let v = flag(Seq::empty(), self.lang_id@.len() != 2, "lang_id"@);
        flag(v, !part_number_ok(self.part_number@), "part_number"@)
    }

    pub fn validate(&self) -> (r: Result<(), ValidationErrors>)
        ensures
            outcome(r) == self.violations(),
            r is Ok <==> self.violations().len() == 0,
    {
        let mut v = Violations::new();
        v.check(char_count(self.lang_id.as_str()) != 2, "lang_id");
        v.check(!check_part_number(self.part_number.as_str()), "part_number");
        v.finish()
    }
}

impl ActivityLap {
    /// Heart rates are at least 1; the cadence is at most 254.
    pub open spec fn violations(&self) -> Seq<Seq<char>> {
        let v = flag(Seq::empty(), below(self.average_heart_rate_bpm, 1), "average_heart_rate_bpm"@);
        let v = flag(v, below(self.maximum_heart_rate_bpm, 1), "maximum_heart_rate_bpm"@);
        flag(v, above(self.cadence, 254), "cadence"@)
    }

    pub fn validate(&self) -> (r: Result<(), ValidationErrors>)
        ensures
            outcome(r) == self.violations(),
            r is Ok <==> self.violations().len() == 0,
    {
        let mut v = Violations::new();
        v.check(is_below(self.average_heart_rate_bpm, 1), "average_heart_rate_bpm");
        v.check(is_below(self.maximum_heart_rate_bpm, 1), "maximum_heart_rate_bpm");
        v.check(is_above(self.cadence, 254), "cadence");
        v.finish()
    }
}

impl TrackPoint {
    /// The cadence is at most 254.
    pub open spec fn violations(&self) -> Seq<Seq<char>> {
        flag(Seq::empty(), above(self.cadence, 254), "cadence"@)
    }

    pub fn validate(&self) -> (r: Result<(), ValidationErrors>)
        ensures
            outcome(r) == self.violations(),
            r is Ok <==> self.violations().len() == 0,
    {
        let mut v = Violations::new();
        v.check(is_above(self.cadence, 254), "cadence");
        v.finish()
    }
}

impl CourseLap {
    /// The cadence is at most 254.
    pub open spec fn violations(&self) -> Seq<Seq<char>> {
        flag(Seq::empty(), above(self.cadence, 254), "cadence"@)
    }

    pub fn validate(&self) -> (r: Result<(), ValidationErrors>)
        ensures
            outcome(r) == self.violations(),
            r is Ok <==> self.violations().len() == 0,
    {
        let mut v = Violations::new();
        v.check(is_above(self.cadence, 254), "cadence");
        v.finish()
    }
}

impl Plan {
    /// A name, where present, has 1 to 15 characters.
    pub open spec fn violations(&self) -> Seq<Seq<char>> {
        let broken = match self.name {
            Some(n) => n@.len() < 1 || n@.len() > 15,
            None => false,
        };
        flag(Seq::empty(), broken, "name"@)
    }

    pub fn validate(&self) -> (r: Result<(), ValidationErrors>)
        ensures
            outcome(r) == self.violations(),
            r is Ok <==> self.violations().len() == 0,
    {
        let broken = match &self.name {
            Some(n) => {
                let k = char_count(n.as_str());
                k < 1 || k > 15
            },
            None => false,
        };
        let mut v = Violations::new();
        v.check(broken, "name");
        v.finish()
    }
}

impl ActivityTrackPointExtension {
    /// The run cadence is at most 254.
    pub open spec fn violations(&self) -> Seq<Seq<char>> {
        flag(Seq::empty(), above(self.run_cadence, 254), "run_cadence"@)
    }

    pub fn validate(&self) -> (r: Result<(), ValidationErrors>)
        ensures
            outcome(r) == self.violations(),
            r is Ok <==> self.violations().len() == 0,
    {
        let mut v = Violations::new();
        v.check(is_above(self.run_cadence, 254), "run_cadence");
        v.finish()
    }
}

impl ActivityLapExtension {
    /// Cadences are at most 254.
    pub open spec fn violations(&self) -> Seq<Seq<char>> {
        let v = flag(Seq::empty(), above(self.max_bike_cadence, 254), "max_bike_cadence"@);
        let v = flag(v, above(self.avg_run_cadence, 254), "avg_run_cadence"@);
        flag(v, above(self.max_run_cadence, 254), "max_run_cadence"@)
    }

    pub fn validate(&self) -> (r: Result<(), ValidationErrors>)
        ensures
            outcome(r) == self.violations(),
            r is Ok <==> self.violations().len() == 0,
    {
        let mut v = Violations::new();
        v.check(is_above(self.max_bike_cadence, 254), "max_bike_cadence");
        v.check(is_above(self.avg_run_cadence, 254), "avg_run_cadence");
        v.check(is_above(self.max_run_cadence, 254), "max_run_cadence");
        v.finish()
    }
}

} // verus!
