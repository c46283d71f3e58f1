//! Structured event descriptors and their mathematical views.

use vstd::prelude::*;

verus! {

/// A single-character behavioral modifier of a performance-event specifier.
#[derive(Debug, PartialEq, Eq, Hash, Clone, Copy, Structural)]
pub enum PmuEventModifier {
    UserSpaceCounting,
    KernelCounting,
    HypervisorCounting,
    NonIdleCounting,
    GuestCounting,
    HostCounting,
    PreciseLevel,
    UseMaxPreciseLevel,
    ReadSampleValue,
    Pin,
    GroupWeak,
    GroupExclusive,
    BpfAggregation,
}

/// The thirteen-character modifier alphabet.
pub open spec fn is_modifier_char(c: char) -> bool {
    c == 'u' || c == 'k' || c == 'h' || c == 'I' || c == 'G' || c == 'H' || c == 'p' || c == 'P'
        || c == 'S' || c == 'D' || c == 'W' || c == 'e' || c == 'b'
}

/// The modifier a character stands for; meaningful only on the modifier
/// alphabet.
pub open spec fn modifier_of_char(c: char) -> PmuEventModifier
    recommends
        is_modifier_char(c),
{
    if c == 'u' {
        PmuEventModifier::UserSpaceCounting
    } else if c == 'k' {
        PmuEventModifier::KernelCounting
    } else if c == 'h' {
        PmuEventModifier::HypervisorCounting
    } else if c == 'I' {
        PmuEventModifier::NonIdleCounting
    } else if c == 'G' {
        PmuEventModifier::GuestCounting
    } else if c == 'H' {
        PmuEventModifier::HostCounting
    } else if c == 'p' {
        PmuEventModifier::PreciseLevel
    } else if c == 'P' {
        PmuEventModifier::UseMaxPreciseLevel
    } else if c == 'S' {
        PmuEventModifier::ReadSampleValue
    } else if c == 'D' {
        PmuEventModifier::Pin
    } else if c == 'W' {
        PmuEventModifier::GroupWeak
    } else if c == 'e' {
        PmuEventModifier::GroupExclusive
    } else {
        PmuEventModifier::BpfAggregation
    }
}

/// The character that writes a modifier.
pub open spec fn char_of_modifier(m: PmuEventModifier) -> char {
    match m {
        PmuEventModifier::UserSpaceCounting => 'u',
        PmuEventModifier::KernelCounting => 'k',
        PmuEventModifier::HypervisorCounting => 'h',
        PmuEventModifier::NonIdleCounting => 'I',
        PmuEventModifier::GuestCounting => 'G',
        PmuEventModifier::HostCounting => 'H',
        PmuEventModifier::PreciseLevel => 'p',
        PmuEventModifier::UseMaxPreciseLevel => 'P',
        PmuEventModifier::ReadSampleValue => 'S',
        PmuEventModifier::Pin => 'D',
        PmuEventModifier::GroupWeak => 'W',
        PmuEventModifier::GroupExclusive => 'e',
        PmuEventModifier::BpfAggregation => 'b',
    }
}

/// Writing a modifier and reading the character back is the identity, and a
/// modifier's character is always in the modifier alphabet.
pub proof fn lemma_modifier_char_bijection()
    ensures
        forall|c: char| is_modifier_char(c) ==> char_of_modifier(#[trigger] modifier_of_char(c)) == c,
        forall|m: PmuEventModifier| is_modifier_char(#[trigger] char_of_modifier(m)),
        forall|m: PmuEventModifier| modifier_of_char(#[trigger] char_of_modifier(m)) == m,
{
}

pub fn exec_is_modifier_char(c: char) -> (r: bool)
    ensures
        r == is_modifier_char(c),
{
    c == 'u' || c == 'k' || c == 'h' || c == 'I' || c == 'G' || c == 'H' || c == 'p' || c == 'P'
        || c == 'S' || c == 'D' || c == 'W' || c == 'e' || c == 'b'
}

pub fn exec_modifier_of_char(c: char) -> (m: PmuEventModifier)
    requires
        is_modifier_char(c),
    ensures
        m == modifier_of_char(c),
{
    if c == 'u' {
        PmuEventModifier::UserSpaceCounting
    } else if c == 'k' {
        PmuEventModifier::KernelCounting
    } else if c == 'h' {
        PmuEventModifier::HypervisorCounting
    } else if c == 'I' {
        PmuEventModifier::NonIdleCounting
    } else if c == 'G' {
        PmuEventModifier::GuestCounting
    } else if c == 'H' {
        PmuEventModifier::HostCounting
    } else if c == 'p' {
        PmuEventModifier::PreciseLevel
    } else if c == 'P' {
        PmuEventModifier::UseMaxPreciseLevel
    } else if c == 'S' {
        PmuEventModifier::ReadSampleValue
    } else if c == 'D' {
        PmuEventModifier::Pin
    } else if c == 'W' {
        PmuEventModifier::GroupWeak
    } else if c == 'e' {
        PmuEventModifier::GroupExclusive
    } else {
        PmuEventModifier::BpfAggregation
    }
}

pub fn exec_char_of_modifier(m: PmuEventModifier) -> (c: char)
    ensures
        c == char_of_modifier(m),
{
    match m {
        PmuEventModifier::UserSpaceCounting => 'u',
        PmuEventModifier::KernelCounting => 'k',
        PmuEventModifier::HypervisorCounting => 'h',
        PmuEventModifier::NonIdleCounting => 'I',
        PmuEventModifier::GuestCounting => 'G',
        PmuEventModifier::HostCounting => 'H',
        PmuEventModifier::PreciseLevel => 'p',
        PmuEventModifier::UseMaxPreciseLevel => 'P',
        PmuEventModifier::ReadSampleValue => 'S',
        PmuEventModifier::Pin => 'D',
        PmuEventModifier::GroupWeak => 'W',
        PmuEventModifier::GroupExclusive => 'e',
        PmuEventModifier::BpfAggregation => 'b',
    }
}

/// A named hardware/software/PMU event plus its modifiers.
#[derive(Debug, PartialEq)]
pub struct SymbolicEvent {
    pub name: String,
    pub modifier: Vec<PmuEventModifier>,
}

/// A kernel tracepoint reference `category:name` plus its modifiers.
#[derive(Debug, PartialEq)]
pub struct TracepointEvent {
    pub category: String,
    pub name: String,
    pub modifier: Vec<PmuEventModifier>,
}

/// A raw hardware event code plus its modifiers.
#[derive(Debug, PartialEq)]
pub struct RawEvent {
    pub value: u64,
    pub modifier: Vec<PmuEventModifier>,
}

/// One parsed event: symbolic, tracepoint, raw, or an ordered group.  The
/// grammar for building a group from comma-separated specifiers lives with
/// the callers; only the shape is defined here.
#[derive(Debug, PartialEq)]
pub enum PmuEvent {
    SymbolicEvent(SymbolicEvent),
    TracepointEvent(TracepointEvent),
    GroupedEvent(Vec<PmuEvent>),
    RawEvent(RawEvent),
}

/// Mathematical value of a `PmuEvent`: strings become character sequences.
/// A group keeps its members as they are: the grammar that builds groups is
/// external to this crate, and nothing here looks inside one.
pub enum PmuEventV {
    Symbolic { name: Seq<char>, modifier: Seq<PmuEventModifier> },
    Tracepoint { category: Seq<char>, name: Seq<char>, modifier: Seq<PmuEventModifier> },
    Grouped { events: Seq<PmuEvent> },
    Raw { value: u64, modifier: Seq<PmuEventModifier> },
}

impl View for SymbolicEvent {
    type V = PmuEventV;

    open spec fn view(&self) -> PmuEventV {
        PmuEventV::Symbolic { name: self.name@, modifier: self.modifier@ }
    }
}

impl View for TracepointEvent {
    type V = PmuEventV;

    open spec fn view(&self) -> PmuEventV {
        PmuEventV::Tracepoint {
            category: self.category@,
            name: self.name@,
            modifier: self.modifier@,
        }
    }
}

impl View for RawEvent {
    type V = PmuEventV;

    open spec fn view(&self) -> PmuEventV {
        PmuEventV::Raw { value: self.value, modifier: self.modifier@ }
    }
}

impl View for PmuEvent {
    type V = PmuEventV;

    open spec fn view(&self) -> PmuEventV {
        match self {
            PmuEvent::SymbolicEvent(e) => e@,
            PmuEvent::TracepointEvent(e) => e@,
            PmuEvent::RawEvent(e) => e@,
            PmuEvent::GroupedEvent(es) => PmuEventV::Grouped { events: es@ },
        }
    }
}

} // verus!
