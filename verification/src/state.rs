//! Brew phases and the choice of the sensor that feeds the controller.
use vstd::prelude::*;

verus! {

/// Brewing process phase.
#[derive(Copy, Clone, Debug, PartialEq, Eq, Hash)]
pub enum BrewPhase {
    Idle,
    Prep,
    Mashing,
    Lautering,
    Boiling,
    Cooling,
    Done,
}

/// Which sensor reading feeds the controller.
#[derive(Copy, Clone, Debug, PartialEq, Eq, Hash)]
pub enum ControlSource {
    Top,
    Bottom,
    Average,
}

/// A brew is under way in every phase but `Idle` and `Done`.
pub open spec fn brewing(phase: BrewPhase) -> bool {
    !(phase is Idle || phase is Done)
}

/// Whether a brew is under way in `phase`.
pub fn is_brewing(phase: BrewPhase) -> (r: bool)
    ensures
        r == brewing(phase),
{
    match phase {
        BrewPhase::Idle | BrewPhase::Done => false,
        _ => true,
    }
}

/// The brewing phases: a brew is under way from preparation through mashing,
/// lautering and boiling to cooling, and not while idle or once done.
pub proof fn law_brewing_phases()
    ensures
        brewing(BrewPhase::Prep),
        brewing(BrewPhase::Mashing),
        brewing(BrewPhase::Lautering),
        brewing(BrewPhase::Boiling),
        brewing(BrewPhase::Cooling),
        !brewing(BrewPhase::Idle),
        !brewing(BrewPhase::Done),
{
}

} // verus!

verus! {

/// The readings that the controller's measurement is made of.
#[derive(Copy, Clone, Debug, PartialEq, Eq)]
pub enum ControlReading<T> {
    /// No reading is available.
    Missing,
    /// The measurement is this reading.
    Single(T),
    /// The measurement is the average of the top and bottom readings.
    Pair(T, T),
}

/// Which readings feed the controller: the top or bottom one as configured,
/// or for `Average` both when both are there, else the one that is.
pub open spec fn control_reading_of<T>(
    source: ControlSource,
    top: Option<T>,
    bottom: Option<T>,
) -> ControlReading<T> {
    match source {
        ControlSource::Top => match top {
            Some(t) => ControlReading::Single(t),
            None => ControlReading::Missing,
        },
        ControlSource::Bottom => match bottom {
            Some(b) => ControlReading::Single(b),
            None => ControlReading::Missing,
        },
        ControlSource::Average => match (top, bottom) {
            (Some(t), Some(b)) => ControlReading::Pair(t, b),
            (Some(t), None) => ControlReading::Single(t),
            (None, Some(b)) => ControlReading::Single(b),
            (None, None) => ControlReading::Missing,
        },
    }
}

/// Resolves the controller's readings from the configured source.
pub fn control_reading<T: Copy>(source: ControlSource, top: Option<T>, bottom: Option<T>) -> (r:
    ControlReading<T>)
    ensures
        r == control_reading_of(source, top, bottom),
{
    match source {
        ControlSource::Top => match top {
            Some(t) => ControlReading::Single(t),
            None => ControlReading::Missing,
        },
        ControlSource::Bottom => match bottom {
            Some(b) => ControlReading::Single(b),
            None => ControlReading::Missing,
        },
        ControlSource::Average => match (top, bottom) {
            (Some(t), Some(b)) => ControlReading::Pair(t, b),
            (Some(t), None) => ControlReading::Single(t),
            (None, Some(b)) => ControlReading::Single(b),
            (None, None) => ControlReading::Missing,
        },
    }
}

/// The controller has a measurement exactly when a configured sensor has a
/// reading: for `Average`, when either has one.
pub proof fn law_measurement_available<T>(source: ControlSource, top: Option<T>, bottom: Option<T>)
    ensures
        control_reading_of(source, top, bottom) is Missing <==> match source {
            ControlSource::Top => top is None,
            ControlSource::Bottom => bottom is None,
            ControlSource::Average => top is None && bottom is None,
        },
{
}


/// The configured sensor decides: with `Top` the measurement is the top
/// reading whenever there is one, whatever the bottom sensor reads, and with
/// `Bottom` the bottom reading whenever there is one, whatever the top
/// sensor reads; with `Average` both readings are used when both are there,
/// and the one that is there otherwise.
pub proof fn law_source_selects_reading<T>(top: Option<T>, bottom: Option<T>, t: T, b: T)
    ensures
        control_reading_of(ControlSource::Top, Some(t), bottom) == ControlReading::Single(t),
        control_reading_of(ControlSource::Bottom, top, Some(b)) == ControlReading::Single(b),
        control_reading_of(ControlSource::Top, None::<T>, bottom) == ControlReading::<T>::Missing,
        control_reading_of(ControlSource::Bottom, top, None::<T>) == ControlReading::<T>::Missing,
        control_reading_of(ControlSource::Average, Some(t), Some(b)) == ControlReading::Pair(t, b),
        control_reading_of(ControlSource::Average, Some(t), None::<T>) == ControlReading::Single(t),
        control_reading_of(ControlSource::Average, None::<T>, Some(b)) == ControlReading::Single(b),
        control_reading_of(ControlSource::Average, None::<T>, None::<T>)
            == ControlReading::<T>::Missing,
{
}

} // verus!
