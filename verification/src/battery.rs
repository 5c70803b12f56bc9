//! Battery information: the remaining-time reading and the decisions of
//! its watcher callbacks.
//!
//! The host reports charging and discharging times as possibly-absent
//! quantities (absent when the battery is full, the device is not
//! battery-powered, or the information is unavailable).  The host glue
//! converts a present reading to whole milliseconds and hands it in as
//! `Some`; everything the watchers decide from there is verified here.

use vstd::prelude::*;

verus! {

/// Amount of time remaining until the battery hits a battery stage
/// fully, in milliseconds.
#[derive(Debug, Clone, Copy, PartialEq, Eq)]
pub enum BatteryTime {
    /// Milliseconds until the battery is fully charged, or 0 if it
    /// already is.
    Charging(u64),
    /// Milliseconds until the battery is fully discharged.
    Discharging(u64),
}

/// The battery-time reading derived from the two host quantities: a
/// present charging time wins, a present discharging time comes next,
/// and with neither present there is no reading.
pub fn battery_time(charging: Option<u64>, discharging: Option<u64>) -> (r: Option<BatteryTime>)
    ensures
        charging is Some ==> r == Some(BatteryTime::Charging(charging->0)),
        charging is None && discharging is Some ==> r == Some(
            BatteryTime::Discharging(discharging->0),
        ),
        charging is None && discharging is None ==> r is None,
{
    match charging {
        Some(c) => Some(BatteryTime::Charging(c)),
        None => match discharging {
            Some(d) => Some(BatteryTime::Discharging(d)),
            None => None,
        },
    }
}

/// Decision of the watcher callback for a charging-time change: an
/// absent reading sends nothing.
pub fn charging_event(millis: Option<u64>) -> (r: Option<BatteryTime>)
    ensures
        millis is Some ==> r == Some(BatteryTime::Charging(millis->0)),
        millis is None ==> r is None,
{
    match millis {
        Some(m) => Some(BatteryTime::Charging(m)),
        None => None,
    }
}

/// Decision of the watcher callback for a discharging-time change: an
/// absent reading sends nothing.
pub fn discharging_event(millis: Option<u64>) -> (r: Option<BatteryTime>)
    ensures
        millis is Some ==> r == Some(BatteryTime::Discharging(millis->0)),
        millis is None ==> r is None,
{
    match millis {
        Some(m) => Some(BatteryTime::Discharging(m)),
        None => None,
    }
}

} // verus!
