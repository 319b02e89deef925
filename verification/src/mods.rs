//! Gameplay modifier flags, encoded as a 32-bit set.

use vstd::prelude::*;

verus! {

/// No-fail.
pub const NF: u32 = 1 << 0;
/// Easy.
pub const EZ: u32 = 1 << 1;
/// Touch device.
pub const TD: u32 = 1 << 2;
/// Hidden.
pub const HD: u32 = 1 << 3;
/// Hard rock.
pub const HR: u32 = 1 << 4;
/// Double time.
pub const DT: u32 = 1 << 6;
/// Relax.
pub const RX: u32 = 1 << 7;
/// Half time.
pub const HT: u32 = 1 << 8;
/// Flashlight.
pub const FL: u32 = 1 << 10;
/// Spun out.
pub const SO: u32 = 1 << 12;
/// Autopilot.
pub const AP: u32 = 1 << 13;
/// Score v2.
pub const V2: u32 = 1 << 29;

/// Queries on a modifier bit set.
///
/// Implemented for `u32`, the wire encoding of a mod combination.
pub trait Mods: Copy {
    fn change_speed(self) -> bool;
    fn change_map(self) -> bool;
    fn nf(self) -> bool;
    fn ez(self) -> bool;
    fn td(self) -> bool;
    fn hd(self) -> bool;
    fn hr(self) -> bool;
    fn dt(self) -> bool;
    fn rx(self) -> bool;
    fn ht(self) -> bool;
    fn fl(self) -> bool;
    fn so(self) -> bool;
    fn ap(self) -> bool;
    fn v2(self) -> bool;
}

impl Mods for u32 {
    /// True when the clock rate differs from 1.0 (half time or double time).
    fn change_speed(self) -> (r: bool)
        ensures
            r == (self & (HT | DT) != 0),
    {
        self & (HT | DT) > 0
    }

    /// True when any modifier changes the map's difficulty settings.
    fn change_map(self) -> (r: bool)
        ensures
            r == (self & (HT | DT | HR | EZ) != 0),
    {
        self & (HT | DT | HR | EZ) > 0
    }

    fn nf(self) -> (r: bool)
        ensures
            r == (self & NF != 0),
    {
        self & NF > 0
    }

    fn ez(self) -> (r: bool)
        ensures
            r == (self & EZ != 0),
    {
        self & EZ > 0
    }

    fn td(self) -> (r: bool)
        ensures
            r == (self & TD != 0),
    {
        self & TD > 0
    }

    fn hd(self) -> (r: bool)
        ensures
            r == (self & HD != 0),
    {
        self & HD > 0
    }

    fn hr(self) -> (r: bool)
        ensures
            r == (self & HR != 0),
    {
        self & HR > 0
    }

    fn dt(self) -> (r: bool)
        ensures
            r == (self & DT != 0),
    {
        self & DT > 0
    }

    fn rx(self) -> (r: bool)
        ensures
            r == (self & RX != 0),
    {
        self & RX > 0
    }

    fn ht(self) -> (r: bool)
        ensures
            r == (self & HT != 0),
    {
        self & HT > 0
    }

    fn fl(self) -> (r: bool)
        ensures
            r == (self & FL != 0),
    {
        self & FL > 0
    }

    fn so(self) -> (r: bool)
        ensures
            r == (self & SO != 0),
    {
        self & SO > 0
    }

    fn ap(self) -> (r: bool)
        ensures
            r == (self & AP != 0),
    {
        self & AP > 0
    }

    fn v2(self) -> (r: bool)
        ensures
            r == (self & V2 != 0),
    {
        self & V2 > 0
    }
}

} // verus!
