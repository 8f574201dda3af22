//! The fixed 47-byte packet layout and what is derived from it.

use crate::clock::duration_of_millis;
use crate::ratio::Ratio;
use crate::wire::{le_u16, read_u16_le};
use core::time::Duration;
use vstd::prelude::*;

verus! {

/// Length of one packet on the wire, checksum included.
pub const PKG_SIZE: usize = 47;

/// Number of measurement points in one packet.
pub const POINTS_PER_PACKET: usize = 12;

/// Length of one measurement point on the wire.
pub const POINT_SIZE: usize = 3;

/// A full turn, in hundredths of a degree.
pub const FULL_TURN: u32 = 36000;

/// Half a turn, in hundredths of a degree.
pub const HALF_TURN: u32 = 18000;

/// Number of equal steps between the first and the last point of a packet.
pub const STEPS_PER_PACKET: u32 = 11;

/// Denominator of interpolated angles: hundredths of a degree, each split
/// into one part per step.
pub const ANGLE_DEN: u32 = 1100;

/// The shorter arc between two azimuths, all in hundredths of a degree: the
/// distance `|end - start|` taken modulo a full turn, and its complement when
/// that exceeds half a turn.
pub open spec fn shorter_arc(start: int, end: int) -> int {
    let d = (if end >= start {
        end - start
    } else {
        start - end
    }) % (FULL_TURN as int);
    if d > HALF_TURN {
        FULL_TURN - d
    } else {
        d
    }
}

/// One laser sample.
#[derive(Clone, Copy, Debug, PartialEq, Eq)]
pub struct Ld19Point {
    /// Distance in millimetres.
    pub distance: u16,
    /// Received signal strength, 0 to 255.
    pub intensity: u8,
}

impl Ld19Point {
    /// The point stored in the first three bytes of `bytes`.
    pub open spec fn parse(bytes: Seq<u8>) -> Ld19Point {
        Ld19Point { distance: le_u16(bytes[0], bytes[1]), intensity: bytes[2] }
    }

    /// Decodes a point from the first three bytes of `bytes`.
    pub fn from_bytes(bytes: &[u8]) -> (point: Ld19Point)
        requires
            bytes@.len() >= POINT_SIZE,
        ensures
            point == Ld19Point::parse(bytes@),
    {
        Ld19Point { distance: read_u16_le(bytes), intensity: bytes[2] }
    }

    /// The distance in metres: millimetres over 1000.
    pub fn distance_in_meters(&self) -> (meters: Ratio)
        ensures
            meters == (Ratio { num: self.distance as u32, den: 1000 }),
    {
        Ratio { num: self.distance as u32, den: 1000 }
    }

    /// The intensity as a fraction of its maximum, 255.
    pub fn normalized_intensity(&self) -> (intensity: Ratio)
        ensures
            intensity == (Ratio { num: self.intensity as u32, den: 255 }),
    {
        Ratio { num: self.intensity as u32, den: 255 }
    }
}

/// One scan burst: twelve points between a start and an end angle.
#[derive(Clone, Copy, Debug, PartialEq, Eq)]
pub struct Ld19Packet {
    pub header: u8,
    pub ver_len: u8,
    pub speed: u16,
    /// Azimuth of the first point, in hundredths of a degree.
    pub start_angle: u16,
    pub point: [Ld19Point; 12],
    /// Azimuth of the last point, in hundredths of a degree.
    pub end_angle: u16,
    /// Sensor-local clock in milliseconds; wraps.
    pub timestamp: u16,
    pub crc8: u8,
}

/// The `index`-th measurement point of the packet stored in `bytes`.
pub open spec fn point_at(bytes: Seq<u8>, index: int) -> Ld19Point {
    Ld19Point::parse(bytes.subrange(6 + 3 * index, 9 + 3 * index))
}

impl Ld19Packet {
    /// The packet stored in the first 47 bytes of `bytes`.
    pub open spec fn parse(bytes: Seq<u8>) -> Ld19Packet {
        Ld19Packet {
            header: bytes[0],
            ver_len: bytes[1],
            speed: le_u16(bytes[2], bytes[3]),
            start_angle: le_u16(bytes[4], bytes[5]),
            point: [
                point_at(bytes, 0),
                point_at(bytes, 1),
                point_at(bytes, 2),
                point_at(bytes, 3),
                point_at(bytes, 4),
                point_at(bytes, 5),
                point_at(bytes, 6),
                point_at(bytes, 7),
                point_at(bytes, 8),
                point_at(bytes, 9),
                point_at(bytes, 10),
                point_at(bytes, 11),
            ],
            end_angle: le_u16(bytes[42], bytes[43]),
            timestamp: le_u16(bytes[44], bytes[45]),
            crc8: bytes[46],
        }
    }

    /// Decodes a packet from the first 47 bytes of `bytes`. Nothing is
    /// validated here: the checksum is the caller's business.
    pub fn from_bytes(bytes: &[u8]) -> (packet: Ld19Packet)
        requires
            bytes@.len() >= PKG_SIZE,
        ensures
            packet == Ld19Packet::parse(bytes@),
    {
        Ld19Packet {
            header: bytes[0],
            ver_len: bytes[1],
            speed: read_u16_le(&bytes[2..4]),
            start_angle: read_u16_le(&bytes[4..6]),
            point: [
                Ld19Point::from_bytes(&bytes[6..9]),
                Ld19Point::from_bytes(&bytes[9..12]),
                Ld19Point::from_bytes(&bytes[12..15]),
                Ld19Point::from_bytes(&bytes[15..18]),
                Ld19Point::from_bytes(&bytes[18..21]),
                Ld19Point::from_bytes(&bytes[21..24]),
                Ld19Point::from_bytes(&bytes[24..27]),
                Ld19Point::from_bytes(&bytes[27..30]),
                Ld19Point::from_bytes(&bytes[30..33]),
                Ld19Point::from_bytes(&bytes[33..36]),
                Ld19Point::from_bytes(&bytes[36..39]),
                Ld19Point::from_bytes(&bytes[39..42]),
            ],
            end_angle: read_u16_le(&bytes[42..44]),
            timestamp: read_u16_le(&bytes[44..46]),
            crc8: bytes[46],
        }
    }

    /// The azimuth of the first point in degrees.
    pub fn start_angle_deg(&self) -> (angle: Ratio)
        ensures
            angle == (Ratio { num: self.start_angle as u32, den: 100 }),
    {
        Ratio { num: self.start_angle as u32, den: 100 }
    }

    /// The azimuth of the last point in degrees.
    pub fn end_angle_deg(&self) -> (angle: Ratio)
        ensures
            angle == (Ratio { num: self.end_angle as u32, den: 100 }),
    {
        Ratio { num: self.end_angle as u32, den: 100 }
    }

    /// The shorter arc spanned by the packet, in hundredths of a degree.
    pub open spec fn spec_delta_angle(self) -> int {
        shorter_arc(self.start_angle as int, self.end_angle as int)
    }

    /// The shorter arc spanned by the packet in degrees: never more than 180.
    pub fn delta_angle_deg(&self) -> (delta: Ratio)
        ensures
            delta == (Ratio { num: self.spec_delta_angle() as u32, den: 100 }),
            delta.num <= HALF_TURN,
    {
        let start = self.start_angle as u32;
        let end = self.end_angle as u32;
        let span = if end >= start {
            end - start
        } else {
            start - end
        };
        let d = span % FULL_TURN;
        if d > HALF_TURN {
            Ratio { num: FULL_TURN - d, den: 100 }
        } else {
            Ratio { num: d, den: 100 }
        }
    }

    /// The angular step between neighbouring points in degrees: the shorter
    /// arc split into eleven intervals.
    pub fn delta_angle_per_point_deg(&self) -> (step: Ratio)
        ensures
            step == (Ratio { num: self.spec_delta_angle() as u32, den: ANGLE_DEN }),
    {
        Ratio { num: self.delta_angle_deg().num, den: ANGLE_DEN }
    }

    /// The azimuth of point `index`, as a count of 1/1100 degree: the start
    /// angle plus `index` steps, taken modulo a full turn.
    ///
    /// In that unit the start angle is `11 * start_angle` and one step is the
    /// shorter arc in hundredths of a degree.
    pub open spec fn spec_point_angle(self, index: int) -> int {
        (STEPS_PER_PACKET * self.start_angle + index * self.spec_delta_angle()) % ((
        STEPS_PER_PACKET * FULL_TURN) as int)
    }

    /// The interpolated azimuth of point `index` in degrees.
    pub fn point_angle(&self, index: usize) -> (angle: Ratio)
        requires
            index < POINTS_PER_PACKET,
        ensures
            angle == (Ratio { num: self.spec_point_angle(index as int) as u32, den: ANGLE_DEN }),
            angle.num < STEPS_PER_PACKET * FULL_TURN,
    {
        let step = self.delta_angle_deg().num;
        let start = STEPS_PER_PACKET * (self.start_angle as u32);
        assert(index * step <= 11 * 18000) by (nonlinear_arith)
            requires
                index < 12,
                step <= 18000,
        ;
        let turned = start + (index as u32) * step;
        Ratio { num: turned % (STEPS_PER_PACKET * FULL_TURN), den: ANGLE_DEN }
    }

    /// The sensor's clock at the time of the packet.
    pub fn timestamp(&self) -> (time: Duration)
        ensures
            time == duration_of_millis(self.timestamp as u64),
    {
        Duration::from_millis(self.timestamp as u64)
    }

    /// Starts a fresh walk over the twelve points and their azimuths.
    pub fn iter_points(&self) -> (iter: Ld19PointIter<'_>)
        ensures
            iter.packet() == *self,
            iter.position() == 0,
    {
        Ld19PointIter { packet: self, index: 0 }
    }
}

/// A walk over the points of one packet, each with its interpolated azimuth.
pub struct Ld19PointIter<'a> {
    packet: &'a Ld19Packet,
    index: usize,
}

impl<'a> Ld19PointIter<'a> {
    /// The packet being walked.
    pub closed spec fn packet(&self) -> Ld19Packet {
        *self.packet
    }

    /// How many points have been handed out.
    pub closed spec fn position(&self) -> nat {
        self.index as nat
    }

    /// Hands out the next point with its azimuth in degrees, or `None` once
    /// all twelve are out.
    pub fn next(&mut self) -> (item: Option<(Ratio, &'a Ld19Point)>)
        ensures
            final(self).packet() == old(self).packet(),
            old(self).position() < POINTS_PER_PACKET ==> {
                &&& item matches Some((angle, point))
                &&& angle == (Ratio {
                    num: old(self).packet().spec_point_angle(old(self).position() as int) as u32,
                    den: ANGLE_DEN,
                })
                &&& *point == old(self).packet().point[old(self).position() as int]
                &&& final(self).position() == old(self).position() + 1
            },
            old(self).position() >= POINTS_PER_PACKET ==> {
                &&& item is None
                &&& final(self).position() == old(self).position()
            },
    {
        if self.index < POINTS_PER_PACKET {
            let angle = self.packet.point_angle(self.index);
            let point = &self.packet.point[self.index];
            self.index += 1;
            Some((angle, point))
        } else {
            None
        }
    }
}

} // verus!
