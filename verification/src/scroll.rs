//! Scroll events, brought into the shape in which a client receives them.
//!
//! A device reports, for each axis, a continuous amount, a number of
//! discrete steps, or both. A client is told a continuous amount in any
//! case: where the device gave only steps, each step counts as
//! [`PIXELS_PER_STEP`] pixels.

use vstd::prelude::*;
use crate::geometry::UNITS_PER_PIXEL;

verus! {

/// The scroll distance, in pixels, that one discrete step stands for.
pub const PIXELS_PER_STEP: i64 = 3;

/// What kind of device a scroll event comes from.
#[derive(Clone, Copy, Debug, PartialEq, Eq, Structural)]
pub enum AxisSource {
    Continuous,
    Finger,
    Wheel,
    WheelTilt,
}

/// What kind of device a client is told a scroll event comes from.
#[derive(Clone, Copy, Debug, PartialEq, Eq, Structural)]
pub enum FrameSource {
    Continuous,
    Finger,
    Wheel,
}

/// What a device reports for one axis: a continuous amount in sub-pixel
/// units, a number of discrete steps, or both.
#[derive(Clone, Copy, Debug, PartialEq, Eq, Structural)]
pub struct AxisInput {
    pub amount: Option<i64>,
    pub discrete: Option<i32>,
}

/// What a client is told about one axis.
#[derive(Clone, Copy, Debug, PartialEq, Eq, Structural)]
pub struct AxisReport {
    /// The scroll distance in sub-pixel units, where there is one.
    pub value: Option<i64>,
    /// The number of discrete steps, where the device gave one and the
    /// distance is not zero.
    pub discrete: Option<i32>,
    /// Whether scrolling along this axis has come to an end.
    pub stop: bool,
}

/// One scroll event as a client receives it.
#[derive(Clone, Copy, Debug, PartialEq, Eq, Structural)]
pub struct AxisFrame {
    pub time: u32,
    pub source: FrameSource,
    pub horizontal: AxisReport,
    pub vertical: AxisReport,
}

/// The source that a client is told: a tilted wheel counts as a wheel.
pub open spec fn spec_frame_source(source: AxisSource) -> FrameSource {
    match source {
        AxisSource::Continuous => FrameSource::Continuous,
        AxisSource::Finger => FrameSource::Finger,
        AxisSource::Wheel => FrameSource::Wheel,
        AxisSource::WheelTilt => FrameSource::Wheel,
    }
}

/// The scroll distance along one axis in sub-pixel units: the continuous
/// amount where the device gave one, else the distance that its discrete
/// steps stand for, else nothing.
pub open spec fn spec_amount(input: AxisInput) -> int {
    match input.amount {
        Some(amount) => amount as int,
        None => match input.discrete {
            Some(steps) => steps * PIXELS_PER_STEP * UNITS_PER_PIXEL,
            None => 0,
        },
    }
}

/// What a client is told about one axis: the distance and the steps where
/// the distance is not zero, and the end of scrolling where it is zero and a
/// finger scrolls.
pub open spec fn spec_report(source: FrameSource, input: AxisInput) -> AxisReport {
    if spec_amount(input) != 0 {
        AxisReport { value: Some(spec_amount(input) as i64), discrete: input.discrete, stop: false }
    } else {
        AxisReport { value: None, discrete: None, stop: source == FrameSource::Finger }
    }
}

/// The scroll event that a client receives for what a device reported.
pub open spec fn spec_axis_frame(
    time: u32,
    source: AxisSource,
    horizontal: AxisInput,
    vertical: AxisInput,
) -> AxisFrame {
    AxisFrame {
        time,
        source: spec_frame_source(source),
        horizontal: spec_report(spec_frame_source(source), horizontal),
        vertical: spec_report(spec_frame_source(source), vertical),
    }
}

/// The source that a client is told.
pub fn frame_source(source: AxisSource) -> (told: FrameSource)
    ensures
        told == spec_frame_source(source),
{
    match source {
        AxisSource::Continuous => FrameSource::Continuous,
        AxisSource::Finger => FrameSource::Finger,
        AxisSource::Wheel => FrameSource::Wheel,
        AxisSource::WheelTilt => FrameSource::Wheel,
    }
}

/// The scroll distance along one axis in sub-pixel units.
pub fn amount(input: AxisInput) -> (distance: i64)
    ensures
        distance == spec_amount(input),
{
    match input.amount {
        Some(amount) => amount,
        None => match input.discrete {
            Some(steps) => steps as i64 * PIXELS_PER_STEP * UNITS_PER_PIXEL,
            None => 0,
        },
    }
}

/// What a client is told about one axis.
pub fn report(source: FrameSource, input: AxisInput) -> (told: AxisReport)
    ensures
        told == spec_report(source, input),
{
    let distance = amount(input);
    if distance != 0 {
        AxisReport { value: Some(distance), discrete: input.discrete, stop: false }
    } else {
        AxisReport { value: None, discrete: None, stop: matches!(source, FrameSource::Finger) }
    }
}

/// Builds the scroll event that a client receives.
pub fn axis_frame(time: u32, source: AxisSource, horizontal: AxisInput, vertical: AxisInput) -> (frame:
    AxisFrame)
    ensures
        frame == spec_axis_frame(time, source, horizontal, vertical),
{
    let told = frame_source(source);
    AxisFrame {
        time,
        source: told,
        horizontal: report(told, horizontal),
        vertical: report(told, vertical),
    }
}

/// An axis is reported as stopped exactly where a finger scrolls and the
/// distance is zero, and it carries a value exactly where the distance is
/// not zero; steps alone yield three pixels each.
pub proof fn lemma_report(source: AxisSource, input: AxisInput)
    ensures
        spec_report(spec_frame_source(source), input).stop <==> (source == AxisSource::Finger
            && spec_amount(input) == 0),
        spec_report(spec_frame_source(source), input).value.is_some() <==> spec_amount(input) != 0,
        input.amount.is_none() && input.discrete.is_some() ==> spec_amount(input)
            == input.discrete.unwrap() * 3 * 256,
{
}

} // verus!
