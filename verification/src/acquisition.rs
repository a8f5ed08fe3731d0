//! What an acquisition worker decides between reading a controller and
//! sending an event: the design that it reports, the calibration that it
//! uses, which reports carry frames, and how a raw frame is centred and
//! mirrored.
//!
//! Scaling a centred reading to physical units is floating-point work and
//! is left to the worker.

use vstd::prelude::*;
use vstd::string::*;
use crate::events::{JoyconDesign, JoyconDesignType};

verus! {

/// Identifier of the input reports that carry inertial frames.
pub const IMU_REPORT_ID: u8 = 48;

/// The kinds of controller.
#[derive(Clone, Copy, Debug, PartialEq, Eq, Structural)]
pub enum ControllerKind {
    JoyConL,
    JoyConR,
    ProCon,
}

impl ControllerKind {
    /// The side of the controller. A right controller is `Right`; every
    /// other kind counts as `Left`.
    pub open spec fn side(self) -> JoyconDesignType {
        match self {
            ControllerKind::JoyConR => JoyconDesignType::Right,
            _ => JoyconDesignType::Left,
        }
    }

    /// Whether the frames of the controller are mirrored.
    pub open spec fn mirrored(self) -> bool {
        self == ControllerKind::JoyConR
    }

    /// The side of the controller.
    pub fn design_type(self) -> (side: JoyconDesignType)
        ensures
            side == self.side(),
    {
        match self {
            ControllerKind::JoyConL => JoyconDesignType::Left,
            ControllerKind::ProCon => JoyconDesignType::Left,
            ControllerKind::JoyConR => JoyconDesignType::Right,
        }
    }
}

/// The sixteen hexadecimal digits, in lower case.
pub open spec fn hex_digits() -> Seq<char> {
    "0123456789abcdef"@
}

/// The two hexadecimal digits of a byte.
pub open spec fn hex_pair(byte: u8) -> Seq<char> {
    seq![hex_digits()[byte as int / 16], hex_digits()[byte as int % 16]]
}

/// A colour as text: `#`, then red, green and blue in two hexadecimal digits
/// each.
pub open spec fn color_text(body: [u8; 3]) -> Seq<char> {
    seq!['#'] + hex_pair(body[0]) + hex_pair(body[1]) + hex_pair(body[2])
}

/// Appends the two hexadecimal digits of `byte` to `text`.
fn push_hex_pair(text: &mut String, byte: u8)
    ensures
        final(text)@ == old(text)@ + hex_pair(byte),
{
    let digits = "0123456789abcdef";
    proof {
        reveal_strlit("0123456789abcdef");
    }
    let high: usize = (byte / 16) as usize;
    let low: usize = (byte % 16) as usize;
    text.append(digits.substring_ascii(high, high + 1));
    text.append(digits.substring_ascii(low, low + 1));
    assert(text@ =~= old(text)@ + hex_pair(byte));
}

/// Writes the body colour of a controller as text.
pub fn design_color(body: [u8; 3]) -> (color: String)
    ensures
        color@ == color_text(body),
{
    let mut color = "#".to_owned();
    proof {
        reveal_strlit("#");
    }
    push_hex_pair(&mut color, body[0]);
    push_hex_pair(&mut color, body[1]);
    push_hex_pair(&mut color, body[2]);
    assert(color@ =~= color_text(body));
    color
}

/// The design that a worker reports for a controller.
pub fn design_of(kind: ControllerKind, body: [u8; 3]) -> (design: JoyconDesign)
    ensures
        design.color@ == color_text(body),
        design.design_type == kind.side(),
{
    JoyconDesign { color: design_color(body), design_type: kind.design_type() }
}

/// A colour text has seven characters, and those after the `#` are
/// hexadecimal digits in lower case.
pub proof fn color_text_shape(body: [u8; 3])
    ensures
        color_text(body).len() == 7,
        color_text(body)[0] == '#',
        forall|i: int|
            1 <= i < 7 ==> {
                let c = #[trigger] color_text(body)[i];
                ('0' <= c <= '9') || ('a' <= c <= 'f')
            },
{
    reveal_strlit("0123456789abcdef");
    let digits = hex_digits();
    assert forall|n: int| 0 <= n < 16 implies ('0' <= #[trigger] digits[n] <= '9') || ('a'
        <= digits[n] <= 'f') by {
        if n == 0 {
        } else if n == 1 {
        } else if n == 2 {
        } else if n == 3 {
        } else if n == 4 {
        } else if n == 5 {
        } else if n == 6 {
        } else if n == 7 {
        } else if n == 8 {
        } else if n == 9 {
        } else if n == 10 {
        } else if n == 11 {
        } else if n == 12 {
        } else if n == 13 {
        } else if n == 14 {
        } else {
        }
    }
    let text = color_text(body);
    assert forall|i: int| 1 <= i < 7 implies {
        let c = #[trigger] text[i];
        ('0' <= c <= '9') || ('a' <= c <= 'f')
    } by {
        let byte = body[(i - 1) / 2];
        if (i - 1) % 2 == 0 {
            assert(text[i] == digits[byte as int / 16]);
        } else {
            assert(text[i] == digits[byte as int % 16]);
        }
    }
}

/// The resting point of the sensors of a controller, where it is known.
#[derive(Clone, Copy, Debug, PartialEq, Eq)]
pub enum ImuCalibration {
    Available { acc_origin: [i16; 3], gyro_origin: [i16; 3] },
    Unavailable,
}

impl ImuCalibration {
    /// The resting point of the accelerometer and of the gyroscope: zero on
    /// every axis where the calibration is not available.
    pub open spec fn origins(self) -> ([i16; 3], [i16; 3]) {
        match self {
            ImuCalibration::Available { acc_origin, gyro_origin } => (acc_origin, gyro_origin),
            ImuCalibration::Unavailable => ([0i16, 0i16, 0i16], [0i16, 0i16, 0i16]),
        }
    }

    /// The calibration to use: the user's, or the factory's where the user
    /// has made none.
    pub fn effective(user: ImuCalibration, factory: ImuCalibration) -> (chosen: ImuCalibration)
        ensures
            chosen == if user is Unavailable {
                factory
            } else {
                user
            },
    {
        match user {
            ImuCalibration::Unavailable => factory,
            ImuCalibration::Available { .. } => user,
        }
    }

    /// The resting points to subtract from raw readings.
    pub fn resting_points(self) -> (origins: ([i16; 3], [i16; 3]))
        ensures
            origins == self.origins(),
    {
        match self {
            ImuCalibration::Available { acc_origin, gyro_origin } => (acc_origin, gyro_origin),
            ImuCalibration::Unavailable => ([0, 0, 0], [0, 0, 0]),
        }
    }
}

/// One inertial frame as the controller reports it, in sensor counts.
#[derive(Clone, Copy, Debug, PartialEq, Eq, Structural)]
pub struct RawFrame {
    pub accel_x: i16,
    pub accel_y: i16,
    pub accel_z: i16,
    pub gyro_1: i16,
    pub gyro_2: i16,
    pub gyro_3: i16,
}

/// One reading, centred: the counts above the resting point, and whether
/// the worker is to flip the sign after scaling.
#[derive(Clone, Copy, Debug, PartialEq, Eq, Structural)]
pub struct Reading {
    pub counts: i32,
    pub negated: bool,
}

/// One inertial frame, centred and marked for mirroring.
#[derive(Clone, Copy, Debug, PartialEq, Eq, Structural)]
pub struct CentredFrame {
    pub accel_x: Reading,
    pub accel_y: Reading,
    pub accel_z: Reading,
    pub gyro_x: Reading,
    pub gyro_y: Reading,
    pub gyro_z: Reading,
}

/// The raw reading less its resting point. The difference of two 16-bit
/// numbers always fits.
pub open spec fn centred(raw: i16, origin: i16, negated: bool) -> Reading {
    Reading { counts: (raw - origin) as i32, negated }
}

/// A frame, centred on the resting points. On a mirrored controller the y
/// and z axes of both sensors are negated; the x axes never are.
pub open spec fn centred_frame(frame: RawFrame, calibration: ImuCalibration, kind: ControllerKind)
    -> CentredFrame {
    let (acc, gyro) = calibration.origins();
    let flip = kind.mirrored();
    CentredFrame {
        accel_x: centred(frame.accel_x, acc[0], false),
        accel_y: centred(frame.accel_y, acc[1], flip),
        accel_z: centred(frame.accel_z, acc[2], flip),
        gyro_x: centred(frame.gyro_1, gyro[0], false),
        gyro_y: centred(frame.gyro_2, gyro[1], flip),
        gyro_z: centred(frame.gyro_3, gyro[2], flip),
    }
}

/// Centres one reading.
fn centre_reading(raw: i16, origin: i16, negated: bool) -> (reading: Reading)
    ensures
        reading == centred(raw, origin, negated),
{
    Reading { counts: raw as i32 - origin as i32, negated }
}

/// Centres one frame and marks the axes that a mirrored controller flips.
pub fn centre(frame: RawFrame, calibration: ImuCalibration, kind: ControllerKind) -> (out:
    CentredFrame)
    ensures
        out == centred_frame(frame, calibration, kind),
{
    let (acc, gyro) = calibration.resting_points();
    let flip = match kind {
        ControllerKind::JoyConR => true,
        _ => false,
    };
    CentredFrame {
        accel_x: centre_reading(frame.accel_x, acc[0], false),
        accel_y: centre_reading(frame.accel_y, acc[1], flip),
        accel_z: centre_reading(frame.accel_z, acc[2], flip),
        gyro_x: centre_reading(frame.gyro_1, gyro[0], false),
        gyro_y: centre_reading(frame.gyro_2, gyro[1], flip),
        gyro_z: centre_reading(frame.gyro_3, gyro[2], flip),
    }
}

/// How an attempt to read one input report ended.
#[derive(Debug, PartialEq, Eq)]
pub enum ReportOutcome {
    /// A report came, with this identifier and these frames, oldest first.
    Report { input_report_id: u8, frames: Vec<RawFrame> },
    /// The controller is gone.
    Disconnected,
    /// The read failed for another reason.
    Failed,
}

/// What the worker does after an attempt to read a report.
#[derive(Debug, PartialEq, Eq)]
pub enum ListenStep {
    /// Scale these frames and send them on as one sample.
    Forward { frames: Vec<CentredFrame> },
    /// Read the next report.
    Skip,
    /// Stop listening to this controller.
    Stop,
}

/// The frames of a report, centred one by one.
pub open spec fn centred_frames(
    frames: Seq<RawFrame>,
    calibration: ImuCalibration,
    kind: ControllerKind,
) -> Seq<CentredFrame> {
    Seq::new(frames.len(), |i: int| centred_frame(frames[i], calibration, kind))
}

/// Decides what follows an attempt to read a report: the frames of a report
/// with the identifier `IMU_REPORT_ID` are forwarded, a lost controller ends
/// the listening, and anything else is passed over.
pub fn on_report(
    outcome: ReportOutcome,
    calibration: ImuCalibration,
    kind: ControllerKind,
) -> (step: ListenStep)
    ensures
        match outcome {
            ReportOutcome::Report { input_report_id, frames } => if input_report_id
                == IMU_REPORT_ID {
                step matches ListenStep::Forward { frames: sent } && sent@ == centred_frames(
                    frames@,
                    calibration,
                    kind,
                )
            } else {
                step == ListenStep::Skip
            },
            ReportOutcome::Disconnected => step == ListenStep::Stop,
            ReportOutcome::Failed => step == ListenStep::Skip,
        },
{
    match outcome {
        ReportOutcome::Report { input_report_id, frames } => {
            if input_report_id == IMU_REPORT_ID {
                let mut sent: Vec<CentredFrame> = Vec::new();
                let mut at: usize = 0;
                while at < frames.len()
                    invariant
                        at <= frames.len(),
                        sent@.len() == at,
                        forall|i: int|
                            0 <= i < at ==> #[trigger] sent@[i] == centred_frame(
                                frames@[i],
                                calibration,
                                kind,
                            ),
                    decreases frames.len() - at,
                {
                    sent.push(centre(frames[at], calibration, kind));
                    at += 1;
                }
                assert(sent@ =~= centred_frames(frames@, calibration, kind));
                ListenStep::Forward { frames: sent }
            } else {
                ListenStep::Skip
            }
        },
        ReportOutcome::Disconnected => ListenStep::Stop,
        ReportOutcome::Failed => ListenStep::Skip,
    }
}

} // verus!
