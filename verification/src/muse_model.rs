//! The latest readings of an EEG headband and the short-lived signs that
//! are shown after a blink, a jaw clench or a lost contact.

use vstd::prelude::*;

verus! {

/// For how many ticks a lost contact with the forehead is shown.
pub const FOREHEAD_COUNTDOWN: i32 = 30;

/// For how many ticks a blink is shown.
pub const BLINK_COUNTDOWN: i32 = 30;

/// For how many ticks a jaw clench is shown.
pub const CLENCH_COUNTDOWN: i32 = 30;

/// The ways in which the readings can be put on the screen.
#[derive(Clone, Copy, Debug, PartialEq, Eq, Structural)]
pub enum DisplayType {
    /// One group of circles for each electrode.
    FourCircles,
    /// Circles that grow with drowsiness.
    Dowsiness,
    /// A circle that grows with valence.
    Emotion,
    /// Every derived value of every electrode, for diagnosis.
    EegValues,
}

/// What a message from the headband reports. Readings are millionths; those
/// with four parts have one part for each electrode.
#[derive(Clone, Copy, Debug, PartialEq, Eq, Structural)]
pub enum MuseMessageType {
    /// Acceleration along three axes.
    Accelerometer { x: i64, y: i64, z: i64 },
    /// Turning rate about three axes.
    Gyro { x: i64, y: i64, z: i64 },
    /// How well each electrode touches the skin.
    Horseshoe { a: i64, b: i64, c: i64, d: i64 },
    /// The raw signal.
    Eeg { a: i64, b: i64, c: i64, d: i64 },
    /// Strength of the alpha band.
    Alpha { a: i64, b: i64, c: i64, d: i64 },
    /// Strength of the beta band.
    Beta { a: i64, b: i64, c: i64, d: i64 },
    /// Strength of the gamma band.
    Gamma { a: i64, b: i64, c: i64, d: i64 },
    /// Strength of the delta band.
    Delta { a: i64, b: i64, c: i64, d: i64 },
    /// Strength of the theta band.
    Theta { a: i64, b: i64, c: i64, d: i64 },
    /// Charge of the battery.
    Batt { batt: i32 },
    /// Whether the headband touches the forehead.
    TouchingForehead { touch: bool },
    /// Whether the wearer blinks.
    Blink { blink: bool },
    /// Whether the wearer clenches the jaw.
    JawClench { clench: bool },
}

/// One message from the headband.
#[derive(Clone, Copy, Debug, PartialEq, Eq, Structural)]
pub struct MuseMessage {
    /// When the message was received, in millionths of a second.
    pub time: i64,
    /// What the message reports.
    pub muse_message_type: MuseMessageType,
}

/// The most recent readings of the headband.
#[derive(Clone, Copy, Debug, PartialEq, Eq)]
pub struct MuseModel {
    /// Acceleration along three axes.
    pub accelerometer: [i64; 3],
    /// Turning rate about three axes.
    pub gyro: [i64; 3],
    /// Strength of the alpha band at each electrode.
    pub alpha: [i64; 4],
    /// Strength of the beta band at each electrode.
    pub beta: [i64; 4],
    /// Strength of the gamma band at each electrode.
    pub gamma: [i64; 4],
    /// Strength of the delta band at each electrode.
    pub delta: [i64; 4],
    /// Strength of the theta band at each electrode.
    pub theta: [i64; 4],
    /// Charge of the battery.
    pub batt: i32,
    /// How well each electrode touches the skin.
    pub horseshoe: [i64; 4],
    /// Ticks for which the last blink is still shown.
    pub blink_countdown: i32,
    /// Ticks for which the last lost contact is still shown.
    pub touching_forehead_countdown: i32,
    /// Ticks for which the last jaw clench is still shown.
    pub jaw_clench_countdown: i32,
    /// How large the circles are drawn, in millionths.
    pub scale: i64,
    /// How the readings are put on the screen.
    pub display_type: DisplayType,
}

/// One tick less, and never less than none.
pub open spec fn ticked(countdown: i32) -> i32 {
    if countdown > 0 {
        (countdown - 1) as i32
    } else {
        countdown
    }
}

/// The mean of the readings of the four electrodes, rounded down.
pub open spec fn mean_of_four(values: [i64; 4]) -> int {
    (values[0] + values[1] + values[2] + values[3]) / 4
}

/// The mean of the readings of the four electrodes, rounded down.
pub fn average_from_four_electrodes(values: &[i64; 4]) -> (mean: i64)
    ensures
        mean == mean_of_four(*values),
{
    let sum: i128 = values[0] as i128 + values[1] as i128 + values[2] as i128 + values[3] as i128;
    if sum >= 0 {
        (sum / 4) as i64
    } else {
        let up: i128 = (3 - sum) / 4;
        (-up) as i64
    }
}

/// A model in which nothing has been received yet.
pub fn model() -> (m: MuseModel)
    ensures
        m == (MuseModel {
            accelerometer: [0, 0, 0],
            gyro: [0, 0, 0],
            alpha: [0, 0, 0, 0],
            beta: [0, 0, 0, 0],
            gamma: [0, 0, 0, 0],
            delta: [0, 0, 0, 0],
            theta: [0, 0, 0, 0],
            batt: 0,
            horseshoe: [0, 0, 0, 0],
            blink_countdown: 0,
            touching_forehead_countdown: 0,
            jaw_clench_countdown: 0,
            scale: 1_500_000,
            display_type: DisplayType::Emotion,
        }),
{
    MuseModel {
        accelerometer: [0, 0, 0],
        gyro: [0, 0, 0],
        alpha: [0, 0, 0, 0],
        beta: [0, 0, 0, 0],
        gamma: [0, 0, 0, 0],
        delta: [0, 0, 0, 0],
        theta: [0, 0, 0, 0],
        batt: 0,
        horseshoe: [0, 0, 0, 0],
        blink_countdown: 0,
        touching_forehead_countdown: 0,
        jaw_clench_countdown: 0,
        scale: 1_500_000,
        display_type: DisplayType::Emotion,
    }
}

impl MuseModel {
    /// The model after a report was taken in: a reading replaces the one of
    /// its kind, the raw signal is not kept, and a blink, a jaw clench or a
    /// lost contact starts its countdown afresh.
    pub open spec fn after(self, report: MuseMessageType) -> MuseModel {
        match report {
            MuseMessageType::Accelerometer { x, y, z } => MuseModel {
                accelerometer: [x, y, z],
                ..self
            },
            MuseMessageType::Gyro { x, y, z } => MuseModel { gyro: [x, y, z], ..self },
            MuseMessageType::Horseshoe { a, b, c, d } => MuseModel {
                horseshoe: [a, b, c, d],
                ..self
            },
            MuseMessageType::Eeg { a, b, c, d } => self,
            MuseMessageType::Alpha { a, b, c, d } => MuseModel { alpha: [a, b, c, d], ..self },
            MuseMessageType::Beta { a, b, c, d } => MuseModel { beta: [a, b, c, d], ..self },
            MuseMessageType::Gamma { a, b, c, d } => MuseModel { gamma: [a, b, c, d], ..self },
            MuseMessageType::Delta { a, b, c, d } => MuseModel { delta: [a, b, c, d], ..self },
            MuseMessageType::Theta { a, b, c, d } => MuseModel { theta: [a, b, c, d], ..self },
            MuseMessageType::Batt { batt } => MuseModel { batt, ..self },
            MuseMessageType::TouchingForehead { touch } => if touch {
                self
            } else {
                MuseModel { touching_forehead_countdown: FOREHEAD_COUNTDOWN, ..self }
            },
            MuseMessageType::Blink { blink } => if blink {
                MuseModel { blink_countdown: BLINK_COUNTDOWN, ..self }
            } else {
                self
            },
            MuseMessageType::JawClench { clench } => if clench {
                MuseModel { jaw_clench_countdown: CLENCH_COUNTDOWN, ..self }
            } else {
                self
            },
        }
    }

    /// The model one tick later.
    pub open spec fn ticked(self) -> MuseModel {
        MuseModel {
            blink_countdown: ticked(self.blink_countdown),
            jaw_clench_countdown: ticked(self.jaw_clench_countdown),
            touching_forehead_countdown: ticked(self.touching_forehead_countdown),
            ..self
        }
    }

    /// Whether the wearer clenched the jaw a short while ago.
    pub fn is_jaw_clench(&self) -> (shown: bool)
        ensures
            shown == (self.jaw_clench_countdown > 0),
    {
        self.jaw_clench_countdown > 0
    }

    /// Whether the wearer blinked a short while ago.
    pub fn is_blink(&self) -> (shown: bool)
        ensures
            shown == (self.blink_countdown > 0),
    {
        self.blink_countdown > 0
    }

    /// Whether the headband lost contact with the forehead a short while
    /// ago.
    pub fn is_touching_forehead(&self) -> (shown: bool)
        ensures
            shown == (self.touching_forehead_countdown > 0),
    {
        self.touching_forehead_countdown > 0
    }

    /// Lets one tick pass: each sign that is still shown has one tick less
    /// to go.
    pub fn count_down(&mut self)
        ensures
            *final(self) == old(self).ticked(),
    {
        if self.blink_countdown > 0 {
            self.blink_countdown = self.blink_countdown - 1;
        }
        if self.jaw_clench_countdown > 0 {
            self.jaw_clench_countdown = self.jaw_clench_countdown - 1;
        }
        if self.touching_forehead_countdown > 0 {
            self.touching_forehead_countdown = self.touching_forehead_countdown - 1;
        }
    }

    /// Takes a message in, and hands back what is to be passed on to the
    /// listeners of the model: the time of the message and its report.
    pub fn handle_message(&mut self, muse_message: &MuseMessage) -> (forward: (
        i64,
        MuseMessageType,
    ))
        ensures
            *final(self) == old(self).after(muse_message.muse_message_type),
            forward == (muse_message.time, muse_message.muse_message_type),
    {
        match muse_message.muse_message_type {
            MuseMessageType::Accelerometer { x, y, z } => {
                self.accelerometer = [x, y, z];
            },
            MuseMessageType::Gyro { x, y, z } => {
                self.gyro = [x, y, z];
            },
            MuseMessageType::Horseshoe { a, b, c, d } => {
                self.horseshoe = [a, b, c, d];
            },
            MuseMessageType::Eeg { a, b, c, d } => {},
            MuseMessageType::Alpha { a, b, c, d } => {
                self.alpha = [a, b, c, d];
            },
            MuseMessageType::Beta { a, b, c, d } => {
                self.beta = [a, b, c, d];
            },
            MuseMessageType::Gamma { a, b, c, d } => {
                self.gamma = [a, b, c, d];
            },
            MuseMessageType::Delta { a, b, c, d } => {
                self.delta = [a, b, c, d];
            },
            MuseMessageType::Theta { a, b, c, d } => {
                self.theta = [a, b, c, d];
            },
            MuseMessageType::Batt { batt } => {
                self.batt = batt;
            },
            MuseMessageType::TouchingForehead { touch } => {
                if !touch {
                    self.touching_forehead_countdown = FOREHEAD_COUNTDOWN;
                }
            },
            MuseMessageType::Blink { blink } => {
                if blink {
                    self.blink_countdown = BLINK_COUNTDOWN;
                }
            },
            MuseMessageType::JawClench { clench } => {
                if clench {
                    self.jaw_clench_countdown = CLENCH_COUNTDOWN;
                }
            },
        }
        (muse_message.time, muse_message.muse_message_type)
    }
}

} // verus!
