//! The data-acquisition side of the driver: raw samples, the running
//! position, and the drift and temperature calibration.
//!
//! A [`L3G4200D`] holds what the driver remembers between calls. It reads no
//! register itself. The caller reads the output registers of the device and
//! hands the bytes over; where an operation writes a register, the caller
//! gets the write to send as a [`BusWrite`].

use vstd::prelude::*;

use crate::config::{ctrlreg1, ctrlreg2, ctrlreg3, ctrlreg4, ctrlreg5};
use crate::errors::L3G4200DError;
use crate::registers::{
    lemma_ctrl_reg2_accepts_below_0x40, lemma_read_only_refuses_every_value,
    lemma_unprotected_accepts_every_value, L3G4200DRegister,
};

verus! {

/// The raw counts that make one unit of position.
pub const GYRO_K: i16 = 240;

/// The bus address of the device.
pub const L3G4200D_ADDR: u16 = 0x69;

/// The identity that the device reports in its WHO_AM_I register.
pub const L3G4200D_DEV_ID: u8 = 0xD3;

/// The six output bytes of one sample, as read from OUT_X_L, OUT_X_H,
/// OUT_Y_L, OUT_Y_H, OUT_Z_L and OUT_Z_H.
#[derive(PartialEq, Eq, Structural, Debug, Clone, Copy)]
pub struct RawSample {
    pub x_l: u8,
    pub x_h: u8,
    pub y_l: u8,
    pub y_h: u8,
    pub z_l: u8,
    pub z_h: u8,
}

/// A write of one byte to one register, for the caller to put on the bus.
#[derive(PartialEq, Eq, Structural, Debug, Clone, Copy)]
pub struct BusWrite {
    /// The address of the register.
    pub register: u8,
    /// The byte to write.
    pub value: u8,
}

/// What becomes of a request to write `value` to `reg`: the write to send
/// when the register accepts the value, the refusal otherwise.
pub open spec fn planned_write(reg: L3G4200DRegister, value: u8) -> Result<
    BusWrite,
    L3G4200DError,
> {
    match reg.write_check(value) {
        Ok(_) => Ok(BusWrite { register: reg.address(), value }),
        Err(refusal) => Err(refusal),
    }
}

/// The 16-bit word made of a low and a high byte.
pub open spec fn word(low: u8, high: u8) -> int {
    high * 256 + low
}

/// The number that a 16-bit word stands for in two's complement.
pub open spec fn signed16(value: int) -> int {
    if value >= 0x8000 {
        value - 0x1_0000
    } else {
        value
    }
}

/// The number that a byte stands for in two's complement.
pub open spec fn signed8(value: int) -> int {
    if value >= 0x80 {
        value - 0x100
    } else {
        value
    }
}

/// The quotient of `a` by a positive `b`, rounded toward zero.
pub open spec fn trunc_div(a: int, b: int) -> int {
    if a >= 0 {
        a / b
    } else {
        -((-a) / b)
    }
}

/// Whether `v` can be held in 16 signed bits.
pub open spec fn fits_i16(v: int) -> bool {
    -0x8000 <= v <= 0x7FFF
}

/// Whether `v` can be held in 8 signed bits.
pub open spec fn fits_i8(v: int) -> bool {
    -0x80 <= v <= 0x7F
}

/// The three components of an executable triple as integers.
pub open spec fn triple(t: (i16, i16, i16)) -> (int, int, int) {
    (t.0 as int, t.1 as int, t.2 as int)
}

/// What the driver remembers, as plain integers.
pub struct DriverState {
    /// The running position, one count per `GYRO_K` raw counts.
    pub coordinates: (int, int, int),
    /// What is added to every decoded sample.
    pub drift_compensation: (int, int, int),
    /// What is added to every decoded temperature.
    pub temperature_compensation: int,
}

impl DriverState {
    /// The state of a fresh driver: at the origin, nothing compensated.
    pub open spec fn initial() -> DriverState {
        DriverState {
            coordinates: (0, 0, 0),
            drift_compensation: (0, 0, 0),
            temperature_compensation: 0,
        }
    }

    /// The rate delta that a sample stands for: each axis decoded from its
    /// two bytes, plus the drift compensation of that axis.
    pub open spec fn delta(self, sample: RawSample) -> (int, int, int) {
        (
            signed16(word(sample.x_l, sample.x_h)) + self.drift_compensation.0,
            signed16(word(sample.y_l, sample.y_h)) + self.drift_compensation.1,
            signed16(word(sample.z_l, sample.z_h)) + self.drift_compensation.2,
        )
    }

    /// Whether the delta of the sample can be held in 16 signed bits on
    /// every axis.
    pub open spec fn accepts_sample(self, sample: RawSample) -> bool {
        let d = self.delta(sample);
        fits_i16(d.0) && fits_i16(d.1) && fits_i16(d.2)
    }

    /// The state after a delta has been added to the position: each
    /// coordinate moves by the delta of its axis divided by `GYRO_K`, rounded
    /// toward zero.
    pub open spec fn advanced(self, delta: (int, int, int)) -> DriverState {
        DriverState {
            coordinates: (
                self.coordinates.0 + trunc_div(delta.0, GYRO_K as int),
                self.coordinates.1 + trunc_div(delta.1, GYRO_K as int),
                self.coordinates.2 + trunc_div(delta.2, GYRO_K as int),
            ),
            ..self
        }
    }

    /// Whether the position after the delta can still be held in 16 signed
    /// bits on every axis.
    pub open spec fn can_advance(self, delta: (int, int, int)) -> bool {
        let c = self.advanced(delta).coordinates;
        fits_i16(c.0) && fits_i16(c.1) && fits_i16(c.2)
    }

    /// The temperature delta that a raw OUT_TEMP byte stands for: the byte
    /// decoded, negated, plus the temperature compensation.
    pub open spec fn temperature_delta(self, raw: u8) -> int {
        -signed8(raw as int) + self.temperature_compensation
    }

    /// Whether the temperature delta of the byte can be held in 8 signed bits.
    pub open spec fn accepts_temperature(self, raw: u8) -> bool {
        fits_i8(self.temperature_delta(raw))
    }

    /// The temperature compensation that a calibration on the byte `raw`
    /// against the reference temperature sets: the negated temperature delta
    /// plus the reference.
    pub open spec fn callibrated_temperature_compensation(self, raw: u8, reference: int) -> int {
        -self.temperature_delta(raw) + reference
    }

    /// Whether a temperature calibration is defined: the delta, the new
    /// compensation and its negation can each be held in 8 signed bits.
    pub open spec fn can_callibrate_temperature(self, raw: u8, reference: int) -> bool {
        &&& self.accepts_temperature(raw)
        &&& fits_i8(self.callibrated_temperature_compensation(raw, reference))
        &&& fits_i8(-self.callibrated_temperature_compensation(raw, reference))
    }

    /// Whether every sample of the sequence is accepted.
    pub open spec fn accepts_samples(self, samples: Seq<RawSample>) -> bool {
        forall|i: int| 0 <= i < samples.len() ==> self.accepts_sample(#[trigger] samples[i])
    }

    /// The sum of the deltas of the samples, axis by axis.
    pub open spec fn delta_sum(self, samples: Seq<RawSample>) -> (int, int, int)
        decreases samples.len(),
    {
        if samples.len() == 0 {
            (0, 0, 0)
        } else {
            let rest = self.delta_sum(samples.drop_last());
            let last = self.delta(samples.last());
            (rest.0 + last.0, rest.1 + last.1, rest.2 + last.2)
        }
    }

    /// The average delta of the samples, axis by axis: the sum divided by the
    /// number of samples, rounded toward zero.
    pub open spec fn drift_average(self, samples: Seq<RawSample>) -> (int, int, int) {
        let sum = self.delta_sum(samples);
        let count = samples.len() as int;
        (trunc_div(sum.0, count), trunc_div(sum.1, count), trunc_div(sum.2, count))
    }

    /// The state after a drift calibration on the samples: the drift
    /// compensation is the negated average delta, the rest is unchanged.
    pub open spec fn drift_callibrated(self, samples: Seq<RawSample>) -> DriverState {
        let average = self.drift_average(samples);
        DriverState { drift_compensation: (-average.0, -average.1, -average.2), ..self }
    }

    /// Whether a drift calibration is defined on the samples: there is at
    /// least one and no more than `i32::MAX`, each is accepted, and the
    /// negated average can be held in 16 signed bits on every axis.
    pub open spec fn can_callibrate_drift(self, samples: Seq<RawSample>) -> bool {
        let compensation = self.drift_callibrated(samples).drift_compensation;
        &&& 0 < samples.len() <= i32::MAX
        &&& self.accepts_samples(samples)
        &&& fits_i16(compensation.0)
        &&& fits_i16(compensation.1)
        &&& fits_i16(compensation.2)
    }
}

/// Whether `filtered` is what the filter may give for `delta`, axis by axis.
pub open spec fn is_filtered<F: Fn(i16) -> i16>(
    filter: F,
    delta: (int, int, int),
    filtered: (i16, i16, i16),
) -> bool {
    &&& call_ensures(filter, (delta.0 as i16,), filtered.0)
    &&& call_ensures(filter, (delta.1 as i16,), filtered.1)
    &&& call_ensures(filter, (delta.2 as i16,), filtered.2)
}

/// The reference that a temperature calibration uses: the given one, or zero.
pub open spec fn reference_or_zero(current_temperature: Option<i8>) -> int {
    match current_temperature {
        Some(t) => t as int,
        None => 0,
    }
}

/// The driver's memory between calls: position, drift compensation and
/// temperature compensation.
pub struct L3G4200D {
    coords: (i16, i16, i16),
    drift_compensation: (i16, i16, i16),
    temp_compensation: i8,
}

impl View for L3G4200D {
    type V = DriverState;

    closed spec fn view(&self) -> DriverState {
        DriverState {
            coordinates: triple(self.coords),
            drift_compensation: triple(self.drift_compensation),
            temperature_compensation: self.temp_compensation as int,
        }
    }
}

impl L3G4200D {
    /// A driver at the origin with no compensation.
    pub fn new() -> (driver: Self)
        ensures
            driver@ == DriverState::initial(),
    {
        L3G4200D { coords: (0, 0, 0), drift_compensation: (0, 0, 0), temp_compensation: 0 }
    }

    /// Checks a write against the protection of the register. An accepted
    /// value comes back as the write to send; a refused one as the error, and
    /// then there is nothing to send.
    pub fn write_byte_data(&self, reg: L3G4200DRegister, value: u8) -> (write: Result<
        BusWrite,
        L3G4200DError,
    >)
        ensures
            write == planned_write(reg, value),
    {
        match reg.enforce_write_protect(value) {
            Ok(_) => Ok(BusWrite { register: reg.reg(), value }),
            Err(refusal) => Err(refusal),
        }
    }

    /// The write that puts `value` into control register 1. It is never
    /// refused.
    pub fn write_config_reg_1(&self, value: ctrlreg1::Value) -> (write: Result<
        BusWrite,
        L3G4200DError,
    >)
        ensures
            write == Ok::<BusWrite, L3G4200DError>(
                BusWrite { register: 0x20, value: value.encoded() },
            ),
    {
        let reg = L3G4200DRegister::CTRL_REG1();
        let byte = value.to_value();
        proof {
            lemma_unprotected_accepts_every_value(reg, byte);
        }
        self.write_byte_data(reg, byte)
    }

    /// The write that puts `value` into control register 2. The register
    /// protects its two top bits, so a byte of 0x40 or more is refused; the
    /// byte of a well-formed value never is.
    pub fn write_config_reg_2(&self, value: ctrlreg2::Value) -> (write: Result<
        BusWrite,
        L3G4200DError,
    >)
        ensures
            value.encoded() < 0x40 ==> write == Ok::<BusWrite, L3G4200DError>(
                BusWrite { register: 0x21, value: value.encoded() },
            ),
            value.encoded() >= 0x40 ==> write == Err::<BusWrite, L3G4200DError>(
                L3G4200DError::WriteProtectedRegister(),
            ),
            value.well_formed() ==> write is Ok,
    {
        let reg = L3G4200DRegister::CTRL_REG2();
        let byte = value.to_value();
        proof {
            lemma_ctrl_reg2_accepts_below_0x40(reg, byte);
            if value.well_formed() {
                ctrlreg2::lemma_encoded_keeps_protected_bits_clear(value);
            }
        }
        self.write_byte_data(reg, byte)
    }

    /// The write that puts `value` into control register 3. It is never
    /// refused.
    pub fn write_config_reg_3(&self, value: ctrlreg3::Value) -> (write: Result<
        BusWrite,
        L3G4200DError,
    >)
        ensures
            write == Ok::<BusWrite, L3G4200DError>(
                BusWrite { register: 0x22, value: value.encoded() },
            ),
    {
        let reg = L3G4200DRegister::CTRL_REG3();
        let byte = value.to_value();
        proof {
            lemma_unprotected_accepts_every_value(reg, byte);
        }
        self.write_byte_data(reg, byte)
    }

    /// The write that puts `value` into control register 4. It is never
    /// refused.
    pub fn write_config_reg_4(&self, value: ctrlreg4::Value) -> (write: Result<
        BusWrite,
        L3G4200DError,
    >)
        ensures
            write == Ok::<BusWrite, L3G4200DError>(
                BusWrite { register: 0x23, value: value.encoded() },
            ),
    {
        let reg = L3G4200DRegister::CTRL_REG4();
        let byte = value.to_value();
        proof {
            lemma_unprotected_accepts_every_value(reg, byte);
        }
        self.write_byte_data(reg, byte)
    }

    /// The write that puts `value` into control register 5. It is never
    /// refused.
    pub fn write_config_reg_5(&self, value: ctrlreg5::Value) -> (write: Result<
        BusWrite,
        L3G4200DError,
    >)
        ensures
            write == Ok::<BusWrite, L3G4200DError>(
                BusWrite { register: 0x24, value: value.encoded() },
            ),
    {
        let reg = L3G4200DRegister::CTRL_REG5();
        let byte = value.to_value();
        proof {
            lemma_unprotected_accepts_every_value(reg, byte);
        }
        self.write_byte_data(reg, byte)
    }

    /// The two writes of the usual start-up, in the order in which they are
    /// to be sent: control register 1 with 200 Hz, 50 Hz cut-off, normal
    /// power mode and all axes enabled, then control register 4 with a full
    /// scale of 2000 degrees per second and everything else at its default.
    /// Neither is ever refused. When sending the first write fails, the
    /// second is not to be sent.
    pub fn common_setup(&self) -> (writes: Result<[BusWrite; 2], L3G4200DError>)
        ensures
            writes matches Ok(w) && w@ == seq![
                BusWrite { register: 0x20, value: 0x6F },
                BusWrite { register: 0x23, value: 0x20 },
            ],
    {
        let power_on = ctrlreg1::Value {
            dr_bw: ctrlreg1::DataRateBandwidth::ODR_200_CUT_OFF_50(),
            power_down_mode_enable: ctrlreg1::PowerDownMode::NORMAL_MODE(),
            ..Default::default()
        };
        let full_scale = ctrlreg4::Value {
            full_scale_select: ctrlreg4::FullScaleSelection::FSS_2000_DPS(),
            ..Default::default()
        };
        assert(power_on.encoded() == 0x6F && full_scale.encoded() == 0x20) by {
            assert(0x60u8 | 0x08 | 0x01 | 0x02 | 0x04 == 0x6F && 0u8 | 0 | 0x20 | 0 | 0 == 0x20)
                by (bit_vector);
        }
        let first = self.write_config_reg_1(power_on)?;
        let second = self.write_config_reg_4(full_scale)?;
        Ok([first, second])
    }

    /// Joins a low and a high byte into a 16-bit word.
    pub fn _to_u16(low: u8, high: u8) -> (value: u16)
        ensures
            value == word(low, high),
    {
        assert(((high as u16) << 8 | (low as u16)) == (high as u16) * 256 + (low as u16))
            by (bit_vector);
        (high as u16) << 8 | low as u16
    }

    /// Reads a 16-bit word as a two's complement number.
    pub fn _from_twos(value: u16) -> (number: i16)
        ensures
            number == signed16(value as int),
    {
        if value >= 0x8000 {
            (value as i32 - 0x1_0000) as i16
        } else {
            value as i16
        }
    }

    /// Reads a byte as a two's complement number.
    pub fn _from_twos_u8(value: u8) -> (number: i8)
        ensures
            number == signed8(value as int),
    {
        if value >= 0x80 {
            (value as i16 - 0x100) as i8
        } else {
            value as i8
        }
    }

    /// Whether `read_raw_delta` is defined on the sample.
    pub fn accepts_sample(&self, sample: RawSample) -> (accepted: bool)
        ensures
            accepted == self@.accepts_sample(sample),
    {
        let x = Self::_from_twos(Self::_to_u16(sample.x_l, sample.x_h)) as i32
            + self.drift_compensation.0 as i32;
        let y = Self::_from_twos(Self::_to_u16(sample.y_l, sample.y_h)) as i32
            + self.drift_compensation.1 as i32;
        let z = Self::_from_twos(Self::_to_u16(sample.z_l, sample.z_h)) as i32
            + self.drift_compensation.2 as i32;
        -0x8000 <= x && x <= 0x7FFF && -0x8000 <= y && y <= 0x7FFF && -0x8000 <= z && z <= 0x7FFF
    }

    /// Decodes a sample into the rate delta of each axis and adds the drift
    /// compensation. The position is not touched.
    pub fn read_raw_delta(&self, sample: RawSample) -> (delta: (i16, i16, i16))
        requires
            self@.accepts_sample(sample),
        ensures
            triple(delta) == self@.delta(sample),
    {
        let x = Self::_from_twos(Self::_to_u16(sample.x_l, sample.x_h)) + self.drift_compensation.0;
        let y = Self::_from_twos(Self::_to_u16(sample.y_l, sample.y_h)) + self.drift_compensation.1;
        let z = Self::_from_twos(Self::_to_u16(sample.z_l, sample.z_h)) + self.drift_compensation.2;
        (x, y, z)
    }

    /// Whether `integrate` is defined on the delta.
    pub fn can_advance(&self, delta: (i16, i16, i16)) -> (possible: bool)
        ensures
            possible == self@.can_advance(triple(delta)),
    {
        let x = self.coords.0 as i32 + (delta.0 / GYRO_K) as i32;
        let y = self.coords.1 as i32 + (delta.1 / GYRO_K) as i32;
        let z = self.coords.2 as i32 + (delta.2 / GYRO_K) as i32;
        -0x8000 <= x && x <= 0x7FFF && -0x8000 <= y && y <= 0x7FFF && -0x8000 <= z && z <= 0x7FFF
    }

    /// Adds a delta to the position and returns the new position. Nothing
    /// else changes.
    pub fn integrate(&mut self, delta: (i16, i16, i16)) -> (position: (i16, i16, i16))
        requires
            old(self)@.can_advance(triple(delta)),
        ensures
            final(self)@ == old(self)@.advanced(triple(delta)),
            triple(position) == final(self)@.coordinates,
    {
        self.coords.0 = self.coords.0 + delta.0 / GYRO_K;
        self.coords.1 = self.coords.1 + delta.1 / GYRO_K;
        self.coords.2 = self.coords.2 + delta.2 / GYRO_K;
        (self.coords.0, self.coords.1, self.coords.2)
    }

    /// Decodes a sample, adds its delta to the position and returns the new
    /// position.
    pub fn read_position(&mut self, sample: RawSample) -> (position: (i16, i16, i16))
        requires
            old(self)@.accepts_sample(sample),
            old(self)@.can_advance(old(self)@.delta(sample)),
        ensures
            final(self)@ == old(self)@.advanced(old(self)@.delta(sample)),
            triple(position) == final(self)@.coordinates,
    {
        let delta = self.read_raw_delta(sample);
        self.integrate(delta)
    }

    /// Decodes a sample as `read_raw_delta` does and passes the delta of each
    /// axis through the filter, one axis at a time. The position is not
    /// touched.
    pub fn read_delta_filtered<F>(&self, sample: RawSample, filter: F) -> (filtered: (
        i16,
        i16,
        i16,
    )) where F: Fn(i16) -> i16
        requires
            self@.accepts_sample(sample),
            call_requires(filter, (self@.delta(sample).0 as i16,)),
            call_requires(filter, (self@.delta(sample).1 as i16,)),
            call_requires(filter, (self@.delta(sample).2 as i16,)),
        ensures
            call_ensures(filter, (self@.delta(sample).0 as i16,), filtered.0),
            call_ensures(filter, (self@.delta(sample).1 as i16,), filtered.1),
            call_ensures(filter, (self@.delta(sample).2 as i16,), filtered.2),
    {
        let (x, y, z) = self.read_raw_delta(sample);
        (filter(x), filter(y), filter(z))
    }

    /// Decodes a sample, passes the delta of each axis through the filter,
    /// adds the filtered delta to the position and returns the new position.
    pub fn read_position_filtered<F>(&mut self, sample: RawSample, filter: F) -> (position: (
        i16,
        i16,
        i16,
    )) where F: Fn(i16) -> i16
        requires
            old(self)@.accepts_sample(sample),
            call_requires(filter, (old(self)@.delta(sample).0 as i16,)),
            call_requires(filter, (old(self)@.delta(sample).1 as i16,)),
            call_requires(filter, (old(self)@.delta(sample).2 as i16,)),
            forall|filtered: (i16, i16, i16)|
                is_filtered(filter, old(self)@.delta(sample), filtered) ==> old(
                    self,
                )@.can_advance(triple(filtered)),
        ensures
            exists|filtered: (i16, i16, i16)|
                is_filtered(filter, old(self)@.delta(sample), filtered) && final(self)@ == old(
                    self,
                )@.advanced(triple(filtered)),
            triple(position) == final(self)@.coordinates,
    {
        let filtered = self.read_delta_filtered(sample, filter);
        assert(is_filtered(filter, old(self)@.delta(sample), filtered));
        self.integrate(filtered)
    }

    /// Whether `read_temperature` is defined on the byte.
    pub fn accepts_temperature(&self, raw: u8) -> (accepted: bool)
        ensures
            accepted == self@.accepts_temperature(raw),
    {
        let t = -(Self::_from_twos_u8(raw) as i16) + self.temp_compensation as i16;
        -0x80 <= t && t <= 0x7F
    }

    /// Turns a raw OUT_TEMP byte into a temperature delta: the byte decoded,
    /// negated, plus the temperature compensation.
    pub fn read_temperature(&self, raw: u8) -> (delta: i8)
        requires
            self@.accepts_temperature(raw),
        ensures
            delta == self@.temperature_delta(raw),
    {
        (-(Self::_from_twos_u8(raw) as i16) + self.temp_compensation as i16) as i8
    }

    /// Whether `callibrate_temperature` is defined on the byte and the
    /// reference.
    pub fn can_callibrate_temperature(
        &self,
        raw: u8,
        current_temperature: Option<i8>,
    ) -> (possible: bool)
        ensures
            possible == self@.can_callibrate_temperature(
                raw,
                reference_or_zero(current_temperature),
            ),
    {
        if !self.accepts_temperature(raw) {
            return false;
        }
        let reference: i16 = match current_temperature {
            Some(t) => t as i16,
            None => 0,
        };
        let compensation = -(self.read_temperature(raw) as i16) + reference;
        -0x7F <= compensation && compensation <= 0x7F
    }

    /// Sets the temperature compensation from one raw OUT_TEMP byte and an
    /// optional reference temperature, and returns the negated new
    /// compensation. Position and drift compensation stay as they are.
    pub fn callibrate_temperature(
        &mut self,
        raw: u8,
        current_temperature: Option<i8>,
    ) -> (negated: i8)
        requires
            old(self)@.can_callibrate_temperature(raw, reference_or_zero(current_temperature)),
        ensures
            final(self)@ == (DriverState {
                temperature_compensation: old(self)@.callibrated_temperature_compensation(
                    raw,
                    reference_or_zero(current_temperature),
                ),
                ..old(self)@
            }),
            negated == -final(self)@.temperature_compensation,
    {
        let reference: i16 = match current_temperature {
            Some(t) => t as i16,
            None => 0,
        };
        let compensation = -(self.read_temperature(raw) as i16) + reference;
        self.temp_compensation = compensation as i8;
        (-compensation) as i8
    }

    /// The sums of the deltas of the samples, or nothing when a sample is not
    /// accepted.
    fn delta_sums(&self, samples: &Vec<RawSample>) -> (sums: Option<(i64, i64, i64)>)
        requires
            samples.len() <= i32::MAX,
        ensures
            sums is Some <==> self@.accepts_samples(samples@),
            sums matches Some(s) ==> (s.0 as int, s.1 as int, s.2 as int) == self@.delta_sum(
                samples@,
            ),
    {
        let count = samples.len();
        let mut sx: i64 = 0;
        let mut sy: i64 = 0;
        let mut sz: i64 = 0;
        let mut i: usize = 0;
        while i < count
            invariant
                i <= count,
                count == samples.len(),
                count <= i32::MAX,
                self@.accepts_samples(samples@.take(i as int)),
                (sx as int, sy as int, sz as int) == self@.delta_sum(samples@.take(i as int)),
            decreases count - i,
        {
            let sample = samples[i];
            if !self.accepts_sample(sample) {
                return None;
            }
            let delta = self.read_raw_delta(sample);
            proof {
                let before = samples@.take(i as int);
                let after = samples@.take(i + 1);
                assert(after.drop_last() =~= before);
                assert(after.last() == sample);
                assert forall|k: int| 0 <= k < after.len() implies self@.accepts_sample(
                    #[trigger] after[k],
                ) by {
                    if k < i {
                        assert(after[k] == before[k]);
                    }
                }
                lemma_delta_sum_bounds(self@, before);
            }
            sx = sx + delta.0 as i64;
            sy = sy + delta.1 as i64;
            sz = sz + delta.2 as i64;
            i = i + 1;
        }
        proof {
            assert(samples@.take(count as int) =~= samples@);
        }
        Some((sx, sy, sz))
    }

    /// Whether `callibrate_drift` is defined on the samples.
    pub fn can_callibrate_drift(&self, samples: &Vec<RawSample>) -> (possible: bool)
        ensures
            possible == self@.can_callibrate_drift(samples@),
    {
        let count = samples.len();
        if count == 0 || count > 0x7FFF_FFFF {
            return false;
        }
        match self.delta_sums(samples) {
            None => false,
            Some((sx, sy, sz)) => {
                proof {
                    lemma_drift_average_bounds(self@, samples@);
                }
                let n = count as i64;
                sx / n != -0x8000 && sy / n != -0x8000 && sz / n != -0x8000
            },
        }
    }

    /// Sets the drift compensation from samples taken while the device is at
    /// rest: the deltas of the samples, under the compensation in effect, are
    /// averaged axis by axis, and the negated average becomes the new
    /// compensation. Returns the average. Position and temperature
    /// compensation stay as they are.
    pub fn callibrate_drift(&mut self, samples: &Vec<RawSample>) -> (drift: [i32; 3])
        requires
            old(self)@.can_callibrate_drift(samples@),
        ensures
            final(self)@ == old(self)@.drift_callibrated(samples@),
            (drift[0] as int, drift[1] as int, drift[2] as int) == old(self)@.drift_average(
                samples@,
            ),
    {
        let (sx, sy, sz) = self.delta_sums(samples).unwrap();
        proof {
            lemma_drift_average_bounds(self@, samples@);
        }
        let n = samples.len() as i64;
        let ax = sx / n;
        let ay = sy / n;
        let az = sz / n;
        self.drift_compensation = ((-ax) as i16, (-ay) as i16, (-az) as i16);
        [ax as i32, ay as i32, az as i32]
    }
}

/// A write to a read-only register is refused as not writable whatever the
/// value, so it never gives anything to send.
pub proof fn lemma_read_only_register_is_never_written(reg: L3G4200DRegister, value: u8)
    requires
        reg.is_read_only(),
    ensures
        planned_write(reg, value) == Err::<BusWrite, L3G4200DError>(
            L3G4200DError::NotWritableRegister(),
        ),
{
    lemma_read_only_refuses_every_value(reg, value);
}

/// A delta that reaches `GYRO_K` on an axis moves the coordinate of that axis
/// by exactly one in each of two successive steps; a delta whose magnitude
/// stays below `GYRO_K` on an axis leaves that coordinate where it is. The
/// compensations are never touched.
pub proof fn lemma_position_steps(state: DriverState, delta: (int, int, int))
    ensures
        delta.0 == GYRO_K ==> state.advanced(delta).coordinates.0 == state.coordinates.0 + 1
            && state.advanced(delta).advanced(delta).coordinates.0 == state.coordinates.0 + 2,
        delta.1 == GYRO_K ==> state.advanced(delta).coordinates.1 == state.coordinates.1 + 1
            && state.advanced(delta).advanced(delta).coordinates.1 == state.coordinates.1 + 2,
        delta.2 == GYRO_K ==> state.advanced(delta).coordinates.2 == state.coordinates.2 + 1
            && state.advanced(delta).advanced(delta).coordinates.2 == state.coordinates.2 + 2,
        -GYRO_K < delta.0 < GYRO_K ==> state.advanced(delta).coordinates.0 == state.coordinates.0,
        -GYRO_K < delta.1 < GYRO_K ==> state.advanced(delta).coordinates.1 == state.coordinates.1,
        -GYRO_K < delta.2 < GYRO_K ==> state.advanced(delta).coordinates.2 == state.coordinates.2,
        state.advanced(delta).drift_compensation == state.drift_compensation,
        state.advanced(delta).temperature_compensation == state.temperature_compensation,
{
}

/// The deltas of a repeated sample sum to the number of samples times the
/// delta of one.
proof fn lemma_constant_delta_sum(state: DriverState, samples: Seq<RawSample>, sample: RawSample)
    requires
        forall|i: int| 0 <= i < samples.len() ==> samples[i] == sample,
    ensures
        state.delta_sum(samples).0 == samples.len() * state.delta(sample).0,
        state.delta_sum(samples).1 == samples.len() * state.delta(sample).1,
        state.delta_sum(samples).2 == samples.len() * state.delta(sample).2,
    decreases samples.len(),
{
    if samples.len() > 0 {
        let rest = samples.drop_last();
        let one = state.delta(sample);
        let count = samples.len() as int;
        assert forall|i: int| 0 <= i < rest.len() implies rest[i] == sample by {
            assert(rest[i] == samples[i]);
        }
        lemma_constant_delta_sum(state, rest, sample);
        assert(samples.last() == sample);
        assert((count - 1) * one.0 + one.0 == count * one.0) by (nonlinear_arith);
        assert((count - 1) * one.1 + one.1 == count * one.1) by (nonlinear_arith);
        assert((count - 1) * one.2 + one.2 == count * one.2) by (nonlinear_arith);
    }
}

/// Dividing a multiple of the divisor gives the other factor back, whatever
/// its sign.
proof fn lemma_trunc_div_of_multiple(d: int, n: int)
    requires
        n > 0,
    ensures
        trunc_div(n * d, n) == d,
{
    if d >= 0 {
        assert(n * d >= 0 && (n * d) / n == d) by (nonlinear_arith)
            requires
                n > 0,
                d >= 0,
        ;
    } else {
        let e = -d;
        assert(n * d < 0 && -(n * d) == n * e && (n * e) / n == e) by (nonlinear_arith)
            requires
                n > 0,
                e > 0,
                e == -d,
        ;
    }
}

/// While the device gives the same sample again and again, the average
/// delta of any number of samples is the delta of that one sample, so a
/// drift calibration sets the compensation to its negation.
pub proof fn lemma_constant_signal_drift(
    state: DriverState,
    samples: Seq<RawSample>,
    sample: RawSample,
)
    requires
        samples.len() > 0,
        forall|i: int| 0 <= i < samples.len() ==> samples[i] == sample,
    ensures
        state.drift_average(samples) == state.delta(sample),
        state.drift_callibrated(samples).drift_compensation == (
            -state.delta(sample).0,
            -state.delta(sample).1,
            -state.delta(sample).2,
        ),
{
    let one = state.delta(sample);
    let count = samples.len() as int;
    lemma_constant_delta_sum(state, samples, sample);
    lemma_trunc_div_of_multiple(one.0, count);
    lemma_trunc_div_of_multiple(one.1, count);
    lemma_trunc_div_of_multiple(one.2, count);
}

/// After a drift calibration on a constant signal that started without any
/// compensation, the same sample reads as no movement at all.
pub proof fn lemma_constant_signal_reads_zero(
    state: DriverState,
    samples: Seq<RawSample>,
    sample: RawSample,
)
    requires
        samples.len() > 0,
        forall|i: int| 0 <= i < samples.len() ==> samples[i] == sample,
        state.drift_compensation == (0int, 0int, 0int),
    ensures
        state.drift_callibrated(samples).delta(sample) == (0int, 0int, 0int),
{
    lemma_constant_signal_drift(state, samples, sample);
}

/// The sum of accepted deltas lies within the number of samples times the
/// range of one delta.
proof fn lemma_delta_sum_bounds(state: DriverState, samples: Seq<RawSample>)
    requires
        state.accepts_samples(samples),
    ensures
        -0x8000 * samples.len() <= state.delta_sum(samples).0 <= 0x7FFF * samples.len(),
        -0x8000 * samples.len() <= state.delta_sum(samples).1 <= 0x7FFF * samples.len(),
        -0x8000 * samples.len() <= state.delta_sum(samples).2 <= 0x7FFF * samples.len(),
    decreases samples.len(),
{
    if samples.len() > 0 {
        let rest = samples.drop_last();
        assert forall|i: int| 0 <= i < rest.len() implies state.accepts_sample(
            #[trigger] rest[i],
        ) by {
            assert(rest[i] == samples[i]);
        }
        lemma_delta_sum_bounds(state, rest);
        assert(state.accepts_sample(samples[samples.len() - 1]));
    }
}

/// A quotient rounded toward zero stays within the bounds that the dividend
/// keeps per unit of the divisor.
proof fn lemma_trunc_div_bounds(a: int, n: int, low: int, high: int)
    requires
        n > 0,
        low <= 0 <= high,
        low * n <= a <= high * n,
    ensures
        low <= trunc_div(a, n) <= high,
{
    if a >= 0 {
        assert(a / n <= high) by (nonlinear_arith)
            requires
                n > 0,
                0 <= a <= high * n,
        ;
        assert(0 <= a / n) by (nonlinear_arith)
            requires
                n > 0,
                0 <= a,
        ;
    } else {
        let b = -a;
        assert((-low) * n == -(low * n)) by (nonlinear_arith);
        assert(b / n <= -low) by (nonlinear_arith)
            requires
                n > 0,
                0 <= b <= (-low) * n,
        ;
        assert(0 <= b / n) by (nonlinear_arith)
            requires
                n > 0,
                0 <= b,
        ;
    }
}

/// The average of accepted deltas can be held in 16 signed bits.
proof fn lemma_drift_average_bounds(state: DriverState, samples: Seq<RawSample>)
    requires
        samples.len() > 0,
        state.accepts_samples(samples),
    ensures
        fits_i16(state.drift_average(samples).0),
        fits_i16(state.drift_average(samples).1),
        fits_i16(state.drift_average(samples).2),
{
    lemma_delta_sum_bounds(state, samples);
    let sum = state.delta_sum(samples);
    let count = samples.len() as int;
    lemma_trunc_div_bounds(sum.0, count, -0x8000, 0x7FFF);
    lemma_trunc_div_bounds(sum.1, count, -0x8000, 0x7FFF);
    lemma_trunc_div_bounds(sum.2, count, -0x8000, 0x7FFF);
}

} // verus!
