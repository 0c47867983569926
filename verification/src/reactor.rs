//! The reactor state machine: physical state, per-timestep update, and the
//! safety interlock that forces an irreversible shutdown.
//!
//! Fixed-point conventions:
//! - `control_rods` and `coolant_flow` are percentages stored in hundredths
//!   of a percent: `10_000` means 100.00 %.
//! - `power_output` (MW), `core_temp` (degrees Celsius) and `pressure` (bar)
//!   are stored in millionths of a unit: `150_000_000` means 150 bar.
//!
//! With these two scales every step of the update algorithm is exact integer
//! arithmetic: no rounding ever happens, and the contracts below pin each
//! field of the post-state to a closed-form function of the pre-state.

use vstd::prelude::*;

verus! {

/// 100.00 %, in hundredths of a percent.
pub const PCT_MAX: i64 = 10_000;

/// Largest possible power output: 2000 MW, reached with rods fully
/// withdrawn and full coolant flow.
pub const POWER_MAX: i64 = 2_000_000_000;

/// Initial core temperature: 280 degrees Celsius.
pub const INIT_TEMP: i64 = 280_000_000;

/// Initial (and nominal) pressure: 150 bar.
pub const INIT_PRESSURE: i64 = 150_000_000;

/// Shutdown threshold: core temperature above 1000 degrees Celsius.
pub const TRIP_TEMP: i64 = 1_000_000_000;

/// Shutdown threshold: pressure above 200 bar.
pub const TRIP_PRESSURE: i64 = 200_000_000;

/// Shutdown threshold: coolant flow below 10.00 %.
pub const TRIP_COOLANT: i64 = 1_000;

/// Machine limit only: a core temperature this far below zero is still a
/// full step away from `i64` underflow, so one more update is safe.
pub const TEMP_ARITH_FLOOR: i64 = -4_000_000_000_000_000;

/// The six physical quantities of the core.
#[derive(Clone, Copy, Debug, PartialEq, Eq, Structural)]
pub struct ReactorStatus {
    /// Megawatts, in millionths; derived, never set by operators.
    pub power_output: i64,
    /// Degrees Celsius, in millionths; accumulates across steps.
    pub core_temp: i64,
    /// Bar, in millionths; recomputed from the temperature each step.
    pub pressure: i64,
    /// Percent of nominal cooling, in hundredths; operator-settable.
    pub coolant_flow: i64,
    /// Percent inserted, in hundredths; operator-settable, 100 % suppresses
    /// all power.
    pub control_rods: i64,
    /// Once true, the state is frozen and never evolves again.
    pub emergency_shutdown: bool,
}

/// A percentage input clamped into [0 %, 100.00 %].
pub open spec fn clamp_pct(v: int) -> int {
    if v < 0 {
        0
    } else if v > PCT_MAX {
        PCT_MAX as int
    } else {
        v
    }
}

/// Power produced by a rod position and a coolant flow, in millionths of a
/// megawatt: `(100 % - rods) * 20 MW/% * (coolant / 100 %)`.
pub open spec fn power_spec(rods: int, coolant: int) -> int {
    20 * (PCT_MAX - rods) * coolant
}

/// Heat added to the core by one step at power `power`: a tenth of the
/// power, in millionths of a degree.
pub open spec fn heat_spec(power: int) -> int {
    power / 10
}

/// Heat removed by one step at coolant flow `coolant`: up to 30 degrees at
/// full flow, in millionths of a degree.
pub open spec fn cooling_spec(coolant: int) -> int {
    3_000 * coolant
}

/// Net temperature change of one step from rod position `rods` and coolant
/// flow `coolant`.
pub open spec fn temp_delta_spec(rods: int, coolant: int) -> int {
    heat_spec(power_spec(rods, coolant)) - cooling_spec(coolant)
}

/// Pressure as a pure function of the current temperature: 150 bar at the
/// nominal 280 degrees, half a bar more per degree above.
pub open spec fn pressure_spec(temp: int) -> int {
    INIT_PRESSURE + (temp - INIT_TEMP) / 2
}

/// The safety interlock fires when any threshold is breached.
pub open spec fn trips(temp: int, pressure: int, coolant: int) -> bool {
    temp > TRIP_TEMP || pressure > TRIP_PRESSURE || coolant < TRIP_COOLANT
}

impl ReactorStatus {
    /// Every reachable state satisfies this invariant: percentages are
    /// clamped, power is within the physical band, the temperature is an
    /// even number of millionths (so halving it for the pressure is exact),
    /// the pressure agrees with the temperature, and a core that has not
    /// shut down has never breached the temperature or pressure threshold.
    pub open spec fn wf(self) -> bool {
        &&& 0 <= self.control_rods <= PCT_MAX
        &&& 0 <= self.coolant_flow <= PCT_MAX
        &&& 0 <= self.power_output <= POWER_MAX
        &&& self.core_temp % 2 == 0
        &&& self.pressure == pressure_spec(self.core_temp as int)
        &&& (!self.emergency_shutdown ==> self.core_temp <= TRIP_TEMP && self.pressure
            <= TRIP_PRESSURE)
    }

    /// The state a fresh core starts in.
    pub open spec fn initial() -> ReactorStatus {
        ReactorStatus {
            power_output: 0,
            core_temp: INIT_TEMP,
            pressure: INIT_PRESSURE,
            coolant_flow: PCT_MAX,
            control_rods: PCT_MAX,
            emergency_shutdown: false,
        }
    }
}

/// Power output lies in [0 MW, 2000 MW] for every clamped pair of rod
/// position and coolant flow.
pub proof fn lemma_power_bounds(rods: int, coolant: int)
    requires
        0 <= rods <= PCT_MAX,
        0 <= coolant <= PCT_MAX,
    ensures
        0 <= power_spec(rods, coolant) <= POWER_MAX,
{
    assert(0 <= 20 * (10_000 - rods) * coolant <= 2_000_000_000) by (nonlinear_arith)
        requires
            0 <= rods <= 10_000,
            0 <= coolant <= 10_000,
    ;
}

/// Holding coolant fixed, withdrawing the rods further (a smaller
/// insertion) never decreases the power output.
pub proof fn lemma_power_monotonic_in_rods(rods1: int, rods2: int, coolant: int)
    requires
        0 <= rods2 <= rods1 <= PCT_MAX,
        0 <= coolant <= PCT_MAX,
    ensures
        power_spec(rods2, coolant) >= power_spec(rods1, coolant),
{
    assert(20 * (10_000 - rods2) * coolant >= 20 * (10_000 - rods1) * coolant)
        by (nonlinear_arith)
        requires
            rods2 <= rods1,
            0 <= coolant,
    ;
}

/// Holding the rods fixed, lowering the coolant flow never increases the
/// power output.
pub proof fn lemma_power_monotonic_in_coolant(rods: int, coolant1: int, coolant2: int)
    requires
        0 <= rods <= PCT_MAX,
        0 <= coolant2 <= coolant1 <= PCT_MAX,
    ensures
        power_spec(rods, coolant2) <= power_spec(rods, coolant1),
{
    assert(20 * (10_000 - rods) * coolant2 <= 20 * (10_000 - rods) * coolant1)
        by (nonlinear_arith)
        requires
            rods <= 10_000,
            0 <= coolant2 <= coolant1,
    ;
}

/// In every well-formed state — and every state the reactor can reach is
/// well-formed — the power output lies in [0 MW, 2000 MW].
pub proof fn lemma_power_output_in_band(s: ReactorStatus)
    requires
        s.wf(),
    ensures
        0 <= s.power_output <= POWER_MAX,
{
}

/// Pressure is a pure function of the current temperature: two states with
/// equal core temperature have equal pressure, whatever their histories.
pub proof fn lemma_pressure_pure(s1: ReactorStatus, s2: ReactorStatus)
    requires
        s1.wf(),
        s2.wf(),
        s1.core_temp == s2.core_temp,
    ensures
        s1.pressure == s2.pressure,
{
}

/// The heat of one step at the power the step itself just computed is an
/// exact tenth of that power, and an even number of stored units: the
/// temperature therefore stays even and halving it for the pressure never
/// rounds.
proof fn lemma_heat_exact(rods: int, coolant: int)
    ensures
        heat_spec(power_spec(rods, coolant)) == 2 * (PCT_MAX - rods) * coolant,
        heat_spec(power_spec(rods, coolant)) % 2 == 0,
        cooling_spec(coolant) % 2 == 0,
{
    assert(20 * (10_000 - rods) * coolant == 10 * (2 * (10_000 - rods) * coolant))
        by (nonlinear_arith);
    assert((10 * (2 * (10_000 - rods) * coolant)) / 10 == 2 * (10_000 - rods) * coolant);
    assert(2 * (10_000 - rods) * coolant == 2 * ((10_000 - rods) * coolant)) by (nonlinear_arith);
    assert((2 * ((10_000 - rods) * coolant)) % 2 == 0);
}

/// The reactor: owns the physical state and offers the only mutation paths
/// into it. Its mathematical view is the `ReactorStatus` it holds.
pub struct ReactorSimulator {
    status: ReactorStatus,
}

impl View for ReactorSimulator {
    type V = ReactorStatus;

    closed spec fn view(&self) -> ReactorStatus {
        self.status
    }
}

impl ReactorSimulator {
    /// A fresh core: no power, nominal temperature and pressure, full
    /// coolant flow, rods fully inserted, no shutdown.
    pub fn new() -> (r: ReactorSimulator)
        ensures
            r@ == ReactorStatus::initial(),
            r@.wf(),
    {
        ReactorSimulator {
            status: ReactorStatus {
                power_output: 0,
                core_temp: INIT_TEMP,
                pressure: INIT_PRESSURE,
                coolant_flow: PCT_MAX,
                control_rods: PCT_MAX,
                emergency_shutdown: false,
            },
        }
    }

    /// Move the control rods to `position` (hundredths of a percent
    /// inserted), clamping into [0, 100.00 %]. Never fails; touches nothing
    /// else.
    pub fn adjust_control_rods(&mut self, position: i64)
        ensures
            final(self)@.control_rods == clamp_pct(position as int),
            final(self)@.power_output == old(self)@.power_output,
            final(self)@.core_temp == old(self)@.core_temp,
            final(self)@.pressure == old(self)@.pressure,
            final(self)@.coolant_flow == old(self)@.coolant_flow,
            final(self)@.emergency_shutdown == old(self)@.emergency_shutdown,
            old(self)@.wf() ==> final(self)@.wf(),
    {
        self.status.control_rods = if position < 0 {
            0
        } else if position > PCT_MAX {
            PCT_MAX
        } else {
            position
        };
    }

    /// Set the coolant flow to `flow` (hundredths of a percent), clamping
    /// into [0, 100.00 %]. Never fails; touches nothing else.
    pub fn adjust_coolant_flow(&mut self, flow: i64)
        ensures
            final(self)@.coolant_flow == clamp_pct(flow as int),
            final(self)@.power_output == old(self)@.power_output,
            final(self)@.core_temp == old(self)@.core_temp,
            final(self)@.pressure == old(self)@.pressure,
            final(self)@.control_rods == old(self)@.control_rods,
            final(self)@.emergency_shutdown == old(self)@.emergency_shutdown,
            old(self)@.wf() ==> final(self)@.wf(),
    {
        self.status.coolant_flow = if flow < 0 {
            0
        } else if flow > PCT_MAX {
            PCT_MAX
        } else {
            flow
        };
    }

    /// Power phase of one step: output follows the rod position linearly
    /// (fully inserted means none, fully withdrawn means 2000 MW) and is
    /// scaled down by the fraction of nominal coolant flow.
    fn calculate_power(&mut self)
        requires
            0 <= old(self)@.control_rods <= PCT_MAX,
            0 <= old(self)@.coolant_flow <= PCT_MAX,
        ensures
            final(self)@.power_output == power_spec(
                old(self)@.control_rods as int,
                old(self)@.coolant_flow as int,
            ),
            0 <= final(self)@.power_output <= POWER_MAX,
            final(self)@.core_temp == old(self)@.core_temp,
            final(self)@.pressure == old(self)@.pressure,
            final(self)@.coolant_flow == old(self)@.coolant_flow,
            final(self)@.control_rods == old(self)@.control_rods,
            final(self)@.emergency_shutdown == old(self)@.emergency_shutdown,
    {
        let base_power = (PCT_MAX - self.status.control_rods) * 20;
        proof {
            lemma_power_bounds(self@.control_rods as int, self@.coolant_flow as int);
        }
        self.status.power_output = base_power * self.status.coolant_flow;
    }

    /// Temperature phase of one step: the core gains a tenth of the power
    /// as heat and sheds up to 30 degrees at full coolant flow; the net
    /// change accumulates, so thermal inertia persists across steps.
    fn update_temperature(&mut self)
        requires
            0 <= old(self)@.power_output <= POWER_MAX,
            0 <= old(self)@.coolant_flow <= PCT_MAX,
            TEMP_ARITH_FLOOR <= old(self)@.core_temp <= TRIP_TEMP,
        ensures
            final(self)@.core_temp == old(self)@.core_temp + heat_spec(
                old(self)@.power_output as int,
            ) - cooling_spec(old(self)@.coolant_flow as int),
            final(self)@.power_output == old(self)@.power_output,
            final(self)@.pressure == old(self)@.pressure,
            final(self)@.coolant_flow == old(self)@.coolant_flow,
            final(self)@.control_rods == old(self)@.control_rods,
            final(self)@.emergency_shutdown == old(self)@.emergency_shutdown,
    {
        let power_heat = self.status.power_output / 10;
        let cooling_effect = 3_000 * self.status.coolant_flow;
        let temp_change = power_heat - cooling_effect;
        self.status.core_temp = self.status.core_temp + temp_change;
    }

    /// Pressure phase of one step: recomputed in full from the current
    /// temperature, half a bar per degree above the nominal 280 degrees.
    fn update_pressure(&mut self)
        requires
            old(self)@.core_temp % 2 == 0,
            TEMP_ARITH_FLOOR - 30_000_000 <= old(self)@.core_temp <= TRIP_TEMP + 200_000_000,
        ensures
            final(self)@.pressure == pressure_spec(old(self)@.core_temp as int),
            final(self)@.power_output == old(self)@.power_output,
            final(self)@.core_temp == old(self)@.core_temp,
            final(self)@.coolant_flow == old(self)@.coolant_flow,
            final(self)@.control_rods == old(self)@.control_rods,
            final(self)@.emergency_shutdown == old(self)@.emergency_shutdown,
    {
        let t = self.status.core_temp;
        self.status.pressure = INIT_PRESSURE + (t - INIT_TEMP) / 2;
    }

    /// Safety phase of one step: if any threshold is breached, drive the
    /// rods fully in, latch the shutdown flag and report unsafe; otherwise
    /// leave the state alone and report safe.
    fn check_safety_systems(&mut self) -> (safe: bool)
        ensures
            safe == !trips(
                old(self)@.core_temp as int,
                old(self)@.pressure as int,
                old(self)@.coolant_flow as int,
            ),
            final(self)@.power_output == old(self)@.power_output,
            final(self)@.core_temp == old(self)@.core_temp,
            final(self)@.pressure == old(self)@.pressure,
            final(self)@.coolant_flow == old(self)@.coolant_flow,
            safe ==> final(self)@.control_rods == old(self)@.control_rods
                && final(self)@.emergency_shutdown == old(self)@.emergency_shutdown,
            !safe ==> final(self)@.control_rods == PCT_MAX && final(self)@.emergency_shutdown,
    {
        if self.status.core_temp > TRIP_TEMP || self.status.pressure > TRIP_PRESSURE
            || self.status.coolant_flow < TRIP_COOLANT {
            self.status.emergency_shutdown = true;
            self.status.control_rods = PCT_MAX;
            return false;
        }
        true
    }

    /// Advance simulated time by one step. A core that has already shut
    /// down is inert: nothing changes and the step reports unsafe. An
    /// active core recomputes power, integrates the temperature, derives
    /// the pressure, and then runs the safety interlock; the step reports
    /// safe exactly when no threshold was breached.
    ///
    /// The floor on the temperature is a machine limit only: it keeps one
    /// more exact update inside `i64`, far below any temperature the model
    /// gives meaning to.
    pub fn simulate_timestep(&mut self) -> (safe: bool)
        requires
            old(self)@.wf(),
            old(self)@.emergency_shutdown || old(self)@.core_temp >= TEMP_ARITH_FLOOR,
        ensures
            final(self)@.wf(),
            safe == !final(self)@.emergency_shutdown,
            old(self)@.emergency_shutdown ==> final(self)@ == old(self)@,
            !old(self)@.emergency_shutdown ==> {
                let new_temp = old(self)@.core_temp + temp_delta_spec(
                    old(self)@.control_rods as int,
                    old(self)@.coolant_flow as int,
                );
                &&& final(self)@.power_output == power_spec(
                    old(self)@.control_rods as int,
                    old(self)@.coolant_flow as int,
                )
                &&& final(self)@.core_temp == new_temp
                &&& final(self)@.pressure == pressure_spec(new_temp)
                &&& final(self)@.coolant_flow == old(self)@.coolant_flow
                &&& final(self)@.emergency_shutdown == trips(
                    new_temp,
                    pressure_spec(new_temp),
                    old(self)@.coolant_flow as int,
                )
                &&& (final(self)@.emergency_shutdown ==> final(self)@.control_rods == PCT_MAX)
                &&& (!final(self)@.emergency_shutdown ==> final(self)@.control_rods == old(
                    self,
                )@.control_rods)
            },
    {
        if !self.status.emergency_shutdown {
            let ghost pre = self@;
            self.calculate_power();
            self.update_temperature();
            proof {
                lemma_heat_exact(pre.control_rods as int, pre.coolant_flow as int);
            }
            self.update_pressure();
            return self.check_safety_systems();
        }
        false
    }

    /// Read-only snapshot of the state.
    pub fn get_status(&self) -> (r: &ReactorStatus)
        ensures
            *r == self@,
    {
        &self.status
    }
}

} // verus!
