//! From a wanted frequency and duty cycle to timer register values.
//!
//! The timer counts ticks of its clock, optionally divided by a power of two,
//! and starts over when it reaches the period. Two further compare values mark
//! where, inside one period, the two edges of the pulse fall. All arithmetic is
//! on integers and truncates.
use vstd::prelude::*;
use vstd::arithmetic::power2::pow2;

verus! {

/// Below this frequency the undivided period no longer fits in 16 bits.
pub const MIN_FREQUENCY_HZ_NO_PRESCALER: u32 = 245;

/// Prescaler exponent used below [`MIN_FREQUENCY_HZ_NO_PRESCALER`]: divide by 16.
pub const PRESCALER_LOW_FREQUENCY: u8 = 4;

/// Each bridge leg gets at most half of the period.
pub const MAX_DUTY_PERCENT: u32 = 50;

/// Widest period the configuration can hold, whatever the timer's width.
pub const MAX_PERIOD_TICKS: u32 = 0xffff;

/// Why a tone cannot be configured.
#[derive(Clone, Copy, Debug, PartialEq, Eq, Structural)]
pub enum ConfigError {
    /// The frequency is zero, or the duty cycle is zero or above 50 percent.
    InvalidInput,
    /// The period does not fit the timer, or is too short to hold a pulse.
    FrequencyTooLow,
}

/// What the caller asks for.
#[derive(Clone, Copy, Debug, PartialEq, Eq, Structural)]
pub struct ToneRequest {
    pub frequency_hz: u32,
    pub duty_percent: u32,
}

/// Register values for one tone, as mathematical integers.
pub ghost struct TimerConfigView {
    pub prescaler_exponent: int,
    pub period_ticks: int,
    pub compare_rising: int,
    pub compare_falling: int,
}

/// Register values for one tone.
///
/// A value of this type always has `compare_rising < compare_falling <
/// period_ticks` and a prescaler exponent of 0 or 4.
#[derive(Clone, Copy, Debug)]
pub struct TimerConfig {
    prescaler_exponent: u8,
    period_ticks: u16,
    compare_rising: u16,
    compare_falling: u16,
}

impl TimerConfigView {
    /// The values fit their registers and follow each other in order: a
    /// prescaler exponent of 0 or 4, and `0 <= compare_rising <
    /// compare_falling < period_ticks <= 0xffff`.
    pub open spec fn fits_registers(self) -> bool {
        &&& self.prescaler_exponent == 0 || self.prescaler_exponent == 4
        &&& 0 <= self.compare_rising < self.compare_falling < self.period_ticks <= 0xffff
    }
}

/// A request is acceptable when the frequency is positive and the duty cycle
/// lies in `(0, 50]`.
pub open spec fn request_valid(frequency_hz: int, duty_percent: int) -> bool {
    frequency_hz > 0 && 0 < duty_percent <= 50
}

/// The prescaler exponent for a frequency: 4 below 245 Hz, else 0.
pub open spec fn prescaler_exponent_for(frequency_hz: int) -> int {
    if frequency_hz < 245 {
        4
    } else {
        0
    }
}

/// By how much the timer clock is divided to get one period: the frequency,
/// shifted left by the prescaler exponent.
pub open spec fn clock_divisor(frequency_hz: int) -> int {
    if frequency_hz < 245 {
        frequency_hz * 16
    } else {
        frequency_hz
    }
}

/// Ticks in one period, truncated.
pub open spec fn period_for(frequency_hz: int, timer_clock_hz: int) -> int {
    timer_clock_hz / clock_divisor(frequency_hz)
}

/// Ticks of one period during which a leg is driven, truncated.
pub open spec fn pulse_ticks(period_ticks: int, duty_percent: int) -> int {
    (period_ticks * duty_percent) / 100
}

/// Largest period a timer of the given width can count to. The configuration
/// holds 16 bits, so a wider timer gains nothing.
pub open spec fn max_period(timer_bit_width: int) -> int {
    if timer_bit_width >= 16 {
        0xffff
    } else if timer_bit_width <= 0 {
        0
    } else {
        pow2(timer_bit_width as nat) - 1
    }
}

/// A period is usable when it fits the timer and leaves room for a pulse of at
/// least one tick, so that the rising compare value does not fall below zero.
pub open spec fn period_usable(period_ticks: int, duty_percent: int, timer_bit_width: int) -> bool {
    period_ticks <= max_period(timer_bit_width) && pulse_ticks(period_ticks, duty_percent) >= 1
}

/// The register values for a period and a duty cycle under a prescaler.
pub open spec fn config_for(prescaler_exponent: int, period_ticks: int, duty_percent: int)
    -> TimerConfigView {
    TimerConfigView {
        prescaler_exponent,
        period_ticks,
        compare_rising: pulse_ticks(period_ticks, duty_percent) - 1,
        compare_falling: period_ticks - pulse_ticks(period_ticks, duty_percent),
    }
}

/// What [`compute_timer_config`] returns, as a function of its arguments.
pub open spec fn timer_config_spec(
    frequency_hz: int,
    duty_percent: int,
    timer_clock_hz: int,
    timer_bit_width: int,
) -> Result<TimerConfigView, ConfigError> {
    let period = period_for(frequency_hz, timer_clock_hz);
    if !request_valid(frequency_hz, duty_percent) {
        Err(ConfigError::InvalidInput)
    } else if !period_usable(period, duty_percent, timer_bit_width) {
        Err(ConfigError::FrequencyTooLow)
    } else {
        Ok(config_for(prescaler_exponent_for(frequency_hz), period, duty_percent))
    }
}

/// The view of a result of [`compute_timer_config`].
pub open spec fn result_view(result: Result<TimerConfig, ConfigError>) -> Result<
    TimerConfigView,
    ConfigError,
> {
    match result {
        Ok(config) => Ok(config@),
        Err(e) => Err(e),
    }
}

impl TimerConfig {
    #[verifier::type_invariant]
    spec fn well_formed(&self) -> bool {
        &&& self.prescaler_exponent == 0 || self.prescaler_exponent == 4
        &&& self.compare_rising < self.compare_falling
        &&& self.compare_falling < self.period_ticks
    }

    /// The register values as integers.
    pub closed spec fn view(&self) -> TimerConfigView {
        TimerConfigView {
            prescaler_exponent: self.prescaler_exponent as int,
            period_ticks: self.period_ticks as int,
            compare_rising: self.compare_rising as int,
            compare_falling: self.compare_falling as int,
        }
    }

    /// Power of two by which the timer clock is divided.
    pub fn prescaler_exponent(&self) -> (e: u8)
        ensures
            e == self@.prescaler_exponent,
            e == 0 || e == 4,
    {
        proof {
            use_type_invariant(self);
        }
        self.prescaler_exponent
    }

    /// Ticks after which the timer starts over.
    pub fn period_ticks(&self) -> (p: u16)
        ensures
            p == self@.period_ticks,
            self@.compare_falling < p,
    {
        proof {
            use_type_invariant(self);
        }
        self.period_ticks
    }

    /// Tick at which the pulse's first edge falls.
    pub fn compare_rising(&self) -> (c: u16)
        ensures
            c == self@.compare_rising,
            c < self@.compare_falling,
    {
        proof {
            use_type_invariant(self);
        }
        self.compare_rising
    }

    /// Tick at which the pulse's second edge falls.
    pub fn compare_falling(&self) -> (c: u16)
        ensures
            c == self@.compare_falling,
            self@.compare_rising < c < self@.period_ticks,
    {
        proof {
            use_type_invariant(self);
        }
        self.compare_falling
    }
}

impl ToneRequest {
    /// Derives the timer register values for this request, as
    /// [`compute_timer_config`] does.
    pub fn timer_config(&self, timer_clock_hz: u32, timer_bit_width: u32) -> (result: Result<
        TimerConfig,
        ConfigError,
    >)
        ensures
            result_view(result) == timer_config_spec(
                self.frequency_hz as int,
                self.duty_percent as int,
                timer_clock_hz as int,
                timer_bit_width as int,
            ),
    {
        compute_timer_config(self.frequency_hz, self.duty_percent, timer_clock_hz, timer_bit_width)
    }
}

/// The truncating quotient never exceeds the dividend's share: a pulse of at
/// most half the duty fits twice into its period.
proof fn lemma_pulse_bounds(period_ticks: int, duty_percent: int)
    requires
        0 <= period_ticks,
        0 < duty_percent <= 50,
    ensures
        0 <= pulse_ticks(period_ticks, duty_percent),
        2 * pulse_ticks(period_ticks, duty_percent) <= period_ticks,
        100 * pulse_ticks(period_ticks, duty_percent) <= period_ticks * duty_percent,
        period_ticks * duty_percent < 100 * pulse_ticks(period_ticks, duty_percent) + 100,
{
    let product = period_ticks * duty_percent;
    assert(0 <= product <= period_ticks * 50) by (nonlinear_arith)
        requires
            0 <= period_ticks,
            0 < duty_percent <= 50,
            product == period_ticks * duty_percent,
    ;
    vstd::arithmetic::div_mod::lemma_fundamental_div_mod(product, 100);
    vstd::arithmetic::div_mod::lemma_mod_bound(product, 100);
}

/// Largest period a timer of the given width can count to.
pub fn max_period_ticks(timer_bit_width: u32) -> (limit: u32)
    ensures
        limit == max_period(timer_bit_width as int),
        limit <= MAX_PERIOD_TICKS,
{
    if timer_bit_width >= 16 {
        MAX_PERIOD_TICKS
    } else {
        proof {
            vstd::arithmetic::power2::lemma2_to64();
            if timer_bit_width < 15 {
                vstd::arithmetic::power2::lemma_pow2_strictly_increases(
                    timer_bit_width as nat,
                    15,
                );
            }
            vstd::bits::lemma_u32_shl_is_mul(1, timer_bit_width);
        }
        (1u32 << timer_bit_width) - 1
    }
}

/// Derives the timer register values for a tone.
///
/// Rejects a zero frequency and a duty cycle outside `(0, 50]` as
/// [`ConfigError::InvalidInput`]. Otherwise divides the timer clock by the
/// frequency, shifted left by four below 245 Hz, and rejects as
/// [`ConfigError::FrequencyTooLow`] a period that exceeds what a timer of
/// `timer_bit_width` bits can count, or one too short to hold a pulse of one
/// tick. The falling edge sits at the period less the pulse, the rising edge
/// one tick before the pulse's length.
pub fn compute_timer_config(
    frequency_hz: u32,
    duty_percent: u32,
    timer_clock_hz: u32,
    timer_bit_width: u32,
) -> (result: Result<TimerConfig, ConfigError>)
    ensures
        result_view(result) == timer_config_spec(
            frequency_hz as int,
            duty_percent as int,
            timer_clock_hz as int,
            timer_bit_width as int,
        ),
{
    if frequency_hz == 0 || duty_percent == 0 || duty_percent > MAX_DUTY_PERCENT {
        return Err(ConfigError::InvalidInput);
    }
    let low = frequency_hz < MIN_FREQUENCY_HZ_NO_PRESCALER;
    let prescaler_exponent: u8 = if low {
        PRESCALER_LOW_FREQUENCY
    } else {
        0
    };
    let divisor: u32 = if low {
        assert(frequency_hz << 4u32 == frequency_hz * 16) by (bit_vector)
            requires
                frequency_hz < 245,
        ;
        frequency_hz << 4u32
    } else {
        frequency_hz
    };
    let period: u32 = timer_clock_hz / divisor;
    if period > max_period_ticks(timer_bit_width) {
        return Err(ConfigError::FrequencyTooLow);
    }
    proof {
        lemma_pulse_bounds(period as int, duty_percent as int);
    }
    let pulse: u32 = period * duty_percent / 100;
    if pulse == 0 {
        return Err(ConfigError::FrequencyTooLow);
    }
    Ok(
        TimerConfig {
            prescaler_exponent,
            period_ticks: period as u16,
            compare_rising: (pulse - 1) as u16,
            compare_falling: (period - pulse) as u16,
        },
    )
}

/// The prescaler is chosen by the frequency alone: none from 245 Hz on, sixteen
/// below, and a configuration that was computed carries that choice.
pub proof fn lemma_prescaler_threshold(
    frequency_hz: int,
    duty_percent: int,
    timer_clock_hz: int,
    timer_bit_width: int,
)
    requires
        frequency_hz >= 1,
    ensures
        frequency_hz >= 245 ==> prescaler_exponent_for(frequency_hz) == 0,
        frequency_hz < 245 ==> prescaler_exponent_for(frequency_hz) == 4,
        timer_config_spec(frequency_hz, duty_percent, timer_clock_hz, timer_bit_width) matches Ok(
            config,
        ) ==> config.prescaler_exponent == prescaler_exponent_for(frequency_hz),
{
}

/// In every configuration that is computed the rising edge comes before the
/// falling edge, and both come before the period ends.
pub proof fn lemma_compare_order(
    frequency_hz: int,
    duty_percent: int,
    timer_clock_hz: int,
    timer_bit_width: int,
)
    requires
        0 <= timer_clock_hz,
        timer_config_spec(frequency_hz, duty_percent, timer_clock_hz, timer_bit_width) is Ok,
    ensures
        ({
            let config = timer_config_spec(
                frequency_hz,
                duty_percent,
                timer_clock_hz,
                timer_bit_width,
            )->Ok_0;
            0 <= config.compare_rising < config.compare_falling < config.period_ticks
        }),
{
    let period = period_for(frequency_hz, timer_clock_hz);
    lemma_period_nonnegative(frequency_hz, timer_clock_hz);
    lemma_pulse_bounds(period, duty_percent);
}

/// The pulse that a computed configuration encodes, the ticks from the rising
/// compare value's successor up to the period less the falling compare value,
/// is the requested share of the period rounded down: it falls short of
/// `period * duty / 100` by less than one tick. The two compare values lie
/// `period - 2 * pulse + 1` ticks apart.
pub proof fn lemma_pulse_within_one_tick(
    frequency_hz: int,
    duty_percent: int,
    timer_clock_hz: int,
    timer_bit_width: int,
)
    requires
        0 <= timer_clock_hz,
        timer_config_spec(frequency_hz, duty_percent, timer_clock_hz, timer_bit_width) is Ok,
    ensures
        ({
            let config = timer_config_spec(
                frequency_hz,
                duty_percent,
                timer_clock_hz,
                timer_bit_width,
            )->Ok_0;
            let pulse = config.compare_rising + 1;
            &&& pulse == config.period_ticks - config.compare_falling
            &&& 100 * pulse <= config.period_ticks * duty_percent < 100 * (pulse + 1)
            &&& config.compare_falling - config.compare_rising == config.period_ticks - 2 * pulse
                + 1
        }),
{
    let period = period_for(frequency_hz, timer_clock_hz);
    lemma_period_nonnegative(frequency_hz, timer_clock_hz);
    lemma_pulse_bounds(period, duty_percent);
}

/// While the prescaler stays the same, a higher frequency never gives a
/// longer period.
pub proof fn lemma_period_monotonic(lower_hz: int, higher_hz: int, timer_clock_hz: int)
    requires
        1 <= lower_hz <= higher_hz,
        0 <= timer_clock_hz,
        prescaler_exponent_for(lower_hz) == prescaler_exponent_for(higher_hz),
    ensures
        period_for(higher_hz, timer_clock_hz) <= period_for(lower_hz, timer_clock_hz),
{
    vstd::arithmetic::div_mod::lemma_div_is_ordered_by_denominator(
        timer_clock_hz,
        clock_divisor(lower_hz),
        clock_divisor(higher_hz),
    );
}

/// Two results that both meet the contract of [`compute_timer_config`] for
/// the same arguments are the same result.
pub proof fn lemma_same_inputs_same_result(
    first: Result<TimerConfig, ConfigError>,
    second: Result<TimerConfig, ConfigError>,
    frequency_hz: int,
    duty_percent: int,
    timer_clock_hz: int,
    timer_bit_width: int,
)
    requires
        result_view(first) == timer_config_spec(
            frequency_hz,
            duty_percent,
            timer_clock_hz,
            timer_bit_width,
        ),
        result_view(second) == timer_config_spec(
            frequency_hz,
            duty_percent,
            timer_clock_hz,
            timer_bit_width,
        ),
    ensures
        first == second,
{
    match (first, second) {
        (Ok(a), Ok(b)) => {
            assert(a@ == b@);
            assert(a == b);
        },
        _ => {},
    }
}

/// A period too short for a pulse of one tick is rejected as too low a
/// frequency, and so is every period of fewer than two ticks.
pub proof fn lemma_short_period_rejected(
    frequency_hz: int,
    duty_percent: int,
    timer_clock_hz: int,
    timer_bit_width: int,
)
    requires
        request_valid(frequency_hz, duty_percent),
        0 <= timer_clock_hz,
        period_for(frequency_hz, timer_clock_hz) * duty_percent < 100 || period_for(
            frequency_hz,
            timer_clock_hz,
        ) < 2,
    ensures
        timer_config_spec(frequency_hz, duty_percent, timer_clock_hz, timer_bit_width) == Err::<
            TimerConfigView,
            ConfigError,
        >(ConfigError::FrequencyTooLow),
{
    let period = period_for(frequency_hz, timer_clock_hz);
    lemma_period_nonnegative(frequency_hz, timer_clock_hz);
    lemma_pulse_bounds(period, duty_percent);
    assert(period < 2 ==> period * duty_percent < 100) by (nonlinear_arith)
        requires
            0 <= period,
            0 < duty_percent <= 50,
    ;
}

/// A clock that does not run backwards gives no negative period.
proof fn lemma_period_nonnegative(frequency_hz: int, timer_clock_hz: int)
    requires
        1 <= frequency_hz,
        0 <= timer_clock_hz,
    ensures
        0 <= period_for(frequency_hz, timer_clock_hz),
{
    vstd::arithmetic::div_mod::lemma_div_pos_is_pos(timer_clock_hz, clock_divisor(frequency_hz));
}

/// Every configuration that is computed fits the registers it is written to.
pub proof fn lemma_computed_fits_registers(
    frequency_hz: int,
    duty_percent: int,
    timer_clock_hz: int,
    timer_bit_width: int,
)
    requires
        0 <= timer_clock_hz,
        timer_config_spec(frequency_hz, duty_percent, timer_clock_hz, timer_bit_width) is Ok,
    ensures
        timer_config_spec(
            frequency_hz,
            duty_percent,
            timer_clock_hz,
            timer_bit_width,
        )->Ok_0.fits_registers(),
{
    lemma_compare_order(frequency_hz, duty_percent, timer_clock_hz, timer_bit_width);
    if 0 < timer_bit_width < 16 {
        vstd::arithmetic::power2::lemma2_to64();
        vstd::arithmetic::power2::lemma_pow2_strictly_increases(timer_bit_width as nat, 16);
    }
}

/// How far apart the two compare values lie, against the requested share of
/// the period. The distance is `period - 2 * pulse + 1` ticks, so it comes
/// within one tick of `period * duty / 100` only where three pulses nearly
/// fill the period: exactly when `0 <= period * (3 * duty - 100) - 2 *
/// ((period * duty) % 100) <= 200`, and never for a duty of 33 percent or
/// less.
pub proof fn lemma_edge_distance_near_share(
    frequency_hz: int,
    duty_percent: int,
    timer_clock_hz: int,
    timer_bit_width: int,
)
    requires
        0 <= timer_clock_hz,
        timer_config_spec(frequency_hz, duty_percent, timer_clock_hz, timer_bit_width) is Ok,
    ensures
        ({
            let config = timer_config_spec(
                frequency_hz,
                duty_percent,
                timer_clock_hz,
                timer_bit_width,
            )->Ok_0;
            let period = config.period_ticks;
            let distance = config.compare_falling - config.compare_rising;
            let near = -100 <= 100 * distance - period * duty_percent <= 100;
            &&& near <==> 0 <= period * (3 * duty_percent - 100) - 2 * ((period * duty_percent)
                % 100) <= 200
            &&& duty_percent <= 33 ==> !near
        }),
{
    let period = period_for(frequency_hz, timer_clock_hz);
    let product = period * duty_percent;
    lemma_period_nonnegative(frequency_hz, timer_clock_hz);
    lemma_pulse_bounds(period, duty_percent);
    vstd::arithmetic::div_mod::lemma_fundamental_div_mod(product, 100);
    vstd::arithmetic::div_mod::lemma_mod_bound(product, 100);
    assert(period * (3 * duty_percent - 100) == 3 * product - 100 * period) by (nonlinear_arith)
        requires
            product == period * duty_percent,
    ;
    assert(duty_percent <= 33 ==> 3 * product <= 99 * period) by (nonlinear_arith)
        requires
            product == period * duty_percent,
            0 <= period,
    ;
}

} // verus!
