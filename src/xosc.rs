//! Crystal oscillator (XOSC) life cycle and start-up arithmetic.
use core::convert::Infallible;
use fugit::HertzU32;
use nb::Error as NbError;
use vstd::prelude::*;

use crate::typelevel::Sealed;

verus! {

/// Lowest crystal frequency the oscillator accepts, in hertz.
pub const MIN_FREQUENCY_HZ: u32 = 1_000_000;

/// Highest crystal frequency the oscillator accepts, in hertz.
pub const MAX_FREQUENCY_HZ: u32 = 15_000_000;

/// Longest start-up delay that may be requested, in milliseconds.
pub const MAX_STABLE_DELAY_MILLIS: u32 = 1000;

/// Value that, written to the DORMANT register, stops the oscillator until
/// a wake-up event.
pub const XOSC_DORMANT_VALUE: u32 = 0x636f_6d61;

/// The STABLE flag of the STATUS register.
pub const STATUS_STABLE: u32 = 0x8000_0000;

/// The XOSC register block, as the values last written to its writable
/// registers. This is the raw peripheral that a [`CrystalOscillator`] owns.
pub struct Xosc {
    /// CTRL.FREQ_RANGE selects the 1-15 MHz band.
    pub freq_range_1_15mhz: bool,
    /// CTRL.ENABLE: the oscillator is switched on.
    pub enabled: bool,
    /// STARTUP.DELAY: cycles to wait before the output counts as stable, in
    /// units of 256 crystal cycles.
    pub startup_delay: u16,
    /// Last value written to DORMANT.
    pub dormant: u32,
}

/// Where in its life cycle an oscillator stands, with the frequency it was
/// initialized with once it has one.
pub enum Phase {
    /// Switched off; may be initialized.
    Disabled,
    /// Enabled and counting down its start-up delay.
    Initialized { frequency: u32 },
    /// Seen stable; its output may be used.
    Stable { frequency: u32 },
    /// Stopped until a wake-up event.
    Dormant,
}

impl Phase {
    /// The frequency carried by an initialized or stable oscillator.
    pub open spec fn frequency(self) -> u32 {
        match self {
            Phase::Initialized { frequency } => frequency,
            Phase::Stable { frequency } => frequency,
            _ => 0,
        }
    }
}

/// What a controller is: the registers it owns and its phase.
pub struct OscillatorView {
    /// The register block.
    pub device: Xosc,
    /// The typestate, with its data.
    pub phase: Phase,
}

/// State of the crystal oscillator (typestate trait).
pub trait State: Sealed {
    /// The phase this marker stands for.
    spec fn phase(&self) -> Phase;
}

/// XOSC is disabled (typestate).
pub struct Disabled;

/// XOSC is initialized with a frequency and a start-up delay (typestate).
pub struct Initialized {
    freq_hz: u32,
}

/// XOSC output is stable (typestate).
pub struct Stable {
    freq_hz: u32,
}

/// XOSC is in dormant mode (typestate).
pub struct Dormant;

impl Initialized {
    #[verifier::type_invariant]
    closed spec fn inv(self) -> bool {
        frequency_in_range(self.freq_hz)
    }
}

impl Stable {
    #[verifier::type_invariant]
    closed spec fn inv(self) -> bool {
        frequency_in_range(self.freq_hz)
    }
}

impl Sealed for Disabled {}

impl Sealed for Initialized {}

impl Sealed for Stable {}

impl Sealed for Dormant {}

impl State for Disabled {
    open spec fn phase(&self) -> Phase {
        Phase::Disabled
    }
}

impl State for Initialized {
    closed spec fn phase(&self) -> Phase {
        Phase::Initialized { frequency: self.freq_hz }
    }
}

impl State for Stable {
    closed spec fn phase(&self) -> Phase {
        Phase::Stable { frequency: self.freq_hz }
    }
}

impl State for Dormant {
    open spec fn phase(&self) -> Phase {
        Phase::Dormant
    }
}

/// Possible errors when initializing the crystal oscillator.
#[derive(Debug, Clone, Copy, PartialEq, Eq, Structural)]
pub enum Error {
    /// Frequency is outside the 1-15 MHz range.
    FrequencyOutOfRange,
    /// The start-up delay is zero or longer than a second.
    BadArgument,
}

/// The frequency lies in the band that the oscillator supports.
pub open spec fn frequency_in_range(frequency: u32) -> bool {
    MIN_FREQUENCY_HZ <= frequency <= MAX_FREQUENCY_HZ
}

/// The start-up delay lies in `1..=1000` milliseconds.
pub open spec fn delay_in_range(stable_delay_millis: u32) -> bool {
    1 <= stable_delay_millis <= MAX_STABLE_DELAY_MILLIS
}

/// Why a request to initialize is refused, if it is; the frequency is
/// checked first.
pub open spec fn init_error(frequency: u32, stable_delay_millis: u32) -> Option<Error> {
    if !frequency_in_range(frequency) {
        Some(Error::FrequencyOutOfRange)
    } else if !delay_in_range(stable_delay_millis) {
        Some(Error::BadArgument)
    } else {
        None
    }
}

/// Start-up delay count: the frequency in whole kilohertz times the delay in
/// milliseconds, in units of 256 crystal cycles, truncated.
pub open spec fn startup_delay_count(frequency: u32, stable_delay_millis: u32) -> int {
    (frequency as int / 1000) * stable_delay_millis as int / 256
}

/// The STATUS register value has its STABLE flag set.
pub open spec fn status_is_stable(status: u32) -> bool {
    status & STATUS_STABLE != 0
}

/// The controller after `initialize`: on success the control register selects
/// the 1-15 MHz band and enables the oscillator, and the start-up register
/// holds the delay count.
pub open spec fn spec_initialize(
    v: OscillatorView,
    frequency: u32,
    stable_delay_millis: u32,
) -> Result<OscillatorView, Error> {
    match init_error(frequency, stable_delay_millis) {
        Some(e) => Err(e),
        None => Ok(OscillatorView {
            device: Xosc {
                freq_range_1_15mhz: true,
                enabled: true,
                startup_delay: startup_delay_count(frequency, stable_delay_millis) as u16,
                dormant: v.device.dormant,
            },
            phase: Phase::Initialized { frequency },
        }),
    }
}

/// The controller after `get_stable`: registers untouched, frequency carried.
pub open spec fn spec_get_stable(v: OscillatorView) -> OscillatorView {
    OscillatorView { device: v.device, phase: Phase::Stable { frequency: v.phase.frequency() } }
}

/// The controller after `disable`: only the enable bit changes.
pub open spec fn spec_disable(v: OscillatorView) -> OscillatorView {
    OscillatorView {
        device: Xosc {
            freq_range_1_15mhz: v.device.freq_range_1_15mhz,
            enabled: false,
            startup_delay: v.device.startup_delay,
            dormant: v.device.dormant,
        },
        phase: Phase::Disabled,
    }
}

/// The controller after `dormant`: the dormant value is written.
pub open spec fn spec_dormant(v: OscillatorView) -> OscillatorView {
    OscillatorView {
        device: Xosc {
            freq_range_1_15mhz: v.device.freq_range_1_15mhz,
            enabled: v.device.enabled,
            startup_delay: v.device.startup_delay,
            dormant: XOSC_DORMANT_VALUE,
        },
        phase: Phase::Dormant,
    }
}

/// Relies on `fugit::Rate::to_kHz` for a `HertzU32`: the rate in whole
/// kilohertz, which for a rate counted in hertz is the raw value divided by
/// 1000 and truncated.
#[verifier::external_body]
fn hertz_to_khz(frequency: u32) -> (r: u32)
    ensures
        r == frequency / 1000,
{
    HertzU32::from_raw(frequency).to_kHz()
}

/// Checks a request and computes the start-up delay count for it.
///
/// The frequency is turned into kilohertz before it is multiplied by the
/// delay, so the product stays within `15_000 * 1000` and fits a `u32`.
pub fn compute_startup_delay(frequency: u32, stable_delay_millis: u32) -> (r: Result<
    u16,
    Error,
>)
    ensures
        match r {
            Ok(count) => init_error(frequency, stable_delay_millis) is None
                && count == startup_delay_count(frequency, stable_delay_millis),
            Err(e) => init_error(frequency, stable_delay_millis) == Some(e),
        },
{
    if frequency < MIN_FREQUENCY_HZ || frequency > MAX_FREQUENCY_HZ {
        return Err(Error::FrequencyOutOfRange);
    }
    if stable_delay_millis == 0 || stable_delay_millis > MAX_STABLE_DELAY_MILLIS {
        return Err(Error::BadArgument);
    }
    let khz = hertz_to_khz(frequency);
    proof {
        lemma_startup_delay_fits(frequency, stable_delay_millis);
    }
    let count = khz * stable_delay_millis / 256;
    Ok(count as u16)
}

/// Relies on `nb::Error::WouldBlock`: the error that tells a poller the
/// operation is not done yet and must be tried again.
#[verifier::external_body]
fn would_block() -> NbError<Infallible> {
    NbError::WouldBlock
}

#[verifier::external_type_specification]
#[verifier::external_body]
#[verifier::reject_recursive_types(E)]
pub struct ExNbError<E>(NbError<E>);

/// A crystal oscillator.
pub struct CrystalOscillator<S: State> {
    device: Xosc,
    state: S,
}

impl<S: State> View for CrystalOscillator<S> {
    type V = OscillatorView;

    closed spec fn view(&self) -> OscillatorView {
        OscillatorView { device: self.device, phase: self.state.phase() }
    }
}

impl<S: State> CrystalOscillator<S> {
    /// Transitions the oscillator to another state.
    fn transition<To: State>(self, state: To) -> (r: CrystalOscillator<To>)
        ensures
            r@ == (OscillatorView { device: self@.device, phase: state.phase() }),
    {
        CrystalOscillator { device: self.device, state }
    }

    /// Releases the underlying device.
    pub fn free(self) -> (r: Xosc)
        ensures
            r == self@.device,
    {
        self.device
    }
}

impl CrystalOscillator<Disabled> {
    /// Creates a new, disabled controller from the underlying device.
    pub fn new(dev: Xosc) -> (r: Self)
        ensures
            r@ == (OscillatorView { device: dev, phase: Phase::Disabled }),
    {
        CrystalOscillator { device: dev, state: Disabled }
    }

    /// Initializes the XOSC: the frequency range is selected, the start-up
    /// delay is computed and written, and the oscillator is enabled.
    ///
    /// - `frequency` (in hertz) must be between 1 MHz and 15 MHz;
    /// - `stable_delay_millis` must be in `1..=1000` and is the time to wait
    ///   before the crystal reaches a stable and high enough amplitude.
    ///
    /// Both are checked before any register is written.
    pub fn initialize(self, frequency: u32, stable_delay_millis: u32) -> (r: Result<
        CrystalOscillator<Initialized>,
        Error,
    >)
        ensures
            match r {
                Ok(c) => spec_initialize(self@, frequency, stable_delay_millis)
                    == Ok::<OscillatorView, Error>(c@),
                Err(e) => spec_initialize(self@, frequency, stable_delay_millis)
                    == Err::<OscillatorView, Error>(e),
            },
    {
        let startup_delay = match compute_startup_delay(frequency, stable_delay_millis) {
            Ok(count) => count,
            Err(e) => return Err(e),
        };
        let mut osc = self;
        osc.device.freq_range_1_15mhz = true;
        osc.device.enabled = true;
        osc.device.startup_delay = startup_delay;
        Ok(osc.transition(Initialized { freq_hz: frequency }))
    }
}

/// Handed out once the oscillator has been seen stable; exchanged for a
/// stable controller.
pub struct StableOscillatorToken {
    _private: (),
}

impl CrystalOscillator<Initialized> {
    /// Polls for the end of the start-up delay, given the value read from the
    /// STATUS register: a token once its STABLE flag is set, `WouldBlock`
    /// before.
    pub fn await_stabilization(&self, status: u32) -> (r: Result<
        StableOscillatorToken,
        NbError<Infallible>,
    >)
        ensures
            r is Ok <==> status_is_stable(status),
    {
        if status & STATUS_STABLE == 0 {
            return Err(would_block());
        }
        Ok(StableOscillatorToken { _private: () })
    }

    /// Returns the stabilized oscillator.
    pub fn get_stable(self, _token: StableOscillatorToken) -> (r: CrystalOscillator<Stable>)
        ensures
            r@ == spec_get_stable(self@),
    {
        proof {
            use_type_invariant(&self.state);
        }
        let freq_hz = self.state.freq_hz;
        self.transition(Stable { freq_hz })
    }
}

impl CrystalOscillator<Stable> {
    /// Operating frequency of the XOSC in hertz.
    pub fn operating_frequency(&self) -> (r: u32)
        ensures
            r == self@.phase.frequency(),
            frequency_in_range(r),
    {
        proof {
            use_type_invariant(&self.state);
        }
        self.state.freq_hz
    }

    /// Disables the XOSC.
    pub fn disable(self) -> (r: CrystalOscillator<Disabled>)
        ensures
            r@ == spec_disable(self@),
    {
        let mut osc = self;
        osc.device.enabled = false;
        osc.transition(Disabled)
    }

    /// Puts the XOSC in DORMANT state.
    ///
    /// Before this call the PLLs must be stopped and the wake-up interrupts
    /// configured; this method does none of that, it only writes the dormant
    /// value.
    pub fn dormant(self) -> (r: CrystalOscillator<Dormant>)
        ensures
            r@ == spec_dormant(self@),
    {
        let mut osc = self;
        osc.device.dormant = XOSC_DORMANT_VALUE;
        osc.transition(Dormant)
    }
}

/// For every accepted frequency and delay the start-up delay count is at most
/// the count for the largest of both, and that count fits a 16-bit register.
pub proof fn lemma_startup_delay_fits(frequency: u32, stable_delay_millis: u32)
    requires
        frequency_in_range(frequency),
        delay_in_range(stable_delay_millis),
    ensures
        (frequency as int / 1000) * stable_delay_millis as int
            <= (MAX_FREQUENCY_HZ as int / 1000) * MAX_STABLE_DELAY_MILLIS as int,
        startup_delay_count(frequency, stable_delay_millis)
            <= startup_delay_count(MAX_FREQUENCY_HZ, MAX_STABLE_DELAY_MILLIS),
        startup_delay_count(MAX_FREQUENCY_HZ, MAX_STABLE_DELAY_MILLIS) <= u16::MAX,
{
    let k = frequency as int / 1000;
    let d = stable_delay_millis as int;
    assert(k <= 15000);
    assert(k * d <= 15000 * 1000) by (nonlinear_arith)
        requires 0 <= k <= 15000, 1 <= d <= 1000;
    assert(k * d / 256 <= 15000 * 1000 / 256) by (nonlinear_arith)
        requires 0 <= k * d <= 15000 * 1000;
}

/// Initializing with an accepted frequency and delay succeeds on any
/// disabled oscillator, and once stable it reports exactly that frequency.
pub proof fn lemma_stable_frequency_is_requested(v: OscillatorView, frequency: u32, stable_delay_millis: u32)
    requires
        v.phase == Phase::Disabled,
        frequency_in_range(frequency),
        delay_in_range(stable_delay_millis),
    ensures
        match spec_initialize(v, frequency, stable_delay_millis) {
            Ok(w) => spec_get_stable(w).phase == (Phase::Stable { frequency }),
            Err(_) => false,
        },
{
}

/// Disabling a stable oscillator and initializing it again with any accepted
/// frequency and delay succeeds, whatever frequency it ran at before; the
/// registers then hold the new delay count, and the new frequency is the one
/// reported once stable again.
pub proof fn lemma_reinitialize_after_disable(v: OscillatorView, frequency: u32, stable_delay_millis: u32)
    requires
        v.phase is Stable,
        frequency_in_range(frequency),
        delay_in_range(stable_delay_millis),
    ensures
        match spec_initialize(spec_disable(v), frequency, stable_delay_millis) {
            Ok(w) => w.device.enabled
                && w.device.startup_delay == startup_delay_count(frequency, stable_delay_millis)
                && spec_get_stable(w).phase == (Phase::Stable { frequency }),
            Err(_) => false,
        },
{
    lemma_startup_delay_fits(frequency, stable_delay_millis);
}

} // verus!
