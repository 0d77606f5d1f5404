use rp2040_xosc::xosc::{STATUS_STABLE, XOSC_DORMANT_VALUE};
use rp2040_xosc::{compute_startup_delay, CrystalOscillator, Error, Xosc};

fn reset_device() -> Xosc {
    Xosc { freq_range_1_15mhz: false, enabled: false, startup_delay: 0, dormant: 0 }
}

fn initialized(
    frequency: u32,
    millis: u32,
) -> Result<CrystalOscillator<rp2040_xosc::Initialized>, Error> {
    CrystalOscillator::new(reset_device()).initialize(frequency, millis)
}

#[test]
fn frequency_out_of_range_is_rejected() {
    for f in [0u32, 1, 999_999, 15_000_001, 20_000_000, u32::MAX] {
        for d in [1u32, 500, 1000] {
            assert_eq!(compute_startup_delay(f, d), Err(Error::FrequencyOutOfRange));
            assert!(matches!(initialized(f, d), Err(Error::FrequencyOutOfRange)));
        }
    }
}

#[test]
fn bad_delay_is_rejected() {
    for f in [1_000_000u32, 12_000_000, 15_000_000] {
        for d in [0u32, 1001, 5000, u32::MAX] {
            assert_eq!(compute_startup_delay(f, d), Err(Error::BadArgument));
            assert!(matches!(initialized(f, d), Err(Error::BadArgument)));
        }
    }
}

#[test]
fn frequency_is_checked_before_delay() {
    assert_eq!(compute_startup_delay(0, 0), Err(Error::FrequencyOutOfRange));
    assert!(matches!(initialized(16_000_000, 2000), Err(Error::FrequencyOutOfRange)));
}

#[test]
fn startup_delay_uses_whole_kilohertz() {
    assert_eq!(compute_startup_delay(12_000_000, 100), Ok(4687));
    assert_eq!(compute_startup_delay(1_000_000, 1), Ok(3));
    assert_eq!(compute_startup_delay(1_000_999, 256), Ok(1000));
    assert_eq!(compute_startup_delay(12_000_000, 1000), Ok(46875));
}

#[test]
fn largest_request_fits_the_register() {
    assert_eq!(compute_startup_delay(15_000_000, 1000), Ok(58593));
    let osc = initialized(15_000_000, 1000).unwrap();
    let dev = osc.free();
    assert_eq!(dev.startup_delay, 58593);
}

#[test]
fn initialize_programs_the_registers() {
    let osc = CrystalOscillator::new(Xosc {
        freq_range_1_15mhz: false,
        enabled: false,
        startup_delay: 7,
        dormant: 42,
    })
    .initialize(12_000_000, 100)
    .unwrap();
    let dev = osc.free();
    assert!(dev.freq_range_1_15mhz);
    assert!(dev.enabled);
    assert_eq!(dev.startup_delay, 4687);
    assert_eq!(dev.dormant, 42);
}

#[test]
fn poll_waits_for_the_stable_flag() {
    let osc = initialized(10_000_000, 500).unwrap();
    assert!(matches!(osc.await_stabilization(0), Err(nb::Error::WouldBlock)));
    assert!(matches!(osc.await_stabilization(0x0000_1aa0), Err(nb::Error::WouldBlock)));
    assert!(matches!(osc.await_stabilization(0x7fff_ffff), Err(nb::Error::WouldBlock)));
    assert!(osc.await_stabilization(STATUS_STABLE).is_ok());
    assert!(osc.await_stabilization(u32::MAX).is_ok());
}

#[test]
fn scenario_ten_megahertz() {
    let osc = initialized(10_000_000, 500).unwrap();
    assert!(matches!(osc.await_stabilization(0), Err(nb::Error::WouldBlock)));
    let token = match osc.await_stabilization(STATUS_STABLE | 0x1000) {
        Ok(token) => token,
        Err(_) => panic!("stable flag set, yet the poll blocked"),
    };
    let stable = osc.get_stable(token);
    assert_eq!(stable.operating_frequency(), 10_000_000);
    let dev = stable.free();
    assert_eq!(dev.startup_delay, 19531);
    assert!(dev.enabled);
}

#[test]
fn disable_then_initialize_with_another_frequency() {
    let osc = initialized(10_000_000, 500).unwrap();
    let token = osc.await_stabilization(STATUS_STABLE).ok().unwrap();
    let stable = osc.get_stable(token);
    assert_eq!(stable.operating_frequency(), 10_000_000);
    let disabled = stable.disable();
    let again = disabled.initialize(12_000_000, 100).unwrap();
    let token = again.await_stabilization(STATUS_STABLE).ok().unwrap();
    let stable = again.get_stable(token);
    assert_eq!(stable.operating_frequency(), 12_000_000);
    assert_eq!(stable.free().startup_delay, 4687);
}

#[test]
fn disable_clears_only_the_enable_bit() {
    let osc = initialized(1_000_000, 1).unwrap();
    let token = osc.await_stabilization(STATUS_STABLE).ok().unwrap();
    let dev = osc.get_stable(token).disable().free();
    assert!(!dev.enabled);
    assert!(dev.freq_range_1_15mhz);
    assert_eq!(dev.startup_delay, 3);
}

#[test]
fn dormant_writes_the_dormant_value() {
    let osc = initialized(12_000_000, 100).unwrap();
    let token = osc.await_stabilization(STATUS_STABLE).ok().unwrap();
    let dev = osc.get_stable(token).dormant().free();
    assert_eq!(dev.dormant, XOSC_DORMANT_VALUE);
    assert_eq!(dev.dormant, 0x636f6d61);
    assert!(dev.enabled);
}

#[test]
fn new_then_free_returns_the_device_untouched() {
    let dev = CrystalOscillator::new(Xosc {
        freq_range_1_15mhz: true,
        enabled: false,
        startup_delay: 123,
        dormant: 9,
    })
    .free();
    assert!(dev.freq_range_1_15mhz);
    assert!(!dev.enabled);
    assert_eq!(dev.startup_delay, 123);
    assert_eq!(dev.dormant, 9);
}
