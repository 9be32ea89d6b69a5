use aquarium_monitor::air::bubbles_on;
use aquarium_monitor::display::DisplayMultiplexer;
use aquarium_monitor::display_controller::{DisplayController, DisplayMode};
use aquarium_monitor::ph::adc_to_ph;
use aquarium_monitor::sensor_manager::{SensorAction, SensorManager, SensorState, SensorValues};

#[test]
fn scheduler_temperature_sequence() {
    let mut m = SensorManager::new();
    assert_eq!(m.state(), SensorState::Idle);
    let ph = m.values.ph;
    assert_eq!(m.update(0, false), SensorAction::StartTemperatureConversion);
    assert_eq!(m.state(), SensorState::TemperatureConverting(0));
    assert_eq!(m.values.ph, ph);
    assert_eq!(m.update(700, false), SensorAction::Wait);
    assert_eq!(m.state(), SensorState::TemperatureConverting(0));
    assert_eq!(m.values.ph, ph);
    assert_eq!(m.update(760, false), SensorAction::Wait);
    assert_eq!(m.state(), SensorState::TemperatureReady);
    assert_eq!(m.values.ph, ph);
    assert_eq!(m.update(762, true), SensorAction::ReadTemperature);
    m.record_temperature(Some(231));
    assert_eq!(m.state(), SensorState::Idle);
    assert_eq!(m.values.temperature, 231);
    assert_eq!(m.values.ph, ph);
}

#[test]
fn scheduler_conversion_boundary() {
    let mut m = SensorManager::new();
    m.update(1000, false);
    assert_eq!(m.update(1749, false), SensorAction::Wait);
    assert_eq!(m.state(), SensorState::TemperatureConverting(1000));
    m.update(1750, false);
    assert_eq!(m.state(), SensorState::TemperatureReady);
}

#[test]
fn scheduler_failed_read_keeps_temperature() {
    let mut m = SensorManager::new();
    m.start_initial_temperature_reading();
    assert_eq!(m.state(), SensorState::TemperatureConverting(0));
    m.update(750, true);
    assert_eq!(m.update(752, true), SensorAction::ReadTemperature);
    m.record_temperature(None);
    assert_eq!(m.values, SensorValues { temperature: 250, ph: 700 });
    assert_eq!(m.state(), SensorState::Idle);
}

#[test]
fn scheduler_ph_path() {
    let mut m = SensorManager::new();
    assert_eq!(m.update(0, true), SensorAction::Wait);
    assert_eq!(m.state(), SensorState::PHReading);
    assert_eq!(m.update(2, true), SensorAction::ReadPh);
    assert_eq!(m.state(), SensorState::PHReady);
    m.record_ph(835);
    assert_eq!(m.values.ph, 800);
    assert_eq!(m.values.temperature, 250);
    assert_eq!(m.update(4, true), SensorAction::Wait);
    assert_eq!(m.state(), SensorState::Idle);
}

#[test]
fn ph_calibration_line() {
    assert_eq!(adc_to_ph(1020), 200);
    assert_eq!(adc_to_ph(1023), 200);
    assert_eq!(adc_to_ph(650), 1400);
    assert_eq!(adc_to_ph(0), 1400);
    assert_eq!(adc_to_ph(835), 800);
    assert_eq!(adc_to_ph(1000), 264);
    assert_eq!(adc_to_ph(651), 1396);
}

#[test]
fn mode_switch_at_dwell_boundary() {
    let mut c = DisplayController::new(3000);
    assert!(c.is_showing_temperature());
    for t in [0u64, 1, 1500, 2999] {
        assert!(!c.check_mode_switch(t));
        assert_eq!(c.mode, DisplayMode::Temperature);
    }
    assert!(c.check_mode_switch(3000));
    assert_eq!(c.mode, DisplayMode::PH);
    for t in [3000u64, 3001, 5999] {
        assert!(!c.check_mode_switch(t));
        assert_eq!(c.mode, DisplayMode::PH);
    }
    assert!(c.check_mode_switch(6500));
    assert!(c.is_showing_temperature());
    assert!(!c.check_mode_switch(9499));
    assert!(c.check_mode_switch(9500));
}

#[test]
fn mode_switch_late_check() {
    let mut c = DisplayController::new(3000);
    assert!(c.check_mode_switch(u64::MAX));
    assert!(!c.check_mode_switch(u64::MAX));
}

#[test]
fn controller_shows_current_mode() {
    let mut c = DisplayController::new(3000);
    let mut d = DisplayMultiplexer::new();
    c.initialize(&mut d);
    let values = SensorValues { temperature: 235, ph: 700 };
    let frame = c.update_display(&values, &mut d).unwrap();
    assert_eq!((0..4).map(|i| d.digit(i)).collect::<Vec<_>>(), vec![2, 3, 5, 0]);
    assert!(d.decimal_point(1));
    assert_eq!(frame.position, 0);
    assert_eq!(frame.pattern, 0x5b);
    c.check_mode_switch(3000);
    c.update_display(&values, &mut d);
    assert_eq!((0..4).map(|i| d.digit(i)).collect::<Vec<_>>(), vec![7, 0, 0, 0]);
    assert!(d.decimal_point(0));
}

#[test]
fn controller_negative_temperature_shows_error() {
    let c = DisplayController::new(3000);
    let mut d = DisplayMultiplexer::new();
    c.update_display(&SensorValues { temperature: -5, ph: 700 }, &mut d);
    assert_eq!((0..4).map(|i| d.digit(i)).collect::<Vec<_>>(), vec![14, 16, 16, 16]);
}

#[test]
fn pump_runs_first_half_minute_of_ten() {
    assert!(bubbles_on(0));
    assert!(bubbles_on(29_999));
    assert!(!bubbles_on(30_000));
    assert!(!bubbles_on(599_999));
    assert!(bubbles_on(600_000));
    assert!(bubbles_on(1_229_998));
}
