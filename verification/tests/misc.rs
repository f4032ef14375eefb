use bryggio::pwm::{needs_write, pwm_step};
use bryggio::state::{control_reading, ControlReading, ControlSource};
use bryggio::hardware::{get_gpio_pin, GpioPin, GpioState};
use bryggio::model::Brewery;
use bryggio::sensor::TempSensor;
use bryggio::text::{contains_text, nth_field};
use bryggio::time::{time_out_check, TimeStamp};
use bryggio::utils::{bryggio_version, bryggio_version_str, release_metadata, ReleaseError};

#[test]
fn pin_follows_writes() {
    let mut pin = get_gpio_pin(4, "heater").unwrap();
    assert_eq!(pin.pin_number, 4);
    assert_eq!(pin.label, "heater");
    assert_eq!(pin.is_low(), Ok(true));
    pin.set_high().unwrap();
    assert_eq!(pin.is_high(), Ok(true));
    assert_eq!(pin.is_low(), Ok(false));
    pin.set_low().unwrap();
    assert_eq!(pin.is_high(), Ok(false));
    let other = GpioPin::new(1, "pump");
    assert_eq!(other.state, GpioState::Low);
    assert!(GpioState::High.to_bool() && !GpioState::Low.to_bool());
}

#[test]
fn timestamps() {
    assert_eq!(TimeStamp(5).add(TimeStamp(7)), TimeStamp(12));
    assert_eq!(TimeStamp(7).sub(TimeStamp(5)), TimeStamp(2));
    assert_eq!(time_out_check(TimeStamp(0), None, TimeStamp(0)), Ok(()));
    assert_eq!(
        time_out_check(TimeStamp(100), Some(TimeStamp(50)), TimeStamp(120)),
        Err(TimeStamp(30))
    );
}

#[test]
fn text_helpers() {
    assert_eq!(nth_field("a.b.c", '.', 1), Some(String::from("b")));
    assert_eq!(nth_field("a..c", '.', 1), Some(String::new()));
    assert_eq!(nth_field("a.b", '.', 2), None);
    assert_eq!(nth_field("", '.', 0), Some(String::new()));
    assert!(contains_text("supervisor.kill.mash", "supervisor.kill"));
    assert!(!contains_text("controller.mash.set_target", "supervisor.kill"));
    assert!(contains_text("abc", ""));
    assert!(!contains_text("ab", "abc"));
}

#[test]
fn version() {
    assert_eq!(bryggio_version_str(), "0.4.0");
    let v = bryggio_version().unwrap();
    assert_eq!((v.major, v.minor, v.patch), (0, 4, 0));
}

#[test]
fn development_brewery() {
    let b = Brewery::new();
    let TempSensor::Ds18b20 { address } = &b.vessel.top_temp_sensor;
    assert_eq!(address, "test_top");
    let TempSensor::Ds18b20 { address } = &b.vessel.bottom_temp_sensor;
    assert_eq!(address, "test_bottom");
}

#[test]
fn pwm_duty_cycle() {
    assert_eq!(pwm_step(false, 6_999, 7_000), (true, true));
    assert_eq!(pwm_step(true, 7_000, 7_000), (false, true));
    assert_eq!(pwm_step(true, 20_500, 7_000), (true, false));
    assert_eq!(pwm_step(false, 123, 0), (false, false));
    assert!(needs_write(false, true) && !needs_write(true, true));
}

#[test]
fn control_readings() {
    assert_eq!(control_reading(ControlSource::Top, Some(1), Some(2)), ControlReading::Single(1));
    assert_eq!(control_reading(ControlSource::Bottom, Some(1), None), ControlReading::Missing);
    assert_eq!(control_reading(ControlSource::Average, Some(1), Some(2)), ControlReading::Pair(1, 2));
    assert_eq!(control_reading(ControlSource::Average, None, Some(2)), ControlReading::Single(2));
    assert_eq!(control_reading::<u8>(ControlSource::Average, None, None), ControlReading::Missing);
}

#[test]
fn release_metadata_reads_last_file() {
    let urls = vec![
        String::from("https://example.com/a.tar.gz"),
        String::from("https://example.com/bryggio-supervisor"),
    ];
    let (v, u) = release_metadata("1.2.3", &urls).unwrap();
    assert_eq!((v.major, v.minor, v.patch), (1, 2, 3));
    assert_eq!(u.as_str(), "https://example.com/bryggio-supervisor");
    assert_eq!(release_metadata("1.2.3", &Vec::new()).unwrap_err(), ReleaseError::NoAssets);
    assert_eq!(
        release_metadata("1.2.3", &vec![String::from("no url")]).unwrap_err(),
        ReleaseError::InvalidUrl
    );
    assert_eq!(release_metadata("one", &urls).unwrap_err(), ReleaseError::InvalidVersion);
}
