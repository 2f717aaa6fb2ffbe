use frclib_core::hal::gpio::analog::AnalogInputChannel;
use frclib_core::hal::gpio::analog::AnalogOutputChannel;
use frclib_core::hal::gpio::digital::DigitalInputChannel;
use frclib_core::hal::gpio::digital::DigitalOutputChannel;
use frclib_core::hal::gpio::inside_analog_range;
use frclib_core::hal::gpio::Channel;
use frclib_core::hal::gpio::GPIODriver;
use frclib_core::hal::gpio::GPIOError;
use frclib_core::hal::gpio::GPIOPortType;
use frclib_core::hal::gpio::SimGPIODriver;
use frclib_core::hal::rt::notifier::Notifier;
use frclib_core::hal::rt::notifier::NotifierDriver;
use frclib_core::hal::rt::notifier::NotifierUpdateType;
use frclib_core::hal::rt::time::ClockDriver;
use frclib_core::hal::rt::watchdog::SimWatchdogDriver;
use frclib_core::hal::rt::watchdog::WatchdogDriver;
use frclib_core::hal::HALDriver;
use frclib_core::hal::SimHALDriver;
use frclib_core::hal::HAL;
use frclib_core::units::energy::Volt;
use frclib_core::units::time::Microsecond;

#[derive(Debug)]
struct TestChannel {
    id: u8,
    level: bool,
    raw: u32,
}

impl Channel for TestChannel {
    fn channel_id(&self) -> u8 {
        self.id
    }
}

impl AnalogInputChannel for TestChannel {
    fn read_raw(&self) -> u32 {
        self.raw
    }
    fn read_volts_instant(&self) -> Volt {
        Volt::from_microvolts(self.raw as i64)
    }
    fn read_volts(&self) -> Volt {
        Volt::from_microvolts(self.raw as i64)
    }
    fn voltage_range(&self) -> (Volt, Volt) {
        (Volt::from_microvolts(0), Volt::from_microvolts(5_000_000))
    }
}

impl AnalogOutputChannel for TestChannel {
    fn write_raw(&mut self, value: u32) {
        self.raw = value;
    }
    fn write_volts(&mut self, value: Volt) {
        self.raw = value.value() as u32;
    }
    fn voltage_range(&self) -> (Volt, Volt) {
        (Volt::from_microvolts(0), Volt::from_microvolts(5_000_000))
    }
}

impl DigitalInputChannel for TestChannel {
    fn read(&self) -> bool {
        self.level
    }
}

impl DigitalOutputChannel for TestChannel {
    fn write(&mut self, value: bool) {
        self.level = value;
    }
}

struct TestAlarm;

impl Notifier for TestAlarm {
    fn get_name(&self) -> &str {
        "test-alarm"
    }
    fn update_alarm(&mut self, _update: NotifierUpdateType) {}
    fn cancel_alarm(&mut self) {}
    fn wait_for_alarm(&mut self) -> Microsecond {
        Microsecond::new(0)
    }
}

struct TestDriver;

impl GPIODriver for TestDriver {
    type AnalogIn = TestChannel;
    type AnalogOut = TestChannel;
    type DigitalIn = TestChannel;
    type DigitalOut = TestChannel;

    fn analog_ports() -> Vec<u8> {
        vec![0, 1]
    }
    fn digital_ports() -> Vec<u8> {
        vec![2, 3]
    }
    fn pwm_ports() -> Vec<u8> {
        vec![4]
    }
    fn relay_ports() -> Vec<u8> {
        Vec::new()
    }
    fn new_analog_input(port: u8) -> Result<TestChannel, GPIOError> {
        Self::analog_available(port)?;
        Ok(TestChannel {
            id: port,
            level: false,
            raw: 0,
        })
    }
    fn new_analog_output(port: u8) -> Result<TestChannel, GPIOError> {
        Self::analog_available(port)?;
        Ok(TestChannel {
            id: port,
            level: false,
            raw: 0,
        })
    }
    fn new_digital_input(port: u8) -> Result<TestChannel, GPIOError> {
        Self::digital_available(port)?;
        Ok(TestChannel {
            id: port,
            level: false,
            raw: 0,
        })
    }
    fn new_digital_output(port: u8) -> Result<TestChannel, GPIOError> {
        Self::digital_available(port)?;
        Ok(TestChannel {
            id: port,
            level: false,
            raw: 0,
        })
    }
}

impl SimGPIODriver for TestDriver {
    fn sim_analog_input(port: u8) -> TestChannel {
        TestChannel {
            id: port,
            level: false,
            raw: 7,
        }
    }
    fn sim_analog_output(port: u8) -> TestChannel {
        TestChannel {
            id: port,
            level: false,
            raw: 7,
        }
    }
    fn sim_digital_input(port: u8) -> TestChannel {
        TestChannel {
            id: port,
            level: true,
            raw: 0,
        }
    }
    fn sim_digital_output(port: u8) -> TestChannel {
        TestChannel {
            id: port,
            level: true,
            raw: 0,
        }
    }
}

impl ClockDriver for TestDriver {
    fn use_default_driver() -> bool {
        false
    }
    fn can_pause() -> bool {
        true
    }
    fn uptime() -> Microsecond {
        Microsecond::new(42)
    }
    fn system_time_valid() -> bool {
        true
    }
}

impl WatchdogDriver for TestDriver {
    fn enabled() -> bool {
        true
    }
    fn system_power() -> Volt {
        Volt::from_microvolts(12_000_000)
    }
}

impl SimWatchdogDriver for TestDriver {
    fn set_enabled(_enabled: bool) {}
    fn set_system_power(_voltage: Volt) {}
}

impl NotifierDriver for TestDriver {
    type Handle = TestAlarm;
    fn new_notifier() -> TestAlarm {
        TestAlarm
    }
}

impl HALDriver for TestDriver {
    fn name() -> String {
        "TestDriver".to_owned()
    }
    fn init() {}
    fn cleanup() {}
}

impl SimHALDriver for TestDriver {}

#[test]
fn analog_range_check() {
    assert_eq!(
        inside_analog_range(3, Volt::from_microvolts(2_500_000)),
        Ok(())
    );
    assert_eq!(
        inside_analog_range(3, Volt::from_microvolts(5_000_001)),
        Err(GPIOError::ValueOutOfRange(
            Volt::from_microvolts(5_000_001),
            GPIOPortType::Analog,
            3
        ))
    );
    assert_eq!(
        inside_analog_range(0, Volt::from_microvolts(-1)),
        Err(GPIOError::ValueOutOfRange(
            Volt::from_microvolts(-1),
            GPIOPortType::Analog,
            0
        ))
    );
}

#[test]
fn gpio_vtable_dispatch() {
    let hal: HAL<TestDriver> = HAL::init();
    let gpio = hal.gpio_api();
    let input = gpio.new_analog_input(0).expect("port 0 is analog");
    assert_eq!(input.channel_id(), 0);
    assert_eq!(
        gpio.new_analog_input(9).expect_err("port 9 is not analog"),
        GPIOError::PortNotAvailable(9)
    );
    let output = gpio.new_digital_output(2).expect("port 2 is digital");
    assert_eq!(output.channel_id(), 2);
    assert!(gpio.sim_analog_input(0).is_err());
    assert_eq!(hal.driver_name(), "TestDriver");
    hal.cleanup();
}

#[test]
fn sim_gpio_vtable_dispatch() {
    let hal: HAL<TestDriver> = HAL::init_sim();
    let gpio = hal.gpio_api();
    let far_end = gpio.sim_analog_input(1).expect("built with sim support");
    assert_eq!(far_end.read_raw(), 7);
    assert!(gpio.sim_digital_output(2).expect("sim").read());
    assert!(gpio.sim_digital_input(3).is_ok());
    assert!(gpio.sim_analog_output(0).is_ok());
}

#[test]
fn watchdog_vtable_dispatch() {
    let hal: HAL<TestDriver> = HAL::init();
    let dog = hal.watchdog_api();
    assert!(dog.enabled());
    assert_eq!(dog.system_power().value(), 12_000_000);
    assert!(dog.set_enabled(false).is_err());
    assert!(dog.set_system_power(Volt::from_microvolts(1)).is_err());

    let sim_hal: HAL<TestDriver> = HAL::init_sim();
    let sim_dog = sim_hal.watchdog_api();
    assert_eq!(sim_dog.set_enabled(false), Ok(()));
    assert_eq!(sim_dog.set_system_power(Volt::from_microvolts(1)), Ok(()));
}

#[test]
fn notifier_vtable_dispatch() {
    let hal: HAL<TestDriver> = HAL::init();
    let mut alarm = hal.notifier_api().new_notifier();
    assert_eq!(alarm.get_name(), "test-alarm");
    alarm.update_alarm(NotifierUpdateType::Periodic {
        period: Microsecond::new(20_000),
        skip_missed: true,
    });
    assert_eq!(alarm.wait_for_alarm(), Microsecond::new(0));
    alarm.cancel_alarm();
}
