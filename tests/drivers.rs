use cocos::config::app_config;
use cocos::controllers::motor::MotorController;
use cocos::controllers::scheduler::{pace_tick, PeriodicTask, TickPace};
use cocos::drivers::led_driver::{LedDescriptor, LedDriver};
use cocos::drivers::motor_driver::{MotorDescriptor, MotorDirection, MotorDriver};
use cocos::drivers::nucifera_driver::{NuciferaDescriptor, NuciferaDriver};
use cocos::io::gpio::{DrivesGpio, GpioCall, GpioError, PullMode, RecordedGpio};
use cocos::io::pwm::{DrivesPwm, DutyCycle, PwmCall, PwmError, RecordedPwm};
use cocos::io::sim::{PrintUartDriver, RpiGpioSimulator};
use cocos::io::uart::{DrivesUart, UartParity};
use cocos::models::led_color::LedColor;
use cocos::models::motor_power::MotorPower;

/// A PWM that succeeds on its first `ok_calls` calls and fails after.
struct FlakyPwm {
    made: usize,
    ok_calls: usize,
}

impl DrivesPwm for FlakyPwm {
    fn set_freq_dc(&mut self, _frequency_hz: u32, _duty_cycle: DutyCycle, _pin_bcm: u8) -> Result<(), PwmError> {
        self.made += 1;
        if self.made <= self.ok_calls { Ok(()) } else { Err(PwmError::IO) }
    }
}

/// A GPIO that fails on every call.
struct BrokenGpio {}

impl DrivesGpio for BrokenGpio {
    fn set(&mut self, _pin_bcm: u8) -> Result<(), GpioError> { Err(GpioError::IO) }
    fn clear(&mut self, _pin_bcm: u8) -> Result<(), GpioError> { Err(GpioError::IO) }
    fn set_out(&mut self, _pin_bcm: u8, _pull_mode: PullMode) -> Result<(), GpioError> { Err(GpioError::IO) }
    fn set_inp(&mut self, _pin_bcm: u8, _pull_mode: PullMode) -> Result<(), GpioError> { Err(GpioError::IO) }
}

fn pwm() -> RecordedPwm<FlakyPwm> {
    RecordedPwm::new(FlakyPwm { made: 0, ok_calls: usize::MAX })
}

fn flaky(ok_calls: usize) -> RecordedPwm<FlakyPwm> {
    RecordedPwm::new(FlakyPwm { made: 0, ok_calls })
}

fn gpio() -> RecordedGpio<RpiGpioSimulator> {
    RecordedGpio::new(RpiGpioSimulator::new())
}

const LEFT: MotorDescriptor = MotorDescriptor { pin_in1: 19, pin_in2: 16, pin_pwm: 26, pin_stdby: 20 };
const RIGHT: MotorDescriptor = MotorDescriptor { pin_in1: 5, pin_in2: 6, pin_pwm: 12, pin_stdby: 21 };

fn pins(sim: &RecordedGpio<RpiGpioSimulator>) -> Vec<GpioCall> {
    sim.calls().iter().map(|c| c.0).collect()
}

#[test]
fn motor_block_and_unblock_drive_every_pin() {
    let m = MotorDriver::new(LEFT);
    let mut sim = gpio();
    assert!(m.block(&mut sim).is_ok());
    assert!(m.unblock(&mut sim).is_ok());
    assert_eq!(
        pins(&sim),
        vec![
            GpioCall::High(19), GpioCall::High(16), GpioCall::High(20),
            GpioCall::Low(19), GpioCall::Low(16), GpioCall::Low(20),
        ]
    );
    assert!(sim.calls().iter().all(|c| c.1));
}

#[test]
fn motor_directions_differ() {
    let m = MotorDriver::new(LEFT);
    let mut ccw = gpio();
    m.set_direction(MotorDirection::CounterClockwise, &mut ccw).unwrap_or(());
    let mut cw = gpio();
    m.set_direction(MotorDirection::Clockwise, &mut cw).unwrap_or(());
    assert_eq!(pins(&ccw), vec![GpioCall::High(19), GpioCall::Low(16)]);
    assert_eq!(pins(&cw), vec![GpioCall::Low(19), GpioCall::High(16)]);
}

#[test]
fn motor_init_sets_outputs_low() {
    let m = MotorDriver::new(LEFT);
    let mut sim = gpio();
    assert!(m.init(&mut sim).is_ok());
    let calls = pins(&sim);
    assert_eq!(calls.len(), 8);
    assert_eq!(calls[0], GpioCall::Output(19, PullMode::Down));
    assert_eq!(calls[3], GpioCall::Output(20, PullMode::Down));
    assert_eq!(calls[6], GpioCall::Low(26));
}

#[test]
fn motor_speed_is_a_duty_cycle() {
    let m = MotorDriver::new(LEFT);
    let mut p = pwm();
    assert!(m.set_speed(42, &mut p).is_ok());
    assert_eq!(
        *p.calls(),
        vec![(PwmCall { frequency_hz: 600, duty_cycle: DutyCycle { num: 42, den: 100 }, pin_bcm: 26 }, true)]
    );
    let mut failing = flaky(0);
    assert!(m.set_speed(1, &mut failing).is_err());
}

#[test]
fn set_vel_sets_senses_and_speeds() {
    let c = MotorController::new(LEFT, RIGHT);
    let mut sim = gpio();
    let mut p = pwm();
    assert!(c.set_vel(MotorPower::new(50, -30, false).unwrap(), &mut sim, &mut p).is_ok());
    assert_eq!(
        pins(&sim),
        vec![
            GpioCall::Low(19), GpioCall::Low(16), GpioCall::Low(20),
            GpioCall::Low(5), GpioCall::Low(6), GpioCall::Low(21),
            GpioCall::High(19), GpioCall::Low(16),
            GpioCall::High(5), GpioCall::Low(6),
        ]
    );
    let duties: Vec<(u32, u8)> = p.calls().iter().map(|c| (c.0.duty_cycle.num, c.0.pin_bcm)).collect();
    assert_eq!(duties, vec![(50, 26), (30, 12)]);
}

#[test]
fn set_vel_locked_brakes_both() {
    let c = MotorController::new(LEFT, RIGHT);
    let mut sim = gpio();
    let mut p = pwm();
    assert!(c.set_vel(MotorPower::new(100, 100, true).unwrap(), &mut sim, &mut p).is_ok());
    assert_eq!(
        pins(&sim),
        vec![
            GpioCall::High(19), GpioCall::High(16), GpioCall::High(20),
            GpioCall::High(5), GpioCall::High(6), GpioCall::High(21),
        ]
    );
    assert!(p.calls().is_empty());
}

#[test]
fn set_vel_reports_pwm_failure() {
    let c = MotorController::new(LEFT, RIGHT);
    let mut sim = gpio();
    let mut p = flaky(1);
    assert!(c.set_vel(MotorPower::new(-10, -10, false).unwrap(), &mut sim, &mut p).is_err());
    assert_eq!(p.calls().len(), 2);
    assert_eq!(p.calls()[1].1, false);
    assert!(c.block(&mut sim).is_ok());
    assert!(c.unblock(&mut sim).is_ok());
    sim.clear_calls();
    assert!(sim.calls().is_empty());
}

#[test]
fn gpio_failure_stops_at_first_call() {
    let c = MotorController::new(LEFT, RIGHT);
    let mut broken = RecordedGpio::new(BrokenGpio {});
    let mut p = pwm();
    assert!(c.set_vel(MotorPower::new(10, 10, false).unwrap(), &mut broken, &mut p).is_err());
    assert_eq!(*broken.calls(), vec![(GpioCall::Low(19), false)]);
    assert!(p.calls().is_empty());
    let m = MotorDriver::new(RIGHT);
    let mut broken = RecordedGpio::new(BrokenGpio {});
    assert!(m.init(&mut broken).is_err());
    assert_eq!(broken.calls().len(), 1);
}

#[test]
fn led_color_drives_three_channels() {
    let d = LedDescriptor { pin_r_bcm: 22, pin_g_bcm: 23, pin_b_bcm: 24, frequency_hz: 120 };
    let led = LedDriver::new(d);
    let mut p = pwm();
    assert!(led.set_color(LedColor::new(255, 0, 51).unwrap(), &mut p).is_ok());
    let got: Vec<(u32, u32, u8)> = p.calls().iter().map(|c| (c.0.duty_cycle.num, c.0.duty_cycle.den, c.0.pin_bcm)).collect();
    assert_eq!(got, vec![(255, 255, 22), (0, 255, 23), (51, 255, 24)]);
    let mut failing = flaky(1);
    assert!(led.set_color(LedColor::off(), &mut failing).is_err());
    assert_eq!(failing.calls().len(), 2);
}

#[test]
fn tick_pacing() {
    assert_eq!(pace_tick(10_000, 3_000), TickPace { overran: false, sleep_us: 7_000 });
    assert_eq!(pace_tick(10_000, 10_000), TickPace { overran: false, sleep_us: 0 });
    assert_eq!(pace_tick(1_000, 4_000), TickPace { overran: true, sleep_us: 0 });
    assert_eq!(PeriodicTask::PositionInput.period_us(), 1_000);
    assert_eq!(PeriodicTask::Logging.period_us(), 100_000);
    assert_eq!(PeriodicTask::LedOutput.name(), "LED Task");
    assert_eq!(PeriodicTask::MotorOutput.name(), "Motion Output Task");
}

#[test]
fn sensor_and_config() {
    let cfg = app_config();
    assert_eq!(cfg.mot_left.pin_in1, 19);
    assert_eq!(cfg.nucifera.parity, UartParity::Even);
    let u = cfg.nucifera.to_uart_descriptor();
    assert_eq!(u.baud_rate, 19200);
    let n = NuciferaDriver::new(NuciferaDescriptor { baud_rate: 9600, parity: UartParity::NoParity, data_bits: 8, stop_bits: 1 });
    let uart = PrintUartDriver::new();
    let p = n.read_current_position(&uart);
    assert_eq!((p.x, p.y, p.theta), (0, 0, 0));
    let mut uart = PrintUartDriver::new();
    let mut buf = [0u8; 4];
    assert_eq!(uart.read_bytes(&mut buf).ok(), Some(0));
}
