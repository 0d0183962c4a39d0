use telemetry_bridge::gy87::BusError;
use telemetry_bridge::gy87::Gy87Error;
use telemetry_bridge::gy87::movement_from_euler;
use telemetry_bridge::gy87::update_on_accel_gyro;
use telemetry_bridge::gy87::update_on_mag;
use telemetry_bridge::telemetry::Coordinator;
use telemetry_bridge::wifi::WifiError;

#[test]
fn elapsed_grows_from_the_last_successful_cycle() {
    let c = Coordinator::new(1_000_000);
    assert_eq!(c.elapsed_micros(1_250_000), 250_000);
}

#[test]
fn failed_update_skips_the_cycle_and_keeps_the_timestamp() {
    let mut c = Coordinator::new(1_000_000);
    let failed = Err(Gy87Error::UpdateGetAccelGyro(BusError::BusReadWrite));
    let out = c.on_cycle(1_100_000, failed);
    assert!(out.is_none());
    // the retained timestamp makes the next cycle's elapsed time span
    // the skipped one
    assert_eq!(c.elapsed_micros(1_200_000), 200_000);

    let data = movement_from_euler(1.5f64.to_bits(), 0.25f64.to_bits(), (-0.5f64).to_bits());
    let out = c.on_cycle(1_200_000, Ok(data));
    let bytes = out.expect("a successful cycle transmits");
    assert_eq!(bytes.len(), 48);
    assert_eq!(bytes, data.serialize());
    assert_eq!(c.elapsed_micros(1_200_000), 0);
}

#[test]
fn transmit_failures_are_reported_and_not_fatal() {
    let c = Coordinator::new(0);
    assert_eq!(c.on_transmit(Ok(())), None);
    assert_eq!(c.on_transmit(Err(WifiError::Tx)), Some(WifiError::Tx));
}

#[test]
fn update_phase_errors_are_reported_distinctly() {
    let ag = update_on_accel_gyro(Err(BusError::BusReadWrite));
    assert_eq!(ag, Err(Gy87Error::UpdateGetAccelGyro(BusError::BusReadWrite)));
    let mag = update_on_mag(Err(BusError::BusWrite));
    assert_eq!(mag, Err(Gy87Error::UpdateMag(BusError::BusWrite)));

    let ag = update_on_accel_gyro(Ok(vec![0; 14])).unwrap();
    assert_eq!(ag.accel.x, 0);
    let mag = update_on_mag(Ok(vec![0x01, 0x00, 0x02, 0x00, 0x03, 0x00])).unwrap();
    assert_eq!((mag.x, mag.y, mag.z), (256, 768, 512));
}

/// The first cycle's sensor read fails: nothing is transmitted, nothing
/// crashes, and the prior timestamp still anchors the next cycle's
/// elapsed time.
#[test]
fn first_cycle_failure_after_successful_bring_up() {
    let mut c = Coordinator::new(5_000_000);
    let out = c.on_cycle(
        5_010_000,
        Err(Gy87Error::UpdateGetAccelGyro(BusError::BusReadWrite)),
    );
    assert!(out.is_none());
    let out = c.on_cycle(
        5_020_000,
        Err(Gy87Error::UpdateMag(BusError::BusReadWrite)),
    );
    assert!(out.is_none());
    // elapsed for the eventually successful fuse spans both skipped cycles
    assert_eq!(c.elapsed_micros(5_030_000), 30_000);
    let data = movement_from_euler(0, 0, 0);
    assert!(c.on_cycle(5_030_000, Ok(data)).is_some());
}
