use adi_adxl355::lifecycle::same_fingerprint;
use adi_adxl355::{
    Config, Configure, Error, HpfCorner, Identify, Odr, Progress, Range, Register, Request,
    Reset, DEVICE_ID, RESET_CODE, RESET_RETRIES,
};

const FINGERPRINT: [u8; 5] = [1, 2, 3, 4, 5];

fn read(start: Register, len: usize) -> Request {
    Request::Read { start, len }
}

fn write(start: Register, value: u8) -> Request {
    Request::Write { start, payload: vec![value] }
}

fn request<T: std::fmt::Debug>(step: Progress<Result<T, Error<()>>>) -> Request {
    match step {
        Progress::Request(request) => request,
        Progress::Done(result) => panic!("the sequence is over: {:?}", result),
    }
}

#[test]
fn constants_of_the_device() {
    assert_eq!(DEVICE_ID, 0xED);
    assert_eq!(RESET_CODE, 0x52);
    assert_eq!(RESET_RETRIES, 255);
}

#[test]
fn fingerprints_are_compared_byte_for_byte() {
    assert!(same_fingerprint(&FINGERPRINT, &vec![1, 2, 3, 4, 5]));
    for i in 0..5 {
        let mut other = FINGERPRINT.to_vec();
        other[i] ^= 0x80;
        assert!(!same_fingerprint(&FINGERPRINT, &other));
    }
}

#[test]
fn reset_writes_the_code_polls_and_verifies() {
    let (mut reset, first) = Reset::new();
    assert_eq!(first, write(Register::RESET, 0x52));
    let step = reset.resume::<()>(&FINGERPRINT, &vec![]);
    assert_eq!(request(step), read(Register::STATUS, 1));
    let step = reset.resume::<()>(&FINGERPRINT, &vec![0x10]);
    assert_eq!(request(step), read(Register::STATUS, 1));
    let step = reset.resume::<()>(&FINGERPRINT, &vec![0x0F]);
    assert_eq!(request(step), read(Register::SHADOW_REG1, 5));
    let step = reset.resume::<()>(&FINGERPRINT, &FINGERPRINT.to_vec());
    assert!(matches!(step, Progress::Done(Ok(()))));
}

#[test]
fn reset_fails_on_any_other_fingerprint() {
    for i in 0..5 {
        let (mut reset, _) = Reset::new();
        request(reset.resume::<()>(&FINGERPRINT, &vec![]));
        request(reset.resume::<()>(&FINGERPRINT, &vec![0x00]));
        let mut shadow = FINGERPRINT.to_vec();
        shadow[i] = shadow[i].wrapping_add(1);
        let step = reset.resume::<()>(&FINGERPRINT, &shadow);
        assert!(matches!(step, Progress::Done(Err(Error::SoftResetFailed))));
    }
}

#[test]
fn reset_gives_up_after_the_last_retry() {
    let (mut reset, _) = Reset::new();
    request(reset.resume::<()>(&FINGERPRINT, &vec![]));
    for _ in 0..255 {
        let step = reset.resume::<()>(&FINGERPRINT, &vec![0x10]);
        assert_eq!(request(step), read(Register::STATUS, 1));
    }
    let step = reset.resume::<()>(&FINGERPRINT, &vec![0x10]);
    assert!(matches!(step, Progress::Done(Err(Error::SoftResetFailed))));
}

#[test]
fn configure_goes_through_reset_mode_filter_and_range() {
    let config = Config::new(Range::_4G, Odr::_31_25Hz, HpfCorner::_0_0954);
    let (mut configure, first) = Configure::new(config);
    assert_eq!(first, write(Register::RESET, 0x52));
    let step = configure.resume::<()>(&FINGERPRINT, &vec![]);
    assert_eq!(request(step), read(Register::STATUS, 1));
    let step = configure.resume::<()>(&FINGERPRINT, &vec![0x00]);
    assert_eq!(request(step), read(Register::SHADOW_REG1, 5));
    let step = configure.resume::<()>(&FINGERPRINT, &FINGERPRINT.to_vec());
    assert_eq!(request(step), read(Register::POWER_CTL, 1));
    let step = configure.resume::<()>(&FINGERPRINT, &vec![0x01]);
    assert_eq!(request(step), write(Register::FILTER, 0x57));
    let step = configure.resume::<()>(&FINGERPRINT, &vec![]);
    assert_eq!(request(step), read(Register::RANGE, 1));
    let step = configure.resume::<()>(&FINGERPRINT, &vec![0xC1]);
    assert_eq!(request(step), write(Register::RANGE, 0xC2));
    let step = configure.resume::<()>(&FINGERPRINT, &vec![]);
    assert!(matches!(step, Progress::Done(Ok(Range::_4G))));
}

#[test]
fn configure_stops_when_the_device_is_running() {
    for mode in [0x00u8, 0x02, 0x04, 0x06, 0xFE] {
        let (mut configure, _) = Configure::new(Config::default());
        request(configure.resume::<()>(&FINGERPRINT, &vec![]));
        request(configure.resume::<()>(&FINGERPRINT, &vec![0x00]));
        request(configure.resume::<()>(&FINGERPRINT, &FINGERPRINT.to_vec()));
        let step = configure.resume::<()>(&FINGERPRINT, &vec![mode]);
        assert!(matches!(step, Progress::Done(Err(Error::DeviceRunning))));
    }
}

#[test]
fn configure_stops_when_the_reset_fails() {
    let (mut configure, _) = Configure::new(Config::default());
    request(configure.resume::<()>(&FINGERPRINT, &vec![]));
    request(configure.resume::<()>(&FINGERPRINT, &vec![0x00]));
    let step = configure.resume::<()>(&FINGERPRINT, &vec![1, 2, 3, 4, 6]);
    assert!(matches!(step, Progress::Done(Err(Error::SoftResetFailed))));
}

#[test]
fn identify_reads_part_id_fingerprint_and_range() {
    let (mut identify, first) = Identify::new();
    assert_eq!(first, read(Register::PARTID, 1));
    assert_eq!(identify.awaited_len(), Some(1));
    let step = identify.resume::<()>(&vec![0xED]);
    assert_eq!(request(step), read(Register::SHADOW_REG1, 5));
    assert_eq!(identify.awaited_len(), Some(5));
    let step = identify.resume::<()>(&vec![5, 4, 3, 2, 1]);
    assert_eq!(request(step), read(Register::RANGE, 1));
    let step = identify.resume::<()>(&vec![0x83]);
    assert!(matches!(step, Progress::Done(Ok(Range::_8G))));
    assert_eq!(identify.shadow_values(), [5, 4, 3, 2, 1]);
    assert_eq!(identify.awaited_len(), None);
}

#[test]
fn identify_rejects_every_other_part_id() {
    for id in 0..=255u8 {
        let (mut identify, _) = Identify::new();
        let step = identify.resume::<()>(&vec![id]);
        if id == 0xED {
            assert_eq!(request(step), read(Register::SHADOW_REG1, 5));
        } else {
            match step {
                Progress::Done(Err(Error::BadDeviceId(seen))) => assert_eq!(seen, id),
                other => panic!("{:?}", other),
            }
        }
    }
}
