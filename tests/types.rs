use veml6030::{IntegrationTime, SlaveAddr};

#[test]
fn can_get_default_address() {
    let addr = SlaveAddr::default();
    assert_eq!(0x10, addr.addr());
}

#[test]
fn can_generate_alternative_addresses() {
    assert_eq!(0x10, SlaveAddr::Alternative(false).addr());
    assert_eq!(0x48, SlaveAddr::Alternative(true).addr());
}

#[test]
fn integration_time_as_int() {
    assert_eq!(IntegrationTime::Ms25.as_ms(), 25);
    assert_eq!(IntegrationTime::Ms25.as_us(), 25_000);
    assert_eq!(IntegrationTime::Ms800.as_ms(), 800);
    assert_eq!(IntegrationTime::Ms800.as_us(), 800_000);
}

#[test]
fn integration_time_all_settings() {
    let all = [
        (IntegrationTime::Ms25, 25),
        (IntegrationTime::Ms50, 50),
        (IntegrationTime::Ms100, 100),
        (IntegrationTime::Ms200, 200),
        (IntegrationTime::Ms400, 400),
        (IntegrationTime::Ms800, 800),
    ];
    for (it, ms) in all {
        assert_eq!(it.as_ms(), ms);
        assert_eq!(it.as_us(), u32::from(ms) * 1000);
    }
}
