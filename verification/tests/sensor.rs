use bryggio::sensor::{
    addresses_from_file_names, CpuTemp, Ds18b20, Ds18b20Address, SensorError, SensorList,
};

#[test]
fn ds18b20_test_address_correct() {
    let string = String::from("28-0416802230ff");
    let address = Ds18b20Address::verify(&string);
    address.unwrap();
}

#[test]
fn ds18b20_test_address_wrong_start() {
    let string = String::from("29-0416802230ff");
    let address = Ds18b20Address::verify(&string);
    assert!(matches!(address, Err(SensorError::InvalidAddressStart(..))));
}

#[test]
fn ds18b20_test_address_too_short() {
    let string = String::from("28-4E1F69140");
    let address = Ds18b20Address::verify(&string);
    assert!(matches!(
        address,
        Err(SensorError::InvalidAddressLength(..))
    ));
}

#[test]
fn address_errors_carry_details() {
    assert_eq!(
        Ds18b20Address::verify("29-0416802230ff"),
        Err(SensorError::InvalidAddressStart(String::from("29-0416802230ff")))
    );
    assert_eq!(
        Ds18b20Address::verify("28-4E1F69140"),
        Err(SensorError::InvalidAddressLength(12))
    );
    assert_eq!(
        Ds18b20Address::verify("2"),
        Err(SensorError::InvalidAddressStart(String::from("2")))
    );
}

#[test]
fn dummy_address_is_valid() {
    let a = Ds18b20Address::dummy();
    assert!(Ds18b20Address::verify(a.as_str()).is_ok());
    assert_eq!(a.as_str(), "28-dummy02230ff");
}

#[test]
fn device_path_of_sensor() {
    let s = Ds18b20::try_new("28-0416802230ff").unwrap();
    assert_eq!(s.device_path(), "/sys/bus/w1/devices/28-0416802230ff/temperature");
    assert!(Ds18b20::try_new("28-short").is_err());
}

#[test]
fn bus_listing_keeps_addresses_in_order() {
    let names = vec![
        String::from("w1_bus_master1"),
        String::from("28-0416802230ff"),
        String::from("28-4E1F69140"),
        String::from("28-0000000000aa"),
    ];
    let found = addresses_from_file_names(&names);
    let texts: Vec<&str> = found.iter().map(|a| a.as_str()).collect();
    assert_eq!(texts, vec!["28-0416802230ff", "28-0000000000aa"]);
}

#[test]
fn sensor_list_description() {
    let list = SensorList::list(Ok(vec![
        String::from("28-0416802230ff"),
        String::from("28-0000000000aa"),
    ]));
    assert_eq!(
        list.describe(),
        "Sensors:\n\nDS18B20:\n \t - 28-0416802230ff\n\t - 28-0000000000aa"
    );
    let empty = SensorList::list(Err(SensorError::FileRead(String::from("missing"))));
    assert_eq!(empty.ds18b20.len(), 0);
    assert_eq!(empty.describe(), "Sensors:\n\nDS18B20:\n ");
}

#[test]
fn cpu_temp_keeps_id() {
    assert_eq!(CpuTemp::new("cpu").id, "cpu");
}
