use fennec::modbus::{
    check_word_count, first_word, i32_from_words, DataType, ModbusUrlError, Operation, Options, OutOfRange,
    ParsedUrl, UnknownRegisterKind, UrlComponents, Value, WordCountMismatch,
};

#[test]
fn number_of_words_per_type() {
    assert_eq!(DataType::U16.num_words(), 1);
    assert_eq!(DataType::I32.num_words(), 2);
    assert_eq!(DataType::U64.num_words(), 4);
}

#[test]
fn default_value_options() {
    assert_eq!(DataType::default(), DataType::U16);
    assert_eq!(Options::default().data_type, DataType::U16);
}

#[test]
fn decode_values() {
    assert_eq!(DataType::U16.decode(&[0xBEEF]), Value::U16(0xBEEF));
    assert_eq!(DataType::I32.decode(&[0xFFFF, 0xFFFE]), Value::I32(-2));
    assert_eq!(DataType::I32.decode(&[0x0001, 0x0000]), Value::I32(65536));
    assert_eq!(DataType::I32.decode(&[0x8000, 0x0000]), Value::I32(i32::MIN));
    assert_eq!(DataType::U64.decode(&[0, 0, 1, 2]), Value::U64(65538));
    assert_eq!(DataType::U64.decode(&[0xFFFF, 0xFFFF, 0xFFFF, 0xFFFF]), Value::U64(u64::MAX));
}

#[test]
fn words_as_i32() {
    assert_eq!(i32_from_words(&[0xFFFF, 0xFF38]), Ok(-200));
    assert_eq!(i32_from_words(&[0x0000, 0x0064]), Ok(100));
    assert_eq!(i32_from_words(&[1]), Err(WordCountMismatch { expected: 2, actual: 1 }));
    assert_eq!(first_word(&[7, 8]), Some(7));
    assert_eq!(first_word(&[]), None);
    assert_eq!(check_word_count(&[1, 2], 2), Ok(()));
    assert_eq!(check_word_count(&[1], 4), Err(WordCountMismatch { expected: 4, actual: 1 }));
}

#[test]
fn values_into_u16() {
    assert_eq!(Value::U16(7).to_u16(), Ok(7));
    assert_eq!(Value::I32(65535).to_u16(), Ok(65535));
    assert_eq!(Value::I32(-1).to_u16(), Err(OutOfRange));
    assert_eq!(Value::I32(65536).to_u16(), Err(OutOfRange));
    assert_eq!(Value::U64(70000).to_u16(), Err(OutOfRange));
    assert_eq!(Value::U64(0).to_u16(), Ok(0));
}

#[test]
fn register_kind_by_address() {
    assert_eq!(Operation::try_from_address(30000), Ok(Operation::Input));
    assert_eq!(Operation::try_from_address(39999), Ok(Operation::Input));
    assert_eq!(Operation::try_from_address(40000), Ok(Operation::Holding));
    assert_eq!(Operation::try_from_address(49999), Ok(Operation::Holding));
    assert_eq!(Operation::try_from_address(50000), Err(UnknownRegisterKind { address: 50000 }));
    assert_eq!(Operation::try_from_address(12), Err(UnknownRegisterKind { address: 12 }));
}

#[test]
fn register_kind_by_name() {
    assert_eq!(Operation::parse("input"), Some(Operation::Input));
    assert_eq!(Operation::parse("Input"), Some(Operation::Input));
    assert_eq!(Operation::parse("HOLDING"), Some(Operation::Holding));
    assert_eq!(Operation::parse("in"), None);
    assert_eq!(Operation::parse(""), None);
}

#[test]
fn parse_modbus_url() {
    let (parsed, query) = ParsedUrl::parse("modbus+tcp://192.168.1.2:1502/3/30001").unwrap();
    assert_eq!(parsed.endpoint.host, "192.168.1.2");
    assert_eq!(parsed.endpoint.port, 1502);
    assert_eq!(parsed.endpoint.slave_id, 3);
    assert_eq!(parsed.register.address, 30001);
    assert_eq!(parsed.register.operation, Operation::Input);
    assert_eq!(parsed.register.options.data_type, DataType::U16);
    assert_eq!(query, None);
}

#[test]
fn parse_modbus_url_defaults_and_overrides() {
    let (parsed, query) =
        ParsedUrl::parse("modbus+tcp://battery.local/+7/12?type=i32#Holding").unwrap();
    assert_eq!(parsed.endpoint.host, "battery.local");
    assert_eq!(parsed.endpoint.port, 502);
    assert_eq!(parsed.endpoint.slave_id, 7);
    assert_eq!(parsed.register.address, 12);
    assert_eq!(parsed.register.operation, Operation::Holding);
    assert_eq!(query.as_deref(), Some("type=i32"));
}

#[test]
fn parse_modbus_url_errors() {
    let error = |url: &str| ParsedUrl::parse(url).err();
    assert_eq!(error("not a url"), Some(ModbusUrlError::InvalidUrl));
    assert_eq!(error("http://host/1/30001"), Some(ModbusUrlError::UnsupportedScheme));
    assert_eq!(error("modbus+tcp:/1/30001"), Some(ModbusUrlError::MissingHost));
    assert_eq!(error("modbus+tcp://host"), Some(ModbusUrlError::MissingSlaveId));
    assert_eq!(error("modbus+tcp://host/"), Some(ModbusUrlError::InvalidSlaveId));
    assert_eq!(error("modbus+tcp://host/x/30001"), Some(ModbusUrlError::InvalidSlaveId));
    assert_eq!(error("modbus+tcp://host/256/30001"), Some(ModbusUrlError::InvalidSlaveId));
    assert_eq!(error("modbus+tcp://host/1"), Some(ModbusUrlError::MissingAddress));
    assert_eq!(error("modbus+tcp://host/1/70000"), Some(ModbusUrlError::InvalidAddress));
    assert_eq!(error("modbus+tcp://host/1/30001#coil"), Some(ModbusUrlError::InvalidOperation));
    assert_eq!(error("modbus+tcp://host/1/12"), Some(ModbusUrlError::UnknownRegisterKind(12)));
}

#[test]
fn url_components_of_the_url_crate() {
    let components = UrlComponents::parse("modbus+tcp://host:15/a/b?x=1#frag").unwrap();
    assert_eq!(components.scheme, "modbus+tcp");
    assert_eq!(components.host.as_deref(), Some("host"));
    assert_eq!(components.port, Some(15));
    assert_eq!(components.path_segments, vec!["a".to_string(), "b".to_string()]);
    assert_eq!(components.query.as_deref(), Some("x=1"));
    assert_eq!(components.fragment.as_deref(), Some("frag"));
    assert!(UrlComponents::parse("::").is_none());
}

#[test]
fn modbus_url_error_texts() {
    assert_eq!(
        ModbusUrlError::UnknownRegisterKind(12).describe("modbus+tcp://host/1/12"),
        "cannot determine register #12 type – specify explicitly"
    );
    assert_eq!(ModbusUrlError::InvalidSlaveId.describe("modbus+tcp://host/x/1"), "incorrect slave ID");
    assert_eq!(ModbusUrlError::InvalidUrl.describe("not a url"), "`not a url` is an invalid URL");
}

#[test]
fn url_hosts_are_addresses_without_brackets() {
    let ipv6 = UrlComponents::parse("modbus+tcp://[::1]:502/1/30001").unwrap();
    assert_eq!(ipv6.host.as_deref(), Some("::1"));
    let ipv4 = UrlComponents::parse("modbus+tcp://192.168.1.5/1/30001").unwrap();
    assert_eq!(ipv4.host.as_deref(), Some("192.168.1.5"));
    let (parsed, _) = ParsedUrl::parse("modbus+tcp://[fe80::2]/3/40001").unwrap();
    assert_eq!(parsed.endpoint.host, "fe80::2");
}

#[test]
fn invalid_operation_text() {
    assert_eq!(
        ModbusUrlError::InvalidOperation.describe("modbus+tcp://host/1/30001#coil"),
        "Invalid `Operation` string representation"
    );
}
