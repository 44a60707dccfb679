use battery::record::{struct_text, Field, FIELD_COUNT};
use battery::render::{
    decimal, hundredths, optional, optional_count, optional_temperature, optional_text,
    optional_time, seconds, signed_hundredths,
};
use battery::{Battery, Device, Platform, Reading, State, Technology};

fn charging() -> Reading {
    Reading {
        vendor: Some(String::from("ACME")),
        model: None,
        serial_number: Some(String::from("SN \"7\"")),
        technology: Technology::LithiumIon,
        state: State::Charging,
        capacity: 9523,
        temperature: Some(3050),
        percentage: 5500,
        cycle_count: Some(321),
        energy: 1100,
        energy_full: 2000,
        energy_full_design: 2100,
        energy_rate: 2160,
        voltage: 12_400,
        time_to_full: Some(1500),
        time_to_empty: None,
    }
}

fn dumped(reading: Reading) -> Battery {
    Battery::from(Device::new(Platform::Linux, reading).expect("admissible reading"))
}

fn value_of(battery: &Battery, name: &str) -> String {
    let fields = battery.debug_fields();
    let field = fields.iter().find(|field| field.name == name).expect("a field of that name");
    field.value.clone()
}

#[test]
fn decimal_writes_plain_digits() {
    assert_eq!(decimal(0), "0");
    assert_eq!(decimal(7), "7");
    assert_eq!(decimal(10), "10");
    assert_eq!(decimal(1500), "1500");
    assert_eq!(decimal(4_294_967_295), "4294967295");
    assert_eq!(decimal(u64::MAX), "18446744073709551615");
}

#[test]
fn decimal_agrees_with_std() {
    for n in [0u64, 1, 9, 10, 11, 99, 100, 101, 12_345, 1_000_000, u64::MAX - 1] {
        assert_eq!(decimal(n), n.to_string());
    }
}

#[test]
fn hundredths_keeps_one_fractional_digit_at_least() {
    assert_eq!(hundredths(0), "0.0");
    assert_eq!(hundredths(5), "0.05");
    assert_eq!(hundredths(50), "0.5");
    assert_eq!(hundredths(5500), "55.0");
    assert_eq!(hundredths(5550), "55.5");
    assert_eq!(hundredths(5525), "55.25");
    assert_eq!(hundredths(5505), "55.05");
    assert_eq!(hundredths(10_000), "100.0");
}

#[test]
fn hundredths_reads_back_as_the_same_number() {
    for n in [0u64, 1, 10, 99, 100, 101, 5500, 9523, 10_000] {
        let parsed: f64 = hundredths(n).parse().expect("a decimal fraction");
        assert!((parsed * 100.0 - n as f64).abs() < 1e-6);
    }
}

#[test]
fn signed_hundredths_marks_negative_values() {
    assert_eq!(signed_hundredths(3050), "30.5");
    assert_eq!(signed_hundredths(0), "0.0");
    assert_eq!(signed_hundredths(-5), "-0.05");
    assert_eq!(signed_hundredths(-1250), "-12.5");
    assert_eq!(signed_hundredths(i32::MAX), "21474836.47");
    assert_eq!(signed_hundredths(i32::MIN), "-21474836.48");
}

#[test]
fn seconds_carry_their_unit() {
    assert_eq!(seconds(0), "0s");
    assert_eq!(seconds(1500), "1500s");
    assert_eq!(seconds(1500), format!("{:?}", std::time::Duration::from_secs(1500)));
}

#[test]
fn optional_wraps_present_content() {
    assert_eq!(optional(None), "None");
    assert_eq!(optional(Some(String::from("x"))), "Some(x)");
    assert_eq!(optional(Some(String::new())), "Some()");
}

#[test]
fn optional_values_read_like_std_debug() {
    assert_eq!(optional_count(Some(321)), format!("{:?}", Some(321u32)));
    assert_eq!(optional_count(None), format!("{:?}", None::<u32>));
    assert_eq!(optional_time(Some(90)), "Some(90s)");
    assert_eq!(optional_time(None), "None");
    assert_eq!(optional_temperature(Some(3050)), format!("{:?}", Some(30.5f32)));
    assert_eq!(optional_temperature(Some(-25)), "Some(-0.25)");
    assert_eq!(optional_temperature(None), "None");
}

#[test]
fn optional_text_is_quoted_and_escaped() {
    assert_eq!(optional_text(Some("ACME")), "Some(\"ACME\")");
    assert_eq!(optional_text(Some("a\"b")), "Some(\"a\\\"b\")");
    assert_eq!(optional_text(Some("tab\there")), "Some(\"tab\\there\")");
    assert_eq!(optional_text(Some("")), "Some(\"\")");
    assert_eq!(optional_text(None), "None");
    assert_eq!(optional_text(Some("ACME")), format!("{:?}", Some("ACME")));
}

#[test]
fn dump_lists_every_field_in_order() {
    let fields = dumped(charging()).debug_fields();
    let names: Vec<&str> = fields.iter().map(|field| field.name).collect();
    assert_eq!(
        names,
        vec![
            "vendor",
            "model",
            "serial_number",
            "technology",
            "state",
            "capacity",
            "temperature",
            "percentage",
            "cycle_count",
            "energy",
            "energy_full",
            "energy_full_design",
            "energy_rate",
            "voltage",
            "time_to_full",
            "time_to_empty",
        ]
    );
    assert_eq!(fields.len(), FIELD_COUNT);
}

#[test]
fn dump_shows_each_accessor_value() {
    let fields = dumped(charging()).debug_fields();
    let values: Vec<&str> = fields.iter().map(|field| field.value.as_str()).collect();
    assert_eq!(
        values,
        vec![
            "Some(\"ACME\")",
            "None",
            "Some(\"SN \\\"7\\\"\")",
            "LithiumIon",
            "Charging",
            "95.23",
            "Some(30.5)",
            "55.0",
            "Some(321)",
            "1100",
            "2000",
            "2100",
            "2160",
            "12400",
            "Some(1500s)",
            "None",
        ]
    );
}

#[test]
fn dump_text_is_one_line_in_struct_form() {
    let text = dumped(charging()).debug_string();
    assert_eq!(
        text,
        "Battery { vendor: Some(\"ACME\"), model: None, serial_number: Some(\"SN \\\"7\\\"\"), \
         technology: LithiumIon, state: Charging, capacity: 95.23, temperature: Some(30.5), \
         percentage: 55.0, cycle_count: Some(321), energy: 1100, energy_full: 2000, \
         energy_full_design: 2100, energy_rate: 2160, voltage: 12400, \
         time_to_full: Some(1500s), time_to_empty: None }"
    );
}

#[test]
fn dump_is_the_same_when_taken_twice() {
    let battery = dumped(charging());
    let first = battery.debug_fields();
    let second = battery.debug_fields();
    assert_eq!(first.len(), second.len());
    for (a, b) in first.iter().zip(second.iter()) {
        assert_eq!(a.name, b.name);
        assert_eq!(a.value, b.value);
    }
    assert_eq!(battery.debug_string(), battery.debug_string());
}

#[test]
fn dump_does_not_depend_on_the_platform() {
    let reading = Reading { technology: Technology::Unknown, ..charging() };
    let linux = Battery::from(Device::new(Platform::Linux, reading).expect("admissible reading"));
    let reading = Reading { technology: Technology::Unknown, ..charging() };
    let macos = Battery::from(Device::new(Platform::MacOS, reading).expect("admissible reading"));
    assert_eq!(linux.debug_string(), macos.debug_string());
}

#[test]
fn dump_follows_a_refreshed_device() {
    let mut battery = dumped(charging());
    assert_eq!(value_of(&battery, "energy"), "1100");
    let newer = Reading { energy: 1234, ..charging() };
    *battery.get_mut_ref() = Device::new(Platform::Linux, newer).expect("admissible reading");
    assert_eq!(value_of(&battery, "energy"), "1234");
    assert_eq!(value_of(&battery, "vendor"), "Some(\"ACME\")");
}

#[test]
fn absent_vendor_is_dumped_as_none() {
    let battery = dumped(Reading { vendor: None, ..charging() });
    assert_eq!(battery.vendor(), None);
    let fields = battery.debug_fields();
    assert_eq!(fields[0].name, "vendor");
    assert_eq!(fields[0].value, "None");
    assert_ne!(fields[0].value, "");
    assert!(battery.debug_string().starts_with("Battery { vendor: None, model: None, "));
}

#[test]
fn empty_vendor_is_dumped_as_an_empty_text() {
    let battery = dumped(Reading { vendor: Some(String::new()), ..charging() });
    assert_eq!(value_of(&battery, "vendor"), "Some(\"\")");
}

#[test]
fn vendor_named_none_is_still_a_present_text() {
    let battery = dumped(Reading { vendor: Some(String::from("None")), ..charging() });
    assert_eq!(value_of(&battery, "vendor"), "Some(\"None\")");
}

#[test]
fn struct_text_without_fields_is_the_bare_name() {
    assert_eq!(struct_text("Battery", &Vec::new()), "Battery");
}

#[test]
fn struct_text_separates_fields_with_commas() {
    let one = vec![Field { name: "a", value: String::from("1") }];
    assert_eq!(struct_text("T", &one), "T { a: 1 }");
    let two = vec![
        Field { name: "a", value: String::from("1") },
        Field { name: "b", value: String::from("None") },
    ];
    assert_eq!(struct_text("T", &two), "T { a: 1, b: None }");
}
