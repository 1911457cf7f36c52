use digisurf::bits::parse_string_to_vector_of_values;
use digisurf::hex::parse_binary_to_hex;
use digisurf::value::Value::{V0, V1, VX, VZ};
use digisurf::value::{Value, WaveValue};

fn bus(s: &str) -> WaveValue {
    WaveValue::Bus(s.to_string())
}

#[test]
fn test_value_display() {
    assert_eq!(Value::V0.to_string(), "0");
    assert_eq!(Value::V1.to_string(), "1");
    assert_eq!(Value::VX.to_string(), "X");
    assert_eq!(Value::VZ.to_string(), "Z");
}

#[test]
fn test_wave_value_display() {
    assert_eq!(WaveValue::Binary(Value::V0).to_string(), "0");
    assert_eq!(WaveValue::Binary(Value::V1).to_string(), "1");
    assert_eq!(WaveValue::Binary(Value::VX).to_string(), "X");
    assert_eq!(WaveValue::Binary(Value::VZ).to_string(), "Z");
}

#[test]
fn test_binary_formatting() {
    assert_eq!(WaveValue::Binary(Value::V0).format_bus(2, false, false), "0");
    assert_eq!(WaveValue::Binary(Value::V1).format_bus(2, false, false), "1");

    let bus_a = bus("a");
    let bus_f0 = bus("f0");

    assert_eq!(bus_a.format_bus(2, false, false), "1010");
    assert_eq!(bus_f0.format_bus(2, false, false), "11110000");

    assert_eq!(bus_a.format_bus(2, false, true), "0b1010");
    assert_eq!(bus_f0.format_bus(2, false, true), "0b11110000");
}

#[test]
fn test_octal_formatting() {
    assert_eq!(WaveValue::Binary(Value::V0).format_bus(8, false, false), "0");
    assert_eq!(WaveValue::Binary(Value::V1).format_bus(8, false, false), "1");

    let bus_a = bus("a");
    let bus_ff = bus("ff");

    assert_eq!(bus_a.format_bus(8, false, false), "12");
    assert_eq!(bus_ff.format_bus(8, false, false), "377");

    assert_eq!(bus_a.format_bus(8, false, true), "0o12");
    assert_eq!(bus_ff.format_bus(8, false, true), "0o377");
}

#[test]
fn test_hex_formatting() {
    assert_eq!(WaveValue::Binary(Value::V0).format_bus(16, false, false), "0");
    assert_eq!(WaveValue::Binary(Value::V1).format_bus(16, false, false), "1");

    let bus_abcd = bus("abcd");
    let bus_1234 = bus("1234");

    assert_eq!(bus_abcd.format_bus(16, false, false), "abcd");
    assert_eq!(bus_1234.format_bus(16, false, false), "1234");

    assert_eq!(bus_abcd.format_bus(16, false, true), "0xabcd");
    assert_eq!(bus_1234.format_bus(16, false, true), "0x1234");

    assert_eq!(WaveValue::Binary(Value::V0).format_bus(16, true, false), "0");
    assert_eq!(WaveValue::Binary(Value::V1).format_bus(16, true, false), "1");

    assert_eq!(bus_abcd.format_bus(16, true, false), "ABCD");
    assert_eq!(bus_1234.format_bus(16, true, false), "1234");

    assert_eq!(bus_abcd.format_bus(16, true, true), "0XABCD");
    assert_eq!(bus_1234.format_bus(16, true, true), "0X1234");
}

#[test]
fn test_hex_to_oct_conversion() {
    assert_eq!(bus("7").format_bus(8, false, false), "7");
    assert_eq!(bus("f0").format_bus(8, false, false), "360");
    assert_eq!(bus("12").format_bus(8, false, false), "22");
    assert_eq!(bus("x4").format_bus(8, false, false), "x4");
}

#[test]
fn test_decimal_formatting() {
    assert_eq!(WaveValue::Binary(Value::V0).to_string(), "0");
    assert_eq!(WaveValue::Binary(Value::V1).to_string(), "1");

    assert_eq!(bus("0").to_string(), "0");
    assert_eq!(bus("9").to_string(), "9");
    assert_eq!(bus("1").to_string(), "1");
    assert_eq!(bus("a").to_string(), "10");
    assert_eq!(bus("64").to_string(), "100");
    assert_eq!(bus("3x").to_string(), "3x");
    assert_eq!(bus("z6").to_string(), "z6");
}

#[test]
fn the_bits_of_a_value() {
    assert_eq!(WaveValue::Binary(VZ).values(16), Some(vec![VZ]));
    assert_eq!(bus("10xZ").values(2), Some(vec![V1, V0, VX, VZ]));
    assert_eq!(bus("0b10").values(2), Some(vec![V1, V0]));
    assert_eq!(bus("0B1").values(2), Some(vec![V1]));
    assert_eq!(bus("0b").values(2), None);
    assert_eq!(bus("0").values(2), Some(vec![V0]));
    assert_eq!(bus("102").values(2), Some(vec![V1, V0]));
    assert_eq!(bus("2").values(2), None);
    assert_eq!(bus("").values(2), None);
    assert_eq!(bus("10").values(7), Some(vec![V1, V0]));
    assert_eq!(bus("0x1").values(7), Some(vec![V0, VX, V1]));

    assert_eq!(bus("5x").values(8), Some(vec![V1, V0, V1, VX, VX, VX]));
    assert_eq!(bus("0o17").values(8), Some(vec![V0, V0, V1, V1, V1, V1]));
    assert_eq!(bus("8").values(8), None);

    assert_eq!(
        bus("0d9z").values(10),
        Some(vec![V1, V0, V0, V1, VZ, VZ, VZ, VZ])
    );
    assert_eq!(bus("a").values(10), None);

    assert_eq!(
        bus("0XaF").values(16),
        Some(vec![V1, V0, V1, V0, V1, V1, V1, V1])
    );
    assert_eq!(bus("0x").values(16), None);
    assert_eq!(bus("3g").values(16), Some(vec![V0, V0, V1, V1]));
    assert_eq!(bus("r1.5").values(16), None);
}

#[test]
fn canonical_bits_read_back_with_whole_nibbles() {
    let (_, hex) = parse_binary_to_hex("1").unwrap();
    assert_eq!(hex, "1");
    assert_eq!(bus(&hex).values(16), Some(vec![V0, V0, V0, V1]));

    let (_, hex) = parse_binary_to_hex("1011010").unwrap();
    assert_eq!(hex, "5A");
    assert_eq!(
        bus(&hex).values(16),
        Some(vec![V0, V1, V0, V1, V1, V0, V1, V0])
    );

    let (_, hex) = parse_binary_to_hex("0001000000000000").unwrap();
    assert_eq!(hex, "1000");
    assert_eq!(bus(&hex).values(16).unwrap().len(), 16);

    let (_, hex) = parse_binary_to_hex("").unwrap();
    assert_eq!(bus(&hex).values(16), None);
}

#[test]
fn what_is_left_behind_the_digits() {
    let (rest, bits) = parse_string_to_vector_of_values("0x1f rest", 16).unwrap();
    assert_eq!(rest, " rest");
    assert_eq!(bits.len(), 8);
    let (rest, bits) = parse_string_to_vector_of_values("0x1f", 2).unwrap();
    assert_eq!(rest, "f");
    assert_eq!(bits, vec![V0, VX, V1]);
    assert!(parse_string_to_vector_of_values("q", 16).is_err());
}

#[test]
fn binary_display() {
    assert_eq!(WaveValue::format_string_as_binary("", false), "");
    assert_eq!(WaveValue::format_string_as_binary("1x0Z", false), "1x0z");
    assert_eq!(WaveValue::format_string_as_binary("1x0z", true), "1X0Z");
    assert_eq!(WaveValue::format_string_as_binary("0010", false), "0010");
    assert_eq!(WaveValue::format_string_as_binary("0F", false), "1111");
    assert_eq!(WaveValue::format_string_as_binary("00", true), "00");
    assert_eq!(WaveValue::format_string_as_binary("02", true), "10");
    assert_eq!(WaveValue::format_string_as_binary("0x0X2", true), "10");
    assert_eq!(WaveValue::format_string_as_binary("0X0x2", true), "XXXX0010");
    assert_eq!(WaveValue::format_string_as_binary("3x", false), "11xxxx");
    assert_eq!(WaveValue::format_string_as_binary("Z5", true), "ZZZZ0101");
    assert_eq!(WaveValue::format_string_as_binary("r1.5", false), "10101");
    assert_eq!(WaveValue::format_string_as_binary("g", false), "0");
}

#[test]
fn octal_and_hexadecimal_display() {
    assert_eq!(WaveValue::format_string_as_octal("", false), "0");
    assert_eq!(WaveValue::format_string_as_octal("10", false), "2");
    assert_eq!(WaveValue::format_string_as_octal("1F", false), "37");
    assert_eq!(WaveValue::format_string_as_octal("0", false), "0");
    assert_eq!(WaveValue::format_string_as_octal("1Xz", true), "1XZ");
    assert_eq!(WaveValue::format_string_as_octal("0x7", false), "0x7");

    assert_eq!(WaveValue::format_string_as_hex("0F", false), "f");
    assert_eq!(WaveValue::format_string_as_hex("0F", true), "F");
    assert_eq!(WaveValue::format_string_as_hex("0xBeEf", false), "beef");
    assert_eq!(WaveValue::format_string_as_hex("0x10", false), "x");
    assert_eq!(WaveValue::format_string_as_hex("0X1", true), "X");
    assert_eq!(WaveValue::format_string_as_hex("10x10", false), "1x");
    assert_eq!(WaveValue::format_string_as_hex("0B", false), "b");
    assert_eq!(WaveValue::format_string_as_hex("x4", true), "X4");
    assert_eq!(WaveValue::format_string_as_hex("1x", false), "x");
    assert_eq!(WaveValue::format_string_as_hex("3Z7", false), "3z7");
    assert_eq!(WaveValue::format_string_as_hex("", false), "0");
    assert_eq!(WaveValue::format_string_as_hex("11111", false), "1f");
    assert_eq!(bus("ab").format_bus(5, true, true), "ab");
}

#[test]
fn decimal_display() {
    assert_eq!(WaveValue::format_string_as_decimal("ff", false), "255");
    assert_eq!(WaveValue::format_string_as_decimal("0B", false), "11");
    assert_eq!(WaveValue::format_string_as_decimal("0b", true), "11");
    assert_eq!(WaveValue::format_string_as_decimal("0d7", false), "215");
    assert_eq!(WaveValue::format_string_as_decimal("0x10", false), "0x10");
    assert_eq!(WaveValue::format_string_as_decimal("0xff", true), "0Xff");
    assert_eq!(WaveValue::format_string_as_decimal("0x0Xff", false), "0x0xff");
    assert_eq!(WaveValue::format_string_as_decimal("0b0B0o0O0d7", false), "0b0B0o0O0d7");
    assert_eq!(bus("0B").to_string(), "11");
    assert_eq!(WaveValue::format_string_as_decimal("0D7", false), "215");
    assert_eq!(WaveValue::format_string_as_decimal("+10", false), "16");
    assert_eq!(WaveValue::format_string_as_decimal("", false), "");
    assert_eq!(WaveValue::format_string_as_decimal("+", false), "+");
    assert_eq!(WaveValue::format_string_as_decimal("1X", true), "1X");
    assert_eq!(WaveValue::format_string_as_decimal("zz", true), "ZZ");
    assert_eq!(WaveValue::format_string_as_decimal("r1.5", false), "r1.5");
    assert_eq!(
        WaveValue::format_string_as_decimal("ffffffffffffffff", false),
        "18446744073709551615"
    );
    assert_eq!(
        WaveValue::format_string_as_decimal("10000000000000000", false),
        "10000000000000000"
    );
    assert_eq!(bus("1f").format_bus(10, false, true), "0d31");
}
