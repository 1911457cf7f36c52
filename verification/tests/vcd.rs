use digisurf::hex::parse_binary_to_hex;
use digisurf::value::{Value, WaveValue};
use digisurf::vcd::grammar::{
    parse_scope_declaration, parse_time_stamp, parse_value_change, parse_var_declaration,
};
use digisurf::vcd::parser::{parse_vcd, VcdParser};
use digisurf::waveform::SignalValues;

#[test]
fn test_parse_binary_to_hex() {
    let input = "";
    let (remaining, hex_str) = parse_binary_to_hex(input).unwrap();
    assert_eq!(remaining, "");
    assert_eq!(hex_str, "");

    let input = "0";
    let (remaining, hex_str) = parse_binary_to_hex(input).unwrap();
    assert_eq!(remaining, "");
    assert_eq!(hex_str, "0");

    let input = "0000";
    let (remaining, hex_str) = parse_binary_to_hex(input).unwrap();
    assert_eq!(remaining, "");
    assert_eq!(hex_str, "0");

    let input = "00000";
    let (remaining, hex_str) = parse_binary_to_hex(input).unwrap();
    assert_eq!(remaining, "");
    assert_eq!(hex_str, "00");

    let input = "00000000";
    let (remaining, hex_str) = parse_binary_to_hex(input).unwrap();
    assert_eq!(remaining, "");
    assert_eq!(hex_str, "00");

    let input = "1";
    let (remaining, hex_str) = parse_binary_to_hex(input).unwrap();
    assert_eq!(remaining, "");
    assert_eq!(hex_str, "1");

    let input = "111";
    let (remaining, hex_str) = parse_binary_to_hex(input).unwrap();
    assert_eq!(remaining, "");
    assert_eq!(hex_str, "7");

    let input = "1111111";
    let (remaining, hex_str) = parse_binary_to_hex(input).unwrap();
    assert_eq!(remaining, "");
    assert_eq!(hex_str, "7F");

    let input = "11111111";
    let (remaining, hex_str) = parse_binary_to_hex(input).unwrap();
    assert_eq!(remaining, "");
    assert_eq!(hex_str, "FF");

    let input = "10101010";
    let (remaining, hex_str) = parse_binary_to_hex(input).unwrap();
    assert_eq!(remaining, "");
    assert_eq!(hex_str, "AA");

    let mut large_input = String::new();
    for _ in 0..512 {
        large_input.push('1');
    }
    let (remaining, hex_str) = parse_binary_to_hex(&large_input).unwrap();
    assert_eq!(remaining, "");
    assert_eq!(hex_str.len(), 128);
    assert!(hex_str.chars().all(|c| c == 'F'));

    let input = "101a101";
    assert!(parse_binary_to_hex(input).is_err());

    let input = "101x101";
    assert!(parse_binary_to_hex(input).is_err());
}

#[test]
fn test_parse_var_declaration() {
    let input = "$var wire 1 # clk $end";
    let (remaining, var_def) = parse_var_declaration(input).unwrap();
    assert_eq!(remaining, "");
    assert_eq!(var_def.id, "#");
    assert_eq!(var_def.name, "clk");
    assert_eq!(var_def.width, 1);
    assert_eq!(var_def.var_type, "wire");

    let input = "$var wire 8 % data_bus $end";
    let (remaining, var_def) = parse_var_declaration(input).unwrap();
    assert_eq!(remaining, "");
    assert_eq!(var_def.id, "%");
    assert_eq!(var_def.name, "data_bus");
    assert_eq!(var_def.width, 8);
    assert_eq!(var_def.var_type, "wire");

    let input = "$var reg 32 @ address $end";
    let (remaining, var_def) = parse_var_declaration(input).unwrap();
    assert_eq!(remaining, "");
    assert_eq!(var_def.id, "@");
    assert_eq!(var_def.name, "address");
    assert_eq!(var_def.width, 32);
    assert_eq!(var_def.var_type, "reg");
}

#[test]
fn test_parse_scope_declaration() {
    let input = "$scope module top $end";
    let (remaining, scope_name) = parse_scope_declaration(input).unwrap();
    assert_eq!(remaining, "");
    assert_eq!(scope_name, "top");

    let input = "$scope task my_task $end";
    let (remaining, scope_name) = parse_scope_declaration(input).unwrap();
    assert_eq!(remaining, "");
    assert_eq!(scope_name, "my_task");
}

#[test]
fn test_parse_time_stamp() {
    let input = "#10";
    let (remaining, timestamp) = parse_time_stamp(input).unwrap();
    assert_eq!(remaining, "");
    assert_eq!(timestamp, 10);

    let input = "#1234567890";
    let (remaining, timestamp) = parse_time_stamp(input).unwrap();
    assert_eq!(remaining, "");
    assert_eq!(timestamp, 1234567890);
}

#[test]
fn test_parse_value_change_binary() {
    let input = "0#";
    let (remaining, (value, id)) = parse_value_change(input).unwrap();
    assert_eq!(remaining, "");
    assert_eq!(id, "#");
    assert!(matches!(value, WaveValue::Binary(Value::V0)));

    let input = "1$";
    let (remaining, (value, id)) = parse_value_change(input).unwrap();
    assert_eq!(remaining, "");
    assert_eq!(id, "$");
    assert!(matches!(value, WaveValue::Binary(Value::V1)));

    let input = "xSIG1";
    let (remaining, (value, id)) = parse_value_change(input).unwrap();
    assert_eq!(remaining, "");
    assert_eq!(id, "SIG1");
    assert!(matches!(value, WaveValue::Binary(Value::VX)));

    let input = "XSIG1";
    let (remaining, (value, id)) = parse_value_change(input).unwrap();
    assert_eq!(remaining, "");
    assert_eq!(id, "SIG1");
    assert!(matches!(value, WaveValue::Binary(Value::VX)));

    let input = "zSIG2";
    let (remaining, (value, id)) = parse_value_change(input).unwrap();
    assert_eq!(remaining, "");
    assert_eq!(id, "SIG2");
    assert!(matches!(value, WaveValue::Binary(Value::VZ)));

    let input = "ZSIG2";
    let (remaining, (value, id)) = parse_value_change(input).unwrap();
    assert_eq!(remaining, "");
    assert_eq!(id, "SIG2");
    assert!(matches!(value, WaveValue::Binary(Value::VZ)));
}

#[test]
fn test_parse_value_change_bus() {
    let input = "b00000000 %";
    let (remaining, (value, id)) = parse_value_change(input).unwrap();
    assert_eq!(remaining, "");
    assert_eq!(id, "%");
    assert!(matches!(value, WaveValue::Bus(ref s) if s == "00000000"));

    let input = "B00000000 %";
    let (remaining, (value, id)) = parse_value_change(input).unwrap();
    assert_eq!(remaining, "");
    assert_eq!(id, "%");
    assert!(matches!(value, WaveValue::Bus(ref s) if s == "00000000"));

    let input = "b10101010 %";
    let (remaining, (value, id)) = parse_value_change(input).unwrap();
    assert_eq!(remaining, "");
    assert_eq!(id, "%");
    assert!(matches!(value, WaveValue::Bus(ref s) if s == "10101010"));

    let input = "b10xz101z %";
    let (remaining, (value, id)) = parse_value_change(input).unwrap();
    assert_eq!(remaining, "");
    assert_eq!(id, "%");
    assert!(matches!(value, WaveValue::Bus(ref s) if s == "10xz101z"));

    let input = "b10XZ101Z %";
    let (remaining, (value, id)) = parse_value_change(input).unwrap();
    assert_eq!(remaining, "");
    assert_eq!(id, "%");
    assert!(matches!(value, WaveValue::Bus(ref s) if s == "10XZ101Z"));
}

#[test]
fn test_parse_value_change_real() {
    let input = "r1.234 %";
    let (remaining, (value, id)) = parse_value_change(input).unwrap();
    assert_eq!(remaining, "");
    assert_eq!(id, "%");
    assert!(matches!(value, WaveValue::Bus(ref s) if s == "r1.234"));

    let input = "R1.234 %";
    let (remaining, (value, id)) = parse_value_change(input).unwrap();
    assert_eq!(remaining, "");
    assert_eq!(id, "%");
    assert!(matches!(value, WaveValue::Bus(ref s) if s == "r1.234"));

    let input = "r1.234e-5 %";
    let (remaining, (value, id)) = parse_value_change(input).unwrap();
    assert_eq!(remaining, "");
    assert_eq!(id, "%");
    assert!(matches!(value, WaveValue::Bus(ref s) if s == "r1.234e-5"));
}

#[test]
fn test_parse_simple_vcd() {
    let lines = [
        "$date November 11, 2023 $end",
        "$version Test VCD 1.0 $end",
        "$timescale 1ps $end",
        "$scope module test $end",
        "$var wire 1 ! clk $end",
        "$var wire 1 $ reset $end",
        "$var wire 8 % data $end",
        "$upscope $end",
        "$enddefinitions $end",
        "$dumpvars",
        "0!",
        "1$",
        "b00000000 %",
        "$end",
        "#5",
        "b00001111 %",
        "#10",
        "1!",
        "b11110000 %",
        "#15",
        "b01010101 %",
        "#20",
        "0!",
        "0$",
        "b10101010 %",
    ];
    let mut text = String::new();
    for line in lines {
        text.push_str(line);
        text.push('\n');
    }

    let vcd_data = parse_vcd(&text);

    assert_eq!(vcd_data.signals.len(), 3);

    assert_eq!(vcd_data.signals[0], "test.clk");
    assert_eq!(vcd_data.signals[1], "test.reset");
    assert_eq!(vcd_data.signals[2], "test.data");

    assert_eq!(vcd_data.max_time, 20);

    let clk_values = vcd_data.values.get("test.clk").unwrap();
    assert_eq!(clk_values.len(), 3);
    assert_eq!(clk_values[0].0, 0);
    assert!(matches!(clk_values[0].1, WaveValue::Binary(Value::V0)));
    assert_eq!(clk_values[1].0, 10);
    assert!(matches!(clk_values[1].1, WaveValue::Binary(Value::V1)));
    assert_eq!(clk_values[2].0, 20);
    assert!(matches!(clk_values[2].1, WaveValue::Binary(Value::V0)));

    let data_values = vcd_data.values.get("test.data").unwrap();
    assert_eq!(data_values.len(), 5);
    assert_eq!(data_values[0].0, 0);
    assert!(matches!(data_values[0].1, WaveValue::Bus(ref s) if s == "00"));
    assert_eq!(data_values[1].0, 5);
    assert!(matches!(data_values[1].1, WaveValue::Bus(ref s) if s == "0F"));
    assert_eq!(data_values[2].0, 10);
    assert!(matches!(data_values[2].1, WaveValue::Bus(ref s) if s == "F0"));
    assert_eq!(data_values[3].0, 15);
    assert!(matches!(data_values[3].1, WaveValue::Bus(ref s) if s == "55"));
    assert_eq!(data_values[4].0, 20);
    assert!(matches!(data_values[4].1, WaveValue::Bus(ref s) if s == "AA"));
}

#[test]
fn undefined_bus_values_stay_in_binary() {
    let text = "$var wire 8 % data $end\n$enddefinitions $end\n#0\nb00001111 %\n#10\nb1x1x0000 %\n";
    let data = parse_vcd(text);
    assert_eq!(data.signals, vec!["data".to_string()]);
    assert_eq!(
        data.values.get("data").unwrap(),
        &vec![
            (0, WaveValue::Bus("0F".to_string())),
            (10, WaveValue::Bus("1x1x0000".to_string())),
        ]
    );
    assert_eq!(data.max_time, 10);
}

#[test]
fn lines_that_do_not_parse_are_skipped() {
    let mut parser = VcdParser::new();
    for line in [
        "#7",
        "1!",
        "$var wire 1 ! a $end",
        "$var wire 1 !! twice $end",
        "$var wire x # bad $end",
        "$variable",
        "$scope module $end",
        "$upscope $end",
        "  $var reg 4 # bus $end  ",
        "$enddefinitions $end",
        "garbage",
        "b1010",
        "#12",
        "#99999999999999999999999",
        "1!",
        "1?",
        "b101 #",
        "r2.5 #",
        "#3",
        "0!",
        "",
        "   ",
    ] {
        parser.feed(line);
    }
    let data = parser.finish();
    assert_eq!(data.signals, vec!["a".to_string(), "bus".to_string()]);
    assert_eq!(data.max_time, 12);
    assert_eq!(
        data.values.get("a").unwrap(),
        &vec![
            (12, WaveValue::Binary(Value::V1)),
            (3, WaveValue::Binary(Value::V0)),
        ]
    );
    assert_eq!(
        data.values.get("bus").unwrap(),
        &vec![
            (12, WaveValue::Bus("5".to_string())),
            (12, WaveValue::Bus("r2.5".to_string())),
        ]
    );
    assert!(data.values.get("twice").is_none());
    assert_eq!(data.values.len(), 2);
}

#[test]
fn a_code_declared_again_keeps_its_place() {
    let text = "$scope module top $end\n$var wire 1 ! a $end\n$var wire 1 # b $end\n$scope module sub $end\n$var wire 1 ! c $end\n$upscope $end\n$upscope $end\n$upscope $end\n$var wire 1 % d $end\n$enddefinitions $end\n#1\n1!\n";
    let data = parse_vcd(text);
    assert_eq!(
        data.signals,
        vec!["top.sub.c".to_string(), "top.b".to_string(), "d".to_string()]
    );
    assert_eq!(
        data.values.get("top.sub.c").unwrap(),
        &vec![(1, WaveValue::Binary(Value::V1))]
    );
    assert!(data.values.get("top.a").unwrap().is_empty());
    assert!(data.values.get("top.b").unwrap().is_empty());
    assert!(data.values.get("top.c").is_none());
}

#[test]
fn change_logs_follow_the_time_stamps() {
    let text = "$var wire 1 ! a $end\n$var wire 4 # b $end\n$enddefinitions $end\n#0\n0!\nb0 #\n#4\n1!\n#4\nb1111 #\n#9\n0!\nbz #\n";
    let data = parse_vcd(text);
    for name in ["a", "b"] {
        let log = data.values.get(name).unwrap();
        assert_eq!(log.len(), 3);
        for pair in log.windows(2) {
            assert!(pair[0].0 <= pair[1].0);
        }
    }
}

#[test]
fn a_name_stands_for_one_change_log() {
    let mut values = SignalValues::new();
    values.insert("a".to_string(), vec![(0, WaveValue::Binary(Value::V0))]);
    values.insert("b".to_string(), vec![]);
    values.insert("a".to_string(), vec![(5, WaveValue::Binary(Value::V1))]);
    assert_eq!(values.len(), 2);
    assert_eq!(
        values.get("a"),
        Some(&vec![(5, WaveValue::Binary(Value::V1))])
    );
    values.declare("a");
    values.declare("c");
    values.record("c", 7, WaveValue::Binary(Value::VX));
    values.record("d", 8, WaveValue::Binary(Value::VZ));
    assert_eq!(values.len(), 4);
    assert_eq!(
        values.get("a"),
        Some(&vec![(5, WaveValue::Binary(Value::V1))])
    );
    assert_eq!(
        values.get("c"),
        Some(&vec![(7, WaveValue::Binary(Value::VX))])
    );

    let data = parse_vcd(
        "$var wire 1 ! a $end\n$var wire 1 \" a $end\n$enddefinitions $end\n#0\n1!\n#3\n0\"\n",
    );
    assert_eq!(data.signals, vec!["a".to_string(), "a".to_string()]);
    assert_eq!(data.values.len(), 1);
    assert_eq!(
        data.values.get("a"),
        Some(&vec![
            (0, WaveValue::Binary(Value::V1)),
            (3, WaveValue::Binary(Value::V0))
        ])
    );
}
