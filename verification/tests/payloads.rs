use weaksignal::callsignmap::CallsignMap;
use weaksignal::message::messagedata::MessageData;

fn payload(bits: &str) -> [bool; 77] {
    let mut out = [false; 77];
    assert_eq!(bits.len(), 77);
    for (i, c) in bits.chars().enumerate() {
        out[i] = c == '1';
    }
    out
}

fn table(callsigns: &[&str]) -> CallsignMap {
    let mut map = CallsignMap::new();
    for c in callsigns {
        map.insert(&c.to_string());
    }
    map
}

fn strings(names: &[&str]) -> Vec<String> {
    names.iter().map(|s| s.to_string()).collect()
}

#[test]
fn standard_r_plain() {
    let map = table(&[]);
    let data = MessageData::from_bits(&payload("00001001101111011110001101010000011000010100100111011100000010100001010000001"), &map);
    assert_eq!(data.message_type_as_string(), "StandardR");
    assert_eq!(data.to_string(), "K1ABC W9XYZ FN20");
    assert_eq!(data.callsigns(), strings(&["K1ABC", "W9XYZ"]));
}

#[test]
fn standard_r_suffix_and_report() {
    let map = table(&[]);
    let data = MessageData::from_bits(&payload("00001001101111011110001101011000011000010100100111011100001111111010101000001"), &map);
    assert_eq!(data.message_type_as_string(), "StandardR");
    assert_eq!(data.to_string(), "K1ABC/R W9XYZ R-11");
    assert_eq!(data.callsigns(), strings(&["K1ABC/R", "W9XYZ"]));
}

#[test]
fn standard_p_cq_call() {
    let map = table(&[]);
    let data = MessageData::from_bits(&payload("00000000000000000000000000100000011000010100100111011100010010000100000000010"), &map);
    assert_eq!(data.message_type_as_string(), "StandardP");
    assert_eq!(data.to_string(), "CQ W9XYZ/P EM48");
    assert_eq!(data.callsigns(), strings(&["CQ", "W9XYZ/P"]));
}

#[test]
fn standard_hashed_known() {
    let map = table(&["PJ4/K1ABC"]);
    let data = MessageData::from_bits(&payload("00000011010100101011000010101000011000010100100111011100000111111010010011001"), &map);
    assert_eq!(data.message_type_as_string(), "StandardR");
    assert_eq!(data.to_string(), "PJ4/K1ABC W9XYZ RR73");
    assert_eq!(data.callsigns(), strings(&["PJ4/K1ABC", "W9XYZ"]));
}

#[test]
fn standard_hashed_unknown() {
    let map = table(&[]);
    let data = MessageData::from_bits(&payload("00000011010100101011000010100000011000010100100111011100000111111010010100001"), &map);
    assert_eq!(data.message_type_as_string(), "StandardR");
    assert_eq!(data.to_string(), "<1420834> W9XYZ 73");
    assert_eq!(data.callsigns(), strings(&["<1420834>", "W9XYZ"]));
}

#[test]
fn standard_directed_cq() {
    let map = table(&[]);
    let data = MessageData::from_bits(&payload("00000000000000000100011011110000010011011110111100011010100010100001010000001"), &map);
    assert_eq!(data.message_type_as_string(), "StandardR");
    assert_eq!(data.to_string(), "CQ DX K1ABC FN20");
    assert_eq!(data.callsigns(), strings(&["CQ DX", "K1ABC"]));
}

#[test]
fn standard_numbered_cq() {
    let map = table(&[]);
    let data = MessageData::from_bits(&payload("00000000000000000000100101000000010011011110111100011010100111111010010001001"), &map);
    assert_eq!(data.message_type_as_string(), "StandardR");
    assert_eq!(data.to_string(), "CQ 145 K1ABC ");
    assert_eq!(data.callsigns(), strings(&["CQ 145", "K1ABC"]));
}

#[test]
fn free_text_payload() {
    let map = table(&[]);
    let data = MessageData::from_bits(&payload("01100011111011011100111011100010101001001010111000000111111101010000000000000"), &map);
    assert_eq!(data.message_type_as_string(), "FreeText");
    assert_eq!(data.to_string(), "TNX BOB 73 GL");
    assert_eq!(data.callsigns(), strings(&[]));
}

#[test]
fn telemetry_payload() {
    let map = table(&[]);
    let data = MessageData::from_bits(&payload("00100100011010001010110011110001001101010111100110111101111000000010010101000"), &map);
    assert_eq!(data.message_type_as_string(), "Telemetry");
    assert_eq!(data.to_string(), "123456789ABCDEF012");
    assert_eq!(data.callsigns(), strings(&[]));
}

#[test]
fn dxpedition_known_hash() {
    let map = table(&["9V1AA"]);
    let data = MessageData::from_bits(&payload("00001001101111011110001101010000110000101001001110111000001001001101001001000"), &map);
    assert_eq!(data.message_type_as_string(), "Dxpedition");
    assert_eq!(data.to_string(), "K1ABC W9XYZ 9V1AA -12");
    assert_eq!(data.callsigns(), strings(&["K1ABC", "W9XYZ", "9V1AA"]));
}

#[test]
fn dxpedition_unknown_hash() {
    let map = table(&[]);
    let data = MessageData::from_bits(&payload("00001001101111011110001101010000110000101001001110111000001001001101001001000"), &map);
    assert_eq!(data.message_type_as_string(), "Dxpedition");
    assert_eq!(data.to_string(), "K1ABC W9XYZ <147> -12");
    assert_eq!(data.callsigns(), strings(&["K1ABC", "W9XYZ", "<147>"]));
}

#[test]
fn dxpedition_strongest() {
    let map = table(&[]);
    let data = MessageData::from_bits(&payload("00001001101111011110001101010000110000101001001110111000000000010111111001000"), &map);
    assert_eq!(data.message_type_as_string(), "Dxpedition");
    assert_eq!(data.to_string(), "K1ABC W9XYZ <5> 32");
    assert_eq!(data.callsigns(), strings(&["K1ABC", "W9XYZ", "<5>"]));
}

#[test]
fn field_day_low_count() {
    let map = table(&[]);
    let data = MessageData::from_bits(&payload("00001001101111011110001101010000110000101001001110111000010100010001010011000"), &map);
    assert_eq!(data.message_type_as_string(), "FieldDay");
    assert_eq!(data.to_string(), "K1ABC W9XYZ 6B EMA");
    assert_eq!(data.callsigns(), strings(&["K1ABC", "W9XYZ"]));
}

#[test]
fn field_day_high_count() {
    let map = table(&[]);
    let data = MessageData::from_bits(&payload("00001001101111011110001101010000110000101001001110111000101000000000000100000"), &map);
    assert_eq!(data.message_type_as_string(), "FieldDay");
    assert_eq!(data.to_string(), "K1ABC W9XYZ R 19A AB");
    assert_eq!(data.callsigns(), strings(&["K1ABC", "W9XYZ"]));
}

#[test]
fn field_day_section_outside_list() {
    let map = table(&[]);
    let data = MessageData::from_bits(&payload("00001001101111011110001101010000110000101001001110111000000001011100100011000"), &map);
    assert_eq!(data.message_type_as_string(), "FieldDay");
    assert_eq!(data.to_string(), "K1ABC W9XYZ 1F DX");
    assert_eq!(data.callsigns(), strings(&["K1ABC", "W9XYZ"]));
}

#[test]
fn field_day_last_section() {
    let map = table(&[]);
    let data = MessageData::from_bits(&payload("00001001101111011110001101010000110000101001001110111000011101111010011011000"), &map);
    assert_eq!(data.message_type_as_string(), "FieldDay");
    assert_eq!(data.to_string(), "K1ABC W9XYZ 8H DX");
    assert_eq!(data.callsigns(), strings(&["K1ABC", "W9XYZ"]));
}

#[test]
fn unknown_kind_six() {
    let map = table(&[]);
    let data = MessageData::from_bits(&payload("10101010101010101010101010101010101010101010101010101010101010101010101010110"), &map);
    assert_eq!(data.message_type_as_string(), "Unknown");
    assert_eq!(data.to_string(), "10101010101010101010101010101010101010101010101010101010101010101010101010110");
    assert_eq!(data.callsigns(), strings(&[]));
}

#[test]
fn unknown_subkind_two() {
    let map = table(&[]);
    let data = MessageData::from_bits(&payload("00000000000000000000000000000000000000000000000000000000000000000000000010000"), &map);
    assert_eq!(data.message_type_as_string(), "Unknown");
    assert_eq!(data.to_string(), "00000000000000000000000000000000000000000000000000000000000000000000000010000");
    assert_eq!(data.callsigns(), strings(&[]));
}

#[test]
fn rttyru_serial() {
    let map = table(&[]);
    let data = MessageData::from_bits(&payload("10000100110111101111000110101000011000010100100111011100001010000010001001011"), &map);
    assert_eq!(data.message_type_as_string(), "RTTYRU");
    assert_eq!(data.to_string(), "TU K1ABC W9XYZ 579 0137");
    assert_eq!(data.callsigns(), strings(&["K1ABC", "W9XYZ"]));
}

#[test]
fn rttyru_state() {
    let map = table(&[]);
    let data = MessageData::from_bits(&payload("00000100110111101111000110101000011000010100100111011100011111111101000101011"), &map);
    assert_eq!(data.message_type_as_string(), "RTTYRU");
    assert_eq!(data.to_string(), "K1ABC W9XYZ 599 CA ");
    assert_eq!(data.callsigns(), strings(&["K1ABC", "W9XYZ"]));
}

#[test]
fn rttyru_last_state() {
    let map = table(&[]);
    let data = MessageData::from_bits(&payload("00000100110111101111000110101000011000010100100111011100000001111110000001011"), &map);
    assert_eq!(data.message_type_as_string(), "RTTYRU");
    assert_eq!(data.to_string(), "K1ABC W9XYZ 529 DC ");
    assert_eq!(data.callsigns(), strings(&["K1ABC", "W9XYZ"]));
}

#[test]
fn rttyru_state_outside_list() {
    let map = table(&[]);
    let data = MessageData::from_bits(&payload("00000100110111101111000110101000011000010100100111011100000101111110000010011"), &map);
    assert_eq!(data.message_type_as_string(), "RTTYRU");
    assert_eq!(data.to_string(), "K1ABC W9XYZ 549 ");
    assert_eq!(data.callsigns(), strings(&["K1ABC", "W9XYZ"]));
}

#[test]
fn nonstd_cq() {
    let map = table(&[]);
    let data = MessageData::from_bits(&payload("00000000000000000000000110100011101000110001000111001010101000000000010001100"), &map);
    assert_eq!(data.message_type_as_string(), "NonStdCall");
    assert_eq!(data.to_string(), "CQ PJ4/K1ABC ");
    assert_eq!(data.callsigns(), strings(&["<0>", "PJ4/K1ABC"]));
}

#[test]
fn nonstd_known_hash() {
    let map = table(&["YW18FIFA"]);
    let data = MessageData::from_bits(&payload("00101111000100000000000110100011101000110001000111001010101000000000010100100"), &map);
    assert_eq!(data.message_type_as_string(), "NonStdCall");
    assert_eq!(data.to_string(), "YW18FIFA PJ4/K1ABC RR73");
    assert_eq!(data.callsigns(), strings(&["YW18FIFA", "PJ4/K1ABC"]));
}

#[test]
fn nonstd_swapped() {
    let map = table(&["YW18FIFA"]);
    let data = MessageData::from_bits(&payload("00101111000100000000000110100011101000110001000111001010101000000000011110100"), &map);
    assert_eq!(data.message_type_as_string(), "NonStdCall");
    assert_eq!(data.to_string(), "PJ4/K1ABC YW18FIFA 73");
    assert_eq!(data.callsigns(), strings(&["YW18FIFA", "PJ4/K1ABC"]));
}

#[test]
fn nonstd_unknown_hash() {
    let map = table(&[]);
    let data = MessageData::from_bits(&payload("00000100110100000000000000001110111011100011100111111010101100001001110010100"), &map);
    assert_eq!(data.message_type_as_string(), "NonStdCall");
    assert_eq!(data.to_string(), "<77> YW18FIFA RRR");
    assert_eq!(data.callsigns(), strings(&["<77>", "YW18FIFA"]));
}

#[test]
fn euvhf_known() {
    let map = table(&["PJ4/K1ABC", "YW18FIFA"]);
    let data = MessageData::from_bits(&payload("01010110101100101111000101110001001111000000101110100010111010110000000111101"), &map);
    assert_eq!(data.message_type_as_string(), "EUVHF");
    assert_eq!(data.to_string(), "PJ4/K1ABC YW18FIFA R 590023 IO91NP");
    assert_eq!(data.callsigns(), strings(&["PJ4/K1ABC", "YW18FIFA"]));
}

#[test]
fn euvhf_unknown() {
    let map = table(&[]);
    let data = MessageData::from_bits(&payload("00000000100100000000110000001110010000111111111110100110100101001101001011101"), &map);
    assert_eq!(data.message_type_as_string(), "EUVHF");
    assert_eq!(data.to_string(), "<9> <12345> 522047 JN58TD");
    assert_eq!(data.callsigns(), strings(&["<9>", "<12345>"]));
}
