use weaksignal::callsignmap::CallsignMap;
use weaksignal::message::callsign::{Callsign, Callsign28, Callsign58};
use weaksignal::message::freetext::FreeText;
use weaksignal::message::grid::{Grid4, Grid6};
use weaksignal::message::hashedcallsign::HashedCallsign;
use weaksignal::message::messagedata::S13;
use weaksignal::message::nonstdcall::NonStdCall;
use weaksignal::message::telemetry::Telemetry;

#[test]
fn callsign28() {
    let callsign = Callsign::from_u32(10214965, None, &CallsignMap::new());
    assert_eq!(callsign.to_string(), "K1ABC");
}

#[test]
fn callsign58_pj4k1abc() {
    let callsign = Callsign58::from_u64(166563865821947300);
    assert_eq!(callsign.to_string(), "PJ4/K1ABC");
}

#[test]
fn callsign58_yw18fifa() {
    let callsign = Callsign58::from_u64(225199321060198248);
    assert_eq!(callsign.to_string(), "YW18FIFA");
}

#[test]
fn grid4_fn20() {
    let grid = Grid4::from_u16(10320, false);
    assert_eq!(grid.to_string(), "FN20");
}

#[test]
fn grid4_minus11() {
    let grid = Grid4::from_u16(32424, false);
    assert_eq!(grid.to_string(), "-11");
}

#[test]
fn grid4_plus02() {
    let grid = Grid4::from_u16(32437, false);
    assert_eq!(grid.to_string(), "+02");
}

#[test]
fn grid4_rrr() {
    let grid = Grid4::from_u16(32402, false);
    assert_eq!(grid.to_string(), "RRR");
}

#[test]
fn grid4_73() {
    let grid = Grid4::from_u16(32404, false);
    assert_eq!(grid.to_string(), "73");
}

#[test]
fn grid4_empty() {
    let grid = Grid4::from_u16(32401, false);
    assert_eq!(grid.to_string(), "");
}

#[test]
fn grid6() {
    let grid = Grid6::from_u32(9153543);
    assert_eq!(grid.to_string(), "IO91NP");
}

#[test]
fn freetext_message() {
    let f71: Vec<i32> = vec![
        0, 1, 1, 0, 0, 0, 1, 1, 1, 1, 1, 0, 1, 1, 0, 1, 1, 1, 0, 0, 1, 1, 1, 0, 1, 1, 1, 0, 0,
        0, 1, 0, 1, 0, 1, 0, 0, 1, 0, 0, 1, 0, 1, 0, 1, 1, 1, 0, 0, 0, 0, 0, 0, 1, 1, 1, 1, 1,
        1, 1, 0, 1, 0, 1, 0, 0, 0, 0, 0, 0, 0,
    ];
    let mut f71_bool = f71.iter().map(|&x| x == 1).collect::<Vec<bool>>();
    f71_bool.extend(vec![false; 6]);
    let freetext = FreeText::from_bits(f71_bool.as_slice().try_into().unwrap());
    assert_eq!(freetext.to_string(), "TNX BOB 73 GL");
}

#[test]
fn test_stuff() {}

#[test]
fn grid4_corners() {
    assert_eq!(Grid4::to_grid(0), "AA00");
    assert_eq!(Grid4::to_grid(32399), "RR99");
    assert_eq!(Grid4::to_grid(32400), "AA00");
    assert_eq!(Grid4::to_grid(32403), "RR73");
    assert_eq!(Grid4::to_grid(32405), "-30");
    assert_eq!(Grid4::to_grid(32434), "-01");
    assert_eq!(Grid4::to_grid(32435), "+00");
    assert_eq!(Grid4::to_grid(32767), "+332");
}

#[test]
fn grid4_with_r_in_front() {
    assert_eq!(Grid4::from_u16(10320, true).to_string(), "RFN20");
    assert_eq!(Grid4::from_u16(32437, true).to_string(), "R+02");
    assert_eq!(Grid4::from_u16(32401, true).to_string(), "R");
}

#[test]
fn grid4_from_bits_reads_most_significant_first() {
    let mut bits = [false; 15];
    bits[14] = true;
    bits[0] = true;
    let grid = Grid4::from_bits_with_r(&bits, false);
    assert_eq!(grid.grid, 16385);
}

#[test]
fn grid6_corners() {
    assert_eq!(Grid6::to_grid(0), "AA00AA");
    assert_eq!(Grid6::to_grid(23), "AA00AX");
    assert_eq!(Grid6::to_grid(18 * 18 * 100 * 24 * 24 - 1), "RR99XX");
    let mut bits = [false; 25];
    bits[24] = true;
    assert_eq!(Grid6::from_bits(&bits).to_string(), "AA00AB");
}

#[test]
fn call_text_of_each_range() {
    assert_eq!(Callsign28::to_call(0), "DE");
    assert_eq!(Callsign28::to_call(1), "QRZ");
    assert_eq!(Callsign28::to_call(2), "CQ");
    assert_eq!(Callsign28::to_call(3), "CQ 000");
    assert_eq!(Callsign28::to_call(1003), "CQ 1000");
    assert_eq!(Callsign28::to_call(1004), "CQ A");
    assert_eq!(Callsign28::to_call(1135), "CQ DX");
    assert_eq!(Callsign28::to_call(2063591), "CQ CWUID");
    assert_eq!(Callsign28::to_call(2063592), "<0>");
    assert_eq!(Callsign28::to_call(6257895), "<4194303>");
    assert_eq!(Callsign28::to_call(6257896), "00");
    assert_eq!(Callsign28::to_call(12751800), "W9XYZ");
}

#[test]
fn standard_call_trims_both_ends() {
    assert_eq!(Callsign28::to_standard_call(10214965 - 6257896), "K1ABC");
    assert_eq!(Callsign28::to_standard_call(0), "00");
    assert_eq!(Callsign28::num_to_str(0), "");
    assert_eq!(Callsign28::num_to_str(27), "A");
    assert_eq!(Callsign28::num_to_str(4 * 27 + 24), "DX");
}

#[test]
fn callsign28_with_suffix() {
    assert_eq!(Callsign28::from_u32(10214965, Some('R')).to_string(), "K1ABC/R");
    assert_eq!(Callsign28::from_u32(2, Some('P')).to_string(), "CQ/P");
}

#[test]
fn callsign_in_hash_range_is_looked_up() {
    let mut map = CallsignMap::new();
    let hash = map.insert(&"PJ4/K1ABC".to_string());
    let known = Callsign::from_u32(2063592 + hash, Some('R'), &map);
    assert_eq!(known.to_string(), "PJ4/K1ABC");
    assert!(matches!(known, Callsign::H22(_)));
    let unknown = Callsign::from_u32(2063592 + hash + 1, None, &map);
    assert_eq!(unknown.to_string(), "<1420835>");
    assert!(matches!(Callsign::from_u32(6257896, None, &map), Callsign::C28(_)));
    assert!(matches!(Callsign::from_u32(2063591, None, &map), Callsign::C28(_)));
}

#[test]
fn callsign_from_bits() {
    let mut bits = [false; 28];
    bits[26] = true;
    let map = CallsignMap::new();
    assert_eq!(Callsign::from_bits(&bits, &map).to_string(), "CQ");
    assert_eq!(
        Callsign::from_bits_with_suffix(&bits, Some('P'), &map).to_string(),
        "CQ/P"
    );
}

#[test]
fn callsign58_from_bits() {
    let mut bits = [false; 58];
    bits[57] = true;
    assert_eq!(Callsign58::from_bits(&bits).to_call(), "0");
    assert_eq!(Callsign58::from_u64(0).to_call(), "");
}

#[test]
fn hashed_callsign_of_each_size() {
    let mut map = CallsignMap::new();
    map.insert(&"9V1AA".to_string());
    assert_eq!(HashedCallsign::<22>::from_hash(603554, &map).to_string(), "9V1AA");
    assert_eq!(HashedCallsign::<12>::from_hash(589, &map).to_string(), "9V1AA");
    assert_eq!(HashedCallsign::<10>::from_hash(147, &map).to_string(), "9V1AA");
    assert_eq!(HashedCallsign::<22>::from_hash(603555, &map).to_string(), "<603555>");
    assert_eq!(HashedCallsign::<12>::from_hash(590, &map).to_string(), "<590>");
    assert_eq!(HashedCallsign::<10>::from_hash(148, &map).to_string(), "<148>");
    assert_eq!(HashedCallsign::<16>::from_hash(603554, &map).to_string(), "<603554>");
    assert_eq!(HashedCallsign::<12>::from_hash(65536 + 589, &map).to_string(), "9V1AA");
}

#[test]
fn s13_serial_or_state() {
    assert_eq!(S13::new(0).to_string(), "0000");
    assert_eq!(S13::new(8000).to_string(), "8000");
    assert_eq!(S13::new(8001), S13::StatesAndProvinces(0));
    assert_eq!(S13::new(8001).to_string(), "AL ");
    assert_eq!(S13::new(8065).to_string(), "DC ");
    assert_eq!(S13::new(8066).to_string(), "");
    assert_eq!(S13::new(8001 + 256), S13::StatesAndProvinces(0));
    assert_eq!(S13::SerialNumber(12345).to_string(), "12345");
}

#[test]
fn closing_words() {
    assert_eq!(NonStdCall::message_word_to_text(0), "");
    assert_eq!(NonStdCall::message_word_to_text(1), "RRR");
    assert_eq!(NonStdCall::message_word_to_text(2), "RR73");
    assert_eq!(NonStdCall::message_word_to_text(3), "73");
    assert_eq!(NonStdCall::message_word_to_text(4), "???");
}

#[test]
fn free_text_and_telemetry_of_zero() {
    assert_eq!(FreeText::to_text(&[false; 71]), "             ");
    assert_eq!(Telemetry::to_text(&[false; 71]), "000000000000000000");
    assert_eq!(Telemetry::to_text(&[true; 71]), "7FFFFFFFFFFFFFFFFF");
}
