use std::collections::VecDeque;
use weaksignal::callsignmap::CallsignMap;
use weaksignal::ft8::{
    accept_candidate, band_end, bitwise_crc14, check_tone_offsets, crc_matches, frequency_hz, gather_codeword, payload, push_history,
    symbol_frame, symbol_tone, time_offset_ms, trim_history, FT8Decoder, Framer,
};
use weaksignal::ldpc::{after_round, any_set, ldpc_check, DecodeStep, ParityGraph};
use weaksignal::message::{level_bits, snr_level, Message};

fn bits77(bits: &str) -> [bool; 77] {
    let mut out = [false; 77];
    assert_eq!(bits.len(), 77);
    for (i, c) in bits.chars().enumerate() {
        out[i] = c == '1';
    }
    out
}

/// A graph in which edge `e` joins variable `e / 3` at its place `e % 3` to
/// check `e % 83` at its place `e / 83`.
fn graph() -> ParityGraph {
    let mut g = ParityGraph {
        nm: [[255; 7]; 83],
        nmc: [[255; 7]; 83],
        mn: [[0; 3]; 174],
        mnv: [[0; 3]; 174],
    };
    for e in 0..522usize {
        let (v, k, c, i) = (e / 3, e % 3, e % 83, e / 83);
        g.nm[c][i] = v as u8;
        g.nmc[c][i] = k as u8;
        g.mn[v][k] = c as u8;
        g.mnv[v][k] = i as u8;
    }
    g
}

#[test]
fn checksum_values() {
    assert_eq!(bitwise_crc14(&[false; 77]), 0);
    assert_eq!(bitwise_crc14(&[true; 77]), 1969);
    let mut one = [false; 77];
    one[76] = true;
    assert_eq!(bitwise_crc14(&one), 14452);
    assert_eq!(
        bitwise_crc14(&bits77(
            "10100010000110001000010000110010001000011111110000111110010101100111110011001"
        )),
        7598
    );
}

#[test]
fn checksum_gate() {
    let data = bits77(
        "10100010000110001000010000110010001000011111110000111110010101100111110011001",
    );
    let mut codeword = [false; 174];
    codeword[..77].copy_from_slice(&data);
    for i in 0..14 {
        codeword[77 + i] = (7598 >> (13 - i)) & 1 == 1;
    }
    assert!(crc_matches(&codeword));
    assert_eq!(payload(&codeword), data);
    codeword[90] = !codeword[90];
    assert!(!crc_matches(&codeword));
    codeword[90] = !codeword[90];
    codeword[3] = !codeword[3];
    assert!(!crc_matches(&codeword));
    codeword[3] = !codeword[3];
    codeword[100] = true;
    assert!(crc_matches(&codeword));
}

#[test]
fn graph_tables_are_tested() {
    let g = graph();
    assert!(g.is_well_formed());
    let mut bad = g;
    bad.nm[5][2] = 174;
    assert!(!bad.is_well_formed());
    let mut bad = g;
    bad.nm[0][6] = 255;
    assert!(!bad.is_well_formed());
    let mut bad = g;
    bad.nmc[7][1] = 3;
    assert!(!bad.is_well_formed());
    let mut bad = g;
    bad.mn[9][0] = 83;
    assert!(!bad.is_well_formed());
    let mut bad = g;
    bad.mnv[9][0] = (bad.mnv[9][0] + 1) % 6;
    assert!(!bad.is_well_formed());
    let mut bad = g;
    bad.nm[80][6] = 3;
    assert!(!bad.is_well_formed());
}

#[test]
fn parity_of_codewords() {
    let g = graph();
    assert!(ldpc_check(&[false; 174], &g));
    let mut one = [false; 174];
    one[10] = true;
    assert!(!ldpc_check(&one, &g));
    let mut pair = [false; 174];
    pair[10] = true;
    pair[93] = true;
    assert!(ldpc_check(&pair, &g));
    assert!(!ldpc_check(&[true; 174], &g));
}

#[test]
fn step_after_a_round() {
    let g = graph();
    let mut pair = [false; 174];
    pair[0] = true;
    pair[83] = true;
    assert_eq!(after_round(&pair, 0, 10, &g), DecodeStep::Decoded);
    assert_eq!(after_round(&pair, 9, 10, &g), DecodeStep::Decoded);
    assert_eq!(after_round(&[false; 174], 0, 10, &g), DecodeStep::Failed);
    let mut one = [false; 174];
    one[173] = true;
    assert_eq!(after_round(&one, 0, 10, &g), DecodeStep::Again);
    assert_eq!(after_round(&one, 8, 10, &g), DecodeStep::Again);
    assert_eq!(after_round(&one, 9, 10, &g), DecodeStep::Failed);
    assert_eq!(after_round(&one, u32::MAX, u32::MAX, &g), DecodeStep::Failed);
    assert!(any_set(&one));
    assert!(!any_set(&[false; 174]));
}

#[test]
fn data_symbols_pass_over_the_middle_block() {
    assert_eq!(symbol_frame(0), 0);
    assert_eq!(symbol_frame(28), 56);
    assert_eq!(symbol_frame(29), 72);
    assert_eq!(symbol_frame(57), 128);
}

#[test]
fn soft_codeword_is_read_at_the_data_symbols() {
    let mut symbols: VecDeque<u32> = (0..390).collect();
    assert!(gather_codeword(&symbols).is_none());
    symbols.push_back(390);
    let codeword = gather_codeword(&symbols).unwrap();
    assert_eq!(codeword.len(), 174);
    assert_eq!(&codeword[..6], &[0, 1, 2, 6, 7, 8]);
    assert_eq!(&codeword[84..90], &[168, 169, 170, 216, 217, 218]);
    assert_eq!(&codeword[171..], &[384, 385, 386]);
}

#[test]
fn histories_drop_the_oldest() {
    let mut history: VecDeque<u32> = (0..10).collect();
    trim_history(&mut history, 12);
    assert_eq!(history.len(), 10);
    trim_history(&mut history, 4);
    assert_eq!(history, VecDeque::from(vec![6, 7, 8, 9]));
    push_history(&mut history, 10, 4);
    assert_eq!(history, VecDeque::from(vec![7, 8, 9, 10]));
    push_history(&mut history, 11, 6);
    assert_eq!(history, VecDeque::from(vec![7, 8, 9, 10, 11]));
    trim_history(&mut history, 0);
    assert!(history.is_empty());
}

#[test]
fn tones_of_a_codeword() {
    let mut codeword = [false; 174];
    codeword[0] = true;
    codeword[4] = true;
    codeword[171] = true;
    codeword[172] = true;
    codeword[173] = true;
    assert_eq!(symbol_tone(&codeword, 0), 4);
    assert_eq!(symbol_tone(&codeword, 1), 2);
    assert_eq!(symbol_tone(&codeword, 2), 0);
    assert_eq!(symbol_tone(&codeword, 57), 7);
}

#[test]
fn frequency_and_time() {
    assert_eq!(frequency_hz(0), 0);
    assert_eq!(frequency_hz(1), 3);
    assert_eq!(frequency_hz(321), 1003);
    assert_eq!(frequency_hz(960), 3000);
    assert_eq!(time_offset_ms(136320, 3840), 0);
    assert_eq!(time_offset_ms(180000, 3840), 3640);
    assert_eq!(time_offset_ms(0, 3840), -11360);
    assert_eq!(time_offset_ms(136319, 3840), 0);
    assert_eq!(time_offset_ms(136308, 3840), -1);
    assert_eq!(time_offset_ms(136331, 3840), 0);
    assert_eq!(time_offset_ms(136332, 3840), 1);
    assert_eq!(time_offset_ms(10, 5), -13);
}

#[test]
fn band_ends_before_the_tones_leave_the_spectrum() {
    assert_eq!(band_end(960, 3840), 960);
    assert_eq!(band_end(1904, 3840), 1904);
    assert_eq!(band_end(1905, 3840), 1904);
    assert_eq!(band_end(5, 32), 0);
}

#[test]
fn frames_overlap_by_three_quarters() {
    let mut framer: Framer<u32> = Framer::new(8);
    framer.extend(&[0, 1, 2, 3, 4, 5, 6]);
    assert!(framer.next_frame().is_none());
    assert_eq!(framer.total_samples, 0);
    framer.extend(&[7, 8, 9, 10, 11]);
    assert_eq!(framer.next_frame().unwrap(), vec![0, 1, 2, 3, 4, 5, 6, 7]);
    assert_eq!(framer.total_samples, 2);
    assert_eq!(framer.next_frame().unwrap(), vec![2, 3, 4, 5, 6, 7, 8, 9]);
    assert_eq!(framer.next_frame().unwrap(), vec![4, 5, 6, 7, 8, 9, 10, 11]);
    assert_eq!(framer.total_samples, 6);
    assert!(framer.next_frame().is_none());
    assert_eq!(framer.pending, VecDeque::from(vec![6, 7, 8, 9, 10, 11]));
    assert_eq!(framer.total_samples, 6);
}

fn standard(snr: i32, freq: u32, grid: u16) -> Message {
    let mut bits = [false; 77];
    let fields: [(u32, usize, usize); 4] =
        [(10214965, 0, 28), (12751800, 29, 28), (grid as u32, 59, 15), (1, 74, 3)];
    for (value, start, width) in fields {
        for i in 0..width {
            bits[start + i] = (value >> (width - 1 - i)) & 1 == 1;
        }
    }
    Message::from_bits(snr, freq, 40, &bits, &CallsignMap::new())
}

#[test]
fn message_keeps_what_it_was_given() {
    let message = standard(-7, 1003, 10320);
    assert_eq!(message.snr, -7);
    assert_eq!(message.freq_bin_hz, 1003);
    assert_eq!(message.time_offset_ms, 40);
    assert_eq!(message.data.to_string(), "K1ABC W9XYZ FN20");
    assert_eq!(message.callsigns(), vec!["K1ABC".to_string(), "W9XYZ".to_string()]);
}

#[test]
fn one_message_of_each_text_survives() {
    let messages = vec![
        standard(3, 100, 10320),
        standard(9, 200, 10320),
        standard(5, 300, 32402),
        standard(9, 400, 10320),
        standard(-1, 500, 32402),
        standard(0, 600, 32404),
    ];
    let mut kept: Vec<(String, i32, u32)> = Message::deduplicate_signals(messages)
        .iter()
        .map(|m| (m.data.to_string(), m.snr, m.freq_bin_hz))
        .collect();
    kept.sort();
    assert_eq!(
        kept,
        vec![
            ("K1ABC W9XYZ 73".to_string(), 0, 600),
            ("K1ABC W9XYZ FN20".to_string(), 9, 200),
            ("K1ABC W9XYZ RRR".to_string(), 5, 300),
        ]
    );
    assert!(Message::deduplicate_signals(Vec::new()).is_empty());
}

fn codeword_of(data: &[bool; 77]) -> [bool; 174] {
    let mut codeword = [false; 174];
    codeword[..77].copy_from_slice(data);
    let crc = bitwise_crc14(data);
    for i in 0..14 {
        codeword[77 + i] = (crc >> (13 - i)) & 1 == 1;
    }
    codeword
}

#[test]
fn candidate_with_right_checksum_is_reported() {
    let data = bits77(
        "00001001101111011110001101010000011000010100100111011100000010100001010000001",
    );
    let codeword = codeword_of(&data);
    let message = accept_candidate(&codeword, 17, 321, 180000, 3840, &CallsignMap::new()).unwrap();
    assert_eq!(message.snr, 17);
    assert_eq!(message.freq_bin_hz, 1003);
    assert_eq!(message.time_offset_ms, 3640);
    assert_eq!(message.data.to_string(), "K1ABC W9XYZ FN20");
}

#[test]
fn candidate_with_wrong_checksum_is_dropped() {
    let data = bits77(
        "00001001101111011110001101010000011000010100100111011100000010100001010000001",
    );
    let mut codeword = codeword_of(&data);
    codeword[80] = !codeword[80];
    assert!(accept_candidate(&codeword, 17, 321, 180000, 3840, &CallsignMap::new()).is_none());
}

#[test]
fn candidate_of_unknown_kind_is_dropped() {
    let mut data = [false; 77];
    data[5] = true;
    data[74] = true;
    data[75] = true;
    let codeword = codeword_of(&data);
    assert!(accept_candidate(&codeword, 17, 321, 180000, 3840, &CallsignMap::new()).is_none());
    let mut data = [false; 77];
    data[5] = true;
    data[72] = true;
    let codeword = codeword_of(&data);
    assert!(accept_candidate(&codeword, 17, 321, 180000, 3840, &CallsignMap::new()).is_none());
    let mut data = [false; 77];
    data[5] = true;
    let codeword = codeword_of(&data);
    assert!(accept_candidate(&codeword, 17, 321, 180000, 3840, &CallsignMap::new()).is_some());
}

#[test]
fn tone_offsets_begin_with_the_synchronisation_pattern() {
    assert!(check_tone_offsets(&[3, 1, 4, 0, 6, 5, 2, 7]));
    assert!(check_tone_offsets(&[3, 1, 4, 0, 6, 5, 2, 0]));
    assert!(!check_tone_offsets(&[3, 1, 4, 0, 6, 5, 2, 8]));
    assert!(!check_tone_offsets(&[0, 1, 2, 3, 4, 5, 6, 7]));
    assert!(!check_tone_offsets(&[3, 1, 4, 0, 6, 5, 3, 7]));
}

#[test]
fn graph_from_numbers() {
    let g = graph();
    let mut numbers: Vec<u8> = Vec::new();
    for row in g.nm.iter().chain(g.nmc.iter()) {
        numbers.extend_from_slice(row);
    }
    for row in g.mn.iter().chain(g.mnv.iter()) {
        numbers.extend_from_slice(row);
    }
    assert_eq!(numbers.len(), 2206);
    let read = ParityGraph::from_numbers(&numbers).unwrap();
    assert_eq!(read.nm, g.nm);
    assert_eq!(read.nmc, g.nmc);
    assert_eq!(read.mn, g.mn);
    assert_eq!(read.mnv, g.mnv);
    assert!(ParityGraph::from_numbers(&numbers[1..]).is_none());
    numbers[1162] = numbers[1162] + 1;
    assert!(ParityGraph::from_numbers(&numbers).is_none());
    numbers.push(0);
    assert!(ParityGraph::from_numbers(&numbers).is_none());
}

#[test]
fn decoder_starts_empty_and_cuts_the_band() {
    let decoder: FT8Decoder<u32> = FT8Decoder::new(3840, 0, 960, 10);
    assert_eq!(decoder.fft_size, 3840);
    assert_eq!(decoder.to_bin, 960);
    assert_eq!(decoder.pwr.len(), 1921);
    assert_eq!(decoder.symbols.len(), 1921);
    assert_eq!(decoder.decode_attempts, 10);
    let narrow: FT8Decoder<u32> = FT8Decoder::new(64, 3, 1000, 30);
    assert_eq!(narrow.from_bin, 3);
    assert_eq!(narrow.to_bin, 16);
    assert_eq!(narrow.pwr.len(), 33);
    assert!(narrow.power_at(0, 0).is_none());
    assert!(narrow.power_at(33, 0).is_none());
}

#[test]
fn decoder_keeps_the_histories() {
    let mut decoder: FT8Decoder<u32> = FT8Decoder::new(32, 0, 0, 10);
    for frame in 0..140u32 {
        let powers: Vec<u32> = (0..17).map(|bin| 1000 * frame + bin).collect();
        decoder.push_powers(&powers);
        let codeword = decoder.soft_codeword(4, 3 * frame, 3 * frame + 1, 3 * frame + 2);
        if frame < 130 {
            assert!(codeword.is_none());
        } else {
            let oldest = 3 * (frame - 130);
            let codeword = codeword.unwrap();
            assert_eq!(codeword.len(), 174);
            assert_eq!(&codeword[..4], &[oldest, oldest + 1, oldest + 2, oldest + 6]);
            assert_eq!(codeword[173], oldest + 386);
        }
    }
    assert_eq!(decoder.symbols[4].len(), 390);
    assert_eq!(decoder.symbols[4][0], 3 * 10);
    assert_eq!(decoder.symbols[5].len(), 0);
    assert_eq!(decoder.pwr[16].len(), 132);
    assert_eq!(decoder.power_at(16, 0), Some(8016));
    assert_eq!(decoder.power_at(16, 131), Some(139016));
    assert_eq!(decoder.power_at(16, 132), None);
}

#[test]
fn decoder_frames_and_callsigns() {
    let mut decoder: FT8Decoder<u32> = FT8Decoder::new(32, 0, 0, 10);
    decoder.push_samples(&(0..40).collect::<Vec<u32>>());
    let frame = decoder.next_frame().unwrap();
    assert_eq!(frame, (0..32).collect::<Vec<u32>>());
    assert_eq!(decoder.framer.total_samples, 8);
    assert_eq!(decoder.next_frame().unwrap(), (8..40).collect::<Vec<u32>>());
    assert!(decoder.next_frame().is_none());
    assert_eq!(decoder.framer.total_samples, 16);
    let hash = decoder.insert_callsign(&"9V1AA".to_string());
    assert_eq!(hash, 603554);
    assert_eq!(decoder.callsign_map.get_22(hash).unwrap(), "9V1AA");
    let data = bits77(
        "00001001101111011110001101010000011000010100100111011100000010100001010000001",
    );
    let message = decoder.candidate(&codeword_of(&data), -3, 2).unwrap();
    assert_eq!(message.freq_bin_hz, 6);
    assert_eq!(message.time_offset_ms, -93);
    assert_eq!(message.snr, -3);
}

#[test]
fn levels_order_as_the_ratios_do() {
    let ratios: [f32; 7] = [-30.5, -1.0, -0.0, 0.0, 0.25, 12.0, 31.75];
    for pair in ratios.windows(2) {
        assert!(snr_level(pair[0].to_bits()) < snr_level(pair[1].to_bits()));
    }
    for ratio in ratios {
        let level = snr_level(ratio.to_bits());
        assert_eq!(level_bits(level), ratio.to_bits());
    }
    assert_eq!(snr_level(0), 0);
    assert_eq!(snr_level(0x8000_0000), -1);
    assert_eq!(snr_level(u32::MAX), i32::MIN);
    assert_eq!(snr_level(0x7fff_ffff), i32::MAX);
    assert_eq!(level_bits(i32::MIN), u32::MAX);
    assert_eq!(level_bits(-1), 0x8000_0000);
}
