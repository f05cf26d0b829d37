//! The decoded message and the ten kinds of payload.

pub mod callsign;
pub mod dxpedition;
pub mod euvhf;
pub mod fieldday;
pub mod freetext;
pub mod grid;
pub mod hashedcallsign;
pub mod messagedata;
pub mod nonstdcall;
pub mod rttyru;
pub mod standard;
pub mod telemetry;
pub mod unknown;

use crate::callsignmap::CallsignMap;
use crate::message::messagedata::MessageData;
use crate::text::texts;
use vstd::prelude::*;

verus! {

/// A decoded message: where and how strongly it was heard, and its payload.
///
/// `snr` is the signal-to-noise ratio on an integer scale of the caller's
/// choice that keeps its order: of two messages, the one that was heard
/// better has the higher `snr`. The library only compares these numbers;
/// `snr_level` gives such a scale for ratios in single precision.
#[derive(Debug, Clone)]
pub struct Message {
    pub snr: i32,
    pub freq_bin_hz: u32,
    pub time_offset_ms: i64,
    pub data: MessageData,
}

/// The level that stands for the single-precision number with the bit
/// pattern `bits`: for a number without the sign bit the pattern itself,
/// for one with the sign bit the negated magnitude, less one. Levels order
/// as the numbers do.
pub open spec fn level_of(bits: u32) -> int {
    if bits < 0x8000_0000 {
        bits as int
    } else {
        -1 - (bits - 0x8000_0000)
    }
}

/// The level that stands for the number with the bit pattern `bits`.
pub fn snr_level(bits: u32) -> (level: i32)
    ensures
        level == level_of(bits),
{
    if bits < 0x8000_0000 {
        bits as i32
    } else {
        -1 - ((bits - 0x8000_0000) as i32)
    }
}

/// The bit pattern of the number that `level` stands for.
pub fn level_bits(level: i32) -> (bits: u32)
    ensures
        level_of(bits) == level,
{
    if level >= 0 {
        level as u32
    } else {
        ((-1 - level) as u32) + 0x8000_0000
    }
}

/// Every bit pattern has a level of its own, and of two patterns the one
/// of the greater number has the higher level: a pattern without the sign
/// bit is above every pattern with it, among those without it the greater
/// pattern is higher, and among those with it the smaller.
pub proof fn lemma_levels_keep_order(a: u32, b: u32)
    ensures
        level_of(a) == level_of(b) <==> a == b,
        a < 0x8000_0000 && b < 0x8000_0000 ==> (level_of(a) < level_of(b) <==> a < b),
        a >= 0x8000_0000 && b >= 0x8000_0000 ==> (level_of(a) < level_of(b) <==> a > b),
        a >= 0x8000_0000 && b < 0x8000_0000 ==> level_of(a) < level_of(b),
{
}

/// Among the messages from position `from` on that have the text of
/// `messages[best]`, none has a higher `snr`, and none before `best` has
/// the same.
pub open spec fn is_best(messages: Seq<Message>, best: int, from: int) -> bool {
    forall|j: int|
        from <= j < messages.len() && (#[trigger] messages[j]).data.rendered()
            == messages[best].data.rendered() ==> messages[j].snr < messages[best].snr || (
        messages[j].snr == messages[best].snr && best <= j)
}

/// `message` is one of `messages`, and of those with its text the first
/// among the ones with the highest `snr`.
pub open spec fn is_best_of(messages: Seq<Message>, message: Message) -> bool {
    exists|j: int|
        #![trigger messages[j]]
        0 <= j < messages.len() && messages[j] == message && is_best(messages, j, 0)
}

/// `kept` holds, for each text that occurs in `messages`, exactly one
/// message: of those with that text the first among the ones with the
/// highest `snr`.
pub open spec fn is_deduplicated(messages: Seq<Message>, kept: Seq<Message>) -> bool {
    &&& forall|i: int| 0 <= i < kept.len() ==> is_best_of(messages, #[trigger] kept[i])
    &&& forall|i: int, k: int|
        0 <= i < k < kept.len() ==> (#[trigger] kept[i]).data.rendered() != (
        #[trigger] kept[k]).data.rendered()
    &&& forall|j: int|
        #![trigger messages[j]]
        0 <= j < messages.len() ==> exists|i: int|
            #![trigger kept[i]]
            0 <= i < kept.len() && kept[i].data.rendered() == messages[j].data.rendered()
}

/// Of the messages with one text, the one that is kept has the highest
/// `snr`: no message with the text of a kept one has a higher `snr` than
/// it, and no second kept message has that text.
pub proof fn lemma_strongest_survives(messages: Seq<Message>, kept: Seq<Message>, i: int, j: int)
    requires
        is_deduplicated(messages, kept),
        0 <= i < kept.len(),
        0 <= j < messages.len(),
        kept[i].data.rendered() == messages[j].data.rendered(),
    ensures
        messages[j].snr <= kept[i].snr,
        forall|k: int|
            0 <= k < kept.len() && k != i ==> (#[trigger] kept[k]).data.rendered()
                != messages[j].data.rendered(),
{
    assert(is_best_of(messages, kept[i]));
    let origin = choose|o: int|
        #![trigger messages[o]]
        0 <= o < messages.len() && messages[o] == kept[i] && is_best(messages, o, 0);
    assert(messages[j].snr <= messages[origin].snr);
}

impl Message {
    /// The message heard at `snr`, `freq_bin_hz` and `time_offset_ms`, with
    /// the payload that the 77 bits unpack to.
    pub fn from_bits(
        snr: i32,
        freq_bin_hz: u32,
        time_offset_ms: i64,
        message: &[bool; 77],
        callsign_map: &CallsignMap,
    ) -> (decoded: Message)
        ensures
            decoded.snr == snr,
            decoded.freq_bin_hz == freq_bin_hz,
            decoded.time_offset_ms == time_offset_ms,
            decoded.data.decoded_from(message@, callsign_map),
    {
        Message {
            snr,
            freq_bin_hz,
            time_offset_ms,
            data: MessageData::from_bits(message, callsign_map),
        }
    }

    /// The callsigns of the message as texts, in the order of the fields.
    pub fn callsigns(&self) -> (names: Vec<String>)
        ensures
            texts(names@) == self.data.callsign_texts(),
    {
        self.data.callsigns()
    }

    /// Keeps one message of each text: the one with the highest `snr`, and
    /// of several with the highest the first. The order of what is kept is
    /// left open.
    pub fn deduplicate_signals(messages: Vec<Message>) -> (kept: Vec<Message>)
        ensures
            is_deduplicated(messages@, kept@),
    {
        let ghost all = messages@;
        let mut messages = messages;
        let mut kept: Vec<Message> = Vec::new();
        let mut keys: Vec<String> = Vec::new();
        let ghost mut origin: Seq<int> = Seq::empty();
        while messages.len() > 0
            invariant
                messages@ == all.subrange(0, messages@.len() as int),
                messages@.len() <= all.len(),
                kept@.len() == keys@.len() == origin.len(),
                forall|k: int|
                    0 <= k < kept@.len() ==> (#[trigger] keys@[k])@ == kept@[k].data.rendered(),
                forall|k: int|
                    0 <= k < kept@.len() ==> messages@.len() <= #[trigger] origin[k] < all.len()
                        && all[origin[k]] == kept@[k] && is_best(
                        all,
                        origin[k],
                        messages@.len() as int,
                    ),
                forall|i: int, k: int|
                    0 <= i < k < kept@.len() ==> (#[trigger] kept@[i]).data.rendered() != (
                    #[trigger] kept@[k]).data.rendered(),
                forall|j: int|
                    #![trigger all[j]]
                    messages@.len() <= j < all.len() ==> exists|i: int|
                        #![trigger kept@[i]]
                        0 <= i < kept@.len() && kept@[i].data.rendered() == all[j].data.rendered(),
            decreases messages@.len(),
        {
            let ghost before = kept@;
            let ghost before_origin = origin;
            let ghost rest = messages@.len() as int;
            let ghost at = rest - 1;
            let message = messages.pop().unwrap();
            let key = message.data.to_string();
            assert(message == all[at]);
            assert(messages@ =~= all.subrange(0, at));
            match find_text(&keys, &key) {
                Some(k) => {
                    assert(before[k as int].data.rendered() == all[at].data.rendered());
                    if kept[k].snr <= message.snr {
                        kept.set(k, message);
                        proof {
                            origin = origin.update(k as int, at);
                        }
                    }
                    proof {
                        assert forall|i: int| 0 <= i < kept@.len() implies at <= #[trigger] origin[i]
                            < all.len() && all[origin[i]] == kept@[i] && is_best(
                            all,
                            origin[i],
                            at,
                        ) by {
                            let o = before_origin[i];
                            assert(is_best(all, o, rest));
                            assert(all[o] == before[i]);
                            if i != k {
                                assert(before[i].data.rendered() != before[k as int].data.rendered());
                            }
                        }
                        assert forall|j: int| #![trigger all[j]] at <= j < all.len() implies exists|
                            i: int,
                        |
                            #![trigger kept@[i]]
                            0 <= i < kept@.len() && kept@[i].data.rendered()
                                == all[j].data.rendered() by {
                            if j == at {
                                assert(kept@[k as int].data.rendered() == all[j].data.rendered());
                            } else {
                                let i = choose|i: int|
                                    #![trigger before[i]]
                                    0 <= i < before.len() && before[i].data.rendered()
                                        == all[j].data.rendered();
                                assert(kept@[i].data.rendered() == all[j].data.rendered());
                            }
                        }
                    }
                },
                None => {
                    kept.push(message);
                    keys.push(key);
                    proof {
                        origin = origin.push(at);
                        assert forall|j: int|
                            at <= j < all.len() && (#[trigger] all[j]).data.rendered()
                                == all[at].data.rendered() implies j == at by {
                            if j != at {
                                let i = choose|i: int|
                                    #![trigger before[i]]
                                    0 <= i < before.len() && before[i].data.rendered()
                                        == all[j].data.rendered();
                                assert(keys@[i]@ == key@);
                            }
                        }
                        assert(is_best(all, at, at));
                        assert forall|i: int| 0 <= i < kept@.len() implies at <= #[trigger] origin[i]
                            < all.len() && all[origin[i]] == kept@[i] && is_best(
                            all,
                            origin[i],
                            at,
                        ) by {
                            if i < before.len() {
                                let o = before_origin[i];
                                assert(is_best(all, o, rest));
                                assert(all[o] == before[i]);
                                assert(keys@[i]@ != key@);
                            }
                        }
                        assert forall|i: int, k: int| 0 <= i < k < kept@.len() implies (
                        #[trigger] kept@[i]).data.rendered() != (
                        #[trigger] kept@[k]).data.rendered() by {
                            if k == before.len() {
                                assert(keys@[i]@ != key@);
                            }
                        }
                        assert forall|j: int| #![trigger all[j]] at <= j < all.len() implies exists|
                            i: int,
                        |
                            #![trigger kept@[i]]
                            0 <= i < kept@.len() && kept@[i].data.rendered()
                                == all[j].data.rendered() by {
                            if j == at {
                                assert(kept@[kept@.len() - 1].data.rendered()
                                    == all[j].data.rendered());
                            } else {
                                let i = choose|i: int|
                                    #![trigger before[i]]
                                    0 <= i < before.len() && before[i].data.rendered()
                                        == all[j].data.rendered();
                                assert(kept@[i].data.rendered() == all[j].data.rendered());
                            }
                        }
                    }
                },
            }
        }
        proof {
            assert forall|i: int| 0 <= i < kept@.len() implies is_best_of(all, #[trigger] kept@[i]) by {
                let o = origin[i];
                assert(all[o] == kept@[i]);
                assert(is_best(all, o, 0));
            }
        }
        kept
    }
}

/// The first position of `keys` that holds the text of `key`.
fn find_text(keys: &Vec<String>, key: &String) -> (found: Option<usize>)
    ensures
        match found {
            Some(k) => k < keys@.len() && keys@[k as int]@ == key@,
            None => forall|i: int| 0 <= i < keys@.len() ==> (#[trigger] keys@[i])@ != key@,
        },
{
    let mut k: usize = 0;
    while k < keys.len()
        invariant
            k <= keys@.len(),
            forall|i: int| 0 <= i < k ==> (#[trigger] keys@[i])@ != key@,
        decreases keys@.len() - k,
    {
        if keys[k] == *key {
            return Some(k);
        }
        k += 1;
    }
    None
}

} // verus!
