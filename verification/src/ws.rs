//! Decoding of what the player sends: from the text of a frame to the
//! report it carries.

use crate::decimal::{
    decimal_text, is_digit, lemma_decimal_text_value, lemma_parse_decimal_text, parse_i32,
    parse_i32_text,
};
use crate::frame::{
    find_frame, frame_fields, is_event_name, is_plain_value, lemma_wire_frame_fields, wire_frame,
};
use crate::my_enums::WSEventValue;
use vstd::prelude::*;

verus! {

/// `true` for the value `ok`, `false` for every other value.
pub open spec fn is_ok(value: Seq<char>) -> bool {
    value == "ok"@
}

/// The report that an event and its value carry.
pub open spec fn decode_fields(event: Seq<char>, value: Seq<char>) -> WSEventValue {
    if event == "error"@ {
        if value == "missing"@ {
            WSEventValue::Missing
        } else if value == "not_found"@ {
            WSEventValue::NotFound
        } else {
            WSEventValue::Unknown
        }
    } else if event == "volume"@ {
        match parse_i32_text(value) {
            Some(volume) => WSEventValue::Volume(volume),
            None => WSEventValue::Unknown,
        }
    } else if event == "prev_track"@ {
        WSEventValue::PrevTrack(is_ok(value))
    } else if event == "toggle_play_pause"@ {
        WSEventValue::TogglePlayPause(is_ok(value))
    } else if event == "next_track"@ {
        WSEventValue::NextTrack(is_ok(value))
    } else if event == "toggle_shuffle"@ {
        WSEventValue::ToggleShuffle(is_ok(value))
    } else if event == "toggle_repeat_state"@ {
        WSEventValue::ToggleRepeatState(is_ok(value))
    } else {
        WSEventValue::Unknown
    }
}

/// The report that a text carries: that of the fields of its first frame.
pub open spec fn decode_text(text: Seq<char>) -> WSEventValue {
    decode_fields(frame_fields(text).0, frame_fields(text).1)
}

/// A well-formed frame decodes to the report of its own fields: whatever
/// event name and plain value a frame is made of, decoding its text gives
/// what the dispatch gives for that event and that value.
pub proof fn lemma_decode_wire_frame(event: Seq<char>, value: Seq<char>)
    requires
        is_event_name(event),
        is_plain_value(value),
    ensures
        decode_text(wire_frame(event, value)) == decode_fields(event, value),
{
    lemma_wire_frame_fields(event, value);
}

/// A volume that is written into a `volume` frame is read back from it: for
/// every `volume` that is not negative, the frame whose value is its decimal
/// numeral decodes to `Volume(volume)`.
pub proof fn lemma_volume_frame_round_trip(volume: i32)
    requires
        volume >= 0,
    ensures
        decode_text(wire_frame("volume"@, decimal_text(volume as nat))) == WSEventValue::Volume(
            volume,
        ),
{
    let numeral = decimal_text(volume as nat);
    reveal_strlit("volume");
    reveal_strlit("error");
    lemma_decimal_text_value(volume as nat);
    lemma_parse_decimal_text(volume);
    assert forall|i: int| 0 <= i < numeral.len() implies #[trigger] numeral[i] != ')'
        && numeral[i] != '\n' by {
        assert(is_digit(numeral[i]));
    }
    assert("volume"@[0] != "error"@[0]);
    lemma_decode_wire_frame("volume"@, numeral);
}

/// Whether `text` reads as `word`.
fn is_word(text: &String, word: &str) -> (same: bool)
    ensures
        same == (text@ == word@),
{
    let other = String::from_str(word);
    *text == other
}

/// The event and the value of the first frame of `text`; two empty texts
/// where it holds no frame.
pub fn get_event_and_value_string(text: String) -> (fields: (String, String))
    ensures
        (fields.0@, fields.1@) == frame_fields(text@),
{
    match find_frame(text.as_str()) {
        Some(fields) => fields,
        None => (String::new(), String::new()),
    }
}

/// The report that an event and its value carry. Every pair gives a report:
/// what is no known event, and a volume that is no `i32`, give `Unknown`.
pub fn decode_event(event: &String, value: &String) -> (report: WSEventValue)
    ensures
        report == decode_fields(event@, value@),
{
    if is_word(event, "error") {
        if is_word(value, "missing") {
            WSEventValue::Missing
        } else if is_word(value, "not_found") {
            WSEventValue::NotFound
        } else {
            WSEventValue::Unknown
        }
    } else if is_word(event, "volume") {
        match parse_i32(value.as_str()) {
            Some(volume) => WSEventValue::Volume(volume),
            None => WSEventValue::Unknown,
        }
    } else if is_word(event, "prev_track") {
        WSEventValue::PrevTrack(is_word(value, "ok"))
    } else if is_word(event, "toggle_play_pause") {
        WSEventValue::TogglePlayPause(is_word(value, "ok"))
    } else if is_word(event, "next_track") {
        WSEventValue::NextTrack(is_word(value, "ok"))
    } else if is_word(event, "toggle_shuffle") {
        WSEventValue::ToggleShuffle(is_word(value, "ok"))
    } else if is_word(event, "toggle_repeat_state") {
        WSEventValue::ToggleRepeatState(is_word(value, "ok"))
    } else {
        WSEventValue::Unknown
    }
}

/// Decodes the text of one frame. Every text gives exactly one report; a
/// text that holds no frame gives `Unknown`.
pub fn convert_output_msg(text: String) -> (report: WSEventValue)
    ensures
        report == decode_text(text@),
{
    let (event, value) = get_event_and_value_string(text);
    decode_event(&event, &value)
}

} // verus!
