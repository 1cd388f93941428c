//! The samplers that shape each field of a record.

use vstd::prelude::*;

use crate::entropy::{gen_range_u64, sample_alphanumeric};
use crate::text::{ascii_to_lower, chars_of_bytes, is_lower_alnum_byte, string_from_ascii};

verus! {

/// Shortest sequence length a record may carry.
pub const MIN_SEQUENCE_LENGTH: u32 = 20;

/// Longest sequence length a record may carry.
pub const MAX_SEQUENCE_LENGTH: u32 = 4_000_000;

/// The length a record carries for a raw (truncated) draw from the
/// length distribution: the draw clamped into the valid range.
pub open spec fn clamped_length(draw: int) -> int {
    if draw < MIN_SEQUENCE_LENGTH as int {
        MIN_SEQUENCE_LENGTH as int
    } else if draw > MAX_SEQUENCE_LENGTH as int {
        MAX_SEQUENCE_LENGTH as int
    } else {
        draw
    }
}

/// Clamps a raw integer draw from the length distribution into the
/// valid sequence-length range.
pub fn sequence_length_from_draw(draw: u64) -> (len: u32)
    ensures
        len as int == clamped_length(draw as int),
        MIN_SEQUENCE_LENGTH <= len <= MAX_SEQUENCE_LENGTH,
{
    if draw < MIN_SEQUENCE_LENGTH as u64 {
        MIN_SEQUENCE_LENGTH
    } else if draw > MAX_SEQUENCE_LENGTH as u64 {
        MAX_SEQUENCE_LENGTH
    } else {
        draw as u32
    }
}

/// Centre of the quality-score distribution, in pico units.
pub const QSCORE_MEAN_PICO: i64 = 18_049_912_521_373;

/// Lowest mean quality score a record may carry, in pico units.
pub const QSCORE_MIN_PICO: u64 = 1_800_000_000_000;

/// Highest mean quality score a record may carry, in pico units.
pub const QSCORE_MAX_PICO: u64 = 40_877_296_000_000;

/// The skew transform on a raw draw from the score distribution.
/// A draw below the centre is pushed further down by 27/10 of its
/// deviation; one above is pushed further up by 6/5 of its deviation,
/// so the low tail stretches and the high tail stays compressed.
pub open spec fn skewed_qscore(draw: int) -> int {
    if draw < QSCORE_MEAN_PICO as int {
        draw - ((QSCORE_MEAN_PICO as int - draw) * 27) / 10
    } else {
        draw + ((draw - QSCORE_MEAN_PICO as int) * 6) / 5
    }
}

/// A value clamped into the valid quality-score range.
pub open spec fn clamped_qscore(v: int) -> int {
    if v < QSCORE_MIN_PICO as int {
        QSCORE_MIN_PICO as int
    } else if v > QSCORE_MAX_PICO as int {
        QSCORE_MAX_PICO as int
    } else {
        v
    }
}

/// The mean quality score a record carries for a raw draw: the skew
/// transform followed by the clamp.
pub open spec fn qscore_of_draw(draw: int) -> int {
    clamped_qscore(skewed_qscore(draw))
}

/// Applies the skew transform and the clamp to a raw draw from the
/// score distribution, given in pico units.
pub fn mean_qscore_from_draw(draw: i64) -> (q: u64)
    ensures
        q as int == qscore_of_draw(draw as int),
        QSCORE_MIN_PICO <= q <= QSCORE_MAX_PICO,
{
    let mean: i128 = QSCORE_MEAN_PICO as i128;
    let d: i128 = draw as i128;
    let value: i128 = if d < mean {
        let diff: u128 = (mean - d) as u128;
        let extra: u128 = (diff * 27) / 10;
        d - (extra as i128)
    } else {
        let diff: u128 = (d - mean) as u128;
        let extra: u128 = (diff * 6) / 5;
        d + (extra as i128)
    };
    if value < QSCORE_MIN_PICO as i128 {
        QSCORE_MIN_PICO
    } else if value > QSCORE_MAX_PICO as i128 {
        QSCORE_MAX_PICO
    } else {
        value as u64
    }
}

/// Whether a record with the given mean quality score passes filtering
/// under the given threshold, both in pico units.
pub fn passes_filtering(qscore_pico: u64, threshold_pico: i64) -> (pass: bool)
    ensures
        pass == (qscore_pico as int >= threshold_pico as int),
{
    if threshold_pico < 0 {
        true
    } else {
        qscore_pico >= threshold_pico as u64
    }
}

/// Granularity of the barcode choice draw: one draw below this bound.
pub const BARCODE_CHOICE_SCALE: u64 = 1_000_000_000;

/// Draws below this bound (85% of the scale) pick the dominant label.
pub const DOMINANT_CHOICE_LIMIT: u64 = 850_000_000;

/// Draws from there to this bound (10% of the scale) are unclassified.
pub const UNCLASSIFIED_CHOICE_LIMIT: u64 = 950_000_000;

/// Draws from there to this bound (0.5% of the scale) give the sentinel.
pub const DASH_CHOICE_LIMIT: u64 = 955_000_000;

/// How many numbered barcode channels exist.
pub const BARCODE_COUNT: u64 = 96;

/// The character for a decimal digit value.
pub open spec fn digit_char(d: int) -> char {
    ((d + 48) as u8) as char
}

/// The label of numbered barcode channel n: "barcode" followed by the
/// number zero-padded to two digits.
pub open spec fn barcode_label_seq(n: int) -> Seq<char> {
    seq!['b', 'a', 'r', 'c', 'o', 'd', 'e', digit_char(n / 10), digit_char(n % 10)]
}

/// Whether a string is the label of one of the numbered channels.
pub open spec fn is_numbered_barcode(s: Seq<char>) -> bool {
    exists|n: int| 1 <= n <= 96 && s == barcode_label_seq(n)
}

/// Every barcode a record may carry: the dominant label, the
/// unclassified label, the sentinel, or a numbered channel.
pub open spec fn is_barcode_arrangement(s: Seq<char>, dominant: Seq<char>) -> bool {
    ||| s == dominant
    ||| s == "unclassified"@
    ||| s == "-"@
    ||| is_numbered_barcode(s)
}

/// The label the weighted split assigns to a choice draw below the
/// scale, with `n` the channel used when the draw falls in the
/// numbered band.
pub open spec fn chosen_barcode(choice: int, n: int, dominant: Seq<char>) -> Seq<char> {
    if choice < DOMINANT_CHOICE_LIMIT as int {
        dominant
    } else if choice < UNCLASSIFIED_CHOICE_LIMIT as int {
        "unclassified"@
    } else if choice < DASH_CHOICE_LIMIT as int {
        "-"@
    } else {
        barcode_label_seq(n)
    }
}

/// Maps a choice draw and a channel draw to the barcode label the
/// split assigns to them.
pub fn barcode_for_draws(choice: u64, n: u8, most_common_barcode: &str) -> (label: String)
    requires
        choice >= DASH_CHOICE_LIMIT ==> 1 <= n <= 96,
    ensures
        label@ == chosen_barcode(choice as int, n as int, most_common_barcode@),
{
    if choice < DOMINANT_CHOICE_LIMIT {
        most_common_barcode.to_owned()
    } else if choice < UNCLASSIFIED_CHOICE_LIMIT {
        "unclassified".to_owned()
    } else if choice < DASH_CHOICE_LIMIT {
        "-".to_owned()
    } else {
        barcode_label(n)
    }
}

/// Builds the zero-padded label of a numbered barcode channel.
pub fn barcode_label(n: u8) -> (label: String)
    requires
        1 <= n <= 96,
    ensures
        label@ == barcode_label_seq(n as int),
{
    // the codes spell "barcode", then come the two digit characters
    let mut bytes: Vec<u8> = Vec::new();
    bytes.push(98);
    bytes.push(97);
    bytes.push(114);
    bytes.push(99);
    bytes.push(111);
    bytes.push(100);
    bytes.push(101);
    bytes.push(48 + n / 10);
    bytes.push(48 + n % 10);
    let ghost bseq = bytes@;
    let label = string_from_ascii(bytes);
    proof {
        assert(chars_of_bytes(bseq) =~= barcode_label_seq(n as int));
    }
    label
}

/// Draws a barcode label: the dominant label with probability 0.85,
/// "unclassified" with 0.10, the sentinel "-" with 0.005, and otherwise
/// a uniformly chosen numbered channel.
pub fn generate_barcode_arrangement(
    rng: &mut rand::rngs::ThreadRng,
    most_common_barcode: &str,
) -> (label: String)
    ensures
        is_barcode_arrangement(label@, most_common_barcode@),
{
    let choice = gen_range_u64(rng, 0, BARCODE_CHOICE_SCALE);
    let n: u8 = if choice >= DASH_CHOICE_LIMIT {
        gen_range_u64(rng, 1, BARCODE_COUNT + 1) as u8
    } else {
        1
    };
    barcode_for_draws(choice, n, most_common_barcode)
}

/// Whether a character is an ASCII digit or lowercase letter.
pub open spec fn is_lower_alnum_char(c: char) -> bool {
    (48 <= c as int && c as int <= 57) || (97 <= c as int && c as int <= 122)
}

/// The positions of the group separators inside a read identifier:
/// the groups have lengths 8, 4, 4, 4 and 12.
pub open spec fn read_id_dash_position(i: int) -> bool {
    i == 8 || i == 13 || i == 18 || i == 23
}

/// The shape of a read identifier: 36 characters, five dash-separated
/// groups of lowercase alphanumerics.
pub open spec fn is_read_id_seq(s: Seq<char>) -> bool {
    &&& s.len() == 36
    &&& forall|i: int|
        0 <= i < 36 && read_id_dash_position(i) ==> #[trigger] s[i] == '-'
    &&& forall|i: int|
        0 <= i < 36 && !read_id_dash_position(i) ==> is_lower_alnum_char(#[trigger] s[i])
}

/// Appends `count` random lowercase alphanumeric bytes.
fn push_lower_alnum_group(rng: &mut rand::rngs::ThreadRng, out: &mut Vec<u8>, count: usize)
    ensures
        final(out)@.len() == old(out)@.len() + count,
        forall|i: int| 0 <= i < old(out)@.len() ==> final(out)@[i] == old(out)@[i],
        forall|i: int|
            old(out)@.len() <= i < final(out)@.len() ==> is_lower_alnum_byte(
                #[trigger] final(out)@[i],
            ),
{
    let mut j: usize = 0;
    while j < count
        invariant
            j <= count,
            out@.len() == old(out)@.len() + j,
            forall|i: int| 0 <= i < old(out)@.len() ==> out@[i] == old(out)@[i],
            forall|i: int|
                old(out)@.len() <= i < out@.len() ==> is_lower_alnum_byte(#[trigger] out@[i]),
        decreases count - j,
    {
        let b = sample_alphanumeric(rng);
        let lb = ascii_to_lower(b);
        out.push(lb);
        j += 1;
    }
}

/// Draws a fresh read identifier: five dash-separated groups of random
/// lowercase alphanumeric characters, with lengths 8, 4, 4, 4 and 12.
pub fn generate_read_id(rng: &mut rand::rngs::ThreadRng) -> (id: String)
    ensures
        is_read_id_seq(id@),
{
    let mut bytes: Vec<u8> = Vec::new();
    push_lower_alnum_group(rng, &mut bytes, 8);
    bytes.push(45);
    push_lower_alnum_group(rng, &mut bytes, 4);
    bytes.push(45);
    push_lower_alnum_group(rng, &mut bytes, 4);
    bytes.push(45);
    push_lower_alnum_group(rng, &mut bytes, 4);
    bytes.push(45);
    push_lower_alnum_group(rng, &mut bytes, 12);
    let ghost bseq = bytes@;
    assert(forall|i: int| 0 <= i < bseq.len() ==> bseq[i] < 128);
    let id = string_from_ascii(bytes);
    assert(is_read_id_seq(id@)) by {
        assert(forall|i: int| 0 <= i < 36 ==> chars_of_bytes(bseq)[i] == bseq[i] as char);
    }
    id
}

} // verus!
