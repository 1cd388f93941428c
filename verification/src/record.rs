//! The generated record, its generator, and its rendered form.

use vstd::prelude::*;
use vstd::string::StringExecFns;

use crate::sampling::{
    clamped_length, generate_barcode_arrangement, generate_read_id, is_barcode_arrangement,
    is_read_id_seq, mean_qscore_from_draw, passes_filtering, qscore_of_draw,
    sequence_length_from_draw, MAX_SEQUENCE_LENGTH, MIN_SEQUENCE_LENGTH, QSCORE_MAX_PICO,
    QSCORE_MIN_PICO,
};
use crate::text::{
    chars_of_bytes, dec_bytes, frac_bytes, lemma_dec_bytes_digits, lemma_frac_bytes_digits,
    push_decimal, push_fraction, string_from_ascii,
};

verus! {

/// How many pico units make one whole quality-score unit.
pub const PICO_SCALE: u64 = 1_000_000_000_000;

/// One synthetic sequencing-summary row.
pub struct Record {
    /// Five dash-separated groups of lowercase alphanumerics.
    pub read_id: String,
    /// Whether the mean quality score reached the run's threshold.
    pub passes_filtering: bool,
    /// Simulated read length, clamped into the valid range.
    pub sequence_length_template: u32,
    /// Mean quality score in pico units.
    pub mean_qscore_pico: u64,
    /// The barcode label assigned to the read.
    pub barcode_arrangement: String,
}

/// Everything that holds of every generated record under a given
/// threshold (in pico units) and dominant barcode label.
pub open spec fn valid_record(r: Record, threshold_pico: int, dominant: Seq<char>) -> bool {
    &&& is_read_id_seq(r.read_id@)
    &&& MIN_SEQUENCE_LENGTH <= r.sequence_length_template <= MAX_SEQUENCE_LENGTH
    &&& QSCORE_MIN_PICO <= r.mean_qscore_pico <= QSCORE_MAX_PICO
    &&& r.passes_filtering == (r.mean_qscore_pico as int >= threshold_pico)
    &&& is_barcode_arrangement(r.barcode_arrangement@, dominant)
}

impl Record {
    /// Draws one record. The identifier and the barcode come from the
    /// shared random source; the length and score draws enter as plain
    /// integers (the raw length draw truncated, the raw score draw in
    /// pico units) and are shaped and clamped here. The pass flag is
    /// exactly the comparison of the clamped score with the threshold.
    pub fn generate_random(
        rng: &mut rand::rngs::ThreadRng,
        length_draw: u64,
        qscore_draw_pico: i64,
        qscore_threshold_pico: i64,
        most_common_barcode: &str,
    ) -> (r: Record)
        ensures
            valid_record(r, qscore_threshold_pico as int, most_common_barcode@),
            r.sequence_length_template as int == clamped_length(length_draw as int),
            r.mean_qscore_pico as int == qscore_of_draw(qscore_draw_pico as int),
    {
        let read_id = generate_read_id(rng);
        let sequence_length_template = sequence_length_from_draw(length_draw);
        let mean_qscore_pico = mean_qscore_from_draw(qscore_draw_pico);
        let barcode_arrangement = generate_barcode_arrangement(rng, most_common_barcode);
        let passes = passes_filtering(mean_qscore_pico, qscore_threshold_pico);
        Record {
            read_id,
            passes_filtering: passes,
            sequence_length_template,
            mean_qscore_pico,
            barcode_arrangement,
        }
    }
}

/// The score rendered as a decimal: whole part, point, twelve places.
pub open spec fn qscore_decimal_bytes(q: int) -> Seq<u8> {
    dec_bytes(q / (PICO_SCALE as int)) + seq![46u8] + frac_bytes(q % (PICO_SCALE as int), 12)
}

/// The flag as the summary file renders it.
pub open spec fn bool_text(b: bool) -> Seq<char> {
    if b {
        "TRUE"@
    } else {
        "FALSE"@
    }
}

/// The rendered tab-separated line of a record, without a newline:
/// identifier, flag, length, score, barcode, in the file's column order.
pub open spec fn record_line_seq(r: Record) -> Seq<char> {
    r.read_id@ + "\t"@ + bool_text(r.passes_filtering) + "\t"@ + chars_of_bytes(
        dec_bytes(r.sequence_length_template as int),
    ) + "\t"@ + chars_of_bytes(qscore_decimal_bytes(r.mean_qscore_pico as int)) + "\t"@
        + r.barcode_arrangement@
}

impl Record {
    /// Renders the record as one tab-separated line, without a newline.
    pub fn to_line(&self) -> (line: String)
        ensures
            line@ == record_line_seq(*self),
    {
        let mut line = String::new();
        line.append(self.read_id.as_str());
        line.append("\t");
        if self.passes_filtering {
            line.append("TRUE");
        } else {
            line.append("FALSE");
        }
        line.append("\t");
        let mut len_digits: Vec<u8> = Vec::new();
        push_decimal(&mut len_digits, self.sequence_length_template as u64);
        proof {
            lemma_dec_bytes_digits(self.sequence_length_template as int);
            assert(len_digits@ =~= dec_bytes(self.sequence_length_template as int));
        }
        let len_str = string_from_ascii(len_digits);
        line.append(len_str.as_str());
        line.append("\t");
        let mut score_digits: Vec<u8> = Vec::new();
        push_decimal(&mut score_digits, self.mean_qscore_pico / PICO_SCALE);
        score_digits.push(46);
        push_fraction(&mut score_digits, self.mean_qscore_pico % PICO_SCALE, 12);
        proof {
            lemma_dec_bytes_digits((self.mean_qscore_pico / PICO_SCALE) as int);
            lemma_frac_bytes_digits((self.mean_qscore_pico % PICO_SCALE) as int, 12);
            assert(score_digits@ =~= qscore_decimal_bytes(self.mean_qscore_pico as int));
        }
        let score_str = string_from_ascii(score_digits);
        line.append(score_str.as_str());
        line.append("\t");
        line.append(self.barcode_arrangement.as_str());
        proof {
            assert(line@ =~= record_line_seq(*self));
        }
        line
    }
}

/// The header line of the summary file, without a newline.
pub fn header_line() -> (line: String)
    ensures
        line@
            == "read_id\tpasses_filtering\tsequence_length_template\tmean_qscore_template\tbarcode_arrangement"@,
{
    "read_id\tpasses_filtering\tsequence_length_template\tmean_qscore_template\tbarcode_arrangement".to_owned()
}

/// A threshold above the highest attainable score fails every record.
pub proof fn lemma_above_max_threshold_fails(r: Record, threshold_pico: int, dominant: Seq<char>)
    requires
        valid_record(r, threshold_pico, dominant),
        threshold_pico > QSCORE_MAX_PICO as int,
    ensures
        !r.passes_filtering,
{
}

/// A threshold at or below the lowest attainable score passes every record.
pub proof fn lemma_below_min_threshold_passes(r: Record, threshold_pico: int, dominant: Seq<char>)
    requires
        valid_record(r, threshold_pico, dominant),
        threshold_pico <= QSCORE_MIN_PICO as int,
    ensures
        r.passes_filtering,
{
}

} // verus!
