//! Preset texts `frequency,amplitude,waveform`: splitting into fields,
//! reading the waveform index, and writing a preset back.

use vstd::prelude::*;
use crate::waveform::Waveform;

verus! {

/// Indices of the `,` separators in `s`, in increasing order.
pub open spec fn comma_positions(s: Seq<char>) -> Seq<int>
    decreases s.len(),
{
    if s.len() == 0 {
        Seq::empty()
    } else {
        let before = comma_positions(s.drop_last());
        if s.last() == ',' {
            before.push(s.len() - 1)
        } else {
            before
        }
    }
}

pub open spec fn has_no_comma(s: Seq<char>) -> bool {
    forall|i: int| 0 <= i < s.len() ==> s[i] != ','
}

/// The three fields of a preset text, when it has exactly two separators.
pub open spec fn preset_fields(s: Seq<char>) -> Option<(Seq<char>, Seq<char>, Seq<char>)> {
    let p = comma_positions(s);
    if p.len() == 2 {
        Some((s.subrange(0, p[0]), s.subrange(p[0] + 1, p[1]), s.subrange(p[1] + 1, s.len() as int)))
    } else {
        None
    }
}

/// The text of a preset made of the three given fields.
pub open spec fn preset_text(frequency: Seq<char>, amplitude: Seq<char>, waveform: Seq<char>) -> Seq<char> {
    frequency + seq![','] + amplitude + seq![','] + waveform
}

/// The decimal digit written for a waveform in a preset.
pub open spec fn waveform_digit(w: Waveform) -> char {
    match w {
        Waveform::Sine => '0',
        Waveform::Square => '1',
        Waveform::Triangle => '2',
        Waveform::Sawtooth => '3',
    }
}

/// The raw fields of a preset text `frequency,amplitude,waveform`.
pub struct PresetFields {
    pub frequency: String,
    pub amplitude: String,
    pub waveform: String,
}

/// Separator positions lie inside the text, point at separators, and increase.
pub proof fn lemma_comma_positions_bounds(s: Seq<char>)
    ensures
        forall|k: int| 0 <= k < comma_positions(s).len() ==> 0 <= #[trigger] comma_positions(s)[k] < s.len()
            && s[comma_positions(s)[k]] == ',',
        forall|k: int, l: int| 0 <= k < l < comma_positions(s).len() ==> comma_positions(s)[k] < comma_positions(s)[l],
    decreases s.len(),
{
    if s.len() > 0 {
        let t = s.drop_last();
        lemma_comma_positions_bounds(t);
        let p = comma_positions(t);
        assert forall|k: int| 0 <= k < p.len() implies s[#[trigger] p[k]] == ',' by {
            assert(t[p[k]] == ',');
        }
    }
}

/// Splits a preset text at its separators; texts without exactly three fields
/// are refused.
pub fn split_preset(text: &str) -> (r: Option<PresetFields>)
    ensures
        r is None <==> preset_fields(text@) is None,
        r matches Some(f) ==> preset_fields(text@) == Some((f.frequency@, f.amplitude@, f.waveform@)),
{
    let n = text.unicode_len();
    let mut commas: Vec<usize> = Vec::new();
    let mut i: usize = 0;
    while i < n
        invariant
            n == text@.len(),
            i <= n,
            commas@.len() == comma_positions(text@.subrange(0, i as int)).len(),
            forall|k: int| 0 <= k < commas@.len() ==> commas@[k] as int == #[trigger] comma_positions(text@.subrange(0, i as int))[k],
        decreases n - i,
    {
        let c = text.get_char(i);
        proof {
            assert(text@.subrange(0, i + 1).drop_last() =~= text@.subrange(0, i as int));
        }
        if c == ',' {
            commas.push(i);
        }
        i = i + 1;
    }
    proof {
        assert(text@.subrange(0, n as int) =~= text@);
        lemma_comma_positions_bounds(text@);
    }
    if commas.len() != 2 {
        return None;
    }
    let first = commas[0];
    let second = commas[1];
    let frequency = text.substring_char(0, first).to_string();
    let amplitude = text.substring_char(first + 1, second).to_string();
    let waveform = text.substring_char(second + 1, n).to_string();
    Some(PresetFields { frequency, amplitude, waveform })
}


pub open spec fn is_digit(c: char) -> bool {
    '0' <= c <= '9'
}

pub open spec fn all_digits(s: Seq<char>) -> bool {
    forall|i: int| 0 <= i < s.len() ==> is_digit(#[trigger] s[i])
}

/// The number written by a sequence of decimal digits.
pub open spec fn digits_value(s: Seq<char>) -> nat
    decreases s.len(),
{
    if s.len() == 0 {
        0
    } else {
        digits_value(s.drop_last()) * 10 + (s.last() as nat - '0' as nat) as nat
    }
}

/// A byte written in decimal: an optional `+`, then at least one digit, for a
/// value of at most 255.
pub open spec fn decimal_byte(s: Seq<char>) -> Option<nat> {
    let d = if s.len() > 0 && s[0] == '+' { s.drop_first() } else { s };
    if d.len() > 0 && all_digits(d) && digits_value(d) <= 255 {
        Some(digits_value(d))
    } else {
        None
    }
}

/// The waveform named by the last field of a preset.
pub open spec fn waveform_field(s: Seq<char>) -> Option<Waveform> {
    match decimal_byte(s) {
        Some(v) => Waveform::from_index_spec(v as int),
        None => None,
    }
}

/// Reads the waveform field of a preset: a byte in decimal that indexes a
/// waveform.
pub fn parse_waveform_field(field: &str) -> (r: Option<Waveform>)
    ensures
        r == waveform_field(field@),
{
    let n = field.unicode_len();
    let mut i: usize = 0;
    if n > 0 && field.get_char(0) == '+' {
        i = 1;
    }
    let start = i;
    let ghost d = if field@.len() > 0 && field@[0] == '+' { field@.drop_first() } else { field@ };
    assert(d =~= field@.subrange(start as int, n as int));
    if start == n {
        return None;
    }
    // the value read so far, held at 256 once it is out of range
    let mut value: u32 = 0;
    while i < n
        invariant
            n == field@.len(),
            start <= i <= n,
            d == field@.subrange(start as int, n as int),
            d == if field@.len() > 0 && field@[0] == '+' { field@.drop_first() } else { field@ },
            forall|k: int| start <= k < i ==> is_digit(#[trigger] field@[k]),
            value as nat == if digits_value(field@.subrange(start as int, i as int)) < 256 {
                digits_value(field@.subrange(start as int, i as int))
            } else {
                256
            },
        decreases n - i,
    {
        let c = field.get_char(i);
        let ghost prefix = field@.subrange(start as int, i as int);
        let ghost next = field@.subrange(start as int, i + 1);
        assert(next.drop_last() =~= prefix);
        if !('0' <= c && c <= '9') {
            assert(!is_digit(d[i - start]));
            assert(!all_digits(d));
            return None;
        }
        let digit = (c as u32) - ('0' as u32);
        assert(digits_value(next) == digits_value(prefix) * 10 + digit);
        if value >= 256 {
            assert(digits_value(next) >= 256) by (nonlinear_arith)
                requires digits_value(prefix) >= 256, digits_value(next) == digits_value(prefix) * 10 + digit;
        } else {
            value = value * 10 + digit;
            if value > 256 {
                value = 256;
            }
        }
        i = i + 1;
    }
    assert(field@.subrange(start as int, n as int) == d);
    assert forall|k: int| 0 <= k < d.len() implies is_digit(#[trigger] d[k]) by {
        assert(d[k] == field@[k + start]);
    }
    if value > 255 {
        return None;
    }
    Waveform::from_index(value as u8)
}


/// Writes a preset text from the text of its two numeric fields and a
/// waveform, which is written as its index.
pub fn join_preset(frequency: &str, amplitude: &str, waveform: Waveform) -> (r: String)
    ensures
        r@ == preset_text(frequency@, amplitude@, seq![waveform_digit(waveform)]),
{
    let digit = match waveform {
        Waveform::Sine => "0",
        Waveform::Square => "1",
        Waveform::Triangle => "2",
        Waveform::Sawtooth => "3",
    };
    proof {
        reveal_strlit("0");
        reveal_strlit("1");
        reveal_strlit("2");
        reveal_strlit("3");
        reveal_strlit(",");
    }
    let r = String::from_str(frequency).concat(",").concat(amplitude).concat(",").concat(digit);
    assert(r@ =~= preset_text(frequency@, amplitude@, seq![waveform_digit(waveform)]));
    r
}

/// The separators of a concatenation are those of each part, the second
/// part's shifted by the first part's length.
pub proof fn lemma_comma_positions_append(x: Seq<char>, y: Seq<char>)
    ensures
        comma_positions(x + y) == comma_positions(x) + comma_positions(y).map_values(|p: int| p + x.len()),
    decreases y.len(),
{
    if y.len() == 0 {
        assert(x + y =~= x);
        assert(comma_positions(y).map_values(|p: int| p + x.len()) =~= Seq::<int>::empty());
    } else {
        lemma_comma_positions_append(x, y.drop_last());
        assert((x + y).drop_last() =~= x + y.drop_last());
        let m = comma_positions(y.drop_last()).map_values(|p: int| p + x.len());
        if y.last() == ',' {
            assert(comma_positions(y).map_values(|p: int| p + x.len()) =~= m.push(y.len() - 1 + x.len()));
            assert(comma_positions(x + y) =~= comma_positions(x) + m.push(y.len() - 1 + x.len()));
        } else {
            assert(comma_positions(y).map_values(|p: int| p + x.len()) =~= m);
        }
    }
}

pub proof fn lemma_no_comma_positions(s: Seq<char>)
    requires
        has_no_comma(s),
    ensures
        comma_positions(s) == Seq::<int>::empty(),
    decreases s.len(),
{
    if s.len() > 0 {
        lemma_no_comma_positions(s.drop_last());
    }
}

/// A preset written from fields without separators splits back into the same
/// fields, and its waveform field reads back as the same waveform.
pub proof fn lemma_preset_round_trip(frequency: Seq<char>, amplitude: Seq<char>, waveform: Waveform)
    requires
        has_no_comma(frequency),
        has_no_comma(amplitude),
    ensures
        preset_fields(preset_text(frequency, amplitude, seq![waveform_digit(waveform)]))
            == Some((frequency, amplitude, seq![waveform_digit(waveform)])),
        waveform_field(seq![waveform_digit(waveform)]) == Some(waveform),
{
    let c = seq![','];
    let d = seq![waveform_digit(waveform)];
    let fl = frequency.len() as int;
    let al = amplitude.len() as int;
    lemma_no_comma_positions(frequency);
    lemma_no_comma_positions(amplitude);
    assert(has_no_comma(d));
    lemma_no_comma_positions(d);
    assert(c.drop_last() =~= Seq::<char>::empty());
    assert(comma_positions(c.drop_last()) == Seq::<int>::empty());
    assert(c.last() == ',');
    assert(comma_positions(c) =~= seq![0int]);
    lemma_comma_positions_append(frequency, c);
    assert(comma_positions(frequency + c) =~= seq![fl]);
    lemma_comma_positions_append(frequency + c, amplitude);
    assert(comma_positions(frequency + c + amplitude) =~= seq![fl]);
    lemma_comma_positions_append(frequency + c + amplitude, c);
    assert(comma_positions(frequency + c + amplitude + c) =~= seq![fl, fl + 1 + al]);
    lemma_comma_positions_append(frequency + c + amplitude + c, d);
    let t = preset_text(frequency, amplitude, d);
    assert(comma_positions(t) =~= seq![fl, fl + 1 + al]);
    assert(t.subrange(0, fl) =~= frequency);
    assert(t.subrange(fl + 1, fl + 1 + al) =~= amplitude);
    assert(t.subrange(fl + 2 + al, t.len() as int) =~= d);
    assert(d.drop_last() =~= Seq::<char>::empty());
    assert(digits_value(d.drop_last()) == 0);
    assert(all_digits(d));
    assert(digits_value(d) == waveform.index_spec());
    assert(decimal_byte(d) == Some(waveform.index_spec()));
}

} // verus!
