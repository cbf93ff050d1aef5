//! Loudness normalization: the fixed measurement targets, the analysis and
//! apply filter descriptors, and the verified parser that extracts the five
//! measured values from the analysis run's diagnostic text.
//!
//! The diagnostic stream may print the measurement block more than once;
//! only the final value of each key is trusted, so the parser keeps
//! scanning and the last occurrence of a key wins.

use vstd::prelude::*;

verus! {

/// Integrated loudness target (LUFS). Between -20 (greatest dynamic range)
/// and -16 (most loudness) per streaming recommendations.
pub const LOUDNORM_LUFS: &'static str = "-19";

/// True-peak ceiling; kept below 0 so the limiter does not clip.
pub const LOUDNORM_TP: &'static str = "-1.0";

/// Loudness-range target: macroscopic loudness variation.
pub const LOUDNORM_LRA: &'static str = "9";

/// The five measured values of one loudness-analysis run, kept as the
/// exact decimal strings printed by the analyzer. Created once per
/// operation and never mutated.
#[derive(Debug)]
pub struct Loudnorm {
    /// Measured integrated loudness.
    pub input_i: String,
    /// Measured loudness range.
    pub input_lra: String,
    /// Measured true peak.
    pub input_tp: String,
    /// Measured threshold.
    pub input_thresh: String,
    /// Measured target offset.
    pub target_offset: String,
}

/// The mathematical content of a [`Loudnorm`]: its five fields as
/// character sequences.
pub struct LoudnormV {
    pub input_i: Seq<char>,
    pub input_lra: Seq<char>,
    pub input_tp: Seq<char>,
    pub input_thresh: Seq<char>,
    pub target_offset: Seq<char>,
}

impl View for Loudnorm {
    type V = LoudnormV;

    open spec fn view(&self) -> LoudnormV {
        LoudnormV {
            input_i: self.input_i@,
            input_lra: self.input_lra@,
            input_tp: self.input_tp@,
            input_thresh: self.input_thresh@,
            target_offset: self.target_offset@,
        }
    }
}

/// The view of an optional measurement.
pub open spec fn view_opt(m: &Option<Loudnorm>) -> Option<LoudnormV> {
    match m {
        Some(l) => Some(l@),
        None => None,
    }
}

/// The five keys the measurement text must contain.
#[derive(Debug, Clone, Copy, PartialEq, Eq, Structural)]
pub enum MeasurementField {
    InputI,
    InputLra,
    InputTp,
    InputThresh,
    TargetOffset,
}

/// A required key never appears in the diagnostic text.
#[derive(Debug, Clone, Copy, PartialEq, Eq, Structural)]
pub struct MeasurementParseError {
    /// The field whose key was not found.
    pub field: MeasurementField,
}

/// Whether `c` is a decimal digit.
pub open spec fn is_digit(c: char) -> bool {
    '0' <= c && c <= '9'
}

/// Whether `t` is an optionally negated decimal number: an optional minus
/// sign, one or more digits, a dot, and one or more digits.
pub open spec fn is_decimal_chars(t: Seq<char>) -> bool {
    let s: int = if t.len() > 0 && t[0] == '-' {
        1
    } else {
        0
    };
    exists|d: int|
        #![trigger t[d]]
        s < d < t.len() - 1 && t[d] == '.' && (forall|k: int| s <= k < d ==> is_digit(t[k])) && (
        forall|k: int| d < k < t.len() ==> is_digit(t[k]))
}

/// The text that announces a key's value: the key in quotes, a spaced
/// colon, and the value's opening quote.
pub open spec fn spec_key_pattern(key: Seq<char>) -> Seq<char> {
    seq!['"'] + key + seq!['"', ' ', ':', ' ', '"']
}

/// Whether a full key/value occurrence starts at `i` in `s` and its
/// value's closing quote stands at `j`: the key pattern occurs at `i`, the
/// value runs from the end of the pattern to the first following quote,
/// and the value is a decimal number.
pub open spec fn value_end_at(s: Seq<char>, key: Seq<char>, i: int, j: int) -> bool {
    let p = spec_key_pattern(key);
    let v = i + p.len();
    &&& 0 <= i
    &&& v <= j < s.len()
    &&& s.subrange(i, v) == p
    &&& s[j] == '"'
    &&& (forall|k: int| v <= k < j ==> s[k] != '"')
    &&& is_decimal_chars(s.subrange(v, j))
}

/// Whether a key/value occurrence starts at `i` in `s`.
pub open spec fn match_at(s: Seq<char>, key: Seq<char>, i: int) -> bool {
    exists|j: int| value_end_at(s, key, i, j)
}

/// The value of the occurrence starting at `i`.
pub open spec fn match_value(s: Seq<char>, key: Seq<char>, i: int) -> Seq<char> {
    let j = choose|j: int| value_end_at(s, key, i, j);
    s.subrange(i + spec_key_pattern(key).len(), j)
}

/// Whether `s` contains at least one occurrence of the key.
pub open spec fn has_key(s: Seq<char>, key: Seq<char>) -> bool {
    exists|i: int| match_at(s, key, i)
}

/// Whether `val` is the value of the last occurrence of the key in `s`.
pub open spec fn is_last_value(s: Seq<char>, key: Seq<char>, val: Seq<char>) -> bool {
    exists|i: int|
        match_at(s, key, i) && val == match_value(s, key, i) && (forall|i2: int|
            i2 > i ==> !match_at(s, key, i2))
}

/// The value of the last occurrence of a key, as a function.
pub open spec fn spec_last_value(s: Seq<char>, key: Seq<char>) -> Seq<char> {
    choose|val: Seq<char>| is_last_value(s, key, val)
}

/// The last value of a key is unique: two candidate last occurrences must
/// be the same occurrence.
pub proof fn lemma_last_value_unique(s: Seq<char>, key: Seq<char>, v1: Seq<char>, v2: Seq<char>)
    requires
        is_last_value(s, key, v1),
        is_last_value(s, key, v2),
    ensures
        v1 == v2,
{
    let i1 = choose|i: int|
        match_at(s, key, i) && v1 == match_value(s, key, i) && (forall|i2: int|
            i2 > i ==> !match_at(s, key, i2));
    let i2 = choose|i: int|
        match_at(s, key, i) && v2 == match_value(s, key, i) && (forall|i3: int|
            i3 > i ==> !match_at(s, key, i3));
    if i1 < i2 {
        assert(!match_at(s, key, i2));
    } else if i2 < i1 {
        assert(!match_at(s, key, i1));
    }
}

/// Whatever satisfies [`is_last_value`] is [`spec_last_value`].
pub proof fn lemma_last_value_determined(s: Seq<char>, key: Seq<char>, val: Seq<char>)
    requires
        is_last_value(s, key, val),
    ensures
        val == spec_last_value(s, key),
{
    assert(is_last_value(s, key, spec_last_value(s, key)));
    lemma_last_value_unique(s, key, val, spec_last_value(s, key));
}

/// An occurrence's closing quote is the first quote after the pattern, so
/// it is unique.
proof fn lemma_value_end_unique(s: Seq<char>, key: Seq<char>, i: int, j1: int, j2: int)
    requires
        value_end_at(s, key, i, j1),
        value_end_at(s, key, i, j2),
    ensures
        j1 == j2,
{
    if j1 < j2 {
        assert(s[j1] != '"');
    } else if j2 < j1 {
        assert(s[j2] != '"');
    }
}

fn is_digit_exec(c: char) -> (r: bool)
    ensures
        r == is_digit(c),
{
    c >= '0' && c <= '9'
}

/// Whether the characters of `data` from `from` (inclusive) to `to`
/// (exclusive) form a decimal number.
fn check_decimal(data: &str, from: usize, to: usize) -> (r: bool)
    requires
        from <= to <= data@.len(),
    ensures
        r == is_decimal_chars(data@.subrange(from as int, to as int)),
{
    let ghost t = data@.subrange(from as int, to as int);
    if to == from {
        return false;
    }
    let neg = data.get_char(from) == '-';
    let s: usize = if neg {
        1
    } else {
        0
    };
    let ghost soff: int = s as int;
    let start = from + s;
    if start >= to {
        // Nothing after the sign: too short for any digit or dot.
        assert(t.len() <= 1);
        assert(!is_decimal_chars(t));
        return false;
    }
    // Scan the digits before the dot.
    let mut k = start;
    while k < to && is_digit_exec(data.get_char(k))
        invariant
            start <= k <= to,
            to <= data@.len(),
            forall|m: int| start <= m < k ==> is_digit(data@[m]),
        decreases to - k,
    {
        k += 1;
    }
    if k == to {
        // All digits, so no dot anywhere.
        assert(!is_decimal_chars(t)) by {
            assert forall|d: int| soff < d < t.len() - 1 implies t[d] != '.' by {
                assert(t[d] == data@[from + d]);
                assert(is_digit(data@[from + d]));
            }
        }
        return false;
    }
    if k == start {
        // The first character after the sign is not a digit; any dot
        // position would need at least one digit before it.
        if data.get_char(k) == '.' {
            assert(!is_decimal_chars(t)) by {
                assert forall|d: int| soff < d < t.len() - 1 && t[d] == '.' implies !(forall|m: int|
                    soff <= m < d ==> is_digit(t[m])) by {
                    assert(t[soff] == data@[from + soff]);
                    assert(!is_digit(data@[start as int]));
                }
            }
        } else {
            assert(!is_decimal_chars(t)) by {
                assert forall|d: int| soff < d < t.len() - 1 && t[d] == '.' implies !(forall|m: int|
                    soff <= m < d ==> is_digit(t[m])) by {
                    assert(t[soff] == data@[start as int]);
                    assert(!is_digit(data@[start as int]));
                }
            }
        }
        return false;
    }
    if data.get_char(k) != '.' {
        // The first non-digit is not the dot: no candidate dot position
        // can satisfy both digit runs.
        assert(!is_decimal_chars(t)) by {
            let koff = k - from;
            assert forall|d: int| soff < d < t.len() - 1 && t[d] == '.' implies !((forall|m: int|
                soff <= m < d ==> is_digit(t[m])) && (forall|m: int|
                d < m < t.len() ==> is_digit(t[m]))) by {
                assert(t[koff] == data@[k as int]);
                if d < koff {
                    assert(t[d] == data@[from + d]);
                    assert(is_digit(data@[from + d]));
                } else if d == koff {
                } else {
                    assert(!is_digit(t[koff]));
                }
            }
        }
        return false;
    }
    // data[k] is the dot; it must not be the last character.
    if k + 1 >= to {
        assert(!is_decimal_chars(t)) by {
            let koff = k - from;
            assert forall|d: int| soff < d < t.len() - 1 && t[d] == '.' implies !(forall|m: int|
                soff <= m < d ==> is_digit(t[m])) by {
                if d < koff {
                    assert(t[d] == data@[from + d]);
                    assert(is_digit(data@[from + d]));
                } else {
                    assert(t[koff] == data@[k as int]);
                    assert(!is_digit(t[koff]));
                }
            }
        }
        return false;
    }
    // Scan the digits after the dot.
    let mut m = k + 1;
    while m < to && is_digit_exec(data.get_char(m))
        invariant
            k + 1 <= m <= to,
            to <= data@.len(),
            forall|x: int| k + 1 <= x < m ==> is_digit(data@[x]),
        decreases to - m,
    {
        m += 1;
    }
    if m < to {
        // A non-digit after the dot.
        assert(!is_decimal_chars(t)) by {
            let koff = k - from;
            let moff = m - from;
            assert(t[moff] == data@[m as int]);
            assert(!is_digit(data@[m as int]));
            assert forall|d: int| soff < d < t.len() - 1 && t[d] == '.' implies !((forall|x: int|
                soff <= x < d ==> is_digit(t[x])) && (forall|x: int|
                d < x < t.len() ==> is_digit(t[x]))) by {
                if d < koff {
                    assert(t[d] == data@[from + d]);
                    assert(is_digit(data@[from + d]));
                } else if d == koff {
                    assert(!is_digit(t[moff]));
                } else {
                    assert(t[koff] == data@[k as int]);
                    assert(!is_digit(t[koff]));
                }
            }
        }
        return false;
    }
    // Sign, digits, dot, digits: a decimal number.
    assert(is_decimal_chars(t)) by {
        let koff = k - from;
        assert(t[koff] == data@[k as int]);
        assert(soff < koff < t.len() - 1);
        assert(forall|x: int| soff <= x < koff ==> t[x] == data@[from + x]);
        assert(forall|x: int| koff < x < t.len() ==> t[x] == data@[from + x]);
    }
    true
}

/// A single character of the key pattern differing from the text rules an
/// occurrence out.
proof fn lemma_pattern_mismatch(s: Seq<char>, key: Seq<char>, i: int, m: int)
    requires
        0 <= m < spec_key_pattern(key).len(),
        0 <= i,
        i + m < s.len(),
        s[i + m] != spec_key_pattern(key)[m],
    ensures
        !match_at(s, key, i),
{
    if match_at(s, key, i) {
        let j = choose|j: int| value_end_at(s, key, i, j);
        assert(s.subrange(i, i + spec_key_pattern(key).len())[m] == s[i + m]);
    }
}

/// If a key/value occurrence starts at `i`, return the position of its
/// value's closing quote.
fn check_match_at(data: &str, key: &str, i: usize) -> (r: Option<usize>)
    requires
        i < data@.len(),
    ensures
        r is Some <==> match_at(data@, key@, i as int),
        r matches Some(j) ==> value_end_at(data@, key@, i as int, j as int),
{
    let ghost s = data@;
    let ghost p = spec_key_pattern(key@);
    let n = data.unicode_len();
    let klen = key.unicode_len();
    proof {
        assert(p.len() == klen + 6);
    }
    let rem = n - i;
    if rem < 7 || klen > rem - 7 {
        // Not enough room for the pattern and a closing quote.
        proof {
            if match_at(s, key@, i as int) {
                let j = choose|j: int| value_end_at(s, key@, i as int, j);
                assert(i + p.len() <= j < n);
            }
        }
        return None;
    }
    let v = i + klen + 6;
    if data.get_char(i) != '"' {
        proof {
            assert(p[0] == '"');
            lemma_pattern_mismatch(s, key@, i as int, 0);
        }
        return None;
    }
    let mut k: usize = 0;
    while k < klen
        invariant
            k <= klen,
            klen == key@.len(),
            n == s.len(),
            s == data@,
            p == spec_key_pattern(key@),
            p.len() == klen + 6,
            i + klen + 7 <= n,
            forall|t: int| 0 <= t < k ==> s[i + 1 + t] == key@[t],
        decreases klen - k,
    {
        if data.get_char(i + 1 + k) != key.get_char(k) {
            proof {
                assert(p[1 + k] == key@[k as int]);
                lemma_pattern_mismatch(s, key@, i as int, 1 + k as int);
            }
            return None;
        }
        k += 1;
    }
    if data.get_char(i + klen + 1) != '"' {
        proof {
            assert(p[klen + 1] == '"');
            lemma_pattern_mismatch(s, key@, i as int, klen + 1 as int);
        }
        return None;
    }
    if data.get_char(i + klen + 2) != ' ' {
        proof {
            assert(p[klen + 2] == ' ');
            lemma_pattern_mismatch(s, key@, i as int, klen + 2 as int);
        }
        return None;
    }
    if data.get_char(i + klen + 3) != ':' {
        proof {
            assert(p[klen + 3] == ':');
            lemma_pattern_mismatch(s, key@, i as int, klen + 3 as int);
        }
        return None;
    }
    if data.get_char(i + klen + 4) != ' ' {
        proof {
            assert(p[klen + 4] == ' ');
            lemma_pattern_mismatch(s, key@, i as int, klen + 4 as int);
        }
        return None;
    }
    if data.get_char(i + klen + 5) != '"' {
        proof {
            assert(p[klen + 5] == '"');
            lemma_pattern_mismatch(s, key@, i as int, klen + 5 as int);
        }
        return None;
    }
    proof {
        assert forall|m: int| 0 <= m < p.len() implies s[i + m] == p[m] by {
            if m == 0 {
                assert(p[0] == '"');
            } else if m <= klen {
                assert(s[i + m] == key@[m - 1]);
                assert(p[m] == key@[m - 1]);
            } else {
                assert(p[klen + 1] == '"');
                assert(p[klen + 2] == ' ');
                assert(p[klen + 3] == ':');
                assert(p[klen + 4] == ' ');
                assert(p[klen + 5] == '"');
            }
        }
        assert(s.subrange(i as int, v as int) =~= p);
    }
    // Find the value's closing quote: the first quote after the pattern.
    let mut j = v;
    while j < n && data.get_char(j) != '"'
        invariant
            v <= j <= n,
            n == s.len(),
            s == data@,
            forall|x: int| v <= x < j ==> s[x] != '"',
        decreases n - j,
    {
        j += 1;
    }
    if j == n {
        proof {
            if match_at(s, key@, i as int) {
                let j2 = choose|j2: int| value_end_at(s, key@, i as int, j2);
                assert(s[j2] == '"');
            }
        }
        return None;
    }
    if check_decimal(data, v, j) {
        proof {
            assert(value_end_at(s, key@, i as int, j as int));
        }
        Some(j)
    } else {
        proof {
            if match_at(s, key@, i as int) {
                let j2 = choose|j2: int| value_end_at(s, key@, i as int, j2);
                if j2 < j {
                    assert(s[j2] != '"');
                } else if j2 > j {
                    assert(s[j as int] != '"');
                }
                assert(j2 == j);
            }
        }
        None
    }
}

/// Find the value of the last occurrence of a key in the diagnostic text.
pub fn find_last_value(data: &str, key: &str) -> (r: Option<String>)
    ensures
        r is Some <==> has_key(data@, key@),
        r matches Some(v) ==> is_last_value(data@, key@, v@),
{
    let ghost s = data@;
    let n = data.unicode_len();
    let klen = key.unicode_len();
    let mut found = false;
    let mut bi: usize = 0;
    let mut bj: usize = 0;
    let mut i: usize = 0;
    while i < n
        invariant
            i <= n,
            n == s.len(),
            klen == key@.len(),
            s == data@,
            found ==> value_end_at(s, key@, bi as int, bj as int) && bi < i && (forall|i2: int|
                bi < i2 < i ==> !match_at(s, key@, i2)),
            !found ==> forall|i2: int| 0 <= i2 < i ==> !match_at(s, key@, i2),
        decreases n - i,
    {
        match check_match_at(data, key, i) {
            Some(j) => {
                found = true;
                bi = i;
                bj = j;
            },
            None => {
            },
        }
        i += 1;
    }
    proof {
        // No occurrence can start at or beyond the end of the text.
        assert forall|i2: int| i2 >= n implies !match_at(s, key@, i2) by {
            if match_at(s, key@, i2) {
                let j2 = choose|j2: int| value_end_at(s, key@, i2, j2);
                assert(i2 + spec_key_pattern(key@).len() <= j2 < n);
            }
        }
    }
    if found {
        proof {
            assert(spec_key_pattern(key@).len() == klen + 6);
            assert(match_at(s, key@, bi as int));
            let jc = choose|j: int| value_end_at(s, key@, bi as int, j);
            lemma_value_end_unique(s, key@, bi as int, jc, bj as int);
        }
        let vstart = bi + klen + 6;
        let val = data.substring_char(vstart, bj).to_owned();
        proof {
            assert(is_last_value(s, key@, val@));
        }
        Some(val)
    } else {
        None
    }
}

/// Which field's key, checked in a fixed order, is the first one missing
/// from the diagnostic text.
pub open spec fn spec_missing_field(s: Seq<char>) -> Option<MeasurementField> {
    if !has_key(s, "input_i"@) {
        Some(MeasurementField::InputI)
    } else if !has_key(s, "input_lra"@) {
        Some(MeasurementField::InputLra)
    } else if !has_key(s, "input_tp"@) {
        Some(MeasurementField::InputTp)
    } else if !has_key(s, "input_thresh"@) {
        Some(MeasurementField::InputThresh)
    } else if !has_key(s, "target_offset"@) {
        Some(MeasurementField::TargetOffset)
    } else {
        None
    }
}

/// The audio filter descriptor of the measurement pass: the fixed targets
/// with machine-readable reporting.
pub open spec fn spec_analyze_af() -> Seq<char> {
    "loudnorm=I="@ + LOUDNORM_LUFS@ + ":TP="@ + LOUDNORM_TP@ + ":LRA="@ + LOUDNORM_LRA@
        + ":print_format=json"@
}

/// The audio filter descriptor that applies a measurement: the same fixed
/// targets, the five measured values, linear gain, and summary reporting.
pub open spec fn spec_convert_af(m: LoudnormV) -> Seq<char> {
    "loudnorm=I="@ + LOUDNORM_LUFS@ + ":TP="@ + LOUDNORM_TP@ + ":LRA="@ + LOUDNORM_LRA@
        + ":measured_I="@ + m.input_i + ":measured_LRA="@ + m.input_lra + ":measured_TP="@
        + m.input_tp + ":measured_thresh="@ + m.input_thresh + ":offset="@ + m.target_offset
        + ":linear=true:print_format=summary"@
}

impl Loudnorm {
    /// The audio filter descriptor requesting a loudness analysis with the
    /// fixed targets.
    pub fn analyze_af() -> (r: String)
        ensures
            r@ == spec_analyze_af(),
    {
        let mut s = String::from_str("loudnorm=I=");
        s.append(LOUDNORM_LUFS);
        s.append(":TP=");
        s.append(LOUDNORM_TP);
        s.append(":LRA=");
        s.append(LOUDNORM_LRA);
        s.append(":print_format=json");
        s
    }

    /// The audio filter descriptor that applies this measurement during
    /// the second encode pass.
    pub fn convert_af(&self) -> (r: String)
        ensures
            r@ == spec_convert_af(self@),
    {
        let mut s = String::from_str("loudnorm=I=");
        s.append(LOUDNORM_LUFS);
        s.append(":TP=");
        s.append(LOUDNORM_TP);
        s.append(":LRA=");
        s.append(LOUDNORM_LRA);
        s.append(":measured_I=");
        s.append(self.input_i.as_str());
        s.append(":measured_LRA=");
        s.append(self.input_lra.as_str());
        s.append(":measured_TP=");
        s.append(self.input_tp.as_str());
        s.append(":measured_thresh=");
        s.append(self.input_thresh.as_str());
        s.append(":offset=");
        s.append(self.target_offset.as_str());
        s.append(":linear=true:print_format=summary");
        s
    }

    /// Parse the measured values out of an analysis run's diagnostic text.
    ///
    /// Each of the five required keys must appear somewhere in the text,
    /// in any order; for each, the value of its last occurrence is the one
    /// kept, because the analyzer may print the measurement block several
    /// times and only the final block is complete. A missing key is a
    /// fatal parse error naming the field.
    pub fn from_analyze_data(data: &str) -> (r: Result<Loudnorm, MeasurementParseError>)
        ensures
            r is Ok <==> spec_missing_field(data@) is None,
            r matches Ok(m) ==> is_last_value(data@, "input_i"@, m@.input_i) && is_last_value(
                data@,
                "input_lra"@,
                m@.input_lra,
            ) && is_last_value(data@, "input_tp"@, m@.input_tp) && is_last_value(
                data@,
                "input_thresh"@,
                m@.input_thresh,
            ) && is_last_value(data@, "target_offset"@, m@.target_offset),
            r matches Err(e) ==> Some(e.field) == spec_missing_field(data@),
    {
        let input_i = match find_last_value(data, "input_i") {
            Some(v) => v,
            None => {
                return Err(MeasurementParseError { field: MeasurementField::InputI });
            },
        };
        let input_lra = match find_last_value(data, "input_lra") {
            Some(v) => v,
            None => {
                return Err(MeasurementParseError { field: MeasurementField::InputLra });
            },
        };
        let input_tp = match find_last_value(data, "input_tp") {
            Some(v) => v,
            None => {
                return Err(MeasurementParseError { field: MeasurementField::InputTp });
            },
        };
        let input_thresh = match find_last_value(data, "input_thresh") {
            Some(v) => v,
            None => {
                return Err(MeasurementParseError { field: MeasurementField::InputThresh });
            },
        };
        let target_offset = match find_last_value(data, "target_offset") {
            Some(v) => v,
            None => {
                return Err(MeasurementParseError { field: MeasurementField::TargetOffset });
            },
        };
        Ok(Loudnorm { input_i, input_lra, input_tp, input_thresh, target_offset })
    }
}

} // verus!
