use vstd::prelude::*;

use crate::types::{MongoLog, RawLog, Severity, spec_decoded};

verus! {

/// Relies on `String::push`: appends the given character to the end of the string.
pub assume_specification[ String::push ](s: &mut String, ch: char)
    ensures
        final(s)@ == old(s)@.push(ch),
;

/// The characters of `s` with every double-quote character removed.
///
/// Stringifying a decoded scalar field wraps it in double quotes; entry fields
/// are stored with those artifacts stripped.
pub open spec fn strip_quotes(s: Seq<char>) -> Seq<char> {
    s.filter(|c: char| c != '"')
}

/// One unfolding step of `strip_quotes` over a prefix of `s`.
pub(crate) proof fn lemma_strip_quotes_step(s: Seq<char>, i: int)
    requires
        0 <= i < s.len(),
    ensures
        strip_quotes(s.subrange(0, i + 1)) == (if s[i] != '"' {
            strip_quotes(s.subrange(0, i)).push(s[i])
        } else {
            strip_quotes(s.subrange(0, i))
        }),
{
    reveal(Seq::<_>::filter);
    let t = s.subrange(0, i + 1);
    assert(t.drop_last() =~= s.subrange(0, i));
    assert(t.last() == s[i]);
}

/// Removes every double-quote character from `s`.
pub fn clean_string(s: String) -> (r: String)
    ensures
        r@ == strip_quotes(s@),
{
    let sref: &str = s.as_str();
    let n: usize = sref.unicode_len();
    let mut out = String::new();
    let mut i: usize = 0;
    proof {
        assert(s@.subrange(0, 0) =~= Seq::<char>::empty());
        reveal(Seq::<_>::filter);
    }
    while i < n
        invariant
            i <= n,
            n == s@.len(),
            sref@ == s@,
            out@ == strip_quotes(s@.subrange(0, i as int)),
        decreases n - i,
    {
        let c: char = sref.get_char(i);
        proof {
            lemma_strip_quotes_step(s@, i as int);
        }
        if c != '"' {
            out.push(c);
        }
        i = i + 1;
    }
    proof {
        assert(s@.subrange(0, n as int) =~= s@);
    }
    out
}

/// The full level name for a severity abbreviation: `F`, `E`, `W` and `I` map
/// through the fixed table, and any other text passes through unchanged.
pub open spec fn spec_level_from_abbrv(a: Seq<char>) -> Seq<char> {
    if a == "F"@ {
        "Fatal"@
    } else if a == "E"@ {
        "Error"@
    } else if a == "W"@ {
        "Warning"@
    } else if a == "I"@ {
        "Informational"@
    } else {
        a
    }
}

/// Maps a severity abbreviation to the full level name; unrecognized
/// abbreviations are returned verbatim.
pub fn verbose_level_from_abbrv(abbrv: String) -> (r: String)
    ensures
        r@ == spec_level_from_abbrv(abbrv@),
{
    if abbrv == "F".to_owned() {
        "Fatal".to_owned()
    } else if abbrv == "E".to_owned() {
        "Error".to_owned()
    } else if abbrv == "W".to_owned() {
        "Warning".to_owned()
    } else if abbrv == "I".to_owned() {
        "Informational".to_owned()
    } else {
        abbrv
    }
}

/// The decimal digit character for `d`.
pub open spec fn decimal_digit(d: nat) -> char {
    if d == 0 {
        '0'
    } else if d == 1 {
        '1'
    } else if d == 2 {
        '2'
    } else if d == 3 {
        '3'
    } else if d == 4 {
        '4'
    } else if d == 5 {
        '5'
    } else if d == 6 {
        '6'
    } else if d == 7 {
        '7'
    } else if d == 8 {
        '8'
    } else {
        '9'
    }
}

/// The usual decimal rendering of `n`, most significant digit first, with no
/// leading zero except for zero itself.
pub open spec fn decimal_seq(n: nat) -> Seq<char>
    decreases n,
{
    if n < 10 {
        seq![decimal_digit(n)]
    } else {
        decimal_seq(n / 10).push(decimal_digit(n % 10))
    }
}

/// The character for a single decimal digit.
fn digit_to_char(d: usize) -> (c: char)
    requires
        d < 10,
    ensures
        c == decimal_digit(d as nat),
{
    if d == 0 {
        '0'
    } else if d == 1 {
        '1'
    } else if d == 2 {
        '2'
    } else if d == 3 {
        '3'
    } else if d == 4 {
        '4'
    } else if d == 5 {
        '5'
    } else if d == 6 {
        '6'
    } else if d == 7 {
        '7'
    } else if d == 8 {
        '8'
    } else {
        '9'
    }
}

/// Renders `n` in decimal.
pub fn usize_to_string(n: usize) -> (r: String)
    ensures
        r@ == decimal_seq(n as nat),
    decreases n,
{
    let d: usize = n % 10;
    let c: char = digit_to_char(d);
    if n < 10 {
        let mut s = String::new();
        s.push(c);
        proof {
            assert(s@ =~= seq![decimal_digit(n as nat)]);
        }
        s
    } else {
        let mut s = usize_to_string(n / 10);
        s.push(c);
        proof {
            assert(s@ =~= decimal_seq((n / 10) as nat).push(decimal_digit((n % 10) as nat)));
        }
        s
    }
}

/// Builds one typed log entry from the raw text of a record's fields: strips
/// the quoting artifacts from each text field, decodes the severity
/// abbreviation, and keeps the attribute payload verbatim.
pub fn make_object_from_untyped_object(raw: RawLog) -> (r: MongoLog)
    ensures
        spec_decoded(raw, r),
{
    let verbosity = clean_string(raw.s);
    MongoLog {
        attr: raw.attr,
        c: clean_string(raw.c),
        ctx: clean_string(raw.ctx),
        id: clean_string(raw.id),
        msg: clean_string(raw.msg),
        s: Severity::from_abbrv(verbosity),
        t: clean_string(raw.t),
    }
}

/// The raw field texts that parsing `line` as a structured record yields:
/// `None` when the line is not well-formed, and otherwise the stringified
/// `attr`, `c`, `ctx`, `id`, `msg`, `s` and `t.$date` fields, in that order.
pub uninterp spec fn json_fields(line: Seq<char>) -> Option<Seq<Seq<char>>>;

/// Relies on `serde_json::from_str` to decide whether the line is well-formed,
/// and on `serde_json::Value`'s indexing and `Display` to take the string form
/// of each field (`null` where a field is missing). Both depend on the line's
/// characters alone, so the outcome is named by `json_fields`.
#[verifier::external_body]
fn parse_raw(line: &str) -> (r: Option<RawLog>)
    ensures
        r is Some <==> json_fields(line@) is Some,
        r matches Some(raw) ==> (json_fields(line@) matches Some(fs) && fs == seq![
            raw.attr@,
            raw.c@,
            raw.ctx@,
            raw.id@,
            raw.msg@,
            raw.s@,
            raw.t@,
        ]),
{
    match serde_json::from_str::<serde_json::Value>(line) {
        Ok(v) => Some(RawLog {
            attr: v["attr"].to_string(),
            c: v["c"].to_string(),
            ctx: v["ctx"].to_string(),
            id: v["id"].to_string(),
            msg: v["msg"].to_string(),
            s: v["s"].to_string(),
            t: v["t"]["$date"].to_string(),
        }),
        Err(_) => None,
    }
}

/// `log` is the entry decoded from the raw field texts `fs`, laid out as
/// `json_fields` yields them.
pub open spec fn spec_decoded_fields(fs: Seq<Seq<char>>, log: MongoLog) -> bool {
    &&& fs.len() == 7
    &&& log.attr@ == fs[0]
    &&& log.c@ == strip_quotes(fs[1])
    &&& log.ctx@ == strip_quotes(fs[2])
    &&& log.id@ == strip_quotes(fs[3])
    &&& log.msg@ == strip_quotes(fs[4])
    &&& log.s@ == crate::types::decode_severity(strip_quotes(fs[5]))
    &&& log.t@ == strip_quotes(fs[6])
}

/// Decodes one input line: a well-formed line yields its typed entry, and any
/// other line yields nothing and is simply dropped.
pub fn decode_line(line: &str) -> (r: Option<MongoLog>)
    ensures
        r is Some <==> json_fields(line@) is Some,
        r matches Some(log) ==> (json_fields(line@) matches Some(fs) && spec_decoded_fields(
            fs,
            log,
        )),
{
    match parse_raw(line) {
        Some(raw) => Some(make_object_from_untyped_object(raw)),
        None => None,
    }
}

} // verus!

