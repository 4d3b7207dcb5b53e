use vstd::prelude::*;

use crate::utils::strip_quotes;

verus! {

/// The severity level of a log record.
///
/// The four known levels are decoded from the single-letter abbreviations
/// `F`, `E`, `W`, `I`. Any other text in the severity field is preserved
/// verbatim in `Other`; such a record never matches a severity toggle unless
/// its text happens to equal one of the four full level names.
#[derive(Debug, PartialEq, Eq)]
pub enum Severity {
    Informational,
    Warning,
    Error,
    Fatal,
    Other(String),
}

/// The mathematical value of a [`Severity`]: the same five shapes, with the
/// preserved text as a sequence of characters.
pub ghost enum SeverityLabel {
    Informational,
    Warning,
    Error,
    Fatal,
    Other(Seq<char>),
}

impl View for Severity {
    type V = SeverityLabel;

    open spec fn view(&self) -> SeverityLabel {
        match self {
            Severity::Informational => SeverityLabel::Informational,
            Severity::Warning => SeverityLabel::Warning,
            Severity::Error => SeverityLabel::Error,
            Severity::Fatal => SeverityLabel::Fatal,
            Severity::Other(t) => SeverityLabel::Other(t@),
        }
    }
}

/// The severity produced by decoding the abbreviation `a`:
/// the fixed table `F`, `E`, `W`, `I`; anything else passes through verbatim.
pub open spec fn decode_severity(a: Seq<char>) -> SeverityLabel {
    if a == "F"@ {
        SeverityLabel::Fatal
    } else if a == "E"@ {
        SeverityLabel::Error
    } else if a == "W"@ {
        SeverityLabel::Warning
    } else if a == "I"@ {
        SeverityLabel::Informational
    } else {
        SeverityLabel::Other(a)
    }
}

impl SeverityLabel {
    /// The display text of a severity: the full level name, or the preserved
    /// text of an unrecognized one.
    pub open spec fn label(self) -> Seq<char> {
        match self {
            SeverityLabel::Informational => "Informational"@,
            SeverityLabel::Warning => "Warning"@,
            SeverityLabel::Error => "Error"@,
            SeverityLabel::Fatal => "Fatal"@,
            SeverityLabel::Other(t) => t,
        }
    }
}

/// The four full level names are pairwise distinct character sequences.
pub proof fn lemma_level_names_distinct()
    ensures
        "Informational"@ != "Warning"@,
        "Informational"@ != "Error"@,
        "Informational"@ != "Fatal"@,
        "Warning"@ != "Error"@,
        "Warning"@ != "Fatal"@,
        "Error"@ != "Fatal"@,
{
    reveal_strlit("Informational");
    reveal_strlit("Warning");
    reveal_strlit("Error");
    reveal_strlit("Fatal");
    assert("Informational"@.len() == 13);
    assert("Warning"@.len() == 7);
    assert("Error"@.len() == 5);
    assert("Fatal"@.len() == 5);
    assert("Error"@[0] == 'E');
    assert("Fatal"@[0] == 'F');
}

impl Severity {
    /// Decodes a severity abbreviation: `F`, `E`, `W` and `I` map to the four
    /// levels, and any other text is preserved verbatim.
    pub fn from_abbrv(abbrv: String) -> (r: Severity)
        ensures
            r@ == decode_severity(abbrv@),
    {
        if abbrv == "F".to_owned() {
            Severity::Fatal
        } else if abbrv == "E".to_owned() {
            Severity::Error
        } else if abbrv == "W".to_owned() {
            Severity::Warning
        } else if abbrv == "I".to_owned() {
            Severity::Informational
        } else {
            Severity::Other(abbrv)
        }
    }

    /// The display text of this severity.
    pub fn label(&self) -> (r: String)
        ensures
            r@ == self@.label(),
    {
        match self {
            Severity::Informational => "Informational".to_owned(),
            Severity::Warning => "Warning".to_owned(),
            Severity::Error => "Error".to_owned(),
            Severity::Fatal => "Fatal".to_owned(),
            Severity::Other(t) => t.clone(),
        }
    }
}

impl Clone for Severity {
    fn clone(&self) -> (r: Self)
        ensures
            r == *self,
    {
        match self {
            Severity::Informational => Severity::Informational,
            Severity::Warning => Severity::Warning,
            Severity::Error => Severity::Error,
            Severity::Fatal => Severity::Fatal,
            Severity::Other(t) => Severity::Other(t.clone()),
        }
    }
}

/// One decoded log record.
///
/// Every text field is plain text: decoding strips the double-quote artifacts
/// that stringifying the raw fields leaves behind. The `attr` payload is kept
/// verbatim as the text of the raw attribute value, opaque to the core.
#[derive(Debug, PartialEq, Eq)]
pub struct MongoLog {
    pub attr: String,
    pub c: String,
    pub ctx: String,
    pub id: String,
    pub msg: String,
    pub s: Severity,
    pub t: String,
}

impl Clone for MongoLog {
    fn clone(&self) -> (r: Self)
        ensures
            r == *self,
    {
        MongoLog {
            attr: self.attr.clone(),
            c: self.c.clone(),
            ctx: self.ctx.clone(),
            id: self.id.clone(),
            msg: self.msg.clone(),
            s: self.s.clone(),
            t: self.t.clone(),
        }
    }
}

/// The raw text of one record's fields, exactly as stringifying the untyped
/// record yields them, quoting artifacts included: the severity abbreviation,
/// the component, context and id tags, the message, the attribute payload, and
/// the date text.
#[derive(Debug, PartialEq, Eq)]
pub struct RawLog {
    pub attr: String,
    pub c: String,
    pub ctx: String,
    pub id: String,
    pub msg: String,
    pub s: String,
    pub t: String,
}

/// `log` is the decoded form of the raw record `raw`: each text field is the
/// raw text with quoting artifacts stripped, the severity abbreviation is
/// decoded through the fixed table, and the attribute payload is kept verbatim.
pub open spec fn spec_decoded(raw: RawLog, log: MongoLog) -> bool {
    &&& log.attr@ == raw.attr@
    &&& log.c@ == strip_quotes(raw.c@)
    &&& log.ctx@ == strip_quotes(raw.ctx@)
    &&& log.id@ == strip_quotes(raw.id@)
    &&& log.msg@ == strip_quotes(raw.msg@)
    &&& log.s@ == decode_severity(strip_quotes(raw.s@))
    &&& log.t@ == strip_quotes(raw.t@)
}

} // verus!
