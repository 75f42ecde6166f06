//! Bank statement ingest surface: parser profiles, the normalized
//! transaction's companions, and the small pure checks the parsers rest
//! on. Reading CSV and OFX payloads themselves is the host application's
//! business.

use vstd::prelude::*;

use crate::text::char_idx;
use crate::text::find_char;
use crate::text::is_ascii_upper;
use crate::text::lower_seq;
use crate::text::trim_spec;
use crate::text::trim_str;

verus! {

#[derive(Debug, PartialEq, Eq)]
pub enum BankIngestError {
    NotImplemented(String),
    Invalid(String),
    MissingColumn(String),
    Csv(String),
    Parse(String),
}

impl Clone for BankIngestError {
    fn clone(&self) -> (r: Self)
        ensures
            r == *self,
    {
        match self {
            BankIngestError::NotImplemented(m) => BankIngestError::NotImplemented(m.clone()),
            BankIngestError::Invalid(m) => BankIngestError::Invalid(m.clone()),
            BankIngestError::MissingColumn(m) => BankIngestError::MissingColumn(m.clone()),
            BankIngestError::Csv(m) => BankIngestError::Csv(m.clone()),
            BankIngestError::Parse(m) => BankIngestError::Parse(m.clone()),
        }
    }
}

/// Whether a currency code passed the ISO-4217 shape check.
#[derive(Debug, PartialEq, Eq)]
pub struct CurrencyValidation {
    pub is_iso4217: bool,
    pub message: Option<String>,
}

impl Clone for CurrencyValidation {
    fn clone(&self) -> (r: Self)
        ensures
            r == *self,
    {
        CurrencyValidation { is_iso4217: self.is_iso4217, message: self.message.clone() }
    }
}

impl Default for CurrencyValidation {
    fn default() -> (r: Self)
        ensures
            r.is_iso4217,
            r.message is None,
    {
        CurrencyValidation { is_iso4217: true, message: None }
    }
}

/// How a transaction relates to its duplicate group after deduplication.
#[derive(Debug, PartialEq, Eq)]
pub struct DuplicateMetadata {
    pub group_key: Option<String>,
    pub total_occurrences: usize,
    pub discarded_ids: Vec<String>,
}

impl Clone for DuplicateMetadata {
    fn clone(&self) -> (r: Self)
        ensures
            r.group_key == self.group_key,
            r.total_occurrences == self.total_occurrences,
            r.discarded_ids@ == self.discarded_ids@,
    {
        let mut discarded_ids: Vec<String> = Vec::new();
        let mut i: usize = 0;
        while i < self.discarded_ids.len()
            invariant
                i <= self.discarded_ids@.len(),
                discarded_ids@ == self.discarded_ids@.subrange(0, i as int),
            decreases self.discarded_ids@.len() - i,
        {
            discarded_ids.push(self.discarded_ids[i].clone());
            assert(discarded_ids@ =~= self.discarded_ids@.subrange(0, i + 1 as int));
            i = i + 1;
        }
        assert(discarded_ids@ =~= self.discarded_ids@);
        DuplicateMetadata {
            group_key: self.group_key.clone(),
            total_occurrences: self.total_occurrences,
            discarded_ids,
        }
    }
}

impl Default for DuplicateMetadata {
    fn default() -> (r: Self)
        ensures
            r.group_key is None,
            r.total_occurrences == 1,
            r.discarded_ids@.len() == 0,
    {
        DuplicateMetadata { group_key: None, total_occurrences: 1, discarded_ids: Vec::new() }
    }
}

/// How many transactions deduplication kept and dropped.
#[derive(Debug, PartialEq, Eq)]
pub struct DedupeMetrics {
    pub kept: usize,
    pub dropped: usize,
}

impl Default for DedupeMetrics {
    fn default() -> (r: Self)
        ensures
            r.kept == 0,
            r.dropped == 0,
    {
        DedupeMetrics { kept: 0, dropped: 0 }
    }
}

impl Clone for DedupeMetrics {
    fn clone(&self) -> (r: Self)
        ensures
            r == *self,
    {
        DedupeMetrics { kept: self.kept, dropped: self.dropped }
    }
}

/// The default CSV date format.
pub fn default_date_format() -> (r: String)
    ensures
        r@ == "%Y-%m-%d"@,
{
    String::from_str("%Y-%m-%d")
}

/// The default factor from major units to minor units.
pub fn default_amount_factor() -> (r: i64)
    ensures
        r == 100,
{
    100
}

/// Which CSV columns hold which transaction fields.
#[derive(Debug, PartialEq)]
pub struct CsvParserProfile {
    pub transaction_id: String,
    pub account_id: String,
    pub posted_date: String,
    pub amount: String,
    pub currency: String,
    pub description: String,
    pub source_reference: Option<String>,
    pub source_checksum: Option<String>,
    pub voided: Option<String>,
    pub date_format: String,
    pub amount_minor_factor: i64,
}

impl Default for CsvParserProfile {
    fn default() -> (r: Self)
        ensures
            r.transaction_id@ == "transaction_id"@,
            r.account_id@ == "account_id"@,
            r.posted_date@ == "posted_date"@,
            r.amount@ == "amount"@,
            r.currency@ == "currency"@,
            r.description@ == "description"@,
            r.source_reference matches Some(x) && x@ == "source_reference"@,
            r.source_checksum matches Some(x) && x@ == "checksum"@,
            r.voided matches Some(x) && x@ == "voided"@,
            r.date_format@ == "%Y-%m-%d"@,
            r.amount_minor_factor == 100,
    {
        CsvParserProfile {
            transaction_id: String::from_str("transaction_id"),
            account_id: String::from_str("account_id"),
            posted_date: String::from_str("posted_date"),
            amount: String::from_str("amount"),
            currency: String::from_str("currency"),
            description: String::from_str("description"),
            source_reference: Some(String::from_str("source_reference")),
            source_checksum: Some(String::from_str("checksum")),
            voided: Some(String::from_str("voided")),
            date_format: default_date_format(),
            amount_minor_factor: default_amount_factor(),
        }
    }
}

/// A CSV statement parser bound to one column profile.
#[derive(Debug, PartialEq)]
pub struct CsvBankParser {
    pub profile: CsvParserProfile,
}

impl CsvBankParser {
    pub fn new(profile: CsvParserProfile) -> (r: Self)
        ensures
            r.profile == profile,
    {
        CsvBankParser { profile }
    }
}

/// OFX parsing settings.
#[derive(Debug, PartialEq, Eq)]
pub struct OfxParserProfile {
    pub amount_minor_factor: i64,
}

impl Clone for OfxParserProfile {
    fn clone(&self) -> (r: Self)
        ensures
            r == *self,
    {
        OfxParserProfile { amount_minor_factor: self.amount_minor_factor }
    }
}

impl Default for OfxParserProfile {
    fn default() -> (r: Self)
        ensures
            r.amount_minor_factor == 100,
    {
        OfxParserProfile { amount_minor_factor: default_amount_factor() }
    }
}

/// An OFX statement parser bound to its settings.
#[derive(Debug, PartialEq, Eq)]
pub struct OfxBankParser {
    pub profile: OfxParserProfile,
}

impl OfxBankParser {
    pub fn new(profile: OfxParserProfile) -> (r: Self)
        ensures
            r.profile == profile,
    {
        OfxBankParser { profile }
    }
}

impl Default for OfxBankParser {
    fn default() -> (r: Self)
        ensures
            r.profile.amount_minor_factor == 100,
    {
        OfxBankParser { profile: OfxParserProfile::default() }
    }
}

/// Whether a flag column spells an affirmative value, up to ASCII case.
pub fn is_truthy(value: &str) -> (r: bool)
    ensures
        r == (lower_seq(value@) == "true"@ || lower_seq(value@) == "t"@ || lower_seq(value@)
            == "1"@ || lower_seq(value@) == "yes"@ || lower_seq(value@) == "y"@),
{
    let lowered = crate::text::lower_str(value);
    crate::text::eq_str(lowered.as_str(), "true") || crate::text::eq_str(lowered.as_str(), "t")
        || crate::text::eq_str(lowered.as_str(), "1") || crate::text::eq_str(
        lowered.as_str(),
        "yes",
    ) || crate::text::eq_str(lowered.as_str(), "y")
}

/// Accepts exactly three ASCII capitals as an ISO-4217 currency code.
pub fn validate_currency(code: &str) -> (r: Result<CurrencyValidation, BankIngestError>)
    ensures
        match r {
            Ok(v) => {
                &&& code@.len() == 3
                &&& forall|k: int| 0 <= k < code@.len() ==> is_ascii_upper(#[trigger] code@[k])
                &&& v.is_iso4217
                &&& v.message is None
            },
            Err(e) => {
                &&& !(code@.len() == 3 && forall|k: int|
                    0 <= k < code@.len() ==> is_ascii_upper(#[trigger] code@[k]))
                &&& e matches BankIngestError::Invalid(m) && m@
                    == "invalid ISO-4217 currency code "@ + code@
            },
        },
{
    let len = code.unicode_len();
    let mut ok = len == 3;
    let mut i: usize = 0;
    while i < len
        invariant
            len == code@.len(),
            i <= len,
            ok == (len == 3 && forall|k: int| 0 <= k < i ==> is_ascii_upper(#[trigger] code@[k])),
        decreases len - i,
    {
        if !crate::text::ascii_upper(code.get_char(i)) {
            assert(!is_ascii_upper(code@[i as int]));
            ok = false;
        }
        i = i + 1;
    }
    if ok {
        Ok(CurrencyValidation::default())
    } else {
        let mut msg = String::from_str("invalid ISO-4217 currency code ");
        msg.append(code);
        Err(BankIngestError::Invalid(msg))
    }
}

/// The tag name and trimmed value of an OFX line shaped `<NAME>value`;
/// nothing for any other shape.
pub fn split_tag(line: &str) -> (r: Option<(String, String)>)
    ensures
        match r {
            Some((name, value)) => {
                let gt = char_idx(line@, '>');
                &&& line@.len() > 0
                &&& line@[0] == '<'
                &&& gt != -1
                &&& gt + 1 < line@.len()
                &&& name@ == line@.subrange(1, gt)
                &&& value@ == trim_spec(line@.subrange(gt + 1, line@.len() as int))
            },
            None => line@.len() == 0 || line@[0] != '<' || char_idx(line@, '>') == -1 || char_idx(
                line@,
                '>',
            ) + 1 >= line@.len(),
        },
{
    let len = line.unicode_len();
    if len == 0 || line.get_char(0) != '<' {
        return None;
    }
    let gt = match find_char(line, '>') {
        Some(gt) => gt,
        None => {
            return None;
        },
    };
    if gt + 1 >= len {
        return None;
    }
    let name = line.substring_char(1, gt).to_owned();
    let rest = line.substring_char(gt + 1, len);
    let value = trim_str(rest);
    Some((name, value))
}

/// The trimmed value of an OFX line shaped `<TAG>value` whose name equals
/// `tag` up to ASCII case; nothing otherwise.
pub fn extract_tag_value(line: &str, tag: &str) -> (r: Option<String>)
    ensures
        match r {
            Some(value) => {
                let gt = char_idx(line@, '>');
                &&& line@.len() > 0
                &&& line@[0] == '<'
                &&& gt != -1
                &&& lower_seq(line@.subrange(1, gt)) == lower_seq(tag@)
                &&& value@ == trim_spec(line@.subrange(gt, line@.len() as int).drop_first())
            },
            None => line@.len() == 0 || line@[0] != '<' || char_idx(line@, '>') == -1 || lower_seq(
                line@.subrange(1, char_idx(line@, '>')),
            ) != lower_seq(tag@),
        },
{
    let len = line.unicode_len();
    if len == 0 || line.get_char(0) != '<' {
        return None;
    }
    let gt = match find_char(line, '>') {
        Some(gt) => gt,
        None => {
            return None;
        },
    };
    let name = line.substring_char(1, gt);
    if !crate::text::eq_ignore_case(name, tag) {
        return None;
    }
    let rest = line.substring_char(gt + 1, len);
    let value = trim_str(rest);
    proof {
        assert(line@.subrange(gt as int, line@.len() as int).drop_first() =~= line@.subrange(
            gt + 1,
            line@.len() as int,
        ));
    }
    Some(value)
}

} // verus!
