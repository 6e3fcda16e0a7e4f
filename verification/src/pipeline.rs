//! The per-record work of the four batch stages: formatting a record
//! for export, building a record from a delimited line, normalizing a
//! record into its canonical shape, resolving a record's foreign key,
//! and classifying and counting every record's outcome.

use vstd::prelude::*;
use crate::amount::Amount;
use crate::amount::amount_or_zero;
use crate::amount::spec_amount_or_zero;
use crate::dates::Date;
use crate::dates::date_text;
use crate::dates::date_or_default;
use crate::dates::format_date;
use crate::dates::spec_date_or_default;
use crate::resolver::ReferenceTable;
use crate::resolver::resolve;
use crate::resolver::spec_resolve;
use crate::text::cropped;
use crate::text::crop_string;
use crate::text::push_char;
use crate::text::split_fields;
use crate::text::split_line;
use crate::text::strip_spaces;
use crate::text::without_spaces;

verus! {

/// A calendar date with a time of day, as the canonical table stores
/// its two timestamps.
#[derive(Clone, Copy, PartialEq, Eq, Structural, Debug)]
pub struct Timestamp {
    pub date: Date,
    pub hour: u32,
    pub minute: u32,
    pub second: u32,
}

/// A row read for export: every scalar already rendered as text
/// except the two dates.
#[derive(Debug)]
pub struct ExportRecord {
    pub id: String,
    pub name: String,
    pub company: String,
    pub amount_text: String,
    pub status: String,
    pub created_at: Date,
    pub paid_at: Date,
}

/// The one line of delimited output that exporting a record yields:
/// its fields joined by commas, the text fields stripped of spaces,
/// the dates in `YYYY-MM-DD` form, and a final newline.
pub open spec fn spec_export_line(r: &ExportRecord) -> Seq<char> {
    without_spaces(r.id@) + seq![','] + without_spaces(r.name@) + seq![','] + without_spaces(
        r.company@,
    ) + seq![','] + r.amount_text@ + seq![','] + without_spaces(r.status@) + seq![','] + date_text(
        r.created_at,
    ) + seq![','] + date_text(r.paid_at) + seq!['\n']
}

/// Formats one record as its line of delimited export output.
pub fn export_line(r: &ExportRecord) -> (line: String)
    requires
        r.created_at.wf(),
        r.paid_at.wf(),
    ensures
        line@ == spec_export_line(r),
{
    let mut line = strip_spaces(r.id.as_str());
    push_char(&mut line, ',');
    let part = strip_spaces(r.name.as_str());
    line.append(part.as_str());
    push_char(&mut line, ',');
    let part = strip_spaces(r.company.as_str());
    line.append(part.as_str());
    push_char(&mut line, ',');
    line.append(r.amount_text.as_str());
    push_char(&mut line, ',');
    let part = strip_spaces(r.status.as_str());
    line.append(part.as_str());
    push_char(&mut line, ',');
    let part = format_date(&r.created_at);
    line.append(part.as_str());
    push_char(&mut line, ',');
    let part = format_date(&r.paid_at);
    line.append(part.as_str());
    push_char(&mut line, '\n');
    proof {
        assert(line@ =~= spec_export_line(r));
    }
    line
}

/// A record built from one delimited input line, its amount and dates
/// already cleansed.
#[derive(Debug)]
pub struct LoadRecord {
    pub id: String,
    pub name: String,
    pub company: String,
    pub amount: Amount,
    pub status: String,
    pub created_at: Date,
    pub paid_at: Date,
}

/// The one recoverable per-line fault: the line has fewer fields than
/// the record needs.
#[derive(Clone, Copy, PartialEq, Eq, Structural, Debug)]
pub enum LoadError {
    TooFewFields,
}

/// Builds a record from one delimited line: the line is split at the
/// separator; a line of fewer than seven fields is rejected as a
/// recoverable per-line error; the amount falls back to zero and each
/// date to the sentinel when its field does not parse.
pub fn parse_line(line: &str, sep: char, default_date: Date) -> (r: Result<LoadRecord, LoadError>)
    ensures
        (match r {
            Ok(rec) => {
                let fs = split_fields(line@, sep);
                &&& fs.len() >= 7
                &&& rec.id@ == fs[0]
                &&& rec.name@ == fs[1]
                &&& rec.company@ == fs[2]
                &&& rec.amount == spec_amount_or_zero(fs[3])
                &&& rec.status@ == fs[4]
                &&& rec.created_at == spec_date_or_default(fs[5], default_date)
                &&& rec.paid_at == spec_date_or_default(fs[6], default_date)
            },
            Err(e) => split_fields(line@, sep).len() < 7 && e == LoadError::TooFewFields,
        }),
{
    let fields = split_line(line, sep);
    if fields.len() < 7 {
        return Err(LoadError::TooFewFields);
    }
    let amount = amount_or_zero(fields[3].as_str());
    let created_at = date_or_default(fields[5].as_str(), default_date);
    let paid_at = date_or_default(fields[6].as_str(), default_date);
    Ok(
        LoadRecord {
            id: fields[0].clone(),
            name: fields[1].clone(),
            company: fields[2].clone(),
            amount,
            status: fields[4].clone(),
            created_at,
            paid_at,
        },
    )
}

/// A row of the staging table, before normalization.  The decimal
/// amount passes through the transform stage untouched and so is not
/// part of this record.
#[derive(Debug)]
pub struct DataRow {
    pub id: String,
    pub name: String,
    pub company: String,
    pub status: String,
    pub created_at: Date,
    pub paid_at: Date,
}

/// A canonical row: text fields stripped of spaces, the identifier
/// fields cropped to 24 characters, each date combined with a zero
/// time of day.
#[derive(Debug)]
pub struct CargoRow {
    pub id: String,
    pub company_name: String,
    pub company_id: String,
    pub status: String,
    pub created_at: Timestamp,
    pub updated_at: Timestamp,
}

/// Normalizes a staged row into its canonical shape: spaces are
/// stripped from every text field, the record identifier and the
/// company field are cropped to 24 characters, and each date gains a
/// midnight time of day.  Every row is accepted.
pub fn transform_record(r: &DataRow) -> (t: CargoRow)
    ensures
        t.id@ == cropped(without_spaces(r.id@), 24),
        t.company_name@ == without_spaces(r.name@),
        t.company_id@ == cropped(without_spaces(r.company@), 24),
        t.status@ == without_spaces(r.status@),
        t.created_at == (Timestamp { date: r.created_at, hour: 0, minute: 0, second: 0 }),
        t.updated_at == (Timestamp { date: r.paid_at, hour: 0, minute: 0, second: 0 }),
{
    let id_stripped = strip_spaces(r.id.as_str());
    let company_stripped = strip_spaces(r.company.as_str());
    CargoRow {
        id: crop_string(id_stripped.as_str(), 24).to_owned(),
        company_name: strip_spaces(r.name.as_str()),
        company_id: crop_string(company_stripped.as_str(), 24).to_owned(),
        status: strip_spaces(r.status.as_str()),
        created_at: Timestamp { date: r.created_at, hour: 0, minute: 0, second: 0 },
        updated_at: Timestamp { date: r.paid_at, hour: 0, minute: 0, second: 0 },
    }
}

/// What the disperse stage decides for one record: write it with the
/// resolved foreign key substituted, or ignore it because no key can
/// be resolved.
#[derive(Debug)]
pub enum DisperseAction {
    Write(String),
    Ignore,
}

/// Decides the disperse stage's action for a record carrying a
/// candidate company identifier and a company name: a resolvable
/// record is written with its resolved key, an unresolvable one is
/// ignored — a normal business outcome, not a failure.
pub fn disperse_action(company_id: &str, company_name: &str, table: &ReferenceTable) -> (a:
    DisperseAction)
    ensures
        (match a {
            DisperseAction::Write(fid) => spec_resolve(company_id@, company_name@, table@) == Some(
                fid@,
            ),
            DisperseAction::Ignore => spec_resolve(company_id@, company_name@, table@) is None,
        }),
{
    match resolve(company_id, company_name, table) {
        Some(fid) => DisperseAction::Write(fid),
        None => DisperseAction::Ignore,
    }
}

/// How one record's journey through a stage ended.
#[derive(Clone, Copy, PartialEq, Eq, Structural, Debug)]
pub enum Outcome {
    Stored,
    Ignored,
    Errored,
}

/// The three tallies a job reports at its end.
#[derive(Clone, Copy, PartialEq, Eq, Structural, Debug)]
pub struct Counters {
    pub stored: u64,
    pub ignored: u64,
    pub errored: u64,
}

/// How many entries of `s` are the outcome `o`.
pub open spec fn outcome_count(s: Seq<Outcome>, o: Outcome) -> int
    decreases s.len(),
{
    if s.len() == 0 {
        0
    } else {
        outcome_count(s.drop_last(), o) + (if s.last() == o {
            1int
        } else {
            0int
        })
    }
}

impl Counters {
    /// The sum of the three tallies.
    pub open spec fn total(self) -> int {
        self.stored as int + self.ignored as int + self.errored as int
    }

    /// Fresh counters: nothing counted yet.
    pub fn new() -> (c: Counters)
        ensures
            c == (Counters { stored: 0, ignored: 0, errored: 0 }),
    {
        Counters { stored: 0, ignored: 0, errored: 0 }
    }

    /// Counts one record's outcome: exactly the matching tally grows,
    /// by exactly one.
    pub fn note(&mut self, o: Outcome)
        requires
            old(self).total() < u64::MAX,
        ensures
            final(self).total() == old(self).total() + 1,
            final(self).stored as int == old(self).stored as int + (if o == Outcome::Stored {
                1int
            } else {
                0int
            }),
            final(self).ignored as int == old(self).ignored as int + (if o == Outcome::Ignored {
                1int
            } else {
                0int
            }),
            final(self).errored as int == old(self).errored as int + (if o == Outcome::Errored {
                1int
            } else {
                0int
            }),
    {
        match o {
            Outcome::Stored => {
                self.stored = self.stored + 1;
            },
            Outcome::Ignored => {
                self.ignored = self.ignored + 1;
            },
            Outcome::Errored => {
                self.errored = self.errored + 1;
            },
        }
    }
}

/// Outcome exhaustiveness: every record of a batch ends in exactly one
/// of the three outcomes, so over any batch the three tallies sum to
/// the batch size.
pub proof fn lemma_outcomes_partition(s: Seq<Outcome>)
    ensures
        outcome_count(s, Outcome::Stored) + outcome_count(s, Outcome::Ignored) + outcome_count(
            s,
            Outcome::Errored,
        ) == s.len(),
    decreases s.len(),
{
    if s.len() > 0 {
        lemma_outcomes_partition(s.drop_last());
    }
}

/// Counts a whole batch of outcomes: each tally is the number of
/// records that ended that way, and together they account for every
/// record once.
pub fn tally_outcomes(outcomes: &Vec<Outcome>) -> (c: Counters)
    ensures
        c.stored as int == outcome_count(outcomes@, Outcome::Stored),
        c.ignored as int == outcome_count(outcomes@, Outcome::Ignored),
        c.errored as int == outcome_count(outcomes@, Outcome::Errored),
        c.total() == outcomes@.len(),
{
    let mut c = Counters::new();
    let mut i: usize = 0;
    let n = outcomes.len();
    proof {
        assert(outcomes@.subrange(0, 0) =~= Seq::<Outcome>::empty());
    }
    while i < n
        invariant
            i <= n,
            n == outcomes@.len(),
            c.stored as int == outcome_count(outcomes@.subrange(0, i as int), Outcome::Stored),
            c.ignored as int == outcome_count(outcomes@.subrange(0, i as int), Outcome::Ignored),
            c.errored as int == outcome_count(outcomes@.subrange(0, i as int), Outcome::Errored),
            c.total() == i,
        decreases n - i,
    {
        proof {
            assert(outcomes@.subrange(0, i + 1).drop_last() =~= outcomes@.subrange(0, i as int));
            assert(outcomes@.subrange(0, i + 1).last() == outcomes@[i as int]);
        }
        c.note(outcomes[i]);
        i = i + 1;
    }
    proof {
        assert(outcomes@.subrange(0, n as int) =~= outcomes@);
        lemma_outcomes_partition(outcomes@);
    }
    c
}

} // verus!
