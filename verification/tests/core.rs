use datapipe::amount::{amount_or_zero, parse_amount, Amount};
use datapipe::dates::{date_or_default, parse_date, sentinel_date, Date};
use datapipe::pipeline::{
    disperse_action, export_line, parse_line, tally_outcomes, transform_record, Counters,
    DataRow, DisperseAction, ExportRecord, LoadError, Outcome, Timestamp,
};
use datapipe::resolver::{resolve, ReferenceTable};
use datapipe::text::{crop_string, split_line, strip_spaces};

const VALID_ID: &str = "abc123abc123abc123abc123";

#[test]
fn strip_spaces_removes_every_space() {
    assert_eq!(strip_spaces(" a b  c "), "abc");
    assert_eq!(strip_spaces("   "), "");
}

#[test]
fn strip_spaces_idempotent_on_clean_text() {
    assert_eq!(strip_spaces("already-clean"), "already-clean");
    let once = strip_spaces("a b c");
    assert_eq!(strip_spaces(&once), once);
}

#[test]
fn crop_returns_short_strings_unchanged() {
    assert_eq!(crop_string("ab", 5), "ab");
    assert_eq!(crop_string("abcde", 5), "abcde");
    assert_eq!(crop_string("", 3), "");
}

#[test]
fn crop_exactness() {
    assert_eq!(crop_string("abcdef", 3), "abc");
    for n in 0..8 {
        let s = "abcdef";
        let r = crop_string(s, n);
        assert_eq!(r.chars().count(), n.min(s.len()));
        assert!(s.starts_with(r));
    }
}

#[test]
fn split_line_cuts_at_every_separator() {
    assert_eq!(split_line("a,b,,c", ','), vec!["a", "b", "", "c"]);
    assert_eq!(split_line("abc", ','), vec!["abc"]);
    assert_eq!(split_line("a,", ','), vec!["a", ""]);
    assert_eq!(split_line("", ','), vec![""]);
    assert_eq!(split_line("a;b", ';'), vec!["a", "b"]);
}

#[test]
fn identifier_validity_is_a_24_word_character_run() {
    // A valid candidate resolves to itself even against an empty table,
    // an invalid one does not resolve at all.
    let empty = ReferenceTable::new();
    let valid = |s: &str| resolve(s, "absent", &empty) == Some(s.to_string());
    assert!(valid(VALID_ID));
    assert!(valid("with_underscore_0123456789"));
    // The policy accepts a run inside a longer string, and keeps the
    // candidate unchanged rather than extracting the run.
    assert!(valid("??abc123abc123abc123abc123??"));
    assert!(!valid("abc123abc123abc123abc12"));
    assert!(!valid("???"));
    assert!(!valid(""));
    assert!(!valid("abc123abc123-abc123abc12"));
}

#[test]
fn resolver_trusts_a_valid_candidate() {
    let mut table = ReferenceTable::new();
    table.insert("Acme".to_string(), "zzz999zzz999zzz999zzz999".to_string());
    assert_eq!(
        resolve(VALID_ID, "Acme", &table),
        Some(VALID_ID.to_string())
    );
    let empty = ReferenceTable::new();
    assert_eq!(resolve(VALID_ID, "Nobody", &empty), Some(VALID_ID.to_string()));
}

#[test]
fn resolver_falls_back_to_the_table() {
    let mut table = ReferenceTable::new();
    table.insert("Acme".to_string(), VALID_ID.to_string());
    assert_eq!(resolve("???", "Acme", &table), Some(VALID_ID.to_string()));
}

#[test]
fn resolver_signals_unresolved() {
    let mut table = ReferenceTable::new();
    table.insert("Acme".to_string(), VALID_ID.to_string());
    assert_eq!(resolve("???", "Unknown Co", &table), None);
}

#[test]
fn reference_table_last_write_wins() {
    let mut table = ReferenceTable::new();
    table.insert("A".to_string(), "id1".to_string());
    table.insert("A".to_string(), "id2".to_string());
    assert_eq!(table.get("A"), Some(&"id2".to_string()));
    assert_eq!(table.get("B"), None);
}

#[test]
fn date_parsing_is_total_with_a_sentinel() {
    let base = sentinel_date();
    assert_eq!(base, Date { year: 1900, month: 1, day: 1 });
    assert_eq!(
        date_or_default("2021-05-03", base),
        Date { year: 2021, month: 5, day: 3 }
    );
    // Noise is cleaned away before parsing.
    assert_eq!(
        date_or_default("x2021-05-03x", base),
        Date { year: 2021, month: 5, day: 3 }
    );
    // The cleaned text "20210503" has no dashes, so it is not a date.
    assert_eq!(date_or_default("2021/05/03!!", base), base);
    assert_eq!(date_or_default("not-a-date", base), base);
    assert_eq!(date_or_default("", base), base);
    assert_eq!(date_or_default("2021-13-01", base), base);
    assert_eq!(date_or_default("2021-00-10", base), base);
    assert_eq!(date_or_default("2021-04-31", base), base);
}

#[test]
fn date_parsing_knows_the_calendar() {
    assert_eq!(
        parse_date("2020-02-29"),
        Some(Date { year: 2020, month: 2, day: 29 })
    );
    assert_eq!(parse_date("2021-02-29"), None);
    // Century years are leap years only when divisible by 400.
    assert_eq!(parse_date("1900-02-29"), None);
    assert_eq!(
        parse_date("2000-02-29"),
        Some(Date { year: 2000, month: 2, day: 29 })
    );
    assert_eq!(
        parse_date("2021-12-31"),
        Some(Date { year: 2021, month: 12, day: 31 })
    );
    assert_eq!(parse_date("21-05-03"), None);
}

#[test]
fn amount_parsing_is_exact() {
    assert_eq!(
        parse_amount("100.5"),
        Some(Amount { negative: false, units: 100, frac: 5, frac_digits: 1 })
    );
    assert_eq!(
        parse_amount("0.75"),
        Some(Amount { negative: false, units: 0, frac: 75, frac_digits: 2 })
    );
    assert_eq!(
        parse_amount("-3.50"),
        Some(Amount { negative: true, units: 3, frac: 50, frac_digits: 2 })
    );
    assert_eq!(
        parse_amount("42"),
        Some(Amount { negative: false, units: 42, frac: 0, frac_digits: 0 })
    );
    assert_eq!(parse_amount(""), None);
    assert_eq!(parse_amount("abc"), None);
    assert_eq!(parse_amount("1.2.3"), None);
    assert_eq!(parse_amount("10."), None);
    assert_eq!(parse_amount(".5"), None);
}

#[test]
fn unparsable_amounts_default_to_zero() {
    assert_eq!(
        amount_or_zero("oops"),
        Amount { negative: false, units: 0, frac: 0, frac_digits: 0 }
    );
    assert_eq!(
        amount_or_zero("100.5"),
        Amount { negative: false, units: 100, frac: 5, frac_digits: 1 }
    );
}

#[test]
fn load_stage_builds_a_record_from_a_line() {
    let rec = parse_line(
        "1,Jane,Acme,100.5,paid,2021-05-03,2021-05-10",
        ',',
        sentinel_date(),
    )
    .unwrap();
    assert_eq!(rec.id, "1");
    assert_eq!(rec.name, "Jane");
    assert_eq!(rec.company, "Acme");
    assert_eq!(
        rec.amount,
        Amount { negative: false, units: 100, frac: 5, frac_digits: 1 }
    );
    assert_eq!(rec.status, "paid");
    assert_eq!(rec.created_at, Date { year: 2021, month: 5, day: 3 });
    assert_eq!(rec.paid_at, Date { year: 2021, month: 5, day: 10 });
}

#[test]
fn load_stage_defaults_a_bad_amount_to_zero() {
    let rec = parse_line(
        "1,Jane,Acme,oops,paid,2021-05-03,2021-05-10",
        ',',
        sentinel_date(),
    )
    .unwrap();
    assert_eq!(
        rec.amount,
        Amount { negative: false, units: 0, frac: 0, frac_digits: 0 }
    );
}

#[test]
fn load_stage_rejects_a_short_line_per_line() {
    let r = parse_line("1,Jane,Acme", ',', sentinel_date());
    assert_eq!(r.unwrap_err(), LoadError::TooFewFields);
}

#[test]
fn transform_stage_normalizes_and_crops() {
    let row = DataRow {
        id: "id with spaces 123456789012345678901234567890".to_string(),
        name: "Acme Corp".to_string(),
        company: "a b c".to_string(),
        status: "pa id".to_string(),
        created_at: Date { year: 2021, month: 5, day: 3 },
        paid_at: Date { year: 2021, month: 5, day: 10 },
    };
    let t = transform_record(&row);
    assert_eq!(t.id, "idwithspaces123456789012");
    assert_eq!(t.id.len(), 24);
    assert_eq!(t.company_name, "AcmeCorp");
    assert_eq!(t.company_id, "abc");
    assert_eq!(t.status, "paid");
    assert_eq!(
        t.created_at,
        Timestamp { date: row.created_at, hour: 0, minute: 0, second: 0 }
    );
    assert_eq!(
        t.updated_at,
        Timestamp { date: row.paid_at, hour: 0, minute: 0, second: 0 }
    );
}

#[test]
fn export_stage_formats_one_line() {
    let r = ExportRecord {
        id: "a b".to_string(),
        name: "Jane".to_string(),
        company: "Ac me".to_string(),
        amount_text: "100.5".to_string(),
        status: "pa id".to_string(),
        created_at: Date { year: 2021, month: 5, day: 3 },
        paid_at: Date { year: 2021, month: 5, day: 10 },
    };
    assert_eq!(export_line(&r), "ab,Jane,Acme,100.5,paid,2021-05-03,2021-05-10\n");
}

#[test]
fn disperse_stage_writes_a_resolved_record() {
    let mut table = ReferenceTable::new();
    table.insert("Acme".to_string(), VALID_ID.to_string());
    let mut counters = Counters::new();
    match disperse_action("???", "Acme", &table) {
        DisperseAction::Write(final_id) => {
            assert_eq!(final_id, VALID_ID);
            counters.note(Outcome::Stored);
        }
        DisperseAction::Ignore => {
            counters.note(Outcome::Ignored);
        }
    }
    assert_eq!(counters, Counters { stored: 1, ignored: 0, errored: 0 });
}

#[test]
fn disperse_stage_ignores_an_unresolvable_record() {
    let mut table = ReferenceTable::new();
    table.insert("Acme".to_string(), VALID_ID.to_string());
    let mut counters = Counters::new();
    match disperse_action("???", "Unknown Co", &table) {
        DisperseAction::Write(_) => {
            counters.note(Outcome::Stored);
        }
        DisperseAction::Ignore => {
            counters.note(Outcome::Ignored);
        }
    }
    assert_eq!(counters, Counters { stored: 0, ignored: 1, errored: 0 });
}

#[test]
fn counters_account_for_every_record_once() {
    let outcomes = vec![
        Outcome::Stored,
        Outcome::Ignored,
        Outcome::Stored,
        Outcome::Errored,
        Outcome::Stored,
    ];
    let c = tally_outcomes(&outcomes);
    assert_eq!(c, Counters { stored: 3, ignored: 1, errored: 1 });
    assert_eq!(
        c.stored + c.ignored + c.errored,
        outcomes.len() as u64
    );
}
