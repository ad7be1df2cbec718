//! The batch importer's verified half: assembling the store's connection
//! URL (credential percent-encoded) and planning the inserts for the rows
//! the log file holds at the moment an import begins.
//!
//! The owner performs the actual network work: it opens the connection
//! with the URL built here and executes one parameterized insert per
//! planned row, aborting the cycle on the first failure.

use vstd::prelude::*;
use vstd::string::StrSliceExecFns;
use vstd::string::StringExecFns;
use vstd::string::StringSliceAdditionalSpecFns;
use crate::logfile::{parse_rows, parse_rows_text};

verus! {

/// Bytes that percent-encoding leaves as they are under the
/// all-non-alphanumeric set: ASCII digits and letters.
pub open spec fn plain_byte(b: u8) -> bool {
    (0x30 <= b <= 0x39) || (0x41 <= b <= 0x5a) || (0x61 <= b <= 0x7a)
}

/// The character for one uppercase hexadecimal digit.
pub open spec fn hex_upper(d: int) -> char {
    if d == 0 {
        '0'
    } else if d == 1 {
        '1'
    } else if d == 2 {
        '2'
    } else if d == 3 {
        '3'
    } else if d == 4 {
        '4'
    } else if d == 5 {
        '5'
    } else if d == 6 {
        '6'
    } else if d == 7 {
        '7'
    } else if d == 8 {
        '8'
    } else if d == 9 {
        '9'
    } else if d == 10 {
        'A'
    } else if d == 11 {
        'B'
    } else if d == 12 {
        'C'
    } else if d == 13 {
        'D'
    } else if d == 14 {
        'E'
    } else {
        'F'
    }
}

/// How one byte is percent-encoded: alphanumerics pass through, every
/// other byte becomes `%` and two uppercase hexadecimal digits.
pub open spec fn encoded_byte(b: u8) -> Seq<char> {
    if plain_byte(b) {
        seq![b as char]
    } else {
        seq!['%', hex_upper(b as int / 16), hex_upper(b as int % 16)]
    }
}

/// The percent-encoding of a byte string, byte by byte in order.
pub open spec fn percent_encoded(s: Seq<u8>) -> Seq<char>
    decreases s.len(),
{
    if s.len() == 0 {
        Seq::<char>::empty()
    } else {
        encoded_byte(s.first()) + percent_encoded(s.drop_first())
    }
}

/// Relies on `percent_encoding::percent_encode` with `NON_ALPHANUMERIC`
/// over the UTF-8 bytes of `s`: ASCII alphanumerics pass unchanged and
/// every other byte becomes `%XX` with uppercase hexadecimal digits.
#[verifier::external_body]
pub fn percent_encode_text(s: &str) -> (r: String)
    ensures
        r@ == percent_encoded(s.spec_bytes()),
{
    percent_encoding::percent_encode(s.as_bytes(), percent_encoding::NON_ALPHANUMERIC).to_string()
}

/// Assembles the store's connection URL from the five supplied parameters,
/// with the credential percent-encoded before interpolation (it may itself
/// contain characters that are structurally significant in a URL).
pub fn build_connection_url(user: &str, password: &str, host: &str, port: &str, name: &str) -> (r:
    String)
    ensures
        r@ == "mysql://"@ + user@ + ":"@ + percent_encoded(password.spec_bytes()) + "@"@ + host@
            + ":"@ + port@ + "/"@ + name@,
{
    let mut r = String::from_str("mysql://");
    r.append(user);
    r.append(":");
    let encoded = percent_encode_text(password);
    r.append(encoded.as_str());
    r.append("@");
    r.append(host);
    r.append(":");
    r.append(port);
    r.append("/");
    r.append(name);
    proof {
        assert(r@ =~= "mysql://"@ + user@ + ":"@ + percent_encoded(password.spec_bytes()) + "@"@
            + host@ + ":"@ + port@ + "/"@ + name@);
    }
    r
}

/// One parameterized insert into the store's `input_events` table: a
/// straight positional bind of the first four fields of a data row.
pub struct InsertRow {
    pub uuid: String,
    pub timestamp: String,
    pub event_type: String,
    pub details: String,
}

impl InsertRow {
    /// The four bound values, in column order.
    pub open spec fn fields(self) -> Seq<Seq<char>> {
        seq![self.uuid@, self.timestamp@, self.event_type@, self.details@]
    }
}

/// The rows that get an insert: every row with at least four fields, in
/// file order, cut to its first four fields.
pub open spec fn planned_inserts(rows: Seq<Seq<Seq<char>>>) -> Seq<Seq<Seq<char>>>
    decreases rows.len(),
{
    if rows.len() == 0 {
        Seq::<Seq<Seq<char>>>::empty()
    } else if rows.last().len() >= 4 {
        planned_inserts(rows.drop_last()).push(rows.last().take(4))
    } else {
        planned_inserts(rows.drop_last())
    }
}

/// The rows that are skipped and reported: those with fewer than four
/// fields, verbatim, in file order.
pub open spec fn skipped_rows(rows: Seq<Seq<Seq<char>>>) -> Seq<Seq<Seq<char>>>
    decreases rows.len(),
{
    if rows.len() == 0 {
        Seq::<Seq<Seq<char>>>::empty()
    } else if rows.last().len() >= 4 {
        skipped_rows(rows.drop_last())
    } else {
        skipped_rows(rows.drop_last()).push(rows.last())
    }
}

/// Every data row present gets exactly one insert attempt or exactly one
/// skip report, never both and never neither.
pub proof fn lemma_import_accounting(rows: Seq<Seq<Seq<char>>>)
    ensures
        planned_inserts(rows).len() + skipped_rows(rows).len() == rows.len(),
    decreases rows.len(),
{
    if rows.len() == 0 {
    } else {
        lemma_import_accounting(rows.drop_last());
    }
}

/// The plan for one import cycle over a snapshot of the log file's text.
pub struct ImportPlan {
    pub inserts: Vec<InsertRow>,
    /// The malformed rows, kept verbatim so each can be reported.
    pub skipped: Vec<Vec<String>>,
}

/// A field-for-field copy of one parsed row.
fn clone_row(row: &Vec<String>) -> (r: Vec<String>)
    ensures
        r@.map_values(|f: String| f@) == row@.map_values(|f: String| f@),
{
    let mut r: Vec<String> = Vec::new();
    let mut j: usize = 0;
    while j < row.len()
        invariant
            j <= row@.len(),
            r@.len() == j,
            forall|k: int| 0 <= k < j ==> r@[k]@ == row@[k]@,
        decreases row@.len() - j,
    {
        r.push(row[j].clone());
        j = j + 1;
    }
    proof {
        assert(r@.map_values(|f: String| f@) =~= row@.map_values(|f: String| f@));
    }
    r
}

/// Plans one import cycle from the log file's text as it stands when the
/// cycle begins: one insert per data row with at least four fields, in
/// order, and one skip report for every shorter row, verbatim.
pub fn plan_import(text: &str) -> (p: ImportPlan)
    ensures
        p.inserts@.map_values(|t: InsertRow| t.fields()) == planned_inserts(
            parse_rows_text(text@),
        ),
        p.skipped@.map_values(|row: Vec<String>| row@.map_values(|f: String| f@)) == skipped_rows(
            parse_rows_text(text@),
        ),
{
    let rows = parse_rows(text);
    let ghost spec_rows = parse_rows_text(text@);
    let mut inserts: Vec<InsertRow> = Vec::new();
    let mut skipped: Vec<Vec<String>> = Vec::new();
    let mut i: usize = 0;
    proof {
        assert(spec_rows.take(0) =~~= Seq::<Seq<Seq<char>>>::empty());
        assert(inserts@.map_values(|t: InsertRow| t.fields()) =~~= planned_inserts(
            spec_rows.take(0),
        ));
        assert(skipped@.map_values(|row: Vec<String>| row@.map_values(|f: String| f@))
            =~~= skipped_rows(spec_rows.take(0)));
    }
    while i < rows.len()
        invariant
            i <= rows@.len(),
            rows@.map_values(|row: Vec<String>| row@.map_values(|f: String| f@)) == spec_rows,
            inserts@.map_values(|t: InsertRow| t.fields()) =~~= planned_inserts(
                spec_rows.take(i as int),
            ),
            skipped@.map_values(|row: Vec<String>| row@.map_values(|f: String| f@))
                =~~= skipped_rows(spec_rows.take(i as int)),
        decreases rows@.len() - i,
    {
        proof {
            assert(spec_rows.take(i as int + 1).drop_last() =~~= spec_rows.take(i as int));
            assert(spec_rows.take(i as int + 1).last() == spec_rows[i as int]);
            assert(spec_rows[i as int] == rows@[i as int]@.map_values(|f: String| f@));
        }
        if rows[i].len() >= 4 {
            let row = InsertRow {
                uuid: rows[i][0].clone(),
                timestamp: rows[i][1].clone(),
                event_type: rows[i][2].clone(),
                details: rows[i][3].clone(),
            };
            proof {
                assert(row.fields() =~~= spec_rows[i as int].take(4));
            }
            inserts.push(row);
            proof {
                assert(inserts@.map_values(|t: InsertRow| t.fields()) =~~= planned_inserts(
                    spec_rows.take(i as int + 1),
                ));
            }
        } else {
            let copy = clone_row(&rows[i]);
            skipped.push(copy);
            proof {
                assert(skipped@.map_values(|row: Vec<String>| row@.map_values(|f: String| f@))
                    =~~= skipped_rows(spec_rows.take(i as int + 1)));
            }
        }
        i = i + 1;
    }
    proof {
        assert(spec_rows.take(rows@.len() as int) =~~= spec_rows);
    }
    ImportPlan { inserts, skipped }
}

} // verus!
