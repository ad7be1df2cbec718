//! The durable log: an append-only delimited text file with a fixed header
//! line, modelled record-for-record.
//!
//! `LogBuffer` is the single writer's image of the file: the sequence of
//! data records on disk. `append` and `reset` return exactly the text the
//! owner must write, so the file's content is always `file_text` of the
//! records held. `parse_rows` reads such text back, header stripped, and
//! `lemma_log_round_trip` proves the two directions agree field for field.

use vstd::prelude::*;
use vstd::string::StrSliceExecFns;
use vstd::string::StringExecFns;
use crate::record::{LogRecord, clean_field};
use crate::split::{split_on, split_str, lemma_split_on_clean, lemma_split_on_join};
use crate::record::{lemma_line_fields, lemma_line_text_len};

verus! {

/// The fixed header line of the log file, without its newline.
pub open spec fn header_text() -> Seq<char> {
    "ID,Timestamp,EventType,Details"@
}

/// The header line is non-empty and contains no line separator.
pub proof fn lemma_header_clean()
    ensures
        header_text().len() == 30,
        forall|i: int| 0 <= i < header_text().len() ==> header_text()[i] != '\n',
{
    reveal_strlit("ID,Timestamp,EventType,Details");
}

/// The data portion of the file: one rendered line plus newline per record,
/// in append order.
pub open spec fn body_text(rs: Seq<LogRecord>) -> Seq<char>
    decreases rs.len(),
{
    if rs.len() == 0 {
        Seq::<char>::empty()
    } else {
        rs.first().line_text() + seq!['\n'] + body_text(rs.drop_first())
    }
}

/// The whole file: header line, newline, then the data portion.
pub open spec fn file_text(rs: Seq<LogRecord>) -> Seq<char> {
    header_text() + seq!['\n'] + body_text(rs)
}

/// Appending a record extends the file text by exactly that record's line.
pub proof fn lemma_body_text_push(rs: Seq<LogRecord>, r: LogRecord)
    ensures
        body_text(rs.push(r)) =~= body_text(rs) + r.line_text() + seq!['\n'],
    decreases rs.len(),
{
    if rs.len() == 0 {
        assert(rs.push(r).drop_first() =~= Seq::<LogRecord>::empty());
        assert(rs.push(r).first() == r);
        assert(body_text(rs.push(r)) == r.line_text() + seq!['\n'] + body_text(
            Seq::<LogRecord>::empty(),
        ));
    } else {
        lemma_body_text_push(rs.drop_first(), r);
        assert(rs.push(r).len() > 0);
        assert(rs.push(r).first() == rs.first());
        assert(rs.push(r).drop_first() =~= rs.drop_first().push(r));
        assert(body_text(rs.push(r)) == rs.first().line_text() + seq!['\n'] + body_text(
            rs.drop_first().push(r),
        ));
        assert(body_text(rs) == rs.first().line_text() + seq!['\n'] + body_text(rs.drop_first()));
    }
}

/// A well-formed record's line contains no line separator.
pub proof fn lemma_line_no_newline(r: LogRecord)
    requires
        r.wf(),
    ensures
        forall|i: int| 0 <= i < r.line_text().len() ==> r.line_text()[i] != '\n',
{
}

/// The lines of the data portion: one segment per record, plus the empty
/// segment after the final newline.
pub proof fn lemma_body_lines(rs: Seq<LogRecord>)
    requires
        forall|i: int| 0 <= i < rs.len() ==> rs[i].wf(),
    ensures
        split_on(body_text(rs), '\n') =~~= Seq::new(rs.len(), |k: int| rs[k].line_text()).push(
            Seq::<char>::empty(),
        ),
    decreases rs.len(),
{
    if rs.len() == 0 {
    } else {
        lemma_body_lines(rs.drop_first());
        lemma_line_no_newline(rs.first());
        lemma_split_on_clean(rs.first().line_text(), '\n');
        lemma_split_on_join(rs.first().line_text(), body_text(rs.drop_first()), '\n');
        assert(body_text(rs) =~= rs.first().line_text() + seq!['\n'] + body_text(rs.drop_first()));
        assert(split_on(body_text(rs), '\n') =~~= seq![rs.first().line_text()] + Seq::new(
            rs.drop_first().len(),
            |k: int| rs.drop_first()[k].line_text(),
        ).push(Seq::<char>::empty()));
    }
}

/// The non-empty elements of a list of lines, in order.
pub open spec fn keep_nonempty(ls: Seq<Seq<char>>) -> Seq<Seq<char>>
    decreases ls.len(),
{
    if ls.len() == 0 {
        Seq::<Seq<char>>::empty()
    } else if ls.last().len() > 0 {
        keep_nonempty(ls.drop_last()).push(ls.last())
    } else {
        keep_nonempty(ls.drop_last())
    }
}

/// Keeping non-empty lines leaves a list of non-empty lines unchanged.
pub proof fn lemma_keep_nonempty_id(ls: Seq<Seq<char>>)
    requires
        forall|i: int| 0 <= i < ls.len() ==> ls[i].len() > 0,
    ensures
        keep_nonempty(ls) =~~= ls,
    decreases ls.len(),
{
    if ls.len() == 0 {
    } else {
        lemma_keep_nonempty_id(ls.drop_last());
        assert(ls.drop_last().push(ls.last()) =~~= ls);
    }
}

/// The rows of a log file's text: lines split at newlines, empty lines
/// dropped, the header line stripped, each remaining line split at commas.
pub open spec fn parse_rows_text(s: Seq<char>) -> Seq<Seq<Seq<char>>> {
    let kept = keep_nonempty(split_on(s, '\n'));
    if kept.len() == 0 {
        Seq::<Seq<Seq<char>>>::empty()
    } else {
        Seq::new((kept.len() - 1) as nat, |k: int| split_on(kept[k + 1], ','))
    }
}

/// Round trip: re-parsing the rendered log file, header stripped, yields
/// every appended record verbatim, field for field, in order.
pub proof fn lemma_log_round_trip(rs: Seq<LogRecord>)
    requires
        forall|i: int| 0 <= i < rs.len() ==> rs[i].wf(),
    ensures
        parse_rows_text(file_text(rs)) =~~= Seq::new(rs.len(), |k: int| rs[k].fields()),
{
    let lines = Seq::new(rs.len(), |k: int| rs[k].line_text());
    lemma_header_clean();
    lemma_split_on_clean(header_text(), '\n');
    lemma_body_lines(rs);
    lemma_split_on_join(header_text(), body_text(rs), '\n');
    assert(split_on(file_text(rs), '\n') =~~= seq![header_text()] + lines.push(
        Seq::<char>::empty(),
    ));
    let all = seq![header_text()] + lines.push(Seq::<char>::empty());
    let full = seq![header_text()] + lines;
    assert(all =~~= full.push(Seq::<char>::empty()));
    assert(all.last().len() == 0);
    assert(all.drop_last() =~~= full);
    assert(keep_nonempty(all) =~~= keep_nonempty(full));
    assert forall|i: int| 0 <= i < full.len() implies full[i].len() > 0 by {
        if i > 0 {
            lemma_line_text_len(rs[i - 1]);
        }
    }
    lemma_keep_nonempty_id(full);
    let kept = keep_nonempty(split_on(file_text(rs), '\n'));
    assert(kept =~~= full);
    assert forall|k: int| 0 <= k < rs.len() implies split_on(kept[k + 1], ',') =~~= rs[k].fields()
        by {
        assert(kept[k + 1] == rs[k].line_text());
        lemma_line_fields(rs[k]);
    }
    assert(parse_rows_text(file_text(rs)) =~~= Seq::new(rs.len(), |k: int| rs[k].fields()));
}

/// The single writer's image of the durable log: the data records the file
/// holds, in append order. The owner mirrors every returned piece of text
/// to disk, so the file's content is `file_text` of `records`.
pub struct LogBuffer {
    pub records: Vec<LogRecord>,
}

impl LogBuffer {
    /// All held records are well formed.
    pub open spec fn wf(self) -> bool {
        forall|i: int| 0 <= i < self.records@.len() ==> self.records@[i].wf()
    }

    /// A freshly created (or freshly reset) log holds no data records.
    pub fn new() -> (b: LogBuffer)
        ensures
            b.records@.len() == 0,
            b.wf(),
    {
        LogBuffer { records: Vec::new() }
    }

    /// Appends one record and returns the exact line (newline included) the
    /// owner must add to the file.
    pub fn append(&mut self, r: LogRecord) -> (line: String)
        requires
            old(self).wf(),
            r.wf(),
        ensures
            final(self).records@ == old(self).records@.push(r),
            final(self).wf(),
            line@ == r.line_text() + seq!['\n'],
            file_text(final(self).records@) == file_text(old(self).records@) + line@,
    {
        proof {
            reveal_strlit("\n");
        }
        let mut line = r.render_line();
        line.append("\n");
        self.records.push(r);
        proof {
            lemma_body_text_push(old(self).records@, r);
            assert(line@ =~= r.line_text() + seq!['\n']);
            assert(file_text(self.records@) =~= file_text(old(self).records@) + line@);
        }
        line
    }

    /// Empties the log and returns the exact new file content: the header
    /// line alone. The effect does not depend on what the log held before,
    /// so resetting twice leaves the same file as resetting once.
    pub fn reset(&mut self) -> (content: String)
        ensures
            final(self).records@.len() == 0,
            final(self).wf(),
            content@ == header_text() + seq!['\n'],
            content@ == file_text(final(self).records@),
    {
        proof {
            reveal_strlit("\n");
        }
        self.records = Vec::new();
        let mut content = String::from_str("ID,Timestamp,EventType,Details");
        content.append("\n");
        proof {
            assert(content@ =~= header_text() + seq!['\n']);
            assert(content@ =~= file_text(self.records@));
        }
        content
    }

    /// Number of data records held.
    pub fn len(&self) -> (n: usize)
        ensures
            n == self.records@.len(),
    {
        self.records.len()
    }

    /// The record at position `i`, in append order.
    pub fn record_at(&self, i: usize) -> (r: &LogRecord)
        requires
            i < self.records@.len(),
        ensures
            *r == self.records@[i as int],
    {
        &self.records[i]
    }

    /// Renders the whole file as the disk holds it: header line, then one
    /// line per record.
    pub fn content_string(&self) -> (s: String)
        ensures
            s@ == file_text(self.records@),
    {
        proof {
            reveal_strlit("\n");
        }
        let mut s = String::from_str("ID,Timestamp,EventType,Details");
        s.append("\n");
        let mut i: usize = 0;
        proof {
            assert(self.records@.take(0) =~= Seq::<LogRecord>::empty());
            assert(s@ =~= file_text(self.records@.take(0)));
        }
        while i < self.records.len()
            invariant
                i <= self.records@.len(),
                s@ == file_text(self.records@.take(i as int)),
            decreases self.records@.len() - i,
        {
            let line = self.records[i].render_line();
            s.append(line.as_str());
            s.append("\n");
            proof {
                reveal_strlit("\n");
                lemma_body_text_push(self.records@.take(i as int), self.records@[i as int]);
                assert(self.records@.take(i as int).push(self.records@[i as int])
                    =~= self.records@.take(i as int + 1));
                assert(s@ =~= file_text(self.records@.take(i as int + 1)));
            }
            i = i + 1;
        }
        proof {
            assert(self.records@.take(self.records@.len() as int) =~= self.records@);
        }
        s
    }
}

/// Parses log-file text into its data rows: lines split at newlines, empty
/// lines dropped, the header line stripped, each remaining line split at
/// commas.
pub fn parse_rows(s: &str) -> (rows: Vec<Vec<String>>)
    ensures
        rows@.map_values(|row: Vec<String>| row@.map_values(|f: String| f@)) == parse_rows_text(
            s@,
        ),
{
    let lines = split_str(s, '\n');
    let mut kept: Vec<String> = Vec::new();
    let mut i: usize = 0;
    proof {
        assert(lines@.map_values(|t: String| t@).take(0) =~~= Seq::<Seq<char>>::empty());
        assert(kept@.map_values(|t: String| t@) =~~= keep_nonempty(
            lines@.map_values(|t: String| t@).take(0),
        ));
    }
    while i < lines.len()
        invariant
            i <= lines@.len(),
            kept@.map_values(|t: String| t@) =~~= keep_nonempty(
                lines@.map_values(|t: String| t@).take(i as int),
            ),
        decreases lines@.len() - i,
    {
        let ghost prefix = lines@.map_values(|t: String| t@).take(i as int);
        let ghost next = lines@.map_values(|t: String| t@).take(i as int + 1);
        proof {
            assert(next.drop_last() =~~= prefix);
            assert(next.last() == lines@[i as int]@);
        }
        if lines[i].as_str().unicode_len() > 0 {
            let piece = lines[i].clone();
            kept.push(piece);
            proof {
                assert(kept@.map_values(|t: String| t@) =~~= keep_nonempty(next));
            }
        } else {
            proof {
                assert(kept@.map_values(|t: String| t@) =~~= keep_nonempty(next));
            }
        }
        i = i + 1;
    }
    proof {
        assert(lines@.map_values(|t: String| t@).take(lines@.len() as int) =~~= lines@.map_values(
            |t: String| t@,
        ));
        assert(kept@.map_values(|t: String| t@) =~~= keep_nonempty(split_on(s@, '\n')));
    }
    let mut rows: Vec<Vec<String>> = Vec::new();
    let mut k: usize = 1;
    while k < kept.len()
        invariant
            1 <= k,
            kept@.len() > 0 ==> k <= kept@.len(),
            kept@.len() == 0 ==> k == 1,
            rows@.len() == if kept@.len() == 0 {
                0int
            } else {
                k - 1
            },
            forall|j: int|
                0 <= j < rows@.len() ==> rows@[j]@.map_values(|f: String| f@) == split_on(
                    kept@[j + 1]@,
                    ',',
                ),
        decreases kept@.len() - k,
    {
        let row = split_str(kept[k].as_str(), ',');
        rows.push(row);
        k = k + 1;
    }
    proof {
        let spec_rows = parse_rows_text(s@);
        let view_rows = rows@.map_values(|row: Vec<String>| row@.map_values(|f: String| f@));
        assert forall|j: int| 0 <= j < view_rows.len() implies view_rows[j] == spec_rows[j] by {
            assert(view_rows[j] == rows@[j]@.map_values(|f: String| f@));
        }
        assert(view_rows =~~= spec_rows);
    }
    rows
}

} // verus!
