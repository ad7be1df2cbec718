//! Log records and their one-line comma-delimited form.

use vstd::prelude::*;
use vstd::string::StringExecFns;
use crate::split::{split_on, lemma_split_on_clean, lemma_split_on_join};

verus! {

/// One normalized, loggable description of an input event.
///
/// `detail` is either a distance with six fractional digits or `0.000000`;
/// `event_type` is a short tag; `id` is globally unique and is the natural
/// key in the relational store.
pub struct LogRecord {
    pub id: String,
    pub timestamp: String,
    pub event_type: String,
    pub detail: String,
}

/// A field value fit for the unescaped delimited format: free of the field
/// and line separators.
pub open spec fn clean_field(s: Seq<char>) -> bool {
    forall|i: int| 0 <= i < s.len() ==> s[i] != ',' && s[i] != '\n'
}

impl LogRecord {
    /// Every field can be embedded in one delimited line verbatim.
    pub open spec fn wf(self) -> bool {
        clean_field(self.id@) && clean_field(self.timestamp@) && clean_field(self.event_type@)
            && clean_field(self.detail@)
    }

    /// The four fields, in file column order.
    pub open spec fn fields(self) -> Seq<Seq<char>> {
        seq![self.id@, self.timestamp@, self.event_type@, self.detail@]
    }

    /// The one line this record occupies in the log, without its
    /// terminating newline.
    pub open spec fn line_text(self) -> Seq<char> {
        self.id@ + seq![','] + self.timestamp@ + seq![','] + self.event_type@ + seq![',']
            + self.detail@
    }

    /// Renders the record as its log line (no trailing newline).
    pub fn render_line(&self) -> (r: String)
        ensures
            r@ == self.line_text(),
    {
        proof {
            reveal_strlit(",");
        }
        let mut r = self.id.clone();
        r.append(",");
        r.append(self.timestamp.as_str());
        r.append(",");
        r.append(self.event_type.as_str());
        r.append(",");
        r.append(self.detail.as_str());
        proof {
            assert(r@ =~= self.line_text());
        }
        r
    }
}

/// A rendered line has at least three characters (its separators), so it is
/// never an empty line.
pub proof fn lemma_line_text_len(r: LogRecord)
    ensures
        r.line_text().len() >= 3,
{
}

/// Splitting a rendered line at commas recovers the four fields verbatim.
pub proof fn lemma_line_fields(r: LogRecord)
    requires
        r.wf(),
    ensures
        split_on(r.line_text(), ',') =~~= r.fields(),
{
    let tail2 = r.event_type@ + seq![','] + r.detail@;
    let tail1 = r.timestamp@ + seq![','] + tail2;
    lemma_split_on_clean(r.id@, ',');
    lemma_split_on_clean(r.timestamp@, ',');
    lemma_split_on_clean(r.event_type@, ',');
    lemma_split_on_clean(r.detail@, ',');
    lemma_split_on_join(r.event_type@, r.detail@, ',');
    lemma_split_on_join(r.timestamp@, tail2, ',');
    lemma_split_on_join(r.id@, tail1, ',');
    assert(r.line_text() =~= r.id@ + seq![','] + tail1);
    assert(tail1 =~= r.timestamp@ + seq![','] + tail2);
}

} // verus!
