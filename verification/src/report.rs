//! The report of one project: a header line and one colored line per changed
//! path.

use vstd::prelude::*;

use crate::status::{
    Status, INDEX_DELETED, INDEX_MODIFIED, INDEX_NEW, INDEX_RENAMED, WT_DELETED, WT_MODIFIED,
    WT_NEW, WT_RENAMED, WT_TYPECHANGE,
};
use crate::text::{bold_code, embolden, join_with, joined, paint, styled, verdict_code};

verus! {

/// One changed path of a repository, as the version-control engine reports it.
#[derive(Clone, Debug, PartialEq, Eq)]
pub struct ChangeRecord {
    pub path: String,
    pub status: Status,
}

/// A `ChangeRecord` as a mathematical value.
pub struct ChangeRecordView {
    pub path: Seq<char>,
    pub status: Status,
}

impl View for ChangeRecord {
    type V = ChangeRecordView;

    open spec fn view(&self) -> ChangeRecordView {
        ChangeRecordView { path: self.path@, status: self.status }
    }
}

impl DeepView for ChangeRecord {
    type V = ChangeRecordView;

    open spec fn deep_view(&self) -> ChangeRecordView {
        self@
    }
}

/// The two-character code of a status: index side first.
pub open spec fn flag_code(status: Status) -> Seq<char> {
    seq![status.index_char(), status.worktree_char()]
}

/// The text of a record's line, before it is colored: a space, the flag
/// code, the separator, the path.
pub open spec fn line_text(record: ChangeRecordView, separator: Seq<char>) -> Seq<char> {
    " "@ + flag_code(record.status) + separator + record.path
}

/// The records that a report shows, in their order: those changed on at least
/// one side.
pub open spec fn shown(records: Seq<ChangeRecordView>) -> Seq<ChangeRecordView> {
    records.filter(|record: ChangeRecordView| record.status.included())
}

/// `out` is the line of `record`, rendered in the color of its verdict.
pub open spec fn is_line_of(record: ChangeRecordView, separator: Seq<char>, out: Seq<char>) -> bool {
    styled(line_text(record, separator), verdict_code(record.status.spec_verdict()), out)
}

/// The block of one project: nothing where there is no line, else the header
/// `project <header>/` and under it the lines, one per row.
pub open spec fn report_text(header: Seq<char>, lines: Seq<Seq<char>>) -> Seq<char> {
    if lines.len() == 0 {
        Seq::empty()
    } else {
        "project "@ + header + "/\n"@ + joined(lines, "\n"@)
    }
}

/// `out` is a report on `records` for the project at `path`: empty where no
/// record is shown; else built by `report_text` from a rendering of the path
/// in bold and, for each shown record in order, a rendering of its line in
/// the color of its verdict.
pub open spec fn is_status_report(
    path: Seq<char>,
    records: Seq<ChangeRecordView>,
    separator: Seq<char>,
    out: Seq<char>,
) -> bool {
    let rows = shown(records);
    if rows.len() == 0 {
        out == Seq::<char>::empty()
    } else {
        exists|header: Seq<char>, lines: Seq<Seq<char>>|
            {
                &&& styled(path, bold_code(), header)
                &&& lines.len() == rows.len()
                &&& forall|k: int|
                    0 <= k < rows.len() ==> is_line_of(rows[k], separator, #[trigger] lines[k])
                &&& out == report_text(header, lines)
            }
    }
}

/// The separator between flag code and path in a report: two tabs.
pub open spec fn tab_separator() -> Seq<char> {
    "\t\t"@
}

impl Status {
    /// The flag code as text.
    pub fn code(&self) -> (text: String)
        ensures
            text@ == flag_code(*self),
    {
        let index: &str = if self.contains(INDEX_NEW) {
            "A"
        } else if self.contains(INDEX_MODIFIED) {
            "M"
        } else if self.contains(INDEX_DELETED) {
            "D"
        } else if self.contains(INDEX_RENAMED) {
            "R"
        } else {
            "-"
        };
        let worktree: &str = if self.contains(WT_NEW) {
            "a"
        } else if self.contains(WT_MODIFIED) {
            "m"
        } else if self.contains(WT_DELETED) {
            "d"
        } else if self.contains(WT_TYPECHANGE) {
            "t"
        } else if self.contains(WT_RENAMED) {
            "r"
        } else {
            "-"
        };
        proof {
            reveal_strlit("A");
            reveal_strlit("M");
            reveal_strlit("D");
            reveal_strlit("R");
            reveal_strlit("-");
            reveal_strlit("a");
            reveal_strlit("m");
            reveal_strlit("d");
            reveal_strlit("t");
            reveal_strlit("r");
        }
        let text = String::from_str(index).concat(worktree);
        assert(text@ =~= flag_code(*self));
        text
    }
}

impl ChangeRecord {
    pub fn new(path: String, status: Status) -> (record: ChangeRecord)
        ensures
            record@ == (ChangeRecordView { path: path@, status }),
    {
        ChangeRecord { path, status }
    }

    /// The record's line, not yet colored.
    pub fn line(&self, separator: &str) -> (text: String)
        ensures
            text@ == line_text(self@, separator@),
    {
        let code = self.status.code();
        let text = String::from_str(" ").concat(code.as_str()).concat(separator).concat(
            self.path.as_str(),
        );
        assert(text@ =~= line_text(self@, separator@));
        text
    }
}

/// Puts a report together from a header that is already styled and lines that
/// are already colored.
pub fn render_report(header: &str, lines: &Vec<String>) -> (out: String)
    ensures
        out@ == report_text(header@, lines.deep_view()),
{
    if lines.len() == 0 {
        String::new()
    } else {
        let body = join_with(lines, "\n");
        let out = String::from_str("project ").concat(header).concat("/\n").concat(body.as_str());
        assert(out@ =~= report_text(header@, lines.deep_view()));
        out
    }
}

/// Reports on the records of the project at `path`, with `separator` between
/// flag code and path: the shown records are colored by their verdicts and
/// put under a header with the path in bold.
pub fn render_status(path: &str, records: &Vec<ChangeRecord>, separator: &str) -> (out: String)
    ensures
        is_status_report(path@, records.deep_view(), separator@, out@),
        out@.len() == 0 <==> shown(records.deep_view()).len() == 0,
{
    let ghost all = records.deep_view();
    let mut lines: Vec<String> = Vec::new();
    let mut i: usize = 0;
    assert(all.take(0) =~= Seq::empty());
    assert(shown(all.take(0)) =~= Seq::empty()) by {
        reveal(Seq::filter);
    }
    while i < records.len()
        invariant
            i <= records.len(),
            all == records.deep_view(),
            lines.len() == shown(all.take(i as int)).len(),
            forall|k: int|
                0 <= k < lines.len() ==> is_line_of(
                    shown(all.take(i as int))[k],
                    separator@,
                    #[trigger] lines[k]@,
                ),
        decreases records.len() - i,
    {
        let record = &records[i];
        let ghost before = shown(all.take(i as int));
        proof {
            assert(all.take(i as int + 1) =~= all.take(i as int).push(record@));
            all.take(i as int).lemma_filter_push(
                record@,
                |record: ChangeRecordView| record.status.included(),
            );
        }
        if record.status.is_included() {
            let text = record.line(separator);
            let line = paint(record.status.verdict(), text.as_str());
            lines.push(line);
            assert(shown(all.take(i as int + 1)) == before.push(record@));
        } else {
            assert(shown(all.take(i as int + 1)) == before);
        }
        i += 1;
    }
    assert(all.take(i as int) =~= all);
    if lines.len() == 0 {
        String::new()
    } else {
        let header = embolden(path);
        let out = render_report(header.as_str(), &lines);
        proof {
            let rows = shown(all);
            let texts = lines.deep_view();
            assert forall|k: int| 0 <= k < rows.len() implies is_line_of(
                rows[k],
                separator@,
                #[trigger] texts[k],
            ) by {
                assert(texts[k] == lines[k]@);
            }
            assert(out@ == report_text(header@, texts));
            reveal_strlit("project ");
            assert(out@.len() > 0);
        }
        out
    }
}

/// Reports on the records of the repository checked out at `path`. The
/// report is empty where no record is changed on either side; else it is the
/// header `project <path>/`, the path in bold, and one line per changed
/// record: a space, the flag code, two tabs and the record's path, green
/// where the change is fully staged and red where it is not.
pub fn get_status(path: String, records: Vec<ChangeRecord>) -> (out: String)
    ensures
        is_status_report(path@, records.deep_view(), tab_separator(), out@),
        out@.len() == 0 <==> shown(records.deep_view()).len() == 0,
{
    render_status(path.as_str(), &records, "\t\t")
}

/// A project none of whose records is changed on either side has the empty
/// report: no header, no line.
pub proof fn clean_project_reports_nothing(
    path: Seq<char>,
    records: Seq<ChangeRecordView>,
    separator: Seq<char>,
    out: Seq<char>,
)
    requires
        is_status_report(path, records, separator, out),
        forall|index: int| 0 <= index < records.len() ==> !(#[trigger] records[index]).status.included(),
    ensures
        out == Seq::<char>::empty(),
{
    records.lemma_all_neg_filter_empty(|record: ChangeRecordView| record.status.included());
}

/// The report without any styling is a report: the header with the path as
/// it is, and under it the lines of the shown records as they are.
pub proof fn plain_report_is_a_report(
    path: Seq<char>,
    records: Seq<ChangeRecordView>,
    separator: Seq<char>,
)
    ensures
        is_status_report(
            path,
            records,
            separator,
            report_text(
                path,
                shown(records).map_values(|record: ChangeRecordView| line_text(record, separator)),
            ),
        ),
{
    let rows = shown(records);
    let lines = rows.map_values(|record: ChangeRecordView| line_text(record, separator));
    if rows.len() > 0 {
        assert forall|k: int| 0 <= k < rows.len() implies is_line_of(
            rows[k],
            separator,
            #[trigger] lines[k],
        ) by {}
        assert(styled(path, bold_code(), path));
    }
}

} // verus!
