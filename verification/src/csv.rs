//! The CSV export of job offers: one header line, then one line for each
//! offer. Every offer must be complete; an absent field stops the export.
//!
//! Offers are first checked and turned into rows, then the rows are written.
//! How one record is written as CSV is left to the `csv` crate.

use crate::job_offers_scraper::JobOffer;
use crate::job_offers_scraper::JobOfferView;
use crate::text::trim;
use crate::text::trimmed;
use vstd::prelude::*;

verus! {

/// Where the export is kept, relative to the directory of the run.
pub const CSV_PATH: &'static str = "data/job_offers.csv";

/// The columns of the export, in their order.
#[derive(Clone, Copy, Debug, PartialEq, Eq, Structural)]
pub enum Column {
    Title,
    Company,
    Location,
    Link,
    Source,
}

impl Column {
    /// The name of a column in the header line.
    pub open spec fn heading(self) -> Seq<char> {
        match self {
            Column::Title => "Title"@,
            Column::Company => "Company"@,
            Column::Location => "Location"@,
            Column::Link => "Link"@,
            Column::Source => "Source"@,
        }
    }

    /// The name of this column in the header line.
    pub fn name(&self) -> (name: &'static str)
        ensures
            name@ == self.heading(),
    {
        match *self {
            Column::Title => "Title",
            Column::Company => "Company",
            Column::Location => "Location",
            Column::Link => "Link",
            Column::Source => "Source",
        }
    }
}

/// A line of the export.
#[derive(Clone, Copy, Debug, PartialEq, Eq, Structural)]
pub enum Line {
    Header,
    /// The line of the offer at this position.
    Offer(usize),
}

impl Line {
    /// The position of a line in the export: 0 for the header, then the offers.
    pub open spec fn position(self) -> int {
        match self {
            Line::Header => 0,
            Line::Offer(k) => k + 1,
        }
    }
}

/// Why offers could not be exported.
#[derive(Clone, Copy, Debug, PartialEq, Eq, Structural)]
pub enum ExportError {
    /// The offer at position `record` has no value for `column`.
    MissingField { record: usize, column: Column },
    /// This line could not be written as CSV.
    Unwritable { line: Line },
}

/// One line of the export: a cell for each column.
#[derive(Debug, PartialEq, Eq)]
pub struct Row {
    pub title: String,
    pub company: String,
    pub location: String,
    pub link: String,
    pub source: String,
}

/// A line of the export as plain text.
pub struct RowView {
    pub title: Seq<char>,
    pub company: Seq<char>,
    pub location: Seq<char>,
    pub link: Seq<char>,
    pub source: Seq<char>,
}

impl RowView {
    /// The cells of a line, in the order of the columns.
    pub open spec fn cells(self) -> Seq<Seq<char>> {
        seq![self.title, self.company, self.location, self.link, self.source]
    }
}

impl View for Row {
    type V = RowView;

    open spec fn view(&self) -> RowView {
        RowView {
            title: self.title@,
            company: self.company@,
            location: self.location@,
            link: self.link@,
            source: self.source@,
        }
    }
}

/// The header line: the name of each column.
pub open spec fn header_row() -> RowView {
    RowView {
        title: Column::Title.heading(),
        company: Column::Company.heading(),
        location: Column::Location.heading(),
        link: Column::Link.heading(),
        source: Column::Source.heading(),
    }
}

/// The first column, in their order, for which an offer has no value; `None`
/// where the offer is complete.
pub open spec fn missing(offer: JobOfferView) -> Option<Column> {
    if offer.title is None {
        Some(Column::Title)
    } else if offer.company is None {
        Some(Column::Company)
    } else if offer.location is None {
        Some(Column::Location)
    } else if offer.link is None {
        Some(Column::Link)
    } else if offer.source is None {
        Some(Column::Source)
    } else {
        None
    }
}

/// Whether each of the first `count` offers has a value for every column.
pub open spec fn complete_up_to(offers: Seq<JobOffer>, count: int) -> bool {
    forall|k: int| 0 <= k < count ==> missing((#[trigger] offers[k])@) is None
}

/// Whether every offer has a value for every column.
pub open spec fn complete(offers: Seq<JobOffer>) -> bool {
    complete_up_to(offers, offers.len() as int)
}

/// Whether the offer at `record` is the first that lacks a field, and `column`
/// the first column it has no value for.
pub open spec fn first_missing(offers: Seq<JobOffer>, record: int, column: Column) -> bool {
    &&& 0 <= record < offers.len()
    &&& complete_up_to(offers, record)
    &&& missing(offers[record]@) == Some(column)
}

/// The line of a complete offer: title, company, location and link without the
/// whitespace around them, and the name of the source.
pub open spec fn row_of(offer: JobOfferView) -> RowView
    recommends
        missing(offer) is None,
{
    RowView {
        title: trimmed(offer.title->0),
        company: trimmed(offer.company->0),
        location: trimmed(offer.location->0),
        link: trimmed(offer.link->0),
        source: (offer.source->0).display_name(),
    }
}

/// The lines of complete offers, in the order of the offers.
pub open spec fn rows_of(offers: Seq<JobOffer>) -> Seq<RowView>
    recommends
        complete(offers),
{
    Seq::new(offers.len(), |i: int| row_of(offers[i]@))
}

/// Rows as plain text.
pub open spec fn row_views(rows: Seq<Row>) -> Seq<RowView> {
    Seq::new(rows.len(), |i: int| rows[i]@)
}

/// The texts of a sequence of cells.
pub open spec fn cell_texts(cells: Seq<&str>) -> Seq<Seq<char>> {
    Seq::new(cells.len(), |i: int| cells[i]@)
}

impl Row {
    /// The header line.
    pub fn header() -> (row: Row)
        ensures
            row@ == header_row(),
    {
        Row {
            title: Column::Title.name().to_owned(),
            company: Column::Company.name().to_owned(),
            location: Column::Location.name().to_owned(),
            link: Column::Link.name().to_owned(),
            source: Column::Source.name().to_owned(),
        }
    }

    /// The line of an offer, or the first column for which it has no value.
    pub fn from_offer(offer: &JobOffer) -> (outcome: Result<Row, Column>)
        ensures
            match outcome {
                Ok(row) => missing(offer@) is None && row@ == row_of(offer@),
                Err(column) => missing(offer@) == Some(column),
            },
    {
        let title = match &offer.title {
            Some(title) => trim(title.as_str()).to_owned(),
            None => {
                return Err(Column::Title);
            },
        };
        let company = match &offer.company {
            Some(company) => trim(company.as_str()).to_owned(),
            None => {
                return Err(Column::Company);
            },
        };
        let location = match &offer.location {
            Some(location) => trim(location.as_str()).to_owned(),
            None => {
                return Err(Column::Location);
            },
        };
        let link = match &offer.link {
            Some(link) => trim(link.as_str()).to_owned(),
            None => {
                return Err(Column::Link);
            },
        };
        let source = match &offer.source {
            Some(source) => source.value().to_owned(),
            None => {
                return Err(Column::Source);
            },
        };
        Ok(Row { title, company, location, link, source })
    }

    /// The cells of this line, in the order of the columns.
    pub fn cells(&self) -> (cells: Vec<&str>)
        ensures
            cell_texts(cells@) == self@.cells(),
    {
        let mut cells: Vec<&str> = Vec::new();
        cells.push(self.title.as_str());
        cells.push(self.company.as_str());
        cells.push(self.location.as_str());
        cells.push(self.link.as_str());
        cells.push(self.source.as_str());
        assert(cell_texts(cells@) =~= self@.cells());
        cells
    }
}

/// Checks that every offer is complete and gives the line of each. Fails at
/// the first offer that lacks a field, naming the offer's position and the
/// first column it has no value for.
pub fn complete_rows(job_offers: &Vec<JobOffer>) -> (outcome: Result<Vec<Row>, ExportError>)
    ensures
        match outcome {
            Ok(rows) => complete(job_offers@) && row_views(rows@) == rows_of(job_offers@),
            Err(ExportError::MissingField { record, column }) => first_missing(
                job_offers@,
                record as int,
                column,
            ),
            Err(ExportError::Unwritable { .. }) => false,
        },
{
    let mut rows: Vec<Row> = Vec::new();
    let mut i: usize = 0;
    while i < job_offers.len()
        invariant
            i <= job_offers.len(),
            rows.len() == i,
            complete_up_to(job_offers@, i as int),
            forall|k: int| 0 <= k < i ==> (#[trigger] rows[k])@ == row_of(job_offers[k]@),
        decreases job_offers.len() - i,
    {
        match Row::from_offer(&job_offers[i]) {
            Ok(row) => rows.push(row),
            Err(column) => {
                return Err(ExportError::MissingField { record: i, column });
            },
        }
        i += 1;
    }
    assert(row_views(rows@) =~= rows_of(job_offers@));
    Ok(rows)
}

/// The bytes that the `csv` crate writes for one record with these fields, by
/// `Writer::write_record` on a new writer with the default settings; `None`
/// where it reports an error.
pub uninterp spec fn csv_record(fields: Seq<Seq<char>>) -> Option<Seq<u8>>;

/// Makes a `csv::Writer` over an empty byte buffer with `Writer::from_writer`,
/// writes the cells as one record with `Writer::write_record`, and takes the
/// buffer back with `Writer::into_inner`; an error of either gives `None`.
/// Claimed: whether this succeeds, and the bytes written, depend on the texts
/// of the cells alone. Not proved.
#[verifier::external_body]
pub(crate) fn encode_record(cells: &Vec<&str>) -> (bytes: Option<Vec<u8>>)
    ensures
        bytes is Some <==> csv_record(cell_texts(cells@)) is Some,
        bytes is Some ==> bytes->0@ == csv_record(cell_texts(cells@))->0,
{
    let mut writer = ::csv::Writer::from_writer(Vec::new());
    writer.write_record(cells).ok()?;
    writer.into_inner().ok()
}

/// The lines of an export as cells: the header, then the rows.
pub open spec fn lines(rows: Seq<RowView>) -> Seq<Seq<Seq<char>>> {
    Seq::new(
        rows.len() + 1,
        |l: int|
            if l == 0 {
                header_row().cells()
            } else {
                rows[l - 1].cells()
            },
    )
}

/// Whether each of the first `count` lines can be written as CSV.
pub open spec fn writable_up_to(lines: Seq<Seq<Seq<char>>>, count: int) -> bool {
    forall|l: int| 0 <= l < count ==> csv_record(#[trigger] lines[l]) is Some
}

/// Whether every line can be written as CSV.
pub open spec fn writable(lines: Seq<Seq<Seq<char>>>) -> bool {
    writable_up_to(lines, lines.len() as int)
}

/// Whether the line at `position` is the first that cannot be written as CSV.
pub open spec fn first_unwritable(lines: Seq<Seq<Seq<char>>>, position: int) -> bool {
    &&& 0 <= position < lines.len()
    &&& writable_up_to(lines, position)
    &&& csv_record(lines[position]) is None
}

/// The bytes of writable lines, each as the `csv` crate writes it, one after
/// the other.
pub open spec fn written(lines: Seq<Seq<Seq<char>>>) -> Seq<u8>
    decreases lines.len(),
{
    if lines.len() == 0 {
        Seq::empty()
    } else {
        written(lines.drop_last()) + csv_record(lines.last())->0
    }
}

/// What is written up to the end of the header line is the header line as it
/// is written alone.
pub proof fn lemma_written_header(rows: Seq<RowView>)
    ensures
        written(lines(rows).take(1)) == csv_record(header_row().cells())->0,
{
    let all = lines(rows);
    assert(all.take(1).drop_last() =~= Seq::<Seq<Seq<char>>>::empty());
    assert(all.take(1).last() == header_row().cells());
    assert(written(Seq::<Seq<Seq<char>>>::empty()) =~= Seq::<u8>::empty());
}

/// What is written up to the end of the line of the row at position `k` is
/// what is written before that line, then the row as it is written alone.
pub proof fn lemma_written_row(rows: Seq<RowView>, k: int)
    requires
        0 <= k < rows.len(),
    ensures
        written(lines(rows).take(k + 2)) == written(lines(rows).take(k + 1)) + csv_record(
            rows[k].cells(),
        )->0,
{
    let all = lines(rows);
    assert(all.take(k + 2).drop_last() =~= all.take(k + 1));
    assert(all.take(k + 2).last() == rows[k].cells());
}

/// Appends one written line to the output, or reports the line as unwritable
/// and leaves the output as it is.
pub fn push_line(output: &mut Vec<u8>, line: Line, bytes: Option<Vec<u8>>) -> (outcome: Result<
    (),
    ExportError,
>)
    ensures
        match bytes {
            Some(bytes) => outcome is Ok && final(output)@ == old(output)@ + bytes@,
            None => outcome == Err::<(), ExportError>(ExportError::Unwritable { line })
                && final(output)@ == old(output)@,
        },
{
    match bytes {
        Some(bytes) => {
            let mut bytes = bytes;
            output.append(&mut bytes);
            Ok(())
        },
        None => Err(ExportError::Unwritable { line }),
    }
}

/// Writes rows as CSV: the header line, then one line for each row, in their
/// order. Fails at the first line that cannot be written.
pub fn write_rows(rows: &Vec<Row>) -> (outcome: Result<Vec<u8>, ExportError>)
    ensures
        match outcome {
            Ok(bytes) => writable(lines(row_views(rows@))) && bytes@ == written(
                lines(row_views(rows@)),
            ),
            Err(ExportError::Unwritable { line }) => first_unwritable(
                lines(row_views(rows@)),
                line.position(),
            ),
            Err(ExportError::MissingField { .. }) => false,
        },
{
    let ghost all = lines(row_views(rows@));
    let mut output: Vec<u8> = Vec::new();
    let header = Row::header();
    push_line(&mut output, Line::Header, encode_record(&header.cells()))?;
    proof {
        lemma_written_header(row_views(rows@));
        assert(output@ =~= written(all.take(1)));
    }
    let mut i: usize = 0;
    while i < rows.len()
        invariant
            i <= rows.len(),
            all == lines(row_views(rows@)),
            writable_up_to(all, i + 1),
            output@ == written(all.take(i + 1)),
        decreases rows.len() - i,
    {
        push_line(&mut output, Line::Offer(i), encode_record(&rows[i].cells()))?;
        proof {
            lemma_written_row(row_views(rows@), i as int);
        }
        i += 1;
    }
    proof {
        assert(all.take(rows.len() + 1) =~= all);
    }
    Ok(output)
}

/// Exports offers as CSV: the header line, then one line for each offer, in
/// their order, with title, company, location and link trimmed and the source
/// by its name. Every offer is checked before anything is written: an absent
/// field fails the export, naming the first offer that lacks one and the first
/// column it lacks.
pub fn save_to_csv(job_offers: Vec<JobOffer>) -> (outcome: Result<Vec<u8>, ExportError>)
    ensures
        match outcome {
            Ok(bytes) => {
                &&& complete(job_offers@)
                &&& writable(lines(rows_of(job_offers@)))
                &&& bytes@ == written(lines(rows_of(job_offers@)))
            },
            Err(ExportError::MissingField { record, column }) => first_missing(
                job_offers@,
                record as int,
                column,
            ),
            Err(ExportError::Unwritable { line }) => {
                &&& complete(job_offers@)
                &&& first_unwritable(lines(rows_of(job_offers@)), line.position())
            },
        },
{
    let rows = complete_rows(&job_offers)?;
    write_rows(&rows)
}

} // verus!
