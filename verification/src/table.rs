//! Tables in comma-separated values.

use crate::text;
use vstd::prelude::*;

verus! {

/// Whether a field has to be put in quotes: it holds a comma, a quote or a line end.
pub open spec fn needs_quotes(field: Seq<char>) -> bool {
    field.contains(',') || field.contains('"') || field.contains('\r') || field.contains('\n')
}

/// `field` with each quote written twice.
pub open spec fn quotes_doubled(field: Seq<char>) -> Seq<char>
    decreases field.len(),
{
    if field.len() == 0 {
        field
    } else if field.last() == '"' {
        quotes_doubled(field.drop_last()) + seq!['"', '"']
    } else {
        quotes_doubled(field.drop_last()).push(field.last())
    }
}

/// A field as it is written in a record.
pub open spec fn csv_field(field: Seq<char>) -> Seq<char> {
    if needs_quotes(field) {
        seq!['"'] + quotes_doubled(field) + seq!['"']
    } else {
        field
    }
}

/// The fields of a record, with commas between them.
pub open spec fn csv_fields(fields: Seq<Seq<char>>) -> Seq<char>
    decreases fields.len(),
{
    if fields.len() == 0 {
        seq![]
    } else if fields.len() == 1 {
        csv_field(fields[0])
    } else {
        csv_fields(fields.drop_last()).push(',') + csv_field(fields.last())
    }
}

/// A record: its fields and a line feed.
pub open spec fn csv_record(fields: Seq<Seq<char>>) -> Seq<char> {
    csv_fields(fields).push('\n')
}

/// The records of a table, one after the other.
pub open spec fn csv_body(rows: Seq<Seq<Seq<char>>>) -> Seq<char>
    decreases rows.len(),
{
    if rows.len() == 0 {
        seq![]
    } else {
        csv_body(rows.drop_last()) + csv_record(rows.last())
    }
}

/// A table: a record with the names of the columns, and a record for each row.
pub open spec fn csv_table(header: Seq<Seq<char>>, rows: Seq<Seq<Seq<char>>>) -> Seq<char> {
    csv_record(header) + csv_body(rows)
}

/// Whether a table can be read back from its text: it has at least two columns,
/// every row has a field for each, and its text does not start with a byte order mark.
pub open spec fn is_table(header: Seq<Seq<char>>, rows: Seq<Seq<Seq<char>>>) -> bool {
    &&& header.len() >= 2
    &&& header[0].len() > 0 && header[0][0] != '\u{feff}'
    &&& forall|i: int| 0 <= i < rows.len() ==> (#[trigger] rows[i]).len() == header.len()
}

/// The rows below the header that the `csv` crate reads from the bytes of a table:
/// the fields of each, or the message of the error in its place.
pub uninterp spec fn csv_rows(bytes: Seq<u8>) -> Seq<Result<Seq<Seq<char>>, Seq<char>>>;

/// A row as it is read: its fields, or the message of the error in its place.
pub type Row = Result<Vec<String>, String>;

/// A row with its texts as sequences of characters.
pub open spec fn row_view(row: Row) -> Result<Seq<Seq<char>>, Seq<char>> {
    match row {
        Ok(fields) => Ok(text::texts(fields@)),
        Err(message) => Err(message@),
    }
}

/// The rows of a list with their texts as sequences of characters.
pub open spec fn rows_view(rows: Seq<Row>) -> Seq<Result<Seq<Seq<char>>, Seq<char>>> {
    rows.map_values(|row: Row| row_view(row))
}

/// Rows that were all read without an error.
pub open spec fn all_read(rows: Seq<Seq<Seq<char>>>) -> Seq<Result<Seq<Seq<char>>, Seq<char>>> {
    rows.map_values(|row: Seq<Seq<char>>| Ok::<Seq<Seq<char>>, Seq<char>>(row))
}

/// `csv::Writer::write_record` on an empty table: the record of the fields.
#[verifier::external_body]
pub(crate) fn write_record(fields: &Vec<String>) -> (r: String)
    requires
        fields.len() >= 2,
    ensures
        r@ == csv_record(text::texts(fields@)),
{
    let mut writer = csv::Writer::from_writer(Vec::new());
    writer.write_record(fields).unwrap();
    String::from_utf8(writer.into_inner().unwrap()).unwrap()
}

/// `csv::Reader::records` on the bytes of a table: its rows below the header. The
/// rows of a table that was written come back as they were.
#[verifier::external_body]
pub(crate) fn read_rows(bytes: &[u8]) -> (r: Vec<Row>)
    ensures
        rows_view(r@) == csv_rows(bytes@),
        (forall|header: Seq<Seq<char>>, rows: Seq<Seq<Seq<char>>>|
            is_table(header, rows) && bytes@ == vstd::utf8::encode_utf8(
                #[trigger] csv_table(header, rows),
            ) ==> rows_view(r@) == all_read(rows)),
{
    csv::Reader::from_reader(bytes).into_records().map(|row| match row {
        Ok(record) => Ok(record.iter().map(|field| field.to_string()).collect()),
        Err(e) => Err(e.to_string()),
    }).collect()
}

} // verus!
