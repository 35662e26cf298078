//! Tables as comma-separated text. The encoding of a record is the `csv`
//! crate's; this module states what its writer does to the bytes written so
//! far and builds whole tables on top of it.

use crate::error::FetchError;
use crate::text::texts;
use std::string::FromUtf8Error;
use vstd::prelude::*;
use vstd::string::StringExecFns;
use vstd::utf8::{decode_utf8, encode_utf8, valid_utf8};

verus! {

/// A `csv::Writer` over a byte vector, in its default configuration and
/// between two records.
#[verifier::external_body]
pub struct CsvWriter {
    inner: csv::Writer<Vec<u8>>,
}

/// `csv::Error`, carried through and never looked into.
#[verifier::external_type_specification]
#[verifier::external_body]
pub struct ExCsvError(csv::Error);

/// `std::string::FromUtf8Error`, carried through and never looked into.
#[verifier::external_type_specification]
#[verifier::external_body]
pub struct ExFromUtf8Error(FromUtf8Error);

/// All bytes written through a writer so far.
pub uninterp spec fn written_bytes(w: CsvWriter) -> Seq<u8>;

/// The number of fields of the first record written through a writer, if one
/// was written.
pub uninterp spec fn first_width(w: CsvWriter) -> Option<nat>;

/// The bytes of one record with the given fields, terminator included, as
/// `csv::Writer::write_record` encodes it in the default configuration.
pub uninterp spec fn record_bytes(fields: Seq<Seq<char>>) -> Seq<u8>;

/// `csv::Writer::from_writer` on an empty vector: nothing is written yet and
/// no record has fixed the width.
#[verifier::external_body]
pub(crate) fn new_writer() -> (w: CsvWriter)
    ensures
        written_bytes(w) == Seq::<u8>::empty(),
        first_width(w) is None,
{
    CsvWriter { inner: csv::Writer::from_writer(Vec::new()) }
}

/// `csv::Writer::write_record`. The writer is not flexible: the first record
/// fixes the number of fields, and a later record with another number is
/// refused. Writing to a vector cannot fail otherwise. An accepted record adds
/// its encoding to the bytes written. The encoding holds the bytes of the
/// fields as they are, between delimiters, quotes and a terminator that are
/// single ASCII bytes, so that the encoding of text is valid UTF-8. A writer
/// that refused a record is left in the middle of one and is not handed back.
#[verifier::external_body]
pub(crate) fn write_record(w: CsvWriter, record: &Vec<String>) -> (r: Result<
    CsvWriter,
    csv::Error,
>)
    ensures
        r is Ok <==> (first_width(w) is None || first_width(w) == Some(record@.len())),
        r matches Ok(next) ==> written_bytes(next) == written_bytes(w) + record_bytes(
            texts(record@),
        ),
        r matches Ok(next) ==> first_width(next) == Some(record@.len()),
        r matches Ok(next) ==> valid_utf8(record_bytes(texts(record@))),
{
    let mut w = w;
    w.inner.write_record(record)?;
    Ok(w)
}

/// `csv::Writer::into_inner`: flushes the writer's buffer into the vector and
/// hands the vector out. Flushing into a vector cannot fail.
#[verifier::external_body]
pub(crate) fn into_bytes(w: CsvWriter) -> (r: Result<Vec<u8>, csv::Error>)
    ensures
        r is Ok,
        r matches Ok(bytes) ==> bytes@ == written_bytes(w),
{
    w.inner.into_inner().map_err(|e| csv::Error::from(e.into_error()))
}

/// `String::from_utf8`: succeeds on valid UTF-8 and on nothing else, and the
/// string then consists of the given bytes.
#[verifier::external_body]
pub(crate) fn string_from_utf8(bytes: Vec<u8>) -> (r: Result<String, FromUtf8Error>)
    ensures
        r is Ok <==> valid_utf8(bytes@),
        r matches Ok(s) ==> encode_utf8(s@) == bytes@,
{
    String::from_utf8(bytes)
}

/// The text that stands for a table without rows.
pub open spec fn no_data_text() -> Seq<char> {
    "No applicable data found\n"@
}

/// The encodings of `rows`, one after the other.
pub open spec fn rows_bytes(rows: Seq<Seq<Seq<char>>>) -> Seq<u8>
    decreases rows.len(),
{
    if rows.len() == 0 {
        Seq::empty()
    } else {
        rows_bytes(rows.drop_last()) + record_bytes(rows.last())
    }
}

/// The bytes of a table: the header's encoding, then the rows'.
pub open spec fn table_bytes(header: Seq<Seq<char>>, rows: Seq<Seq<Seq<char>>>) -> Seq<u8> {
    record_bytes(header) + rows_bytes(rows)
}

/// What a table with the given header and rows comes to: the fixed text where
/// there is no row, else the table's bytes read as UTF-8.
pub open spec fn table_text(header: Seq<Seq<char>>, rows: Seq<Seq<Seq<char>>>) -> Seq<char> {
    if rows.len() == 0 {
        no_data_text()
    } else {
        decode_utf8(table_bytes(header, rows))
    }
}

/// Whether `r` is the string that `expected` describes, or the same error.
pub open spec fn is_text(r: Result<Option<String>, FetchError>, expected: Result<
    Seq<char>,
    FetchError,
>) -> bool {
    match expected {
        Ok(t) => r matches Ok(Some(s)) && s@ == t,
        Err(e) => r == Err::<Option<String>, FetchError>(e),
    }
}

/// A table under construction: the header is written, and `rows` holds what
/// has been added since.
pub struct Table {
    writer: CsvWriter,
    width: usize,
    count: usize,
    header: Ghost<Seq<Seq<char>>>,
    rows: Ghost<Seq<Seq<Seq<char>>>>,
}

impl Table {
    /// The table's header.
    pub closed spec fn header(&self) -> Seq<Seq<char>> {
        self.header@
    }

    /// The rows added so far.
    pub closed spec fn rows(&self) -> Seq<Seq<Seq<char>>> {
        self.rows@
    }

    /// The writer holds the header and the rows, which are valid UTF-8, and
    /// every row is as wide as the header.
    #[verifier::type_invariant]
    spec fn well_formed(&self) -> bool {
        &&& written_bytes(self.writer) == table_bytes(self.header@, self.rows@)
        &&& valid_utf8(table_bytes(self.header@, self.rows@))
        &&& first_width(self.writer) == Some(self.header@.len())
        &&& self.width == self.header@.len()
        &&& self.count == 0 <==> self.rows@.len() == 0
        &&& forall|i: int| 0 <= i < self.rows@.len() ==> #[trigger] self.rows@[i].len() == self.width
    }

    /// A table with the given header and no row.
    pub fn new(header: &Vec<String>) -> (t: Table)
        ensures
            t.header() == texts(header@),
            t.rows() == Seq::<Seq<Seq<char>>>::empty(),
    {
        let writer = new_writer();
        match write_record(writer, header) {
            Ok(writer) => {
                assert(table_bytes(texts(header@), Seq::empty()) == record_bytes(texts(header@)));
                Table {
                    writer,
                    width: header.len(),
                    count: 0,
                    header: Ghost(texts(header@)),
                    rows: Ghost(Seq::empty()),
                }
            },
            Err(_) => vstd::pervasive::unreached(),
        }
    }

    /// Adds a row. A row with another number of fields than the header is
    /// refused, and the table is then lost.
    pub fn add_row(self, row: &Vec<String>) -> (r: Result<Table, FetchError>)
        ensures
            r is Ok <==> row@.len() == self.header().len(),
            r matches Ok(t) ==> t.header() == self.header() && t.rows() == self.rows().push(
                texts(row@),
            ),
            r matches Err(e) ==> e == (FetchError::UnequalLengths {
                expected_len: self.header().len() as usize,
                len: row@.len() as usize,
            }),
    {
        proof {
            use_type_invariant(&self);
        }
        let ghost before = self.rows@;
        let ghost next = before.push(texts(row@));
        let width: usize = self.width;
        let count: usize = if self.count == usize::MAX {
            self.count
        } else {
            self.count + 1
        };
        let header = self.header;
        match write_record(self.writer, row) {
            Ok(writer) => {
                assert(next.drop_last() =~= before);
                assert(written_bytes(writer) =~= table_bytes(header@, next));
                proof {
                    vstd::utf8::valid_utf8_concat(
                        table_bytes(header@, before),
                        record_bytes(texts(row@)),
                    );
                }
                Ok(Table { writer, width, count, header, rows: Ghost(next) })
            },
            Err(_) => Err(FetchError::UnequalLengths { expected_len: width, len: row.len() }),
        }
    }

    /// The table as text: the fixed text for a table without rows, else what
    /// was written.
    pub fn finish(self) -> (r: String)
        ensures
            r@ == table_text(self.header(), self.rows()),
    {
        proof {
            use_type_invariant(&self);
        }
        if self.count == 0 {
            return String::from_str("No applicable data found\n");
        }
        match into_bytes(self.writer) {
            Ok(bytes) => match string_from_utf8(bytes) {
                Ok(s) => {
                    proof {
                        vstd::utf8::encode_utf8_decode_utf8(s@);
                    }
                    s
                },
                Err(_) => vstd::pervasive::unreached(),
            },
            Err(_) => vstd::pervasive::unreached(),
        }
    }
}

} // verus!
