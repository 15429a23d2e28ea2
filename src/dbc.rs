use vstd::prelude::*;
use vstd::utf8::*;
use crate::byte_utils::{
    copy_range, decoded_pieces, get_null_terminated_strings, get_string_null_terminated,
    get_four_bytes, le_u32, nul_pieces, null_run, read_u32, all_utf8, string_views,
};
use crate::error::DecodeError;

verus! {

/// The size of a record file's header.
pub const HEADER_SIZE: usize = 20;

/// The header of a record file.
#[derive(Debug, Clone, Copy)]
pub struct DbcHeader {
    pub magic: [u8; 4],
    pub record_count: u32,
    pub field_count: u32,
    pub record_size: u32,
    pub string_block_size: u32,
}

/// A record file: its header and all of its bytes.
#[derive(Debug)]
pub struct DbcFile {
    header: DbcHeader,
    file: Vec<u8>,
}

/// Walks the records of a record file, first to last.
pub struct DbcFileIterator<'a> {
    file_bytes: &'a Vec<u8>,
    offset: usize,
    offset_bump: usize,
    body_end_offset: usize,
    index: Ghost<int>,
    count: Ghost<int>,
}

/// One record of a record file: where it starts, how wide it is, and where the string
/// heap starts.
#[derive(Debug)]
pub struct DbcFileIteratorRow<'a> {
    file_bytes: &'a Vec<u8>,
    current_offset: usize,
    record_size: usize,
    body_end_offset: usize,
}

/// A record as the column accessors see it: the file's bytes, the record's start, its
/// width, and the start of the string heap.
pub type RowView = (Seq<u8>, int, int, int);

/// A decoded record file: its header and one typed row per record.
#[derive(Debug)]
pub struct Dbc<T> {
    pub header: DbcHeader,
    pub rows: Vec<T>,
}

/// Where the string heap of a file with this header starts.
pub open spec fn body_end(h: DbcHeader) -> int {
    HEADER_SIZE + h.record_count as int * h.record_size as int
}

/// The length that a file with this header has.
pub open spec fn expected_len(h: DbcHeader) -> int {
    body_end(h) + h.string_block_size as int
}

/// The length that the header stored at the start of `b` gives: the header, the records and
/// the string heap.
pub open spec fn stored_len(b: Seq<u8>) -> int {
    HEADER_SIZE + le_u32(b, 4) as int * le_u32(b, 12) as int + le_u32(b, 16) as int
}

/// The header at the start of `b` can be used: the file's length is the header's size, the
/// records and the string heap together, and records have a width when there are any.
pub open spec fn header_ok(b: Seq<u8>) -> bool {
    &&& b.len() >= HEADER_SIZE
    &&& b.len() == stored_len(b)
    &&& le_u32(b, 12) == 0 ==> le_u32(b, 4) == 0
}

/// `h` is the header stored at the start of `b`.
pub open spec fn header_matches(h: DbcHeader, b: Seq<u8>) -> bool {
    &&& b.len() >= HEADER_SIZE
    &&& h.magic@ == b.subrange(0, 4)
    &&& h.record_count == le_u32(b, 4)
    &&& h.field_count == le_u32(b, 8)
    &&& h.record_size == le_u32(b, 12)
    &&& h.string_block_size == le_u32(b, 16)
}

/// Column `col` (counted from one) lies inside a record of width `width`.
pub open spec fn column_in_record(width: int, col: int) -> bool {
    1 <= col && 4 * col <= width
}

/// Where column `col` of the record at `base` starts.
pub open spec fn column_offset(base: int, col: int) -> int {
    base + 4 * (col - 1)
}

/// The four-byte value of column `col`.
pub open spec fn column_value(r: RowView, col: int) -> u32 {
    le_u32(r.0, column_offset(r.1, col))
}

/// Where the string that column `col` refers to starts.
pub open spec fn heap_offset(r: RowView, col: int) -> int {
    r.3 + column_value(r, col) as int
}

/// The string that column `col` refers to, if the column, the heap offset and the bytes
/// are all in order.
pub open spec fn column_string(r: RowView, col: int) -> Option<Seq<char>> {
    if column_in_record(r.2, col) && heap_offset(r, col) < r.0.len() && valid_utf8(
        null_run(r.0, heap_offset(r, col)),
    ) {
        Some(decode_utf8(null_run(r.0, heap_offset(r, col))))
    } else {
        None
    }
}

/// The hexadecimal digit for a value below sixteen.
pub open spec fn hex_digit(n: u8) -> char {
    seq!['0', '1', '2', '3', '4', '5', '6', '7', '8', '9', 'a', 'b', 'c', 'd', 'e', 'f'][n as int]
}

/// Two lowercase hexadecimal digits per byte, high half first.
pub open spec fn hex_string(b: Seq<u8>) -> Seq<char> {
    Seq::new(
        2 * b.len(),
        |i: int|
            if i % 2 == 0 {
                hex_digit(b[i / 2] >> 4u8)
            } else {
                hex_digit(b[i / 2] & 15u8)
            },
    )
}

/// How many records the file `b` holds, as its header says.
pub open spec fn record_count(b: Seq<u8>) -> int {
    le_u32(b, 4) as int
}

/// The view of record `i` of the file `b`.
pub open spec fn record_view(b: Seq<u8>, i: int) -> RowView {
    (b, HEADER_SIZE + i * le_u32(b, 12) as int, le_u32(b, 12) as int, HEADER_SIZE + le_u32(b, 4) as int
        * le_u32(b, 12) as int)
}

/// Every record of the file `b` decodes as a `T`.
pub open spec fn all_records_ok<T: DbcRowMapper>(b: Seq<u8>) -> bool {
    forall|i: int| 0 <= i < record_count(b) ==> #[trigger] T::row_ok(record_view(b, i))
}

/// A row type of a record file, with the columns it reads.
pub trait DbcRowMapper: Sized {
    /// The record decodes.
    spec fn row_ok(r: RowView) -> bool;

    /// `v` is what the record decodes to.
    spec fn decoded_from(v: Self, r: RowView) -> bool;

    /// Decodes one record; a failing column fails the whole row.
    fn map_dbc_row(row: &DbcFileIteratorRow) -> (r: Result<Self, DecodeError>)
        requires
            row.wf(),
        ensures
            r is Ok <==> Self::row_ok(row@),
            r matches Ok(v) ==> Self::decoded_from(v, row@),
    ;
}

/// Decodes every record of `dbc_file` and appends the rows to `row_builder`; the first
/// record that fails stops the walk.
pub fn process_rows<T: DbcRowMapper>(row_builder: &mut Vec<T>, dbc_file: &DbcFile) -> (r: Result<
    (),
    DecodeError,
>)
    requires
        dbc_file.wf(),
    ensures
        r is Ok <==> all_records_ok::<T>(dbc_file.bytes()),
        final(row_builder)@.len() >= old(row_builder)@.len(),
        forall|k: int|
            0 <= k < old(row_builder)@.len() ==> #[trigger] final(row_builder)@[k] == old(
                row_builder,
            )@[k],
        forall|k: int|
            0 <= k < final(row_builder)@.len() - old(row_builder)@.len() ==> T::decoded_from(
                #[trigger] final(row_builder)@[old(row_builder)@.len() + k],
                record_view(dbc_file.bytes(), k),
            ),
        forall|k: int|
            0 <= k < final(row_builder)@.len() - old(row_builder)@.len() ==> #[trigger] T::row_ok(
                record_view(dbc_file.bytes(), k),
            ),
        r is Ok ==> final(row_builder)@.len() == old(row_builder)@.len() + record_count(
            dbc_file.bytes(),
        ),
        r is Err ==> final(row_builder)@.len() - old(row_builder)@.len() < record_count(
            dbc_file.bytes(),
        ) && !T::row_ok(
            record_view(dbc_file.bytes(), final(row_builder)@.len() - old(row_builder)@.len()),
        ),
{
    let ghost b = dbc_file.bytes();
    let ghost old_len = row_builder@.len();
    let ghost rs = le_u32(b, 12) as int;
    let ghost rc = le_u32(b, 4) as int;
    let mut it = dbc_file.iter();
    let ghost mut i: int = 0;
    proof {
        assert(it.position() == HEADER_SIZE);
        assert(it.end() == HEADER_SIZE + rc * rs);
        assert(0 * rs == 0);
        lemma_mul_cancel(0, rc, rs);
        if it.position() != it.end() {
            assert(rc * rs != 0);
            assert(rs != 0 && rc != 0) by (nonlinear_arith)
                requires
                    rc * rs != 0,
            ;
            assert(record_count(b) == rc);
        }
    }
    loop
        invariant
            dbc_file.wf(),
            b == dbc_file.bytes(),
            rs == dbc_file.header.record_size,
            rc == dbc_file.header.record_count,
            it.wf(),
            it.walks(dbc_file),
            it.count@ == rc,
            it.bump() == rs,
            i == it.index(),
            rs == 0 ==> i == 0,
            0 <= i,
            it.position() == it.end() ==> i == record_count(b),
            it.position() != it.end() ==> i < record_count(b),
            row_builder@.len() == old_len + i,
            old_len == old(row_builder)@.len(),
            forall|k: int| 0 <= k < old_len ==> #[trigger] row_builder@[k] == old(row_builder)@[k],
            forall|k: int|
                0 <= k < i ==> T::decoded_from(#[trigger] row_builder@[old_len + k], record_view(b, k)),
            forall|k: int| 0 <= k < i ==> #[trigger] T::row_ok(record_view(b, k)),
        ensures
            i == record_count(b),
        decreases it.end() - it.position(),
    {
        let ghost pos = it.position();
        match it.next() {
            None => {
                break;
            },
            Some(row) => {
                assert(row@ == record_view(b, i));
                let v = match T::map_dbc_row(&row) {
                    Ok(v) => v,
                    Err(e) => {
                        assert(!T::row_ok(record_view(b, i)));
                        return Err(e);
                    },
                };
                row_builder.push(v);
                proof {
                    i = i + 1;
                    lemma_mul_cancel(i, rc, rs);
                }
            },
        }
    }
    Ok(())
}

proof fn lemma_mul_cancel(i: int, n: int, w: int)
    requires
        0 <= i <= n,
        0 <= w,
    ensures
        i * w == n * w ==> w == 0 || i == n,
        i * w != n * w ==> i < n,
{
    assert(i * w <= n * w) by (nonlinear_arith)
        requires
            0 <= i <= n,
            0 <= w,
    ;
    if i * w == n * w && w != 0 {
        assert(i == n) by (nonlinear_arith)
            requires
                i * w == n * w,
                w > 0,
        ;
    }
}

/// Decodes a whole record file into rows of `T`.
pub fn load_dbc<T: DbcRowMapper>(dbc_content: Vec<u8>) -> (r: Result<Dbc<T>, DecodeError>)
    ensures
        r is Ok <==> header_ok(dbc_content@) && all_records_ok::<T>(dbc_content@),
        r matches Ok(d) ==> header_matches(d.header, dbc_content@),
        r matches Ok(d) ==> d.rows@.len() == record_count(dbc_content@),
        r matches Ok(d) ==> forall|k: int|
            0 <= k < record_count(dbc_content@) ==> T::decoded_from(
                #[trigger] d.rows@[k],
                record_view(dbc_content@, k),
            ),
{
    let ghost bytes = dbc_content@;
    let dbc = DbcFile::from_bytes(dbc_content)?;
    let mut row_builder: Vec<T> = Vec::new();
    process_rows(&mut row_builder, &dbc)?;
    assert forall|k: int| 0 <= k < record_count(bytes) implies T::decoded_from(
        #[trigger] row_builder@[k],
        record_view(bytes, k),
    ) by {
        assert(row_builder@[0 + k] == row_builder@[k]);
    }
    Ok(Dbc { header: dbc.header(), rows: row_builder })
}

/// Relies on `hex::encode`: two lowercase digits per byte, the high half first.
#[verifier::external_body]
fn hex_encode(bytes: &[u8; 4]) -> (r: String)
    ensures
        r@ == hex_string(bytes@),
{
    hex::encode(bytes)
}

impl<'a> View for DbcFileIteratorRow<'a> {
    type V = RowView;

    closed spec fn view(&self) -> RowView {
        (
            self.file_bytes@,
            self.current_offset as int,
            self.record_size as int,
            self.body_end_offset as int,
        )
    }
}

impl<'a> DbcFileIteratorRow<'a> {
    /// The record and the string heap start lie inside the file.
    pub closed spec fn wf(&self) -> bool {
        self.current_offset + self.record_size <= self.body_end_offset <= self.file_bytes@.len()
    }

    fn get_col_offset(&self, column: usize) -> (r: Result<usize, DecodeError>)
        requires
            self.wf(),
        ensures
            r is Ok <==> column_in_record(self.record_size as int, column as int),
            r matches Ok(o) ==> o == column_offset(self.current_offset as int, column as int)
                && o + 4 <= self.file_bytes@.len(),
            r matches Err(e) ==> e == DecodeError::ColumnOutOfRange,
    {
        if column == 0 || column > self.record_size / 4 {
            return Err(DecodeError::ColumnOutOfRange);
        }
        Ok(self.current_offset + (column - 1) * 4)
    }

    /// The value of column `column` as an unsigned number.
    pub fn get_number_column(&self, column: usize) -> (r: Result<u32, DecodeError>)
        requires
            self.wf(),
        ensures
            r is Ok <==> column_in_record(self@.2, column as int),
            r matches Ok(v) ==> v == column_value(self@, column as int),
            r matches Err(e) ==> e == DecodeError::ColumnOutOfRange,
    {
        let offset = self.get_col_offset(column)?;
        Ok(read_u32(self.file_bytes, offset))
    }

    /// The value of column `column` as a signed number.
    pub fn get_number_column_signed(&self, column: usize) -> (r: Result<i32, DecodeError>)
        requires
            self.wf(),
        ensures
            r is Ok <==> column_in_record(self@.2, column as int),
            r matches Ok(v) ==> v == column_value(self@, column as int) as i32,
            r matches Err(e) ==> e == DecodeError::ColumnOutOfRange,
    {
        let v = self.get_number_column(column)?;
        Ok(v as i32)
    }

    /// Column `column` read as a flag: true exactly when it holds 1.
    pub fn get_bool_column(&self, column: usize) -> (r: Result<bool, DecodeError>)
        requires
            self.wf(),
        ensures
            r is Ok <==> column_in_record(self@.2, column as int),
            r matches Ok(v) ==> v == (column_value(self@, column as int) == 1),
            r matches Err(e) ==> e == DecodeError::ColumnOutOfRange,
    {
        let res = self.get_number_column(column)?;
        Ok(res == 1)
    }

    /// The string that column `column` refers to: the column holds an offset into the
    /// string heap, where a zero-terminated string starts.
    pub fn get_string_column(&self, column: usize) -> (r: Result<String, DecodeError>)
        requires
            self.wf(),
        ensures
            r is Ok <==> column_string(self@, column as int) is Some,
            r matches Ok(s) ==> Some(s@) == column_string(self@, column as int),
            r matches Err(e) ==> !column_in_record(self@.2, column as int) ==> e
                == DecodeError::ColumnOutOfRange,
            r matches Err(e) ==> column_in_record(self@.2, column as int) && heap_offset(
                self@,
                column as int,
            ) >= self@.0.len() ==> e == DecodeError::OutOfRange,
            r matches Err(e) ==> column_in_record(self@.2, column as int) && heap_offset(
                self@,
                column as int,
            ) < self@.0.len() ==> e == DecodeError::InvalidEncoding,
    {
        let str_location = self.get_number_column(column)? as usize;
        if str_location >= self.file_bytes.len() - self.body_end_offset {
            return Err(DecodeError::OutOfRange);
        }
        get_string_null_terminated(self.file_bytes, self.body_end_offset + str_location)
    }

    /// The raw four bytes of column `column`, for fields whose meaning is not known.
    pub fn get_column_raw(&self, column: usize) -> (r: Result<[u8; 4], DecodeError>)
        requires
            self.wf(),
        ensures
            r is Ok <==> column_in_record(self@.2, column as int),
            r matches Ok(b) ==> b@ == self@.0.subrange(
                column_offset(self@.1, column as int),
                column_offset(self@.1, column as int) + 4,
            ),
            r matches Err(e) ==> e == DecodeError::ColumnOutOfRange,
    {
        let offset = self.get_col_offset(column)?;
        match get_four_bytes(self.file_bytes, offset) {
            Ok(b) => Ok(b),
            Err(_) => Err(DecodeError::ColumnOutOfRange),
        }
    }

    /// The raw four bytes of column `column` as lowercase hexadecimal.
    pub fn get_column_bytes_hex(&self, column: usize) -> (r: Result<String, DecodeError>)
        requires
            self.wf(),
        ensures
            r is Ok <==> column_in_record(self@.2, column as int),
            r matches Ok(s) ==> s@ == hex_string(
                self@.0.subrange(
                    column_offset(self@.1, column as int),
                    column_offset(self@.1, column as int) + 4,
                ),
            ),
            r matches Err(e) ==> e == DecodeError::ColumnOutOfRange,
    {
        let offset = self.get_col_offset(column)?;
        let bytes = self.get_column_raw(column)?;
        Ok(hex_encode(&bytes))
    }
}

/// Reads the twenty-byte header at the start of `dbc_content`.
pub fn get_dbc_header(dbc_content: &Vec<u8>) -> (r: Result<DbcHeader, DecodeError>)
    ensures
        r is Ok <==> header_ok(dbc_content@),
        r matches Ok(h) ==> header_matches(h, dbc_content@) && dbc_content@.len() == expected_len(h),
        r matches Err(e) ==> dbc_content@.len() < HEADER_SIZE ==> e == DecodeError::OutOfRange,
        r matches Err(e) ==> dbc_content@.len() >= HEADER_SIZE ==> e == DecodeError::InvalidHeader,
{
    let magic = get_four_bytes(dbc_content, 0)?;
    if dbc_content.len() < HEADER_SIZE {
        return Err(DecodeError::OutOfRange);
    }
    let header = DbcHeader {
        magic,
        record_count: read_u32(dbc_content, 4),
        field_count: read_u32(dbc_content, 8),
        record_size: read_u32(dbc_content, 12),
        string_block_size: read_u32(dbc_content, 16),
    };
    let rc = header.record_count as u64;
    let rs = header.record_size as u64;
    assert(rc * rs <= 0xffff_ffffu64 * 0xffff_ffffu64) by (nonlinear_arith)
        requires
            rc <= 0xffff_ffffu64,
            rs <= 0xffff_ffffu64,
    ;
    let total: u64 = 20 + rc * rs + header.string_block_size as u64;
    if dbc_content.len() as u64 != total {
        return Err(DecodeError::InvalidHeader);
    }
    if header.record_size == 0 && header.record_count > 0 {
        return Err(DecodeError::InvalidHeader);
    }
    Ok(header)
}

impl DbcFile {
    /// The header is the one stored in the bytes, and the length agrees with it.
    pub closed spec fn wf(&self) -> bool {
        &&& header_matches(self.header, self.file@)
        &&& self.file@.len() == expected_len(self.header)
        &&& self.header.record_size == 0 ==> self.header.record_count == 0
    }

    /// The file's header.
    pub closed spec fn spec_header(&self) -> DbcHeader {
        self.header
    }

    /// The file's bytes.
    pub closed spec fn bytes(&self) -> Seq<u8> {
        self.file@
    }

    /// The string heap: the bytes after the records.
    pub open spec fn heap(&self) -> Seq<u8> {
        self.bytes().subrange(body_end(self.spec_header()), self.bytes().len() as int)
    }

    /// Reads the header and checks that the file's length is the header's size, the
    /// records and the string heap together.
    pub fn from_bytes(dbc_content: Vec<u8>) -> (r: Result<DbcFile, DecodeError>)
        ensures
            r is Ok <==> header_ok(dbc_content@),
            r matches Ok(f) ==> f.wf() && f.bytes() == dbc_content@ && f.spec_header().record_count
            == le_u32(dbc_content@, 4) && f.spec_header().record_size == le_u32(dbc_content@, 12),
            r matches Err(e) ==> dbc_content@.len() < HEADER_SIZE ==> e == DecodeError::OutOfRange,
            r matches Err(e) ==> dbc_content@.len() >= HEADER_SIZE ==> e
                == DecodeError::InvalidHeader,
    {
        let header = get_dbc_header(&dbc_content)?;
        Ok(DbcFile { header, file: dbc_content })
    }

    /// Where the string heap starts.
    pub fn body_end_offset(&self) -> (r: usize)
        requires
            self.wf(),
        ensures
            r == body_end(self.spec_header()),
            r <= self.bytes().len(),
    {
        let n = self.file.len();
        20 + (self.header.record_count as usize) * (self.header.record_size as usize)
    }

    /// The file's header.
    pub fn header(&self) -> (r: DbcHeader)
        ensures
            r == self.spec_header(),
    {
        self.header
    }

    /// Starts a walk over the records, from the first.
    pub fn iter(&self) -> (r: DbcFileIterator)
        requires
            self.wf(),
        ensures
            r.wf(),
            r.walks(self),
            r.index() == 0,
            r.position() == HEADER_SIZE,
    {
        let record_size = self.header.record_size as usize;
        let body_end_offset = self.body_end_offset();
        DbcFileIterator {
            file_bytes: &self.file,
            offset: 20,
            offset_bump: record_size,
            body_end_offset,
            index: Ghost(0),
            count: Ghost(self.header.record_count as int),
        }
    }

    /// The strings of the string heap, split on every zero byte.
    pub fn get_strings(&self) -> (r: Result<Vec<String>, DecodeError>)
        requires
            self.wf(),
        ensures
            r is Ok <==> all_utf8(nul_pieces(self.heap())),
            r matches Ok(v) ==> string_views(v@) == decoded_pieces(nul_pieces(self.heap())),
            r matches Err(e) ==> e == DecodeError::InvalidEncoding,
    {
        let start = self.body_end_offset();
        let heap = copy_range(&self.file, start, self.file.len());
        get_null_terminated_strings(&heap)
    }
}

impl<'a> DbcFileIterator<'a> {
    /// The walk stays on record boundaries inside the file.
    pub closed spec fn wf(&self) -> bool {
        &&& HEADER_SIZE <= self.offset <= self.body_end_offset <= self.file_bytes@.len()
        &&& 0 <= self.index@ <= self.count@
        &&& self.offset == HEADER_SIZE + self.index@ * self.offset_bump
        &&& self.body_end_offset == HEADER_SIZE + self.count@ * self.offset_bump
    }

    /// Where the next record starts.
    pub closed spec fn position(&self) -> int {
        self.offset as int
    }

    /// Where the string heap starts, which ends the walk.
    pub closed spec fn end(&self) -> int {
        self.body_end_offset as int
    }

    /// The width of a record.
    pub closed spec fn bump(&self) -> int {
        self.offset_bump as int
    }

    /// The bytes of the file walked over.
    pub closed spec fn file(&self) -> Seq<u8> {
        self.file_bytes@
    }

    /// How many records the walk covers.
    pub closed spec fn total(&self) -> int {
        self.count@
    }

    /// How many records have been handed out.
    pub closed spec fn index(&self) -> int {
        self.index@
    }

    /// The walk is over the records of `f`.
    pub closed spec fn walks(&self, f: &DbcFile) -> bool {
        &&& f.wf()
        &&& self.file_bytes@ == f.bytes()
        &&& self.offset_bump == f.spec_header().record_size
        &&& self.body_end_offset == body_end(f.spec_header())
        &&& self.count@ == f.spec_header().record_count
    }

    /// The next record, or nothing once the string heap is reached.
    pub fn next(&mut self) -> (r: Option<DbcFileIteratorRow<'a>>)
        requires
            old(self).wf(),
        ensures
            final(self).wf(),
            final(self).file() == old(self).file(),
            final(self).bump() == old(self).bump(),
            final(self).end() == old(self).end(),
            final(self).total() == old(self).total(),
            old(self).position() == old(self).end() ==> r is None && *final(self) == *old(self),
            old(self).position() != old(self).end() ==> r is Some && final(self).position() == old(
                self,
            ).position() + old(self).bump(),
            r matches Some(row) ==> row.wf() && row@ == (
                old(self).file(),
                old(self).position(),
                old(self).bump(),
                old(self).end(),
            ) && final(self).index() == old(self).index() + 1,
    {
        if self.offset != self.body_end_offset {
            let current_offset = self.offset;
            proof {
                let k = self.index@;
                let n = self.count@;
                let bump = self.offset_bump as int;
                assert(k < n) by {
                    if k == n {
                        assert(self.offset == self.body_end_offset);
                    }
                }
                assert((k + 1) * bump <= n * bump) by (nonlinear_arith)
                    requires
                        k + 1 <= n,
                        bump >= 0,
                ;
                assert((k + 1) * bump == k * bump + bump) by (nonlinear_arith);
            }
            self.offset = self.offset + self.offset_bump;
            self.index = Ghost(self.index@ + 1);
            Some(
                DbcFileIteratorRow {
                    file_bytes: self.file_bytes,
                    current_offset,
                    record_size: self.offset_bump,
                    body_end_offset: self.body_end_offset,
                },
            )
        } else {
            None
        }
    }
}

} // verus!
