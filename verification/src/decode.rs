use vstd::prelude::*;
use crate::error::{ErrorModel, GridError};
use crate::grid::GridValue;
use crate::record::{GridBounds, GridData, GridHeader, GridMetadata, GridRecord, RecordModel, Timestamp};
use crate::stream::concat_chunks;
use crate::units::UnitOfMeasure;

verus! {

/// The grid format places its data section at a fixed offset; any stream
/// shorter than this cannot hold a complete record.
pub const STREAM_MIN_LEN: usize = 4508;

/// Offset of the total cell count in the stream.
pub const SIZE_OFFSET: usize = 85;

/// Offset of the row count in the stream.
pub const ROWS_OFFSET: usize = 1021;

/// Offset of the column count in the stream.
pub const COLUMNS_OFFSET: usize = 1025;

/// Offset of the creation date (a double-precision day count) in the
/// stream.
pub const DATE_OFFSET: usize = 225;

/// The little-endian 32-bit integer stored at `off`.
pub open spec fn le32_at(b: Seq<u8>, off: int) -> u32 {
    (b[off] as u32) | ((b[off + 1] as u32) << 8) | ((b[off + 2] as u32) << 16) | ((b[off + 3]
        as u32) << 24)
}

/// The little-endian 64-bit integer stored at `off`.
pub open spec fn le64_at(b: Seq<u8>, off: int) -> u64 {
    (b[off] as u64) | ((b[off + 1] as u64) << 8) | ((b[off + 2] as u64) << 16) | ((b[off + 3]
        as u64) << 24) | ((b[off + 4] as u64) << 32) | ((b[off + 5] as u64) << 40) | ((b[off + 6]
        as u64) << 48) | ((b[off + 7] as u64) << 56)
}

/// The dimensioning fields of the stream agree: at least one row and one
/// column, and exactly `rows * columns` cells announced.
pub open spec fn dims_consistent(b: Seq<u8>) -> bool {
    &&& le32_at(b, ROWS_OFFSET as int) >= 1
    &&& le32_at(b, COLUMNS_OFFSET as int) >= 1
    &&& le32_at(b, ROWS_OFFSET as int) * le32_at(b, COLUMNS_OFFSET as int) == le32_at(
        b,
        SIZE_OFFSET as int,
    )
}

/// The stored creation date is a finite day count of moderate magnitude
/// (its IEEE-754 biased exponent stays below 1043, that is, its absolute
/// value stays below two to the twentieth power of days), so turning it
/// into a calendar value cannot overflow.
pub open spec fn date_field_tame(b: Seq<u8>) -> bool {
    ((le64_at(b, DATE_OFFSET as int) >> 52) & 0x7ff) < 1043
}

/// Streams admitted to the decoder: long enough to hold a complete record,
/// with consistent dimensions and a tame creation date. On every other
/// stream the decoder's own arithmetic could overflow; [`read_grid_bytes`]
/// rejects those with a format error instead of handing them over.
pub open spec fn decode_guard(b: Seq<u8>) -> bool {
    &&& b.len() >= STREAM_MIN_LEN
    &&& dims_consistent(b)
    &&& date_field_tame(b)
}

/// What the decoder makes of a guarded byte stream: the decoded record, or
/// the failure it reports. The outcome is a function of the bytes alone.
pub uninterp spec fn grid_decode(b: Seq<u8>) -> Result<RecordModel, ErrorModel>;

/// The model of a whole grid read from bytes: streams that the guard
/// rejects map to the corresponding format error, every other stream maps
/// to the decoder's outcome.
pub open spec fn read_grid_model(b: Seq<u8>) -> Result<RecordModel, ErrorModel> {
    if b.len() < STREAM_MIN_LEN {
        Err(ErrorModel::Format("truncated grid stream"@))
    } else if !dims_consistent(b) {
        Err(ErrorModel::Format("inconsistent grid dimensions"@))
    } else if !date_field_tame(b) {
        Err(ErrorModel::Format("unreadable creation date"@))
    } else {
        grid_decode(b)
    }
}

/// The model of a decode result over records.
pub open spec fn rec_result_model(r: Result<GridRecord, GridError>) -> Result<
    RecordModel,
    ErrorModel,
> {
    match r {
        Ok(rec) => Ok(rec@),
        Err(e) => Err(e@),
    }
}

/// The model of a decode result over wrapped grids.
pub open spec fn grid_result_model(r: Result<GridValue, GridError>) -> Result<
    RecordModel,
    ErrorModel,
> {
    match r {
        Ok(g) => Ok(g@),
        Err(e) => Err(e@),
    }
}

/// Relies on the fields of `petra_grid::Grid`: copies the identity and
/// dimensioning fields as decoded.
#[verifier::external_body]
fn convert_header(g: &petra_grid::Grid) -> GridHeader {
    GridHeader {
        version: g.version,
        name: g.name.clone(),
        size: g.size,
        rows: g.rows,
        columns: g.columns,
        n_triangles: g.n_triangles,
    }
}

/// Relies on the fields of `petra_grid::Grid`: re-expresses each bound and
/// step as its IEEE-754 bit pattern.
#[verifier::external_body]
fn convert_bounds(g: &petra_grid::Grid) -> GridBounds {
    GridBounds {
        xmin: g.xmin.to_bits(),
        xmax: g.xmax.to_bits(),
        ymin: g.ymin.to_bits(),
        ymax: g.ymax.to_bits(),
        xstep: g.xstep.to_bits(),
        ystep: g.ystep.to_bits(),
        zmin: g.zmin.to_bits(),
        zmax: g.zmax.to_bits(),
    }
}

/// Relies on the fields of `petra_grid::Grid`: copies the metadata strings
/// and codes as decoded, the two scalars as IEEE-754 bit patterns.
#[verifier::external_body]
fn convert_metadata(g: &petra_grid::Grid) -> GridMetadata {
    GridMetadata {
        source_data: g.source_data.clone(),
        unknown_metadata: g.unknown_metadata.clone(),
        projection: g.projection.clone(),
        datum: g.datum.clone(),
        grid_method: g.grid_method,
        projection_code: g.projection_code,
        cm: g.cm.to_bits(),
        rlat: g.rlat.to_bits(),
    }
}

/// Relies on the component accessors of `time::PrimitiveDateTime`: each
/// returns the corresponding calendar component, within its calendar
/// range.
#[verifier::external_body]
fn convert_date(g: &petra_grid::Grid) -> Timestamp {
    let d = g.created_date;
    Timestamp {
        year: d.year(),
        month: u8::from(d.month()),
        day: d.day(),
        hour: d.hour(),
        minute: d.minute(),
        second: d.second(),
        microsecond: d.microsecond(),
    }
}

/// Relies on `petra_grid::UnitOfMeasure` having exactly the two variants
/// mirrored by [`UnitOfMeasure`].
#[verifier::external_body]
fn convert_xyunits(g: &petra_grid::Grid) -> UnitOfMeasure {
    match g.xyunits {
        petra_grid::UnitOfMeasure::Feet => UnitOfMeasure::Feet,
        petra_grid::UnitOfMeasure::Meters => UnitOfMeasure::Meters,
    }
}

/// Relies on `petra_grid::UnitOfMeasure` having exactly the two variants
/// mirrored by [`UnitOfMeasure`].
#[verifier::external_body]
fn convert_zunits(g: &petra_grid::Grid) -> UnitOfMeasure {
    match g.zunits {
        petra_grid::UnitOfMeasure::Feet => UnitOfMeasure::Feet,
        petra_grid::UnitOfMeasure::Meters => UnitOfMeasure::Meters,
    }
}

/// Relies on `petra_grid::GridData` and on `ndarray` iteration visiting
/// elements in logical (row-major) order: flattens the decoded array,
/// each element to its IEEE-754 bit pattern.
#[verifier::external_body]
fn convert_data(g: &petra_grid::Grid) -> GridData {
    match &g.data {
        petra_grid::GridData::Rectangular(a) => GridData::Rectangular(
            a.iter().map(|x| x.to_bits()).collect(),
        ),
        petra_grid::GridData::Triangular(a) => GridData::Triangular(
            a.iter().map(|x| x.to_bits()).collect(),
        ),
    }
}

/// Gathers the converted pieces of one decoded `petra_grid::Grid`.
#[verifier::external_body]
fn assemble_record(g: &petra_grid::Grid) -> GridRecord {
    GridRecord {
        header: convert_header(g),
        bounds: convert_bounds(g),
        xyunits: convert_xyunits(g),
        zunits: convert_zunits(g),
        created_date: convert_date(g),
        metadata: convert_metadata(g),
        data: convert_data(g),
    }
}

/// Relies on `petra_grid::Error`: the `IOError` variant wraps an
/// underlying I/O failure, every other variant describes a format problem;
/// either way the second component is the failure's own rendering.
#[verifier::external_body]
fn error_parts(e: &petra_grid::Error) -> (bool, String) {
    match e {
        petra_grid::Error::IOError(io) => (true, format!("{}", io)),
        other => (false, format!("{}", other)),
    }
}

/// Relies on `petra_grid::Grid::read`: decodes one grid from an in-memory
/// byte stream, rewinding it first, so the outcome is a function of the
/// bytes alone. Its source shows that a decoded record's data array
/// matches the shape its header announces, that the triangle count is zero
/// exactly for rectangular data, and that the timestamp accessors yield a
/// calendar value; the guard keeps out the streams on which the decoder's
/// own arithmetic would overflow.
#[verifier::external_body]
fn decode_petra(bytes: &Vec<u8>) -> (r: Result<GridRecord, GridError>)
    requires
        decode_guard(bytes@),
    ensures
        rec_result_model(r) == grid_decode(bytes@),
        r matches Ok(rec) ==> rec@.wf(),
{
    match petra_grid::Grid::read(&mut std::io::Cursor::new(bytes.as_slice())) {
        Ok(g) => Ok(assemble_record(&g)),
        Err(e) => {
            let (is_io, msg) = error_parts(&e);
            Err(crate::error::translate_error(is_io, msg))
        },
    }
}

/// The little-endian 32-bit integer stored at `off`.
fn le_u32_at(b: &Vec<u8>, off: usize) -> (r: u32)
    requires
        off + 4 <= b@.len(),
    ensures
        r == le32_at(b@, off as int),
{
    let n: usize = b.len();
    proof {
        assert(off + 4 <= n);
    }
    (b[off] as u32) | ((b[off + 1] as u32) << 8) | ((b[off + 2] as u32) << 16) | ((b[off + 3]
        as u32) << 24)
}

/// The little-endian 64-bit integer stored at `off`.
fn le_u64_at(b: &Vec<u8>, off: usize) -> (r: u64)
    requires
        off + 8 <= b@.len(),
    ensures
        r == le64_at(b@, off as int),
{
    let n: usize = b.len();
    proof {
        assert(off + 8 <= n);
    }
    (b[off] as u64) | ((b[off + 1] as u64) << 8) | ((b[off + 2] as u64) << 16) | ((b[off + 3]
        as u64) << 24) | ((b[off + 4] as u64) << 32) | ((b[off + 5] as u64) << 40) | ((b[off + 6]
        as u64) << 48) | ((b[off + 7] as u64) << 56)
}

/// Reads one grid from a complete byte stream.
///
/// A stream the guard rejects — too short to hold a record, dimension
/// fields that disagree, or an unreadable creation date — is refused with
/// a format-category error carrying the matching description, and the
/// decoder never sees it. Every other stream is handed to the decoder, and
/// its outcome is returned: a well-formed grid, or the decoder's own error
/// routed through the two-category taxonomy. No partial grid is ever
/// produced.
pub fn read_grid_bytes(bytes: &Vec<u8>) -> (r: Result<GridValue, GridError>)
    ensures
        grid_result_model(r) == read_grid_model(bytes@),
        r matches Ok(g) ==> g@.wf(),
{
    if bytes.len() < STREAM_MIN_LEN {
        return Err(GridError::Format(String::from_str("truncated grid stream")));
    }
    let rows = le_u32_at(bytes, ROWS_OFFSET);
    let columns = le_u32_at(bytes, COLUMNS_OFFSET);
    let size = le_u32_at(bytes, SIZE_OFFSET);
    proof {
        assert((rows as u64) * (columns as u64) < 0x1_0000_0000_0000_0000) by (nonlinear_arith)
            requires
                rows <= 0xffff_ffffu64,
                columns <= 0xffff_ffffu64,
        ;
    }
    if rows == 0 || columns == 0 || (rows as u64) * (columns as u64) != (size as u64) {
        return Err(GridError::Format(String::from_str("inconsistent grid dimensions")));
    }
    let date_bits = le_u64_at(bytes, DATE_OFFSET);
    if ((date_bits >> 52u64) & 0x7ff) >= 1043 {
        return Err(GridError::Format(String::from_str("unreadable creation date")));
    }
    match decode_petra(bytes) {
        Ok(rec) => Ok(GridValue::from_wf_record(rec)),
        Err(e) => Err(e),
    }
}

/// Stream-source equivalence: the outcome of a grid read depends only on
/// the byte sequence delivered, never on how a source hands it over. A
/// local file read in one piece and a foreign handle answering many short
/// reads decode to exactly the same outcome as soon as the bytes they
/// deliver, accumulated in order, are the same.
pub proof fn lemma_stream_source_equivalence(whole: Seq<u8>, chunks: Seq<Seq<u8>>)
    requires
        concat_chunks(chunks) == whole,
    ensures
        read_grid_model(concat_chunks(chunks)) == read_grid_model(whole),
{
}

} // verus!
