use vstd::prelude::*;
use crate::error::GridError;
use crate::record::{DataModel, GridData, GridRecord, RecordModel, Timestamp};
use crate::units::UnitOfMeasure;

verus! {

/// A decoded grid, exposed through read-only accessors.
///
/// A `GridValue` always wraps a well-formed record: every constructor checks (or
/// proves) [`RecordModel::wf`] before wrapping, so every accessor is total.
/// All scalar double-precision values are exposed as their IEEE-754 bit
/// patterns.
#[derive(Clone, Debug)]
pub struct GridValue {
    rec: GridRecord,
}

impl View for GridValue {
    type V = RecordModel;

    closed spec fn view(&self) -> RecordModel {
        self.rec@
    }
}

impl GridValue {
    /// Wraps a record known to be well-formed.
    pub(crate) fn from_wf_record(rec: GridRecord) -> (r: GridValue)
        requires
            rec@.wf(),
        ensures
            r@ == rec@,
    {
        GridValue { rec }
    }

    /// Wraps a record, checking its well-formedness: the data length must
    /// match the announced shape, the triangle count must be zero exactly
    /// for rectangular data, and the timestamp must be a calendar value.
    /// A record failing the check is rejected with a format-category error
    /// and no grid value is produced.
    pub fn from_record(rec: GridRecord) -> (r: Result<GridValue, GridError>)
        ensures
            rec@.wf() ==> (r matches Ok(g) && g@ == rec@),
            !rec@.wf() ==> (r matches Err(e) && e@ is Format),
    {
        let dims_ok: bool = match &rec.data {
            GridData::Rectangular(v) => {
                proof {
                    assert((rec.header.rows as u64) * (rec.header.columns as u64) < 0x1_0000_0000_0000_0000)
                        by (nonlinear_arith)
                        requires
                            rec.header.rows <= 0xffff_ffffu64,
                            rec.header.columns <= 0xffff_ffffu64,
                    ;
                }
                rec.header.n_triangles == 0 && (v.len() as u64) == (rec.header.rows as u64) * (
                rec.header.columns as u64)
            },
            GridData::Triangular(v) => {
                rec.header.n_triangles > 0 && (v.len() as u64) == (rec.header.n_triangles as u64)
                    * 9
            },
        };
        let d = &rec.created_date;
        let date_ok: bool = 1 <= d.month && d.month <= 12 && 1 <= d.day && d.day <= 31 && d.hour
            <= 23 && d.minute <= 59 && d.second <= 59 && d.microsecond <= 999_999;
        if dims_ok && date_ok {
            Ok(GridValue::from_wf_record(rec))
        } else {
            Err(GridError::Format(String::from_str("grid record is not well-formed")))
        }
    }

    /// The format version number; observed files always carry 2.
    pub fn get_version(&self) -> (r: u32)
        ensures
            r == self@.version,
    {
        self.rec.header.version
    }

    /// The grid name.
    pub fn get_name(&self) -> (r: &String)
        ensures
            r@ == self@.name,
    {
        &self.rec.header.name
    }

    /// The total cell count (`rows * columns`) for a rectangular grid;
    /// believed to be the pre-triangulation size for triangular grids.
    pub fn get_size(&self) -> (r: u32)
        ensures
            r == self@.size,
    {
        self.rec.header.size
    }

    /// The row count (in the *y* dimension) for a rectangular grid;
    /// believed to be the pre-triangulation row count for triangular grids.
    pub fn get_rows(&self) -> (r: u32)
        ensures
            r == self@.rows,
    {
        self.rec.header.rows
    }

    /// The column count (in the *x* dimension) for a rectangular grid;
    /// believed to be the pre-triangulation column count for triangular
    /// grids.
    pub fn get_columns(&self) -> (r: u32)
        ensures
            r == self@.columns,
    {
        self.rec.header.columns
    }

    /// The triangle count; zero exactly when the grid is rectangular.
    pub fn get_n_triangles(&self) -> (r: u32)
        ensures
            r == self@.n_triangles,
    {
        self.rec.header.n_triangles
    }

    /// Minimum bound in the *x* dimension (IEEE-754 bit pattern).
    pub fn get_xmin(&self) -> (r: u64)
        ensures
            r == self@.xmin,
    {
        self.rec.bounds.xmin
    }

    /// Maximum bound in the *x* dimension (IEEE-754 bit pattern).
    pub fn get_xmax(&self) -> (r: u64)
        ensures
            r == self@.xmax,
    {
        self.rec.bounds.xmax
    }

    /// Minimum bound in the *y* dimension (IEEE-754 bit pattern).
    pub fn get_ymin(&self) -> (r: u64)
        ensures
            r == self@.ymin,
    {
        self.rec.bounds.ymin
    }

    /// Maximum bound in the *y* dimension (IEEE-754 bit pattern).
    pub fn get_ymax(&self) -> (r: u64)
        ensures
            r == self@.ymax,
    {
        self.rec.bounds.ymax
    }

    /// Step in the *x* dimension (IEEE-754 bit pattern).
    pub fn get_xstep(&self) -> (r: u64)
        ensures
            r == self@.xstep,
    {
        self.rec.bounds.xstep
    }

    /// Step in the *y* dimension (IEEE-754 bit pattern).
    pub fn get_ystep(&self) -> (r: u64)
        ensures
            r == self@.ystep,
    {
        self.rec.bounds.ystep
    }

    /// Minimum value in the *z* dimension (IEEE-754 bit pattern).
    pub fn get_zmin(&self) -> (r: u64)
        ensures
            r == self@.zmin,
    {
        self.rec.bounds.zmin
    }

    /// Maximum value in the *z* dimension (IEEE-754 bit pattern).
    pub fn get_zmax(&self) -> (r: u64)
        ensures
            r == self@.zmax,
    {
        self.rec.bounds.zmax
    }

    /// Units of measure in the *x* and *y* dimensions.
    pub fn get_xyunits(&self) -> (r: UnitOfMeasure)
        ensures
            r == self@.xyunits,
    {
        self.rec.xyunits
    }

    /// Units of measure in the *z* dimension.
    pub fn get_zunits(&self) -> (r: UnitOfMeasure)
        ensures
            r == self@.zunits,
    {
        self.rec.zunits
    }

    /// Date of creation (possibly of last modification) recorded in the
    /// file, as a structured calendar value with no timezone attached — the
    /// format carries none.
    pub fn get_created_date(&self) -> (r: Timestamp)
        ensures
            r == self@.created_date,
    {
        self.rec.created_date
    }

    /// Believed to describe the source of the data used in gridding.
    pub fn get_source_data(&self) -> (r: &String)
        ensures
            r@ == self@.source_data,
    {
        &self.rec.metadata.source_data
    }

    /// Opaque metadata of unknown meaning; observed files always carry
    /// "C66".
    pub fn get_unknown_metadata(&self) -> (r: &String)
        ensures
            r@ == self@.unknown_metadata,
    {
        &self.rec.metadata.unknown_metadata
    }

    /// Believed to describe the map projection (e.g. "TX-27C").
    pub fn get_projection(&self) -> (r: &String)
        ensures
            r@ == self@.projection,
    {
        &self.rec.metadata.projection
    }

    /// Believed to describe the map datum (e.g. "NAD27").
    pub fn get_datum(&self) -> (r: &String)
        ensures
            r@ == self@.datum,
    {
        &self.rec.metadata.datum
    }

    /// Believed to encode the gridding method; exposed as decoded, since
    /// its meaning is undocumented.
    pub fn get_grid_method(&self) -> (r: u32)
        ensures
            r == self@.grid_method,
    {
        self.rec.metadata.grid_method
    }

    /// Believed to encode the map projection; exposed as decoded, since its
    /// meaning is undocumented.
    pub fn get_projection_code(&self) -> (r: u32)
        ensures
            r == self@.projection_code,
    {
        self.rec.metadata.projection_code
    }

    /// Logged by the interpretation tool as "CM", perhaps a central
    /// meridian (IEEE-754 bit pattern).
    pub fn get_cm(&self) -> (r: u64)
        ensures
            r == self@.cm,
    {
        self.rec.metadata.cm
    }

    /// Logged by the interpretation tool as "RLAT", perhaps a reference
    /// latitude (IEEE-754 bit pattern).
    pub fn get_rlat(&self) -> (r: u64)
        ensures
            r == self@.rlat,
    {
        self.rec.metadata.rlat
    }

    /// The grid data, exactly as decoded: no value is transposed, flipped
    /// or reordered. See [`GridData`] for the layout of each variant.
    pub fn get_data(&self) -> (r: &GridData)
        ensures
            r@ == self@.data,
    {
        &self.rec.data
    }

    /// Whether this is a rectangular grid.
    pub fn get_is_rectangular(&self) -> (r: bool)
        ensures
            r == self@.is_rectangular(),
    {
        match &self.rec.data {
            GridData::Rectangular(_) => true,
            GridData::Triangular(_) => false,
        }
    }

    /// Whether this is a triangular grid.
    pub fn get_is_triangular(&self) -> (r: bool)
        ensures
            r == self@.is_triangular(),
    {
        match &self.rec.data {
            GridData::Rectangular(_) => false,
            GridData::Triangular(_) => true,
        }
    }

    /// A deterministic, human-readable dump of every field, for diagnostics
    /// only — not meant to be parsed.
    ///
    /// Relies on the standard formatting machinery: the derived `Debug`
    /// rendering of the wrapped record.
    #[verifier::external_body]
    pub fn repr(&self) -> String {
        format!("{:?}", self.rec)
    }
}

/// Exactly one of the two data shapes is populated in a well-formed record,
/// and the triangle count tells them apart: a record is rectangular exactly
/// when it is not triangular, and exactly when `n_triangles` is zero.
pub proof fn lemma_shape_tag_exclusive(m: RecordModel)
    requires
        m.wf(),
    ensures
        m.is_rectangular() <==> !m.is_triangular(),
        m.is_rectangular() <==> m.n_triangles == 0,
{
}

/// In a well-formed record the data array's flattened length matches the
/// announced shape exactly: `rows * columns` elements for a rectangular
/// grid, `n_triangles * 3 * 3` for a triangular one.
pub proof fn lemma_data_shape(m: RecordModel)
    requires
        m.wf(),
    ensures
        m.data matches DataModel::Rectangular(s) ==> s.len() == m.rows * m.columns,
        m.data matches DataModel::Triangular(s) ==> s.len() == m.n_triangles * 9,
{
}

} // verus!

