use vstd::prelude::*;
use crate::units::UnitOfMeasure;

verus! {

/// A calendar timestamp with microsecond resolution and no timezone, as the
/// grid format records creation dates.
#[derive(Copy, Clone, Debug, PartialEq, Eq, Structural)]
pub struct Timestamp {
    pub year: i32,
    /// calendar month, `1 ..= 12`
    pub month: u8,
    /// day of the month, `1 ..= 31`
    pub day: u8,
    /// hour of the day, `0 ..= 23`
    pub hour: u8,
    /// minute, `0 ..= 59`
    pub minute: u8,
    /// second, `0 ..= 59`
    pub second: u8,
    /// microsecond, `0 ..= 999_999`
    pub microsecond: u32,
}

impl Timestamp {
    /// The components stay within their calendar ranges.
    pub open spec fn wf(self) -> bool {
        &&& 1 <= self.month <= 12
        &&& 1 <= self.day <= 31
        &&& self.hour <= 23
        &&& self.minute <= 59
        &&& self.second <= 59
        &&& self.microsecond <= 999_999
    }
}

/// Identity and dimensioning fields of a decoded grid.
#[derive(Clone, Debug)]
pub struct GridHeader {
    /// format version number; observed files always carry 2
    pub version: u32,
    /// the grid name
    pub name: String,
    /// total cell count (`rows * columns`)
    pub size: u32,
    /// row count along the *y* dimension
    pub rows: u32,
    /// column count along the *x* dimension
    pub columns: u32,
    /// triangle count; zero exactly when the grid is rectangular
    pub n_triangles: u32,
}

/// Spatial bounds and steps of a grid. Every field is the IEEE-754 bit
/// pattern of the decoded double-precision value.
#[derive(Copy, Clone, Debug, PartialEq, Eq, Structural)]
pub struct GridBounds {
    pub xmin: u64,
    pub xmax: u64,
    pub ymin: u64,
    pub ymax: u64,
    pub xstep: u64,
    pub ystep: u64,
    pub zmin: u64,
    pub zmax: u64,
}

/// Free-text and opaque metadata carried by a grid. The numeric codes are
/// exposed as decoded, since their meaning is undocumented; `cm` and `rlat`
/// are IEEE-754 bit patterns of double-precision values.
#[derive(Clone, Debug)]
pub struct GridMetadata {
    pub source_data: String,
    pub unknown_metadata: String,
    pub projection: String,
    pub datum: String,
    pub grid_method: u32,
    pub projection_code: u32,
    pub cm: u64,
    pub rlat: u64,
}

/// The grid data proper. Exactly one variant is populated.
///
/// Each element is the IEEE-754 bit pattern of a double-precision value.
///
/// `Rectangular` holds one *z* value per cell in row-major order with
/// `rows * columns` elements: the values in each row proceed along the *x*
/// dimension, and the rows proceed along the *y* dimension from south to
/// north (row 0 is the southernmost row). No transposition or axis flip is
/// applied.
///
/// `Triangular` holds `n_triangles * 3 * 3` elements, flattened row-major
/// from the logical shape (triangle, vertex, coordinate): triangle by
/// triangle, each as three vertices in decoded (believed counterclockwise)
/// order, each vertex as its (*x*, *y*, *z*) coordinates.
#[derive(Clone, Debug)]
pub enum GridData {
    Rectangular(Vec<u64>),
    Triangular(Vec<u64>),
}

/// Mathematical model of [`GridData`].
pub enum DataModel {
    Rectangular(Seq<u64>),
    Triangular(Seq<u64>),
}

impl View for GridData {
    type V = DataModel;

    open spec fn view(&self) -> DataModel {
        match self {
            GridData::Rectangular(v) => DataModel::Rectangular(v@),
            GridData::Triangular(v) => DataModel::Triangular(v@),
        }
    }
}

/// One fully decoded grid record, over plain values only.
#[derive(Clone, Debug)]
pub struct GridRecord {
    pub header: GridHeader,
    pub bounds: GridBounds,
    /// units of measure in the *x* and *y* dimensions
    pub xyunits: UnitOfMeasure,
    /// units of measure in the *z* dimension
    pub zunits: UnitOfMeasure,
    /// date of creation (possibly of last modification) recorded in the file
    pub created_date: Timestamp,
    pub metadata: GridMetadata,
    pub data: GridData,
}

/// Mathematical model of a decoded grid record: one flat value per field.
pub struct RecordModel {
    pub version: u32,
    pub name: Seq<char>,
    pub size: u32,
    pub rows: u32,
    pub columns: u32,
    pub n_triangles: u32,
    pub xmin: u64,
    pub xmax: u64,
    pub ymin: u64,
    pub ymax: u64,
    pub xstep: u64,
    pub ystep: u64,
    pub zmin: u64,
    pub zmax: u64,
    pub xyunits: UnitOfMeasure,
    pub zunits: UnitOfMeasure,
    pub created_date: Timestamp,
    pub source_data: Seq<char>,
    pub unknown_metadata: Seq<char>,
    pub projection: Seq<char>,
    pub datum: Seq<char>,
    pub grid_method: u32,
    pub projection_code: u32,
    pub cm: u64,
    pub rlat: u64,
    pub data: DataModel,
}

impl View for GridRecord {
    type V = RecordModel;

    open spec fn view(&self) -> RecordModel {
        RecordModel {
            version: self.header.version,
            name: self.header.name@,
            size: self.header.size,
            rows: self.header.rows,
            columns: self.header.columns,
            n_triangles: self.header.n_triangles,
            xmin: self.bounds.xmin,
            xmax: self.bounds.xmax,
            ymin: self.bounds.ymin,
            ymax: self.bounds.ymax,
            xstep: self.bounds.xstep,
            ystep: self.bounds.ystep,
            zmin: self.bounds.zmin,
            zmax: self.bounds.zmax,
            xyunits: self.xyunits,
            zunits: self.zunits,
            created_date: self.created_date,
            source_data: self.metadata.source_data@,
            unknown_metadata: self.metadata.unknown_metadata@,
            projection: self.metadata.projection@,
            datum: self.metadata.datum@,
            grid_method: self.metadata.grid_method,
            projection_code: self.metadata.projection_code,
            cm: self.metadata.cm,
            rlat: self.metadata.rlat,
            data: self.data@,
        }
    }
}

impl RecordModel {
    /// The record holds rectangular data.
    pub open spec fn is_rectangular(self) -> bool {
        self.data is Rectangular
    }

    /// The record holds triangular data.
    pub open spec fn is_triangular(self) -> bool {
        self.data is Triangular
    }

    /// Well-formedness of a decoded record: the data array's length matches
    /// the shape announced by the header — `(rows, columns)` flattened for a
    /// rectangular grid, `(n_triangles, 3, 3)` flattened for a triangular
    /// one — the triangle count is zero exactly for rectangular grids, and
    /// the timestamp is a calendar value.
    pub open spec fn wf(self) -> bool {
        &&& match self.data {
            DataModel::Rectangular(s) => self.n_triangles == 0 && s.len()
                == self.rows * self.columns,
            DataModel::Triangular(s) => self.n_triangles > 0 && s.len() == self.n_triangles * 9,
        }
        &&& self.created_date.wf()
    }
}

} // verus!
