use petra_bridge::{read_grid_bytes, GridData, GridValue, UnitOfMeasure};

fn put_u32(buf: &mut [u8], off: usize, v: u32) {
    buf[off..off + 4].copy_from_slice(&v.to_le_bytes());
}

fn put_f64(buf: &mut [u8], off: usize, v: f64) {
    buf[off..off + 8].copy_from_slice(&v.to_le_bytes());
}

fn put_str(buf: &mut [u8], off: usize, s: &str) {
    buf[off..off + s.len()].copy_from_slice(s.as_bytes());
}

/// A minimal synthetic byte stream holding one grid: 2 rows by 2 columns
/// with known bounds and units, or one triangle when `n_triangles` is 1.
fn base_stream(data: &[f64], n_triangles: u32) -> Vec<u8> {
    let mut b = vec![0u8; 4508 + 8 * data.len()];
    put_u32(&mut b, 0, 2); // version
    put_str(&mut b, 4, "TESTGRID"); // name, null-padded
    put_u32(&mut b, 85, 4); // size = rows * columns
    put_f64(&mut b, 89, 100.0); // xmin
    put_f64(&mut b, 97, 110.0); // xmax
    put_f64(&mut b, 105, 200.0); // ymin
    put_f64(&mut b, 113, 210.0); // ymax
    put_f64(&mut b, 121, 10.0); // xstep
    put_f64(&mut b, 129, 10.0); // ystep
    put_f64(&mut b, 137, 1.0); // zmin
    put_f64(&mut b, 145, 4.0); // zmax
    put_f64(&mut b, 185, -98.5); // cm
    put_f64(&mut b, 193, 29.75); // rlat
    put_f64(&mut b, 225, 36526.5); // creation date: 2000-01-01 12:00
    put_u32(&mut b, 1021, 2); // rows
    put_u32(&mut b, 1025, 2); // columns
    put_u32(&mut b, 1029, 3); // grid_method
    put_u32(&mut b, 1033, 17); // projection_code
    put_u32(&mut b, 1037, 0); // xyunits code: feet
    put_u32(&mut b, 1065, 1); // zunits code: meters
    put_u32(&mut b, 1073, n_triangles);
    put_str(&mut b, 1465, "SRC");
    put_str(&mut b, 2239, "C66");
    put_str(&mut b, 4248, "TX-27C");
    put_str(&mut b, 4313, "NAD27");
    for (i, v) in data.iter().enumerate() {
        put_f64(&mut b, 4508 + 8 * i, *v);
    }
    b
}

fn rect_stream() -> Vec<u8> {
    base_stream(&[1.0, 2.0, 3.0, 4.0], 0)
}

fn assert_rect_grid(g: &GridValue) {
    assert_eq!(g.get_version(), 2);
    assert_eq!(g.get_name().as_str(), "TESTGRID");
    assert_eq!(g.get_size(), 4);
    assert_eq!(g.get_rows(), 2);
    assert_eq!(g.get_columns(), 2);
    assert_eq!(g.get_n_triangles(), 0);
    assert_eq!(g.get_xmin(), 100.0f64.to_bits());
    assert_eq!(g.get_xmax(), 110.0f64.to_bits());
    assert_eq!(g.get_ymin(), 200.0f64.to_bits());
    assert_eq!(g.get_ymax(), 210.0f64.to_bits());
    assert_eq!(g.get_xstep(), 10.0f64.to_bits());
    assert_eq!(g.get_ystep(), 10.0f64.to_bits());
    assert_eq!(g.get_zmin(), 1.0f64.to_bits());
    assert_eq!(g.get_zmax(), 4.0f64.to_bits());
    assert_eq!(g.get_xyunits(), UnitOfMeasure::Feet);
    assert_eq!(g.get_zunits(), UnitOfMeasure::Meters);
    assert_eq!(g.get_cm(), (-98.5f64).to_bits());
    assert_eq!(g.get_rlat(), 29.75f64.to_bits());
    assert_eq!(g.get_source_data().as_str(), "SRC");
    assert_eq!(g.get_unknown_metadata().as_str(), "C66");
    assert_eq!(g.get_projection().as_str(), "TX-27C");
    assert_eq!(g.get_datum().as_str(), "NAD27");
    assert_eq!(g.get_grid_method(), 3);
    assert_eq!(g.get_projection_code(), 17);
    let d = g.get_created_date();
    assert_eq!(d.year, 2000);
    assert_eq!(d.month, 1);
    assert_eq!(d.day, 1);
    assert_eq!(d.hour, 12);
    assert_eq!(d.minute, 0);
    assert_eq!(d.second, 0);
    assert_eq!(d.microsecond, 0);
    assert!(g.get_is_rectangular());
    assert!(!g.get_is_triangular());
    match g.get_data() {
        GridData::Rectangular(v) => {
            // row 0 is the southernmost row, values exactly as encoded
            assert_eq!(v.len(), 4);
            assert_eq!(v[0], 1.0f64.to_bits());
            assert_eq!(v[1], 2.0f64.to_bits());
            assert_eq!(v[2], 3.0f64.to_bits());
            assert_eq!(v[3], 4.0f64.to_bits());
        },
        GridData::Triangular(_) => panic!("expected rectangular data"),
    }
}

#[test]
fn round_trip_rectangular_grid() {
    let g = read_grid_bytes(&rect_stream()).expect("synthetic stream must decode");
    assert_rect_grid(&g);
}

#[test]
fn rectangular_shape_matches_header() {
    let g = read_grid_bytes(&rect_stream()).unwrap();
    match g.get_data() {
        GridData::Rectangular(v) => {
            assert_eq!(v.len() as u64, g.get_rows() as u64 * g.get_columns() as u64);
        },
        GridData::Triangular(_) => panic!("expected rectangular data"),
    }
}

#[test]
fn triangular_grid_decodes() {
    // one triangle; the file stores the three x values, then the three y
    // values, then the three z values
    let file_order = [10.0, 20.0, 30.0, 11.0, 21.0, 31.0, 12.0, 22.0, 32.0];
    let g = read_grid_bytes(&base_stream(&file_order, 1)).expect("triangular stream must decode");
    assert!(g.get_is_triangular());
    assert!(!g.get_is_rectangular());
    assert_eq!(g.get_n_triangles(), 1);
    match g.get_data() {
        GridData::Triangular(v) => {
            // flattened vertex by vertex: (x, y, z) per vertex
            let logical: [f64; 9] = [10.0, 11.0, 12.0, 20.0, 21.0, 22.0, 30.0, 31.0, 32.0];
            assert_eq!(v.len(), 9);
            for (got, want) in v.iter().zip(logical.iter()) {
                assert_eq!(*got, want.to_bits());
            }
        },
        GridData::Rectangular(_) => panic!("expected triangular data"),
    }
}

#[test]
fn null_sentinel_becomes_nan() {
    let g = read_grid_bytes(&base_stream(&[1e30, 2.0, 3.0, 4.0], 0)).unwrap();
    match g.get_data() {
        GridData::Rectangular(v) => assert_eq!(v[0], f64::NAN.to_bits()),
        GridData::Triangular(_) => panic!("expected rectangular data"),
    }
}

#[test]
fn short_reads_accumulate_to_same_grid() {
    let whole = rect_stream();
    for chunk_len in [1usize, 7, 1000] {
        let mut acc: Vec<u8> = Vec::new();
        for chunk in whole.chunks(chunk_len) {
            let piece = chunk.to_vec();
            let done = petra_bridge::stream::append_chunk(&mut acc, &piece);
            assert!(!done);
        }
        let done = petra_bridge::stream::append_chunk(&mut acc, &Vec::new());
        assert!(done);
        assert_eq!(acc, whole);
        let g = read_grid_bytes(&acc).expect("accumulated stream must decode");
        assert_rect_grid(&g);
    }
}

#[test]
fn truncated_stream_is_format_error() {
    for len in [0usize, 100, 2000, 4507] {
        let whole = rect_stream();
        let cut = whole[..len].to_vec();
        let e = read_grid_bytes(&cut).expect_err("truncated stream must fail");
        assert!(!e.is_io_category());
        assert_eq!(e.message().as_str(), "truncated grid stream");
    }
}

#[test]
fn corrupted_unit_code_is_format_error() {
    let mut b = rect_stream();
    put_u32(&mut b, 1037, 7); // unknown xy unit code
    let e = read_grid_bytes(&b).expect_err("unknown unit code must fail");
    assert!(!e.is_io_category());
    assert!(e.message().contains("7"));

    let mut b = rect_stream();
    put_u32(&mut b, 1065, 9); // unknown z unit code
    let e = read_grid_bytes(&b).expect_err("unknown unit code must fail");
    assert!(!e.is_io_category());
}

#[test]
fn inconsistent_dimensions_is_format_error() {
    let mut b = rect_stream();
    put_u32(&mut b, 85, 5); // size != rows * columns
    let e = read_grid_bytes(&b).expect_err("dimension mismatch must fail");
    assert!(!e.is_io_category());
    assert_eq!(e.message().as_str(), "inconsistent grid dimensions");

    let mut b = rect_stream();
    put_u32(&mut b, 1021, 0); // zero rows
    put_u32(&mut b, 85, 0);
    let e = read_grid_bytes(&b).expect_err("zero rows must fail");
    assert!(!e.is_io_category());
    assert_eq!(e.message().as_str(), "inconsistent grid dimensions");
}

#[test]
fn unreadable_date_is_format_error() {
    let mut b = rect_stream();
    put_f64(&mut b, 225, f64::INFINITY);
    let e = read_grid_bytes(&b).expect_err("non-finite date must fail");
    assert!(!e.is_io_category());
    assert_eq!(e.message().as_str(), "unreadable creation date");

    let mut b = rect_stream();
    put_f64(&mut b, 225, 1.0e18); // finite but far outside any calendar
    let e = read_grid_bytes(&b).expect_err("huge date must fail");
    assert!(!e.is_io_category());
    assert_eq!(e.message().as_str(), "unreadable creation date");
}

#[test]
fn data_length_mismatch_is_format_error() {
    // one trailing cell too many: the data section no longer holds exactly
    // size cells
    let mut b = rect_stream();
    b.extend_from_slice(&[0u8; 8]);
    let e = read_grid_bytes(&b).expect_err("odd data length must fail");
    assert!(!e.is_io_category());
}
