use cgns_io::connectivity::{to_one_based, to_zero_based};
use cgns_io::element::{cgns_to_mefi, mefi_to_cgns, CgnsElementType, MeshElementType, Regularity};
use cgns_io::read::{coordinate_count, section_block, select_zone, zone_is_readable, ZoneSummary};
use cgns_io::write::{coordinate_name, plan_write, topological_dimension, MeshBlock};
use cgns_io::Error;
use mefikit::mesh::ElementType as MefiEt;
use ndarray::arr2;

// ---------------------------------------------------------------------------
// Helpers
// ---------------------------------------------------------------------------

const ALL_MESH_TYPES: [MeshElementType; 19] = [
    MeshElementType::VERTEX,
    MeshElementType::SEG2,
    MeshElementType::SEG3,
    MeshElementType::SEG4,
    MeshElementType::PLINE,
    MeshElementType::TRI3,
    MeshElementType::TRI6,
    MeshElementType::TRI7,
    MeshElementType::QUAD4,
    MeshElementType::QUAD8,
    MeshElementType::QUAD9,
    MeshElementType::PGON,
    MeshElementType::TET4,
    MeshElementType::TET10,
    MeshElementType::HEX8,
    MeshElementType::HEX21,
    MeshElementType::WEDGE6,
    MeshElementType::WEDGE15,
    MeshElementType::PHED,
];

const ALL_CGNS_TYPES: [CgnsElementType; 12] = [
    CgnsElementType::Node,
    CgnsElementType::Bar2,
    CgnsElementType::Bar3,
    CgnsElementType::Tri3,
    CgnsElementType::Tri6,
    CgnsElementType::Quad4,
    CgnsElementType::Quad8,
    CgnsElementType::Quad9,
    CgnsElementType::Tetra4,
    CgnsElementType::Tetra10,
    CgnsElementType::Hexa8,
    CgnsElementType::Other,
];

fn to_mefi(et: MeshElementType) -> MefiEt {
    match et {
        MeshElementType::VERTEX => MefiEt::VERTEX,
        MeshElementType::SEG2 => MefiEt::SEG2,
        MeshElementType::SEG3 => MefiEt::SEG3,
        MeshElementType::SEG4 => MefiEt::SEG4,
        MeshElementType::PLINE => MefiEt::PLINE,
        MeshElementType::TRI3 => MefiEt::TRI3,
        MeshElementType::TRI6 => MefiEt::TRI6,
        MeshElementType::TRI7 => MefiEt::TRI7,
        MeshElementType::QUAD4 => MefiEt::QUAD4,
        MeshElementType::QUAD8 => MefiEt::QUAD8,
        MeshElementType::QUAD9 => MefiEt::QUAD9,
        MeshElementType::PGON => MefiEt::PGON,
        MeshElementType::TET4 => MefiEt::TET4,
        MeshElementType::TET10 => MefiEt::TET10,
        MeshElementType::HEX8 => MefiEt::HEX8,
        MeshElementType::HEX21 => MefiEt::HEX21,
        MeshElementType::WEDGE6 => MefiEt::WEDGE6,
        MeshElementType::WEDGE15 => MefiEt::WEDGE15,
        MeshElementType::PHED => MefiEt::PHED,
    }
}

fn regular_block(et: MeshElementType, rows: &[&[usize]]) -> MeshBlock {
    let connectivity: Vec<usize> = rows.iter().flat_map(|r| r.iter().copied()).collect();
    MeshBlock { element_type: et, len: rows.len(), connectivity: Ok(connectivity) }
}

/// Builds a mefikit mesh (with dummy coordinates) holding the given regular blocks.
fn mefikit_mesh(blocks: &[MeshBlock], nodes: usize, dim: usize) -> mefikit::mesh::UMesh {
    let coords = ndarray::Array2::<f64>::zeros((nodes, dim));
    let mut mesh = mefikit::mesh::UMesh::new(coords.into_shared());
    for b in blocks {
        let npe = b.element_type.num_nodes().unwrap();
        let conn = b.connectivity.as_ref().unwrap().clone();
        let arr = ndarray::Array2::from_shape_vec((b.len, npe), conn).unwrap();
        mesh.add_regular_block(to_mefi(b.element_type), arr.into_shared(), None);
    }
    mesh
}

/// Writes the blocks into sections, then reads each section back into a block.
fn write_then_read(blocks: &Vec<MeshBlock>) -> Vec<(MeshElementType, usize, usize, Vec<usize>)> {
    let plan = plan_write(blocks).expect("plan");
    assert!(plan.failure.is_none());
    plan.sections
        .iter()
        .map(|s| {
            let et = cgns_to_mefi(s.element_type).expect("readable type");
            let b = section_block(et, &s.connectivity).expect("section");
            (b.element_type, b.rows, b.cols, b.data)
        })
        .collect()
}

fn tri3_blocks() -> Vec<MeshBlock> {
    vec![regular_block(MeshElementType::TRI3, &[&[0, 1, 2], &[0, 2, 3]])]
}

fn tet4_blocks() -> Vec<MeshBlock> {
    vec![regular_block(MeshElementType::TET4, &[&[0, 1, 2, 3]])]
}

fn hexa8_blocks() -> Vec<MeshBlock> {
    vec![regular_block(MeshElementType::HEX8, &[&[0, 1, 2, 3, 4, 5, 6, 7]])]
}

fn mixed_blocks() -> Vec<MeshBlock> {
    vec![
        regular_block(MeshElementType::TRI3, &[&[0, 1, 4], &[0, 4, 2]]),
        regular_block(MeshElementType::TET4, &[&[0, 1, 2, 3]]),
    ]
}

fn zone(unstructured: bool, sections: Option<Vec<Option<CgnsElementType>>>) -> ZoneSummary {
    ZoneSummary { unstructured, sections }
}

// ---------------------------------------------------------------------------
// Read: a file without standard zones
// ---------------------------------------------------------------------------

#[test]
fn unstructured_zone_without_sections_is_no_zone() {
    let bases: Vec<Option<Vec<ZoneSummary>>> = vec![Some(vec![zone(true, Some(vec![]))])];
    assert!(matches!(select_zone(&bases), Err(Error::NoZone)));
}

#[test]
fn read_particles_returns_no_zone() {
    // One base that holds no standard (structured or unstructured) zone.
    let bases: Vec<Option<Vec<ZoneSummary>>> = vec![Some(vec![])];
    let result = select_zone(&bases);
    assert!(matches!(result, Err(Error::NoZone)), "expected NoZone, got {result:?}");
}

// ---------------------------------------------------------------------------
// Element tables
// ---------------------------------------------------------------------------

#[test]
fn element_tables_are_inverse() {
    for &m in ALL_MESH_TYPES.iter() {
        for &c in ALL_CGNS_TYPES.iter() {
            assert_eq!(mefi_to_cgns(m) == Some(c), cgns_to_mefi(c) == Some(m), "{m:?} / {c:?}");
        }
    }
}

#[test]
fn element_tables_values() {
    assert_eq!(cgns_to_mefi(CgnsElementType::Node), Some(MeshElementType::VERTEX));
    assert_eq!(cgns_to_mefi(CgnsElementType::Hexa8), Some(MeshElementType::HEX8));
    assert_eq!(cgns_to_mefi(CgnsElementType::Other), None);
    assert_eq!(mefi_to_cgns(MeshElementType::TET10), Some(CgnsElementType::Tetra10));
    for et in [
        MeshElementType::SEG4,
        MeshElementType::TRI7,
        MeshElementType::HEX21,
        MeshElementType::WEDGE6,
        MeshElementType::WEDGE15,
        MeshElementType::PLINE,
        MeshElementType::PGON,
        MeshElementType::PHED,
    ] {
        assert_eq!(mefi_to_cgns(et), None, "{et:?}");
    }
}

#[test]
fn element_properties_agree_with_mefikit() {
    for &et in ALL_MESH_TYPES.iter() {
        let m = to_mefi(et);
        assert_eq!(et.num_nodes(), m.num_nodes(), "{et:?}");
        assert_eq!(et.dimension(), u8::from(m.dimension()), "{et:?}");
        let poly = m.regularity() == mefikit::mesh::Regularity::Poly;
        assert_eq!(et.regularity() == Regularity::Poly, poly, "{et:?}");
        assert_eq!(et.name(), format!("{m:?}"));
    }
}

// ---------------------------------------------------------------------------
// Connectivity numbering
// ---------------------------------------------------------------------------

#[test]
fn connectivity_numbering_roundtrip() {
    let conn = vec![0usize, 1, 2, 7, 42];
    let flat = to_one_based(&conn);
    assert_eq!(flat, vec![1i64, 2, 3, 8, 43]);
    assert_eq!(to_zero_based(&flat), conn);
}

// ---------------------------------------------------------------------------
// Read decisions
// ---------------------------------------------------------------------------

#[test]
fn zone_readability() {
    assert!(!zone_is_readable(&zone(true, Some(vec![]))));
    assert!(zone_is_readable(&zone(true, Some(vec![None, Some(CgnsElementType::Tri3)]))));
    assert!(!zone_is_readable(&zone(false, Some(vec![Some(CgnsElementType::Tri3)]))));
    assert!(!zone_is_readable(&zone(true, None)));
    assert!(!zone_is_readable(&zone(true, Some(vec![None, Some(CgnsElementType::Other)]))));
}

#[test]
fn select_first_readable_zone() {
    let bases = vec![
        None,
        Some(vec![
            zone(false, Some(vec![Some(CgnsElementType::Hexa8)])),
            zone(true, Some(vec![Some(CgnsElementType::Other)])),
        ]),
        Some(vec![
            zone(true, None),
            zone(true, Some(vec![Some(CgnsElementType::Other), Some(CgnsElementType::Tetra4)])),
            zone(true, Some(vec![])),
        ]),
    ];
    assert_eq!(select_zone(&bases).unwrap(), (2, 1));
}

#[test]
fn select_zone_none_readable() {
    let bases = vec![
        None,
        Some(vec![zone(false, Some(vec![])), zone(true, None), zone(true, Some(vec![]))]),
    ];
    assert!(matches!(select_zone(&bases), Err(Error::NoZone)));
}

#[test]
fn coordinate_columns() {
    assert_eq!(coordinate_count(2), 2);
    assert_eq!(coordinate_count(3), 3);
    assert_eq!(coordinate_count(5), 3);
    assert_eq!(coordinate_name(0), "CoordinateX");
    assert_eq!(coordinate_name(1), "CoordinateY");
    assert_eq!(coordinate_name(2), "CoordinateZ");
}

#[test]
fn section_block_reads_tet10() {
    let flat: Vec<i64> = (1..=20).collect();
    let b = section_block(MeshElementType::TET10, &flat).unwrap();
    assert_eq!(b.element_type, MeshElementType::TET10);
    assert_eq!((b.rows, b.cols), (2, 10));
    assert_eq!(b.data, (0..20).collect::<Vec<usize>>());
}

#[test]
fn section_block_partial_element_is_shape_error() {
    let flat: Vec<i64> = vec![1, 2, 3, 4];
    match section_block(MeshElementType::TRI3, &flat) {
        Err(Error::Shape(m)) => {
            assert_eq!(m, "ShapeError/IncompatibleShape: incompatible shapes")
        }
        other => panic!("expected a shape error, got {other:?}"),
    }
}

#[test]
fn section_block_empty() {
    let b = section_block(MeshElementType::QUAD4, &vec![]).unwrap();
    assert_eq!((b.rows, b.cols), (0, 4));
    assert!(b.data.is_empty());
}

// ---------------------------------------------------------------------------
// Write decisions
// ---------------------------------------------------------------------------

#[test]
fn plan_tri3() {
    let plan = plan_write(&tri3_blocks()).unwrap();
    assert_eq!(plan.cell_dim, 2);
    assert_eq!(plan.num_elements, 2);
    assert!(plan.failure.is_none());
    assert_eq!(plan.sections.len(), 1);
    let s = &plan.sections[0];
    assert_eq!(s.name, "TRI3");
    assert_eq!(s.element_type, CgnsElementType::Tri3);
    assert_eq!((s.start, s.end), (1, 2));
    assert_eq!(s.connectivity, vec![1, 2, 3, 1, 3, 4]);
}

#[test]
fn plan_mixed_counts_only_cells() {
    let plan = plan_write(&mixed_blocks()).unwrap();
    assert_eq!(plan.cell_dim, 3);
    assert_eq!(plan.num_elements, 1);
    assert_eq!(plan.sections.len(), 2);
    assert_eq!((plan.sections[0].start, plan.sections[0].end), (1, 2));
    assert_eq!(plan.sections[1].name, "TET4");
    assert_eq!((plan.sections[1].start, plan.sections[1].end), (3, 3));
    assert_eq!(plan.sections[1].connectivity, vec![1, 2, 3, 4]);
}

#[test]
fn plan_empty_mesh_is_error() {
    match plan_write(&vec![]) {
        Err(Error::Shape(m)) => assert_eq!(m, "empty mesh"),
        other => panic!("expected empty mesh error, got {other:?}"),
    }
}

#[test]
fn plan_stops_at_poly_block() {
    let blocks = vec![
        regular_block(MeshElementType::TRI3, &[&[0, 1, 2]]),
        MeshBlock { element_type: MeshElementType::PGON, len: 1, connectivity: Err("poly".into()) },
        regular_block(MeshElementType::TET4, &[&[0, 1, 2, 3]]),
    ];
    let plan = plan_write(&blocks).unwrap();
    assert_eq!(plan.cell_dim, 3);
    assert_eq!(plan.num_elements, 1);
    assert_eq!(plan.sections.len(), 1);
    match plan.failure {
        Some(Error::UnsupportedElementType(s)) => assert_eq!(s, "PGON"),
        other => panic!("expected unsupported element type, got {other:?}"),
    }
}

#[test]
fn plan_stops_at_unmapped_kind() {
    let blocks = vec![regular_block(MeshElementType::WEDGE6, &[&[0, 1, 2, 3, 4, 5]])];
    let plan = plan_write(&blocks).unwrap();
    assert!(plan.sections.is_empty());
    match plan.failure {
        Some(e @ Error::UnsupportedElementType(_)) => {
            assert_eq!(e.message(), "unsupported element type: WEDGE6")
        }
        other => panic!("expected unsupported element type, got {other:?}"),
    }
}

#[test]
fn plan_stops_at_missing_connectivity() {
    let blocks = vec![
        regular_block(MeshElementType::SEG2, &[&[0, 1]]),
        MeshBlock { element_type: MeshElementType::QUAD4, len: 0, connectivity: Err("no data".into()) },
    ];
    let plan = plan_write(&blocks).unwrap();
    assert_eq!(plan.sections.len(), 1);
    match plan.failure {
        Some(Error::Shape(m)) => assert_eq!(m, "no data"),
        other => panic!("expected a shape error, got {other:?}"),
    }
}

#[test]
fn topological_dimension_agrees_with_mefikit() {
    for (blocks, nodes, dim) in [
        (tri3_blocks(), 4, 2),
        (tet4_blocks(), 4, 3),
        (hexa8_blocks(), 8, 3),
        (mixed_blocks(), 5, 3),
    ] {
        let mesh = mefikit_mesh(&blocks, nodes, dim);
        let expected = mesh.topological_dimension().map(u8::from);
        assert_eq!(topological_dimension(&blocks), expected);
    }
    assert_eq!(topological_dimension(&vec![]), None);
}

// ---------------------------------------------------------------------------
// What reading gives back of writing
// ---------------------------------------------------------------------------

#[test]
fn tri3_blocks_roundtrip() {
    let back = write_then_read(&tri3_blocks());
    assert_eq!(back, vec![(MeshElementType::TRI3, 2, 3, vec![0, 1, 2, 0, 2, 3])]);
}

#[test]
fn tet4_blocks_roundtrip() {
    let back = write_then_read(&tet4_blocks());
    assert_eq!(back, vec![(MeshElementType::TET4, 1, 4, vec![0, 1, 2, 3])]);
}

#[test]
fn hexa8_blocks_roundtrip() {
    let back = write_then_read(&hexa8_blocks());
    assert_eq!(back, vec![(MeshElementType::HEX8, 1, 8, vec![0, 1, 2, 3, 4, 5, 6, 7])]);
}

#[test]
fn mixed_blocks_roundtrip() {
    let back = write_then_read(&mixed_blocks());
    assert_eq!(
        back,
        vec![
            (MeshElementType::TRI3, 2, 3, vec![0, 1, 4, 0, 4, 2]),
            (MeshElementType::TET4, 1, 4, vec![0, 1, 2, 3]),
        ]
    );
}

#[test]
fn written_zone_is_selected() {
    let plan = plan_write(&mixed_blocks()).unwrap();
    let types = plan.sections.iter().map(|s| Some(s.element_type)).collect();
    let bases = vec![Some(vec![zone(true, Some(types))])];
    assert_eq!(select_zone(&bases).unwrap(), (0, 0));
}

// ---------------------------------------------------------------------------
// Error messages
// ---------------------------------------------------------------------------

#[test]
fn error_messages() {
    assert_eq!(Error::Cgns("file not found".into()).message(), "CGNS: file not found");
    assert_eq!(
        Error::UnsupportedElementType("PHED".into()).message(),
        "unsupported element type: PHED"
    );
    assert_eq!(Error::NoZone.message(), "no unstructured zone found");
    assert_eq!(Error::Shape("empty mesh".into()).message(), "array shape error: empty mesh");
}
