//! Element kinds on both sides of the conversion: the mesh model's element types (the
//! vocabulary of mefikit meshes) and the CGNS section element types, with the
//! correspondence between them.
use vstd::prelude::*;

verus! {

/// Element kinds of an unstructured mesh, in the order in which the mesh model ranks them.
///
/// The names are those of mefikit's `ElementType`; `PLINE`, `PGON` and `PHED` are the
/// poly elements, with an arbitrary number of nodes.
#[allow(non_camel_case_types)]
#[derive(Clone, Copy, Debug, PartialEq, Eq, Structural)]
pub enum MeshElementType {
    VERTEX,
    SEG2,
    SEG3,
    SEG4,
    PLINE,
    TRI3,
    TRI6,
    TRI7,
    QUAD4,
    QUAD8,
    QUAD9,
    PGON,
    TET4,
    TET10,
    HEX8,
    HEX21,
    WEDGE6,
    WEDGE15,
    PHED,
}

/// Whether an element kind has a fixed number of nodes.
#[derive(Clone, Copy, Debug, PartialEq, Eq, Structural)]
pub enum Regularity {
    Regular,
    Poly,
}

/// Element types of a CGNS element section.
///
/// The named variants are those that have a counterpart in the mesh model; every other
/// CGNS element type (pyramids, pentahedra, higher-order cells, `MIXED`, `NGON_n`, ...)
/// is `Other`.
#[derive(Clone, Copy, Debug, PartialEq, Eq, Structural)]
pub enum CgnsElementType {
    Node,
    Bar2,
    Bar3,
    Tri3,
    Tri6,
    Quad4,
    Quad8,
    Quad9,
    Tetra4,
    Tetra10,
    Hexa8,
    Other,
}

impl MeshElementType {
    /// Position of the kind in the model's order (0 for `VERTEX` up to 18 for `PHED`).
    pub open spec fn rank(self) -> nat {
        match self {
            MeshElementType::VERTEX => 0,
            MeshElementType::SEG2 => 1,
            MeshElementType::SEG3 => 2,
            MeshElementType::SEG4 => 3,
            MeshElementType::PLINE => 4,
            MeshElementType::TRI3 => 5,
            MeshElementType::TRI6 => 6,
            MeshElementType::TRI7 => 7,
            MeshElementType::QUAD4 => 8,
            MeshElementType::QUAD8 => 9,
            MeshElementType::QUAD9 => 10,
            MeshElementType::PGON => 11,
            MeshElementType::TET4 => 12,
            MeshElementType::TET10 => 13,
            MeshElementType::HEX8 => 14,
            MeshElementType::HEX21 => 15,
            MeshElementType::WEDGE6 => 16,
            MeshElementType::WEDGE15 => 17,
            MeshElementType::PHED => 18,
        }
    }

    /// Topological dimension: 0 for points, 1 for lines, 2 for faces, 3 for cells.
    pub open spec fn dim(self) -> u8 {
        match self {
            MeshElementType::VERTEX => 0,
            MeshElementType::SEG2 | MeshElementType::SEG3 | MeshElementType::SEG4
            | MeshElementType::PLINE => 1,
            MeshElementType::TRI3 | MeshElementType::TRI6 | MeshElementType::TRI7
            | MeshElementType::QUAD4 | MeshElementType::QUAD8 | MeshElementType::QUAD9
            | MeshElementType::PGON => 2,
            _ => 3,
        }
    }

    /// True of the poly kinds, whose elements have any number of nodes.
    pub open spec fn is_poly(self) -> bool {
        self == MeshElementType::PLINE || self == MeshElementType::PGON
            || self == MeshElementType::PHED
    }

    /// Number of nodes of every element of the kind; `None` for the poly kinds.
    pub open spec fn nodes_per_element(self) -> Option<usize> {
        match self {
            MeshElementType::VERTEX => Some(1),
            MeshElementType::SEG2 => Some(2),
            MeshElementType::SEG3 => Some(3),
            MeshElementType::SEG4 => Some(4),
            MeshElementType::TRI3 => Some(3),
            MeshElementType::TRI6 => Some(6),
            MeshElementType::TRI7 => Some(7),
            MeshElementType::QUAD4 => Some(4),
            MeshElementType::QUAD8 => Some(8),
            MeshElementType::QUAD9 => Some(9),
            MeshElementType::TET4 => Some(4),
            MeshElementType::TET10 => Some(10),
            MeshElementType::WEDGE6 => Some(6),
            MeshElementType::WEDGE15 => Some(15),
            MeshElementType::HEX8 => Some(8),
            MeshElementType::HEX21 => Some(21),
            _ => None,
        }
    }

    /// The kind's name as the mesh model spells it (`"TRI3"`, `"HEX8"`, ...).
    pub open spec fn name_spec(self) -> Seq<char> {
        match self {
            MeshElementType::VERTEX => "VERTEX"@,
            MeshElementType::SEG2 => "SEG2"@,
            MeshElementType::SEG3 => "SEG3"@,
            MeshElementType::SEG4 => "SEG4"@,
            MeshElementType::PLINE => "PLINE"@,
            MeshElementType::TRI3 => "TRI3"@,
            MeshElementType::TRI6 => "TRI6"@,
            MeshElementType::TRI7 => "TRI7"@,
            MeshElementType::QUAD4 => "QUAD4"@,
            MeshElementType::QUAD8 => "QUAD8"@,
            MeshElementType::QUAD9 => "QUAD9"@,
            MeshElementType::PGON => "PGON"@,
            MeshElementType::TET4 => "TET4"@,
            MeshElementType::TET10 => "TET10"@,
            MeshElementType::HEX8 => "HEX8"@,
            MeshElementType::HEX21 => "HEX21"@,
            MeshElementType::WEDGE6 => "WEDGE6"@,
            MeshElementType::WEDGE15 => "WEDGE15"@,
            MeshElementType::PHED => "PHED"@,
        }
    }

    /// The kind's name (`"TRI3"`, `"HEX8"`, ...), used for section names and in errors.
    pub fn name(&self) -> (s: String)
        ensures
            s@ == self.name_spec(),
    {
        match self {
            MeshElementType::VERTEX => String::from_str("VERTEX"),
            MeshElementType::SEG2 => String::from_str("SEG2"),
            MeshElementType::SEG3 => String::from_str("SEG3"),
            MeshElementType::SEG4 => String::from_str("SEG4"),
            MeshElementType::PLINE => String::from_str("PLINE"),
            MeshElementType::TRI3 => String::from_str("TRI3"),
            MeshElementType::TRI6 => String::from_str("TRI6"),
            MeshElementType::TRI7 => String::from_str("TRI7"),
            MeshElementType::QUAD4 => String::from_str("QUAD4"),
            MeshElementType::QUAD8 => String::from_str("QUAD8"),
            MeshElementType::QUAD9 => String::from_str("QUAD9"),
            MeshElementType::PGON => String::from_str("PGON"),
            MeshElementType::TET4 => String::from_str("TET4"),
            MeshElementType::TET10 => String::from_str("TET10"),
            MeshElementType::HEX8 => String::from_str("HEX8"),
            MeshElementType::HEX21 => String::from_str("HEX21"),
            MeshElementType::WEDGE6 => String::from_str("WEDGE6"),
            MeshElementType::WEDGE15 => String::from_str("WEDGE15"),
            MeshElementType::PHED => String::from_str("PHED"),
        }
    }

    /// Topological dimension of the kind.
    pub fn dimension(&self) -> (d: u8)
        ensures
            d == self.dim(),
    {
        match self {
            MeshElementType::VERTEX => 0,
            MeshElementType::SEG2 | MeshElementType::SEG3 | MeshElementType::SEG4
            | MeshElementType::PLINE => 1,
            MeshElementType::TRI3 | MeshElementType::TRI6 | MeshElementType::TRI7
            | MeshElementType::QUAD4 | MeshElementType::QUAD8 | MeshElementType::QUAD9
            | MeshElementType::PGON => 2,
            _ => 3,
        }
    }

    /// `Poly` for `PLINE`, `PGON` and `PHED`, `Regular` for every other kind.
    pub fn regularity(&self) -> (r: Regularity)
        ensures
            r == (if self.is_poly() { Regularity::Poly } else { Regularity::Regular }),
    {
        match self {
            MeshElementType::PLINE | MeshElementType::PGON | MeshElementType::PHED => {
                Regularity::Poly
            },
            _ => Regularity::Regular,
        }
    }

    /// Number of nodes of each element of the kind, `None` for the poly kinds.
    pub fn num_nodes(&self) -> (n: Option<usize>)
        ensures
            n == self.nodes_per_element(),
    {
        match self {
            MeshElementType::VERTEX => Some(1),
            MeshElementType::SEG2 => Some(2),
            MeshElementType::SEG3 => Some(3),
            MeshElementType::SEG4 => Some(4),
            MeshElementType::TRI3 => Some(3),
            MeshElementType::TRI6 => Some(6),
            MeshElementType::TRI7 => Some(7),
            MeshElementType::QUAD4 => Some(4),
            MeshElementType::QUAD8 => Some(8),
            MeshElementType::QUAD9 => Some(9),
            MeshElementType::TET4 => Some(4),
            MeshElementType::TET10 => Some(10),
            MeshElementType::WEDGE6 => Some(6),
            MeshElementType::WEDGE15 => Some(15),
            MeshElementType::HEX8 => Some(8),
            MeshElementType::HEX21 => Some(21),
            _ => None,
        }
    }
}

impl CgnsElementType {
    /// Number of nodes of every element of the CGNS type, as the CGNS standard fixes it
    /// (`NODE` 1, `BAR_2` 2, `BAR_3` 3, `TRI_3` 3, `TRI_6` 6, `QUAD_4` 4, `QUAD_8` 8,
    /// `QUAD_9` 9, `TETRA_4` 4, `TETRA_10` 10, `HEXA_8` 8); `None` for `Other`.
    pub open spec fn node_count(self) -> Option<usize> {
        match self {
            CgnsElementType::Node => Some(1),
            CgnsElementType::Bar2 => Some(2),
            CgnsElementType::Bar3 => Some(3),
            CgnsElementType::Tri3 => Some(3),
            CgnsElementType::Tri6 => Some(6),
            CgnsElementType::Quad4 => Some(4),
            CgnsElementType::Quad8 => Some(8),
            CgnsElementType::Quad9 => Some(9),
            CgnsElementType::Tetra4 => Some(4),
            CgnsElementType::Tetra10 => Some(10),
            CgnsElementType::Hexa8 => Some(8),
            CgnsElementType::Other => None,
        }
    }

    /// Topological dimension of the CGNS type (0 for `NODE`, 1 for bars, 2 for triangles
    /// and quadrilaterals, 3 for tetrahedra and hexahedra); `None` for `Other`.
    pub open spec fn cell_dimension(self) -> Option<u8> {
        match self {
            CgnsElementType::Node => Some(0),
            CgnsElementType::Bar2 | CgnsElementType::Bar3 => Some(1),
            CgnsElementType::Tri3 | CgnsElementType::Tri6 | CgnsElementType::Quad4
            | CgnsElementType::Quad8 | CgnsElementType::Quad9 => Some(2),
            CgnsElementType::Tetra4 | CgnsElementType::Tetra10 | CgnsElementType::Hexa8 => Some(
                3,
            ),
            CgnsElementType::Other => None,
        }
    }
}

/// The mesh element kind that a CGNS section type is read as, if any.
pub open spec fn mesh_type_of(et: CgnsElementType) -> Option<MeshElementType> {
    match et {
        CgnsElementType::Node => Some(MeshElementType::VERTEX),
        CgnsElementType::Bar2 => Some(MeshElementType::SEG2),
        CgnsElementType::Bar3 => Some(MeshElementType::SEG3),
        CgnsElementType::Tri3 => Some(MeshElementType::TRI3),
        CgnsElementType::Tri6 => Some(MeshElementType::TRI6),
        CgnsElementType::Quad4 => Some(MeshElementType::QUAD4),
        CgnsElementType::Quad8 => Some(MeshElementType::QUAD8),
        CgnsElementType::Quad9 => Some(MeshElementType::QUAD9),
        CgnsElementType::Tetra4 => Some(MeshElementType::TET4),
        CgnsElementType::Tetra10 => Some(MeshElementType::TET10),
        CgnsElementType::Hexa8 => Some(MeshElementType::HEX8),
        CgnsElementType::Other => None,
    }
}

/// The CGNS section type that a mesh element kind is written as, if any.
pub open spec fn cgns_type_of(et: MeshElementType) -> Option<CgnsElementType> {
    match et {
        MeshElementType::VERTEX => Some(CgnsElementType::Node),
        MeshElementType::SEG2 => Some(CgnsElementType::Bar2),
        MeshElementType::SEG3 => Some(CgnsElementType::Bar3),
        MeshElementType::TRI3 => Some(CgnsElementType::Tri3),
        MeshElementType::TRI6 => Some(CgnsElementType::Tri6),
        MeshElementType::QUAD4 => Some(CgnsElementType::Quad4),
        MeshElementType::QUAD8 => Some(CgnsElementType::Quad8),
        MeshElementType::QUAD9 => Some(CgnsElementType::Quad9),
        MeshElementType::TET4 => Some(CgnsElementType::Tetra4),
        MeshElementType::TET10 => Some(CgnsElementType::Tetra10),
        MeshElementType::HEX8 => Some(CgnsElementType::Hexa8),
        _ => None,
    }
}

/// Maps a CGNS section element type to the mesh element kind it is read as; `None` for
/// the types that the mesh model has no kind for (such sections are skipped on reading).
pub fn cgns_to_mefi(et: CgnsElementType) -> (r: Option<MeshElementType>)
    ensures
        r == mesh_type_of(et),
{
    match et {
        CgnsElementType::Node => Some(MeshElementType::VERTEX),
        CgnsElementType::Bar2 => Some(MeshElementType::SEG2),
        CgnsElementType::Bar3 => Some(MeshElementType::SEG3),
        CgnsElementType::Tri3 => Some(MeshElementType::TRI3),
        CgnsElementType::Tri6 => Some(MeshElementType::TRI6),
        CgnsElementType::Quad4 => Some(MeshElementType::QUAD4),
        CgnsElementType::Quad8 => Some(MeshElementType::QUAD8),
        CgnsElementType::Quad9 => Some(MeshElementType::QUAD9),
        CgnsElementType::Tetra4 => Some(MeshElementType::TET4),
        CgnsElementType::Tetra10 => Some(MeshElementType::TET10),
        CgnsElementType::Hexa8 => Some(MeshElementType::HEX8),
        CgnsElementType::Other => None,
    }
}

/// Maps a mesh element kind to the CGNS section type it is written as; `None` for the
/// kinds without a CGNS counterpart here (poly kinds, `SEG4`, `TRI7`, `HEX21`, wedges).
pub fn mefi_to_cgns(et: MeshElementType) -> (r: Option<CgnsElementType>)
    ensures
        r == cgns_type_of(et),
{
    match et {
        MeshElementType::VERTEX => Some(CgnsElementType::Node),
        MeshElementType::SEG2 => Some(CgnsElementType::Bar2),
        MeshElementType::SEG3 => Some(CgnsElementType::Bar3),
        MeshElementType::TRI3 => Some(CgnsElementType::Tri3),
        MeshElementType::TRI6 => Some(CgnsElementType::Tri6),
        MeshElementType::QUAD4 => Some(CgnsElementType::Quad4),
        MeshElementType::QUAD8 => Some(CgnsElementType::Quad8),
        MeshElementType::QUAD9 => Some(CgnsElementType::Quad9),
        MeshElementType::TET4 => Some(CgnsElementType::Tetra4),
        MeshElementType::TET10 => Some(CgnsElementType::Tetra10),
        MeshElementType::HEX8 => Some(CgnsElementType::Hexa8),
        _ => None,
    }
}

/// The two element tables are inverse to each other: a kind is written as a CGNS type
/// exactly when that CGNS type is read back as the same kind.
pub proof fn lemma_element_tables_inverse(m: MeshElementType, c: CgnsElementType)
    ensures
        cgns_type_of(m) == Some(c) <==> mesh_type_of(c) == Some(m),
{
}

/// Every CGNS type that is read as a mesh kind reads as a regular kind with a fixed,
/// positive number of nodes per element.
pub proof fn lemma_read_kinds_are_regular(c: CgnsElementType)
    ensures
        mesh_type_of(c) matches Some(m) ==> {
            &&& !m.is_poly()
            &&& m.nodes_per_element() matches Some(n) && n > 0
        },
{
}

/// Only regular kinds have a CGNS counterpart.
pub proof fn lemma_written_kinds_are_regular(m: MeshElementType)
    ensures
        cgns_type_of(m) is Some ==> !m.is_poly() && m.nodes_per_element() is Some,
{
}

/// The model's order ranks kinds by dimension first: a kind of higher rank never has a
/// lower dimension.
pub proof fn lemma_dimension_monotone(a: MeshElementType, b: MeshElementType)
    ensures
        a.rank() <= b.rank() ==> a.dim() <= b.dim(),
{
}

/// Reading keeps an element's shape: a CGNS type is read as a kind with the same number
/// of nodes per element and the same dimension.
pub proof fn lemma_read_preserves_shape(c: CgnsElementType)
    ensures
        mesh_type_of(c) matches Some(m) ==> {
            &&& m.nodes_per_element() == c.node_count()
            &&& c.cell_dimension() == Some(m.dim())
        },
{
}

/// Writing keeps an element's shape: a kind is written as a CGNS type with the same
/// number of nodes per element and the same dimension.
pub proof fn lemma_write_preserves_shape(m: MeshElementType)
    ensures
        cgns_type_of(m) matches Some(c) ==> {
            &&& m.nodes_per_element() == c.node_count()
            &&& c.cell_dimension() == Some(m.dim())
        },
{
}

/// Every named CGNS type is read, and only `Other` is skipped.
pub proof fn lemma_named_cgns_types_are_read(c: CgnsElementType)
    ensures
        mesh_type_of(c) is Some <==> c != CgnsElementType::Other,
{
}

/// A regular kind whose shape (node count and dimension) is that of a named CGNS type is
/// written as that type: the write table is exactly the shape correspondence.
pub proof fn lemma_write_by_shape(m: MeshElementType, c: CgnsElementType)
    ensures
        (!m.is_poly() && c != CgnsElementType::Other && m.nodes_per_element() == c.node_count()
            && c.cell_dimension() == Some(m.dim())) ==> cgns_type_of(m) == Some(c),
{
}

/// A regular kind whose shape is that of no named CGNS type has no CGNS counterpart; so
/// exactly the poly kinds, `SEG4`, `TRI7`, `HEX21`, `WEDGE6` and `WEDGE15` are refused.
pub proof fn lemma_unwritten_kinds(m: MeshElementType)
    ensures
        cgns_type_of(m) is None <==> (m.is_poly() || forall|c: CgnsElementType|
            !(#[trigger] c.node_count() == m.nodes_per_element() && c.cell_dimension() == Some(
                m.dim(),
            ) && c != CgnsElementType::Other)),
{
    if cgns_type_of(m) is Some {
        let c: CgnsElementType = cgns_type_of(m)->Some_0;
        assert(c.node_count() == m.nodes_per_element() && c.cell_dimension() == Some(m.dim()));
    }
}

} // verus!
