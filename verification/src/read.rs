//! Decisions of reading a mesh from a CGNS file: which zone is read, how many coordinate
//! columns it has, and how each element section becomes a connectivity block.
use vstd::prelude::*;

use crate::connectivity::{can_decrement, to_zero_based, zero_based};
use crate::element::{mesh_type_of, CgnsElementType, MeshElementType};
use crate::error::Error;

verus! {

/// What the reader learns of a zone before reading its data.
#[derive(Debug)]
pub struct ZoneSummary {
    /// The zone's type could be read and is `Unstructured`.
    pub unstructured: bool,
    /// The zone's element sections, in file order, each with its element type (`None`
    /// where the section's information could not be read); `None` where the list of
    /// sections itself could not be read.
    pub sections: Option<Vec<Option<CgnsElementType>>>,
}

/// A section whose element type is known and has a mesh element kind.
pub open spec fn section_readable(s: Option<CgnsElementType>) -> bool {
    s matches Some(t) && mesh_type_of(t) is Some
}

/// A zone that is read: an unstructured zone whose section list is known and holds at
/// least one readable section.
pub open spec fn zone_readable(z: ZoneSummary) -> bool {
    &&& z.unstructured
    &&& z.sections matches Some(ss) && (exists|i: int|
        0 <= i < ss@.len() && #[trigger] section_readable(ss@[i]))
}

/// Zone `z` of base `b` exists (the base's zone list is known) and is read.
pub open spec fn readable_at(bases: Seq<Option<Vec<ZoneSummary>>>, b: int, z: int) -> bool {
    &&& 0 <= b < bases.len()
    &&& bases[b] matches Some(zs) && 0 <= z < zs@.len() && zone_readable(zs@[z])
}

/// A section is read exactly when its element type is known and is a named CGNS type.
pub proof fn lemma_section_readable_iff(s: Option<CgnsElementType>)
    ensures
        section_readable(s) <==> (s matches Some(t) && t != CgnsElementType::Other),
{
}

/// Readability of a zone does not depend on where a readable section stands: an
/// unstructured zone with a known section list is read exactly when some section, at
/// any position, has a known named CGNS type.
pub proof fn lemma_zone_readable_iff(z: ZoneSummary)
    ensures
        zone_readable(z) <==> {
            &&& z.unstructured
            &&& z.sections is Some
            &&& exists|i: int|
                0 <= i < z.sections->Some_0@.len() && (#[trigger] z.sections->Some_0@[i]) is Some
                    && z.sections->Some_0@[i]->Some_0 != CgnsElementType::Other
        },
{
    if z.sections is Some {
        let ss: Seq<Option<CgnsElementType>> = z.sections->Some_0@;
        assert forall|i: int| 0 <= i < ss.len() implies (section_readable(ss[i]) <==> (
        ss[i] matches Some(t) && t != CgnsElementType::Other)) by {
            lemma_section_readable_iff(ss[i]);
        }
    }
}

/// Whether a section of this type is read.
fn section_is_readable(s: &Option<CgnsElementType>) -> (r: bool)
    ensures
        r == section_readable(*s),
{
    match s {
        Some(t) => crate::element::cgns_to_mefi(*t).is_some(),
        None => false,
    }
}

/// Decides whether a zone is read (see [`zone_readable`]).
pub fn zone_is_readable(zone: &ZoneSummary) -> (r: bool)
    ensures
        r == zone_readable(*zone),
{
    if !zone.unstructured {
        return false;
    }
    match &zone.sections {
        None => false,
        Some(ss) => {
            let mut i: usize = 0;
            while i < ss.len()
                invariant
                    i <= ss@.len(),
                    zone.unstructured,
                    zone.sections == Some(*ss),
                    forall|j: int| 0 <= j < i ==> !#[trigger] section_readable(ss@[j]),
                decreases ss.len() - i,
            {
                if section_is_readable(&ss[i]) {
                    assert(section_readable(zone.sections->Some_0@[i as int]));
                    return true;
                }
                i = i + 1;
            }
            false
        },
    }
}

/// Chooses the zone to read: the first readable zone of the first base that has one,
/// as `(base index, zone index)`; `Error::NoZone` when no zone of any base is readable.
/// Bases whose zone list could not be read are passed over.
pub fn select_zone(bases: &Vec<Option<Vec<ZoneSummary>>>) -> (r: Result<(usize, usize), Error>)
    ensures
        r matches Ok((b, z)) ==> {
            &&& readable_at(bases@, b as int, z as int)
            &&& forall|b2: int, z2: int|
                (b2 < b || (b2 == b && z2 < z)) ==> !#[trigger] readable_at(bases@, b2, z2)
        },
        r is Err ==> r matches Err(Error::NoZone),
        r is Err <==> forall|b: int, z: int| !#[trigger] readable_at(bases@, b, z),
{
    let mut b: usize = 0;
    while b < bases.len()
        invariant
            b <= bases@.len(),
            forall|b2: int, z2: int| b2 < b ==> !#[trigger] readable_at(bases@, b2, z2),
        decreases bases.len() - b,
    {
        match &bases[b] {
            None => {},
            Some(zones) => {
                let mut z: usize = 0;
                while z < zones.len()
                    invariant
                        b < bases@.len(),
                        bases@[b as int] == Some(*zones),
                        z <= zones@.len(),
                        forall|b2: int, z2: int| b2 < b ==> !#[trigger] readable_at(bases@, b2, z2),
                        forall|z2: int| z2 < z ==> !#[trigger] readable_at(bases@, b as int, z2),
                    decreases zones.len() - z,
                {
                    if zone_is_readable(&zones[z]) {
                        assert(readable_at(bases@, b as int, z as int));
                        return Ok((b, z));
                    }
                    z = z + 1;
                }
            },
        }
        b = b + 1;
    }
    Err(Error::NoZone)
}

/// Number of coordinate columns read for a zone with `names` coordinate arrays: at most
/// three (X, Y, Z).
pub fn coordinate_count(names: usize) -> (n: usize)
    ensures
        n == (if names < 3 { names } else { 3 }),
{
    if names < 3 {
        names
    } else {
        3
    }
}

/// The connectivity of one element block: `rows` elements of `cols` nodes each, node
/// indices 0-based and stored row by row.
#[derive(Debug)]
pub struct ConnectivityBlock {
    pub element_type: MeshElementType,
    pub rows: usize,
    pub cols: usize,
    pub data: Vec<usize>,
}

impl ConnectivityBlock {
    /// The block's shape matches its element kind and its data.
    pub open spec fn wf(self) -> bool {
        &&& self.element_type.nodes_per_element() == Some(self.cols)
        &&& self.data@.len() == self.rows * self.cols
    }
}

/// The message of the shape error that a section with a partial last element produces.
pub open spec fn incompatible_shape_message() -> Seq<char> {
    "ShapeError/IncompatibleShape: incompatible shapes"@
}

/// `ndarray::Array2::from_shape_vec((rows, cols), data)`, keeping only whether it
/// succeeded and, on failure, the `Display` text of the `ShapeError`.
///
/// Claimed of ndarray 0.17 (from its source): for a shape whose two lengths are at most
/// `isize::MAX` and whose product is at most `data.len()` (so that the size check of
/// `size_of_shape_checked` cannot report an overflow), the call fails exactly when
/// `rows * cols != data.len()`, and then with an error of kind `IncompatibleShape`,
/// displayed as "ShapeError/IncompatibleShape: incompatible shapes".
#[verifier::external_body]
fn array2_shape_check(rows: usize, cols: usize, data: &[usize]) -> (r: Result<(), String>)
    requires
        rows <= isize::MAX,
        cols <= isize::MAX,
        rows * cols <= data@.len(),
    ensures
        r is Ok <==> rows * cols == data@.len(),
        r matches Err(m) ==> m@ == incompatible_shape_message(),
{
    ndarray::Array2::from_shape_vec((rows, cols), data.to_vec()).map(|_| ()).map_err(
        |e| e.to_string(),
    )
}

/// Turns the flat 1-based connectivity of a CGNS section of kind `et` into a
/// connectivity block: `len / n` elements of `n` nodes (`n` the kind's node count), node
/// indices shifted to 0-based. A length that is not a multiple of `n` is a shape error.
pub fn section_block(et: MeshElementType, flat: &Vec<i64>) -> (r: Result<ConnectivityBlock, Error>)
    requires
        et.nodes_per_element() is Some,
        can_decrement(flat@),
        flat@.len() <= isize::MAX,
    ensures
        ({
            let n: usize = et.nodes_per_element().unwrap();
            &&& r is Ok <==> (flat@.len() as int) % (n as int) == 0
            &&& r matches Ok(b) ==> {
                &&& b.element_type == et
                &&& b.cols == n
                &&& b.rows == (flat@.len() as int) / (n as int)
                &&& b.data@ == zero_based(flat@)
                &&& b.wf()
            }
            &&& r matches Err(e) ==> (e matches Error::Shape(m) && m@
                == incompatible_shape_message())
        }),
{
    let n: usize = match et.num_nodes() {
        Some(n) => n,
        None => 0,
    };
    assert(0 < n <= 21);
    let rows: usize = flat.len() / n;
    let data = to_zero_based(flat);
    let len: usize = data.len();
    assert(rows <= len && rows * n <= len && (rows * n == len <==> len % n == 0))
        by (nonlinear_arith)
        requires
            n > 0,
            rows == len / n,
    {
        assert(len == n * (len / n) + len % n);
    }
    match array2_shape_check(rows, n, data.as_slice()) {
        Ok(()) => Ok(ConnectivityBlock { element_type: et, rows, cols: n, data }),
        Err(m) => Err(Error::Shape(m)),
    }
}

} // verus!
