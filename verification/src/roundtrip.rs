//! What reading gives back of what writing wrote.
use vstd::prelude::*;

use crate::connectivity::{can_decrement, lemma_one_based_then_zero_based, zero_based};
use crate::element::{lemma_element_tables_inverse, mesh_type_of};
use crate::read::{section_readable, zone_readable, ZoneSummary};
use crate::write::{
    block_writable, plans_write_of, section_for, total_elements, MeshBlock, SectionPlan,
    WritePlan,
};

verus! {

/// A regular block's connectivity holds one row of the kind's node count per element,
/// and every node index is below `i64::MAX`.
pub open spec fn block_shaped(b: MeshBlock) -> bool {
    &&& b.element_type.nodes_per_element() is Some
    &&& b.connectivity matches Ok(c) && {
        &&& c@.len() == b.len * b.element_type.nodes_per_element().unwrap()
        &&& forall|i: int| 0 <= i < c@.len() ==> c@[i] < i64::MAX
    }
}

/// Reading back the section written for a block gives the block again: the section's
/// CGNS type reads as the block's kind, its connectivity can be shifted back without
/// overflow, it splits into exactly `len` elements of the kind's node count, and shifting
/// it back gives the block's connectivity. Its element range covers `len` numbers.
pub proof fn lemma_section_roundtrip(b: MeshBlock, sec: SectionPlan, before: int)
    requires
        section_for(sec, b, before),
        block_shaped(b),
    ensures
        mesh_type_of(sec.element_type) == Some(b.element_type),
        ({
            let n: int = b.element_type.nodes_per_element().unwrap() as int;
            let flat = sec.connectivity@;
            &&& can_decrement(flat)
            &&& (flat.len() as int) % n == 0
            &&& (flat.len() as int) / n == b.len
            &&& zero_based(flat) == b.connectivity->Ok_0@
        }),
        sec.end - sec.start + 1 == b.len,
{
    lemma_element_tables_inverse(b.element_type, sec.element_type);
    let c = b.connectivity->Ok_0@;
    lemma_one_based_then_zero_based(c);
    let n: int = b.element_type.nodes_per_element().unwrap() as int;
    let len: int = sec.connectivity@.len() as int;
    assert(len == b.len * n);
    assert(n > 0);
    assert(len % n == 0 && len / n == b.len) by (nonlinear_arith)
        requires
            n > 0,
            len == b.len * n,
    {
        assert(len == n * b.len);
    }
}

/// Sections are numbered consecutively: the first starts at element 1, each next one
/// starts right after the previous one ends, and when every block was written the last
/// one ends at the total number of elements.
pub proof fn lemma_sections_contiguous(blocks: Seq<MeshBlock>, p: WritePlan)
    requires
        plans_write_of(blocks, p),
    ensures
        p.sections@.len() > 0 ==> p.sections@[0].start == 1,
        forall|i: int|
            0 < i < p.sections@.len() ==> #[trigger] p.sections@[i].start == p.sections@[i
                - 1].end + 1,
        p.failure is None && blocks.len() > 0 ==> p.sections@.last().end == total_elements(
            blocks,
        ),
{
    if p.sections@.len() > 0 {
        assert(block_writable(blocks[0]));
    }
    assert forall|i: int| 0 < i < p.sections@.len() implies #[trigger] p.sections@[i].start
        == p.sections@[i - 1].end + 1 by {
        assert(block_writable(blocks[i]));
        assert(block_writable(blocks[i - 1]));
    }
    if p.failure is None && blocks.len() > 0 {
        let k: int = blocks.len() - 1;
        assert(block_writable(blocks[k]));
    }
}

/// The zone that a completed write of a non-empty mesh produces is read back: an
/// unstructured zone whose sections carry the planned element types is readable.
pub proof fn lemma_written_zone_readable(blocks: Seq<MeshBlock>, p: WritePlan, zone: ZoneSummary)
    requires
        plans_write_of(blocks, p),
        blocks.len() > 0,
        p.failure is None,
        zone.unstructured,
        zone.sections matches Some(ss) && ss@ == p.sections@.map_values(
            |s: SectionPlan| Some(s.element_type),
        ),
    ensures
        zone_readable(zone),
{
    let ss = zone.sections->Some_0@;
    let b = blocks[0];
    assert(block_writable(b));
    lemma_element_tables_inverse(b.element_type, p.sections@[0].element_type);
    assert(section_readable(ss[0]));
}

} // verus!
