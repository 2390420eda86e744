//! Shape of one interleaved vertex record: an ordered list of attributes,
//! each a scalar type with a component count, packed back to back.
//!
//! The byte offset of an attribute is the summed byte size of the attributes
//! before it, and the stride of the layout is the byte size of the whole
//! record.

use vstd::prelude::*;

use crate::data::Type;

verus! {

/// Summed byte size of a whole attribute list: for each attribute, its
/// component count times the byte size of one component.
pub open spec fn attributes_stride(attrs: Seq<(Type, u32)>) -> int
    decreases attrs.len(),
{
    if attrs.len() == 0 {
        0
    } else {
        attributes_stride(attrs.drop_last()) + attrs.last().1 * attrs.last().0.spec_size()
    }
}

/// Byte offset of attribute `k` in a record: the summed byte size of the
/// attributes before it.
pub open spec fn attribute_offset(attrs: Seq<(Type, u32)>, k: int) -> int {
    attributes_stride(attrs.take(k))
}

/// The summed byte size of an attribute list is never negative, and equals
/// the byte offset just past the last attribute.
pub proof fn lemma_stride_is_total_size(attrs: Seq<(Type, u32)>)
    ensures
        attributes_stride(attrs) >= 0,
        attributes_stride(attrs) == attribute_offset(attrs, attrs.len() as int),
    decreases attrs.len(),
{
    assert(attrs.take(attrs.len() as int) =~= attrs);
    if attrs.len() > 0 {
        lemma_stride_is_total_size(attrs.drop_last());
    }
}

/// One step of the offset sum: the attribute after `k` sits at `k`'s
/// offset advanced by `k`'s byte size.
pub proof fn lemma_attribute_offset_step(attrs: Seq<(Type, u32)>, k: int)
    requires
        0 <= k < attrs.len(),
    ensures
        attribute_offset(attrs, k + 1) == attribute_offset(attrs, k) + attrs[k].1
            * attrs[k].0.spec_size(),
{
    assert(attrs.take(k + 1).drop_last() =~= attrs.take(k));
    assert(attrs.take(k + 1).last() == attrs[k]);
}

/// The first attribute of a record sits at byte offset zero, and each
/// following attribute sits at the previous attribute's offset advanced by
/// the previous attribute's byte size. So attribute `k` sits at the sum of
/// `component count × component size` over all attributes before `k`.
pub proof fn lemma_attribute_offsets(attrs: Seq<(Type, u32)>)
    ensures
        attribute_offset(attrs, 0) == 0,
        forall|k: int|
            0 <= k < attrs.len() ==> attribute_offset(attrs, k + 1) == attribute_offset(attrs, k)
                + attrs[k].1 * attrs[k].0.spec_size(),
{
    assert(attrs.take(0) =~= Seq::<(Type, u32)>::empty());
    assert forall|k: int| 0 <= k < attrs.len() implies attribute_offset(attrs, k + 1)
        == attribute_offset(attrs, k) + attrs[k].1 * attrs[k].0.spec_size() by {
        lemma_attribute_offset_step(attrs, k);
    }
}

/// Describes how attribute fields pack into one interleaved vertex record.
/// Attributes are appended in binding-slot order; the running stride is kept
/// equal to the summed byte size of the appended attributes.
pub struct VertexBufferLayout {
    pub(crate) stride: u32,
    pub(crate) attributes: Vec<(Type, u32)>,
}

impl VertexBufferLayout {
    /// The attribute list, in binding-slot order.
    pub closed spec fn spec_attributes(&self) -> Seq<(Type, u32)> {
        self.attributes@
    }

    /// The recorded stride of one record, in bytes.
    pub closed spec fn spec_stride(&self) -> u32 {
        self.stride
    }

    /// The recorded stride is exactly the summed byte size of the attributes.
    pub open spec fn wf(&self) -> bool {
        self.spec_stride() == attributes_stride(self.spec_attributes())
    }

    /// An empty layout: no attributes, stride zero. Legal on its own; a
    /// vertex array built from it merely describes degenerate records.
    pub fn new() -> (r: VertexBufferLayout)
        ensures
            r.wf(),
            r.spec_attributes() =~= Seq::<(Type, u32)>::empty(),
            r.spec_stride() == 0,
    {
        VertexBufferLayout { stride: 0, attributes: Vec::new() }
    }

    /// Appends one attribute and advances the stride by `count` components
    /// of the given type. The order of calls fixes the binding-slot order.
    pub fn add_attribute(&mut self, attribute_type: Type, count: u32)
        requires
            old(self).wf(),
            old(self).spec_stride() + count * attribute_type.spec_size() <= u32::MAX,
        ensures
            final(self).wf(),
            final(self).spec_attributes() =~= old(self).spec_attributes().push(
                (attribute_type, count),
            ),
            final(self).spec_stride() == old(self).spec_stride() + count
                * attribute_type.spec_size(),
    {
        self.attributes.push((attribute_type, count));
        let size: u32 = attribute_type.to_gl_enum_and_size().1;
        self.stride = self.stride + count * size;
        proof {
            assert(self.attributes@.drop_last() =~= old(self).attributes@);
        }
    }

    /// The stride of one full record, in bytes.
    pub fn stride(&self) -> (s: u32)
        ensures
            s == self.spec_stride(),
    {
        self.stride
    }

    /// How many attributes the layout holds.
    pub fn attribute_count(&self) -> (n: usize)
        ensures
            n == self.spec_attributes().len(),
    {
        self.attributes.len()
    }

    /// The `i`-th attribute, in binding-slot order.
    pub fn attribute(&self, i: usize) -> (a: (Type, u32))
        requires
            i < self.spec_attributes().len(),
        ensures
            a == self.spec_attributes()[i as int],
    {
        self.attributes[i]
    }
}

} // verus!
