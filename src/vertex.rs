use vstd::prelude::*;

verus! {

/// How often a vertex buffer advances: once per vertex, or once every `n` instances.
#[derive(Clone, Copy, Debug, PartialEq, Eq, Structural)]
pub enum VertexInputRate {
    Vertex,
    Instance(u8),
}

/// One vertex buffer as the pipeline reads it: its elements, the distance between
/// consecutive records, and its step rate.
#[derive(Clone, Debug)]
pub struct VertexInput<E> {
    pub elements: Vec<E>,
    pub stride: u32,
    pub rate: VertexInputRate,
}

/// A vertex buffer binding slot.
#[derive(Clone, Copy, Debug, PartialEq, Eq, Structural)]
pub struct VertexBufferDesc {
    pub binding: u32,
    pub stride: u32,
    pub rate: VertexInputRate,
}

/// A vertex attribute: the shader input `location` is fed `element` from the buffer
/// bound at `binding`.
#[derive(Clone, Copy, Debug)]
pub struct AttributeDesc<E> {
    pub location: u32,
    pub binding: u32,
    pub element: E,
}

/// The location that the next attribute gets: one past the last, or 0 when none was
/// emitted yet.
pub open spec fn next_location<E>(attributes: Seq<AttributeDesc<E>>) -> int {
    if attributes.len() == 0 {
        0
    } else {
        attributes.last().location + 1
    }
}

/// The attributes of one buffer group: consecutive locations from `first`, all bound
/// at `binding`, in element order.
pub open spec fn group_attributes<E>(elements: Seq<E>, first: int, binding: int) -> Seq<
    AttributeDesc<E>,
> {
    Seq::new(
        elements.len(),
        |j: int| AttributeDesc { location: (first + j) as u32, binding: binding as u32, element: elements[j] },
    )
}

/// The number of elements over all groups.
pub open spec fn total_elements<E>(inputs: Seq<VertexInput<E>>) -> int
    decreases inputs.len(),
{
    if inputs.len() == 0 {
        0
    } else {
        total_elements(inputs.drop_last()) + inputs.last().elements@.len()
    }
}

/// The binding table: one slot per group, numbered in declaration order.
pub open spec fn packed_bindings<E>(inputs: Seq<VertexInput<E>>) -> Seq<VertexBufferDesc> {
    Seq::new(
        inputs.len(),
        |i: int| VertexBufferDesc { binding: i as u32, stride: inputs[i].stride, rate: inputs[i].rate },
    )
}

/// The attribute table: each group's elements in turn, with one location counter that
/// runs across all groups.
pub open spec fn packed_attributes<E>(inputs: Seq<VertexInput<E>>) -> Seq<AttributeDesc<E>>
    decreases inputs.len(),
{
    if inputs.len() == 0 {
        Seq::empty()
    } else {
        packed_attributes(inputs.drop_last()) + group_attributes(
            inputs.last().elements@,
            total_elements(inputs.drop_last()),
            inputs.len() - 1,
        )
    }
}

/// Appends the binding of one vertex buffer and the attributes of its elements.
/// The buffer gets the next binding index; its elements get the locations that follow
/// the last attribute already present.
pub fn push_vertex_desc<E: Copy>(
    elements: &Vec<E>,
    stride: u32,
    rate: VertexInputRate,
    vertex_buffers: &mut Vec<VertexBufferDesc>,
    attributes: &mut Vec<AttributeDesc<E>>,
)
    requires
        old(vertex_buffers).len() <= u32::MAX,
        next_location(old(attributes)@) + elements@.len() <= u32::MAX + 1,
    ensures
        final(vertex_buffers)@ == old(vertex_buffers)@.push(
            VertexBufferDesc { binding: old(vertex_buffers).len() as u32, stride, rate },
        ),
        final(attributes)@ == old(attributes)@ + group_attributes(
            elements@,
            next_location(old(attributes)@),
            old(vertex_buffers).len() as int,
        ),
{
    let index = vertex_buffers.len() as u32;
    vertex_buffers.push(VertexBufferDesc { binding: index, stride, rate });
    let first: u64 = if attributes.len() == 0 {
        0
    } else {
        attributes[attributes.len() - 1].location as u64 + 1
    };
    let ghost before = attributes@;
    let mut j: usize = 0;
    while j < elements.len()
        invariant
            j <= elements@.len(),
            first == next_location(before),
            first + elements@.len() <= u32::MAX + 1,
            index == old(vertex_buffers).len(),
            attributes@ == before + group_attributes(elements@.take(j as int), first as int, index as int),
        decreases elements@.len() - j,
    {
        let element = elements[j];
        attributes.push(AttributeDesc { location: (first + j as u64) as u32, binding: index, element });
        j = j + 1;
        assert(group_attributes(elements@.take(j as int), first as int, index as int) =~= group_attributes(
            elements@.take(j - 1),
            first as int,
            index as int,
        ).push(AttributeDesc { location: (first + j - 1) as u32, binding: index, element }));
    }
    assert(elements@.take(j as int) =~= elements@);
}


proof fn lemma_total_nonneg<E>(inputs: Seq<VertexInput<E>>)
    ensures
        total_elements(inputs) >= 0,
    decreases inputs.len(),
{
    if inputs.len() > 0 {
        lemma_total_nonneg(inputs.drop_last());
    }
}

/// The attribute table has one entry per element, and when it is not empty its last
/// location is one below the number of elements.
proof fn lemma_packed_shape<E>(inputs: Seq<VertexInput<E>>)
    requires
        total_elements(inputs) <= u32::MAX + 1,
    ensures
        packed_attributes(inputs).len() == total_elements(inputs),
        next_location(packed_attributes(inputs)) == total_elements(inputs),
    decreases inputs.len(),
{
    if inputs.len() > 0 {
        let rest = inputs.drop_last();
        lemma_total_nonneg(rest);
        lemma_packed_shape(rest);
    }
}

/// The attributes of group `i` stand at the offset of the elements before it.
proof fn lemma_packed_entry<E>(inputs: Seq<VertexInput<E>>, i: int, j: int)
    requires
        0 <= i < inputs.len(),
        0 <= j < inputs[i].elements@.len(),
        total_elements(inputs) <= u32::MAX + 1,
    ensures
        total_elements(inputs.take(i)) + j < total_elements(inputs),
        packed_attributes(inputs)[total_elements(inputs.take(i)) + j] == (AttributeDesc {
            location: (total_elements(inputs.take(i)) + j) as u32,
            binding: i as u32,
            element: inputs[i].elements@[j],
        }),
    decreases inputs.len(),
{
    let rest = inputs.drop_last();
    lemma_total_nonneg(rest);
    lemma_packed_shape(rest);
    let off = total_elements(inputs.take(i));
    lemma_total_nonneg(inputs.take(i));
    if i == inputs.len() - 1 {
        assert(inputs.take(i) =~= rest);
        assert(packed_attributes(inputs)[off + j] == group_attributes(
            inputs.last().elements@,
            off,
            inputs.len() - 1,
        )[j]);
    } else {
        assert(inputs.take(i) =~= rest.take(i));
        assert(rest[i] == inputs[i]);
        lemma_packed_entry(rest, i, j);
        let g = group_attributes(inputs.last().elements@, total_elements(rest), inputs.len() - 1);
        assert(packed_attributes(inputs) == packed_attributes(rest) + g);
        assert(packed_attributes(inputs)[off + j] == packed_attributes(rest)[off + j]);
    }
}

pub(crate) proof fn lemma_total_take_step<E>(inputs: Seq<VertexInput<E>>, i: int)
    requires
        0 <= i < inputs.len(),
    ensures
        total_elements(inputs.take(i + 1)) == total_elements(inputs.take(i)) + inputs[i].elements@.len(),
        packed_attributes(inputs.take(i + 1)) == packed_attributes(inputs.take(i)) + group_attributes(
            inputs[i].elements@,
            total_elements(inputs.take(i)),
            i,
        ),
{
    assert(inputs.take(i + 1).drop_last() =~= inputs.take(i));
}

pub(crate) proof fn lemma_total_take_bound<E>(inputs: Seq<VertexInput<E>>, i: int)
    requires
        0 <= i <= inputs.len(),
    ensures
        0 <= total_elements(inputs.take(i)) <= total_elements(inputs),
    decreases inputs.len() - i,
{
    lemma_total_nonneg(inputs.take(i));
    if i < inputs.len() {
        lemma_total_take_step(inputs, i);
        lemma_total_take_bound(inputs, i + 1);
    } else {
        assert(inputs.take(i) =~= inputs);
    }
}

/// Packs the vertex buffers of a pipeline into its binding table and attribute table.
/// Binding indices follow declaration order; attribute locations form one run over all
/// buffers, in buffer-then-element order.
pub fn pack_vertex_inputs<E: Copy>(inputs: &Vec<VertexInput<E>>) -> (r: (
    Vec<VertexBufferDesc>,
    Vec<AttributeDesc<E>>,
))
    requires
        inputs.len() <= u32::MAX + 1,
        total_elements(inputs@) <= u32::MAX + 1,
    ensures
        r.0@ == packed_bindings(inputs@),
        r.1@ == packed_attributes(inputs@),
{
    let mut vertex_buffers: Vec<VertexBufferDesc> = Vec::new();
    let mut attributes: Vec<AttributeDesc<E>> = Vec::new();
    let mut i: usize = 0;
    while i < inputs.len()
        invariant
            i <= inputs.len() <= u32::MAX + 1,
            total_elements(inputs@) <= u32::MAX + 1,
            vertex_buffers@ == packed_bindings(inputs@.take(i as int)),
            attributes@ == packed_attributes(inputs@.take(i as int)),
        decreases inputs.len() - i,
    {
        proof {
            lemma_total_take_bound(inputs@, i as int + 1);
            lemma_total_take_step(inputs@, i as int);
            lemma_packed_shape(inputs@.take(i as int));
        }
        let input = &inputs[i];
        push_vertex_desc(&input.elements, input.stride, input.rate, &mut vertex_buffers, &mut attributes);
        i = i + 1;
        assert(vertex_buffers@ =~= packed_bindings(inputs@.take(i as int)));
    }
    assert(inputs@.take(i as int) =~= inputs@);
    (vertex_buffers, attributes)
}

/// Vertex layout law: for buffer groups with element counts `c0 .. c(n-1)`, the binding
/// table numbers the groups `0 .. n-1` in order, the attribute table has `c0 + .. +
/// c(n-1)` entries, its locations run `0, 1, 2, ..` without a gap or a restart, and the
/// entry at location `offset(i) + j` is element `j` of group `i`, bound at `i`.
pub proof fn lemma_vertex_layout<E>(inputs: Seq<VertexInput<E>>)
    requires
        inputs.len() <= u32::MAX + 1,
        total_elements(inputs) <= u32::MAX + 1,
    ensures
        packed_bindings(inputs).len() == inputs.len(),
        forall|i: int| 0 <= i < inputs.len() ==> #[trigger] packed_bindings(inputs)[i].binding == i,
        packed_attributes(inputs).len() == total_elements(inputs),
        forall|k: int|
            0 <= k < packed_attributes(inputs).len() ==> #[trigger] packed_attributes(inputs)[k].location
                == k,
        forall|i: int, j: int|
            0 <= i < inputs.len() && 0 <= j < inputs[i].elements@.len() ==> packed_attributes(
                inputs,
            )[total_elements(inputs.take(i)) + j] == (AttributeDesc {
                location: (total_elements(inputs.take(i)) + j) as u32,
                binding: i as u32,
                element: #[trigger] inputs[i].elements@[j],
            }),
{
    lemma_packed_shape(inputs);
    assert forall|i: int, j: int|
        0 <= i < inputs.len() && 0 <= j < inputs[i].elements@.len() implies packed_attributes(
            inputs,
        )[total_elements(inputs.take(i)) + j] == (AttributeDesc {
            location: (total_elements(inputs.take(i)) + j) as u32,
            binding: i as u32,
            element: #[trigger] inputs[i].elements@[j],
        }) by {
        lemma_packed_entry(inputs, i, j);
    }
    assert forall|k: int| 0 <= k < packed_attributes(inputs).len() implies #[trigger] packed_attributes(
        inputs,
    )[k].location == k by {
        lemma_locations_run(inputs, k);
    }
}

/// Every entry of the attribute table carries its own position as location.
proof fn lemma_locations_run<E>(inputs: Seq<VertexInput<E>>, k: int)
    requires
        total_elements(inputs) <= u32::MAX + 1,
        0 <= k < packed_attributes(inputs).len(),
    ensures
        packed_attributes(inputs)[k].location == k,
    decreases inputs.len(),
{
    let rest = inputs.drop_last();
    lemma_total_nonneg(rest);
    lemma_packed_shape(inputs);
    lemma_packed_shape(rest);
    if k < packed_attributes(rest).len() {
        lemma_locations_run(rest, k);
    }
}

} // verus!
