use render_group::vertex::{
    pack_vertex_inputs, push_vertex_desc, AttributeDesc, VertexBufferDesc, VertexInput,
    VertexInputRate,
};

fn input(elements: Vec<u32>, stride: u32, rate: VertexInputRate) -> VertexInput<u32> {
    VertexInput { elements, stride, rate }
}

fn locations_and_bindings(attributes: &[AttributeDesc<u32>]) -> Vec<(u32, u32, u32)> {
    attributes.iter().map(|a| (a.location, a.binding, a.element)).collect()
}

#[test]
fn two_groups_vertex_and_instance() {
    let inputs = vec![
        input(vec![10, 11], 12, VertexInputRate::Vertex),
        input(vec![20], 4, VertexInputRate::Instance(1)),
    ];
    let (buffers, attributes) = pack_vertex_inputs(&inputs);
    assert_eq!(
        buffers,
        vec![
            VertexBufferDesc { binding: 0, stride: 12, rate: VertexInputRate::Vertex },
            VertexBufferDesc { binding: 1, stride: 4, rate: VertexInputRate::Instance(1) },
        ]
    );
    assert_eq!(locations_and_bindings(&attributes), vec![(0, 0, 10), (1, 0, 11), (2, 1, 20)]);
}

#[test]
fn locations_run_across_groups() {
    let inputs = vec![
        input(vec![1, 2, 3], 24, VertexInputRate::Vertex),
        input(vec![], 8, VertexInputRate::Vertex),
        input(vec![4, 5], 16, VertexInputRate::Instance(2)),
    ];
    let (buffers, attributes) = pack_vertex_inputs(&inputs);
    assert_eq!(buffers.len(), 3);
    for (i, b) in buffers.iter().enumerate() {
        assert_eq!(b.binding as usize, i);
        assert_eq!(b.stride, inputs[i].stride);
    }
    assert_eq!(attributes.len(), 5);
    assert_eq!(
        locations_and_bindings(&attributes),
        vec![(0, 0, 1), (1, 0, 2), (2, 0, 3), (3, 2, 4), (4, 2, 5)]
    );
}

#[test]
fn no_vertex_inputs() {
    let inputs: Vec<VertexInput<u32>> = Vec::new();
    let (buffers, attributes) = pack_vertex_inputs(&inputs);
    assert!(buffers.is_empty());
    assert!(attributes.is_empty());
}

#[test]
fn push_continues_after_last_location() {
    let mut buffers = vec![VertexBufferDesc { binding: 0, stride: 4, rate: VertexInputRate::Vertex }];
    let mut attributes = vec![AttributeDesc { location: 6, binding: 0, element: 9u32 }];
    push_vertex_desc(&vec![7, 8], 32, VertexInputRate::Instance(3), &mut buffers, &mut attributes);
    assert_eq!(buffers[1], VertexBufferDesc { binding: 1, stride: 32, rate: VertexInputRate::Instance(3) });
    assert_eq!(locations_and_bindings(&attributes), vec![(6, 0, 9), (7, 1, 7), (8, 1, 8)]);
}
