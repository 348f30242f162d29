use vulkan_renderer::gl::{gl_buffer_size, interleaved_layout, AttribPointer, RenderObject, Renderer, Shader};

#[test]
fn textured_layout_has_stride_twenty() {
    assert_eq!(
        interleaved_layout(&vec![3, 2]),
        vec![
            AttribPointer { index: 0, size: 3, stride: 20, offset: 0 },
            AttribPointer { index: 1, size: 2, stride: 20, offset: 12 },
        ]
    );
}

#[test]
fn lit_layout_has_stride_twenty_four() {
    assert_eq!(
        interleaved_layout(&vec![3, 3]),
        vec![
            AttribPointer { index: 0, size: 3, stride: 24, offset: 0 },
            AttribPointer { index: 1, size: 3, stride: 24, offset: 12 },
        ]
    );
    assert_eq!(interleaved_layout(&vec![3]), vec![AttribPointer { index: 0, size: 3, stride: 12, offset: 0 }]);
}

#[test]
fn gl_sizes_checked() {
    assert_eq!(gl_buffer_size(40, 4), Some(160));
    assert_eq!(gl_buffer_size(usize::MAX, 4), None);
    assert_eq!(Renderer::draw_count(36), Some(36));
    assert_eq!(Renderer::draw_count(usize::MAX), None);
}

#[test]
fn render_object_keeps_index_count() {
    let object = RenderObject::new(Shader::from_program(7), 1, 2, 3, 4, 36).unwrap();
    assert_eq!(object.index_count(), 36);
    assert_eq!(object.shader().id(), 7);
    assert_eq!(object.objects(), (1, 2, 3, 4));
    assert!(RenderObject::new(Shader::from_program(7), 1, 2, 3, 4, usize::MAX).is_none());
    let renderer = Renderer::new(5, 6);
    assert_eq!((renderer.vao(), renderer.vbo()), (5, 6));
}
