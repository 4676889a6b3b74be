//! The command lists a flush produces, and render-target switching.

use battery::Batcher;
use battery::Canvas;
use battery::Vertex;
use battery::batcher::BatchModes;
use battery::batcher::GpuCommand;

fn shape(x: f32, y: f32) -> Vertex {
    let one = 1.0f32.to_bits();
    Vertex::as_shape((x.to_bits(), y.to_bits()), (one, one, one, one))
}

#[test]
fn present_with_empty_frame_issues_no_commands() {
    let mut b = Batcher::new();
    let cmds = b.present();
    assert_eq!(cmds.len(), 0);
}

#[test]
fn present_uploads_once_then_draws_each_batch() {
    let mut b = Batcher::new();
    let v = shape(0.0, 0.0);
    b.push_tri(None, BatchModes::Shape, v, v, v);
    b.push_quad(Some(3), BatchModes::Texture, v, v, v, v);
    let cmds = b.present();
    // upload, matrix, unbind+draw, bind+draw
    assert_eq!(cmds.len(), 6);
    assert!(matches!(&cmds[0], GpuCommand::UploadVertices { vertices } if vertices.len() == 9));
    assert!(matches!(&cmds[1], GpuCommand::SetMatrixUniform { .. }));
    assert!(matches!(&cmds[2], GpuCommand::UnbindTexture));
    assert!(matches!(&cmds[3], GpuCommand::DrawTriangles { start: 0, count: 3 }));
    assert!(matches!(&cmds[4], GpuCommand::BindTexture { texture: 3 }));
    assert!(matches!(&cmds[5], GpuCommand::DrawTriangles { start: 3, count: 6 }));
    // the frame state is cleared for the next frame
    assert_eq!(b.vertices.len(), 0);
    assert_eq!(b.batches.len(), 0);
}

#[test]
fn present_clears_but_keeps_matrix_and_color() {
    let mut b = Batcher::new();
    b.viewport(320.0f32.to_bits(), 240.0f32.to_bits());
    let matrix = b.matrix;
    b.set_color(1, 2, 3, 4);
    let v = shape(0.0, 0.0);
    b.push_tri(None, BatchModes::Shape, v, v, v);
    b.present();
    assert_eq!(b.matrix, matrix);
    assert_eq!(b.get_color(), (1, 2, 3, 4));
}

#[test]
fn viewport_builds_the_orthographic_projection() {
    let mut b = Batcher::new();
    let cmd = b.viewport(320.0f32.to_bits(), 240.0f32.to_bits());
    assert!(matches!(cmd, GpuCommand::SetViewport { width, height }
        if width == 320.0f32.to_bits() && height == 240.0f32.to_bits()));
    let m: Vec<f32> = b.matrix.iter().map(|bits| f32::from_bits(*bits)).collect();
    // column-major: scale diagonal, translation in the last column
    assert_eq!(m[0], 2.0 / 320.0);
    assert_eq!(m[5], 2.0 / -240.0);
    assert_eq!(m[10], -2.0);
    assert_eq!(m[12], -1.0);
    assert_eq!(m[13], 1.0);
    assert_eq!(m[14], -1.0);
    assert_eq!(m[15], 1.0);
}

#[test]
fn translate_moves_the_projection() {
    let mut b = Batcher::new();
    b.viewport(100.0f32.to_bits(), 100.0f32.to_bits());
    let before = b.matrix;
    b.translate(10.0f32.to_bits(), 0.0f32.to_bits());
    // identity times translation: only the last column moves
    assert_ne!(b.matrix, before);
    let m: Vec<f32> = b.matrix.iter().map(|bits| f32::from_bits(*bits)).collect();
    assert_eq!(m[12], -1.0 + 10.0 * (2.0 / 100.0));
}

#[test]
fn scale_rescales_the_projection() {
    let mut b = Batcher::new();
    b.viewport(100.0f32.to_bits(), 100.0f32.to_bits());
    b.scale(2.0f32.to_bits(), 1.0f32.to_bits());
    let m: Vec<f32> = b.matrix.iter().map(|bits| f32::from_bits(*bits)).collect();
    assert_eq!(m[0], 2.0 * (2.0 / 100.0));
    assert_eq!(m[5], 2.0 / -100.0);
}

#[test]
fn set_canvas_flushes_then_redirects() {
    let mut b = Batcher::new();
    let canvas = Canvas::new(16, 16, 7, 8);
    let v = shape(1.0, 1.0);
    b.push_tri(None, BatchModes::Shape, v, v, v);
    let cmds = b.set_canvas(&canvas);
    // flush of the pending triangle, then viewport, then framebuffer bind
    assert_eq!(cmds.len(), 6);
    assert!(matches!(&cmds[0], GpuCommand::UploadVertices { .. }));
    assert!(matches!(&cmds[3], GpuCommand::DrawTriangles { start: 0, count: 3 }));
    assert!(matches!(&cmds[4], GpuCommand::SetViewport { width, height }
        if *width == 16.0f32.to_bits() && *height == 16.0f32.to_bits()));
    assert!(matches!(&cmds[5], GpuCommand::BindFramebuffer { framebuffer: 8 }));
    assert_eq!(b.vertices.len(), 0);
    assert_eq!(b.batches.len(), 0);
    // the projection is flipped vertically for off-screen rendering
    let m: Vec<f32> = b.matrix.iter().map(|bits| f32::from_bits(*bits)).collect();
    assert_eq!(m[5], -(2.0 / -16.0));
}

#[test]
fn reset_canvas_flushes_then_restores() {
    let mut b = Batcher::new();
    let canvas = Canvas::new(16, 16, 7, 8);
    b.set_canvas(&canvas);
    let v = shape(1.0, 1.0);
    b.push_tri(None, BatchModes::Shape, v, v, v);
    let cmds = b.reset_canvas(320, 240);
    assert_eq!(cmds.len(), 6);
    assert!(matches!(&cmds[3], GpuCommand::DrawTriangles { start: 0, count: 3 }));
    assert!(matches!(&cmds[4], GpuCommand::SetViewport { .. }));
    assert!(matches!(&cmds[5], GpuCommand::UnbindFramebuffer));
    assert_eq!(b.batches.len(), 0);
}

#[test]
fn target_switch_preserves_draw_order_in_the_stream() {
    let mut b = Batcher::new();
    let canvas = Canvas::new(16, 16, 7, 8);
    let v = shape(1.0, 1.0);
    b.origin(320, 240);

    let mut stream: Vec<GpuCommand> = Vec::new();
    b.push_tri(None, BatchModes::Shape, v, v, v);
    stream.extend(b.set_canvas(&canvas));
    b.push_quad(Some(7), BatchModes::Texture, v, v, v, v);
    stream.extend(b.reset_canvas(320, 240));
    b.push_tri(None, BatchModes::Shape, v, v, v);
    stream.extend(b.present());

    let draws: Vec<(u32, u32)> = stream
        .iter()
        .filter_map(|cmd| match cmd {
            GpuCommand::DrawTriangles { start, count } => Some((*start, *count)),
            _ => None,
        })
        .collect();
    // one draw per phase, in submission order
    assert_eq!(draws, vec![(0, 3), (0, 6), (0, 3)]);
    // the draw issued before the switch comes earliest in the stream
    let first_bind = stream
        .iter()
        .position(|cmd| matches!(cmd, GpuCommand::BindFramebuffer { .. }))
        .unwrap();
    let first_draw = stream
        .iter()
        .position(|cmd| matches!(cmd, GpuCommand::DrawTriangles { .. }))
        .unwrap();
    assert!(first_draw < first_bind);
}

#[test]
fn canvas_reports_its_dimensions() {
    let canvas = Canvas::new(24, 12, 5, 6);
    assert_eq!(canvas.get_width(), 24);
    assert_eq!(canvas.get_height(), 12);
    assert_eq!(canvas.handle, 6);
    assert_eq!(canvas.texture.handle, 5);
}

#[test]
fn drawing_a_canvas_uses_its_texture_handle() {
    let mut b = Batcher::new();
    let canvas = Canvas::new(16, 16, 7, 8);
    b.canvas(&canvas, 0.0f32.to_bits(), 0.0f32.to_bits(), None, None, None, None);
    assert_eq!(b.batches.len(), 1);
    assert_eq!(b.batches[0].texture, Some(7));
    assert_eq!(b.batches[0].mode, BatchModes::Texture);
}
