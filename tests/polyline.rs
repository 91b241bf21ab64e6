use vector_shapes::flags::{Alignment, Cap, Flags, ThicknessType};
use vector_shapes::polyline::{
    PolylineBundle, PolylineComponent, PolylineData, PolylinePainter, PolylineSpawner,
    ShapeCommands, ShapePainter,
};
use vector_shapes::record::{Mat4Bits, Vec3Bits, Vec4Bits, VertexFormat};
use vector_shapes::shape::{
    FillType, ShaderKind, ShapeBundle, ShapeConfig, ShapeFill, UNIT_THICKNESS,
};

fn v3(x: f32, y: f32, z: f32) -> Vec3Bits {
    Vec3Bits { x: x.to_bits(), y: y.to_bits(), z: z.to_bits() }
}

fn v4(x: f32, y: f32, z: f32, w: f32) -> Vec4Bits {
    Vec4Bits { x: x.to_bits(), y: y.to_bits(), z: z.to_bits(), w: w.to_bits() }
}

fn translation(x: f32, y: f32, z: f32) -> Mat4Bits {
    Mat4Bits {
        x_axis: v4(1.0, 0.0, 0.0, 0.0),
        y_axis: v4(0.0, 1.0, 0.0, 0.0),
        z_axis: v4(0.0, 0.0, 1.0, 0.0),
        w_axis: v4(x, y, z, 1.0),
    }
}

fn config() -> ShapeConfig {
    ShapeConfig {
        transform: translation(1.0, 2.0, 3.0),
        color: v4(0.25, 0.5, 0.75, 1.0),
        thickness: 0.5f32.to_bits(),
        thickness_type: ThicknessType::Screen,
        alignment: Alignment::Billboard,
        cap: Cap::Round,
        corner_radii: v4(0.0, 0.0, 0.0, 0.0),
        hollow: false,
    }
}

fn strip3() -> Vec<Vec3Bits> {
    vec![v3(0.0, 0.0, 0.0), v3(1.0, 0.0, 0.0), v3(1.0, 1.0, 0.0)]
}

fn stroke() -> ShapeFill {
    ShapeFill { color: v4(0.25, 0.5, 0.75, 1.0), ty: FillType::Stroke(0.5f32.to_bits(), ThicknessType::Screen) }
}

#[test]
fn segment_count_matches_strip_length() {
    let tf = translation(0.0, 0.0, 0.0);
    for n in 0..6usize {
        let strip: Vec<Vec3Bits> = (0..n).map(|i| v3(i as f32, 0.0, 0.0)).collect();
        let c = PolylineComponent::new(&config(), strip);
        let expected = if n == 0 { 0 } else { n - 1 };
        assert_eq!(c.get_data(&tf, &stroke()).len(), expected);
    }
}

#[test]
fn empty_and_single_point_strips_give_no_records() {
    let tf = translation(0.0, 0.0, 0.0);
    let empty = PolylineComponent::new(&config(), vec![]);
    assert!(empty.get_data(&tf, &stroke()).is_empty());
    let single = PolylineComponent::new(&config(), vec![v3(1.0, 2.0, 3.0)]);
    assert!(single.get_data(&tf, &stroke()).is_empty());

    let mut painter = ShapePainter::new(config());
    painter.polyline(vec![]);
    painter.polyline(vec![v3(1.0, 2.0, 3.0)]);
    assert!(painter.queue.is_empty());
}

#[test]
fn segments_run_between_adjacent_points_in_order() {
    let s = strip3();
    let c = PolylineComponent::new(&config(), s.clone());
    let recs = c.get_data(&translation(0.0, 0.0, 0.0), &stroke());
    assert_eq!(recs.len(), 2);
    assert_eq!((recs[0].start, recs[0].end), (s[0], s[1]));
    assert_eq!((recs[1].start, recs[1].end), (s[1], s[2]));
}

#[test]
fn stroke_style_is_the_same_on_every_segment() {
    let strip: Vec<Vec3Bits> = (0..5).map(|i| v3(i as f32, (i * i) as f32, 0.0)).collect();
    let c = PolylineComponent::new(&config(), strip);
    let recs = c.get_data(&translation(0.0, 0.0, 0.0), &stroke());
    assert_eq!(recs.len(), 4);
    for r in &recs {
        assert_eq!(f32::from_bits(r.thickness), 0.5);
        assert_eq!(r.flags, recs[0].flags);
        assert_eq!(
            Flags(r.flags).decode(),
            (Alignment::Billboard, Cap::Round, ThicknessType::Screen, true)
        );
    }
}

#[test]
fn solid_fill_gives_unit_thickness_and_clears_hollow() {
    let c = PolylineComponent::new(&config(), strip3());
    let fill = ShapeFill { color: v4(1.0, 1.0, 1.0, 1.0), ty: FillType::Fill };
    let recs = c.get_data(&translation(0.0, 0.0, 0.0), &fill);
    assert_eq!(recs.len(), 2);
    for r in &recs {
        assert_eq!(r.thickness, UNIT_THICKNESS);
        assert_eq!(f32::from_bits(r.thickness), 1.0);
        assert_eq!(
            Flags(r.flags).decode(),
            (Alignment::Billboard, Cap::Round, ThicknessType::World, false)
        );
        assert_eq!(r.color, v4(1.0, 1.0, 1.0, 1.0));
    }
}

#[test]
fn get_data_uses_the_given_transform_and_color() {
    let c = PolylineComponent::new(&config(), strip3());
    let tf = translation(5.0, 6.0, 7.0);
    let recs = c.get_data(&tf, &stroke());
    for r in &recs {
        assert_eq!(r.transform, tf);
        assert_eq!(r.transform(), tf);
        assert_eq!(r.color, v4(0.25, 0.5, 0.75, 1.0));
    }
}

#[test]
fn immediate_and_persistent_paths_agree() {
    let cfg = config();
    let mut painter = ShapePainter::new(cfg);
    painter.polyline(strip3());

    let bundle = <ShapeBundle<PolylineComponent> as PolylineBundle>::polyline(&cfg, strip3());
    let recs = bundle.shape.get_data(&bundle.transform, &bundle.fill);
    assert_eq!(painter.queue, recs);
    assert_eq!(painter.queue.len(), 2);
}

#[test]
fn painter_appends_to_its_queue() {
    let mut painter = ShapePainter::new(config());
    painter.polyline(strip3());
    painter.polyline(vec![v3(9.0, 9.0, 9.0), v3(8.0, 8.0, 8.0)]);
    assert_eq!(painter.queue.len(), 3);
    assert_eq!(painter.queue[2].start, v3(9.0, 9.0, 9.0));
    assert_eq!(painter.queue[2].end, v3(8.0, 8.0, 8.0));
}

#[test]
fn data_new_encodes_the_config() {
    let cfg = config();
    let d = PolylineData::new(&cfg, v3(1.0, 0.0, 0.0), v3(2.0, 0.0, 0.0));
    assert_eq!(d.transform, cfg.transform);
    assert_eq!(d.color, cfg.color);
    assert_eq!(d.thickness, cfg.thickness);
    assert_eq!(d.flags, 23);
    assert_eq!(d.start, v3(1.0, 0.0, 0.0));
    assert_eq!(d.end, v3(2.0, 0.0, 0.0));
}

#[test]
fn bundle_strokes_whatever_the_hollow_flag() {
    let cfg = config();
    let bundle = <ShapeBundle<PolylineComponent> as PolylineBundle>::polyline(&cfg, strip3());
    assert_eq!(bundle.fill.ty, FillType::Stroke(cfg.thickness, cfg.thickness_type));
    assert_eq!(bundle.fill.color, cfg.color);
    assert_eq!(bundle.transform, cfg.transform);
    assert_eq!(bundle.shape.alignment, Alignment::Billboard);
    assert_eq!(bundle.shape.cap, Cap::Round);
    assert_eq!(bundle.shape.strip, strip3());
}

#[test]
fn shape_bundle_new_follows_hollow_flag() {
    let mut cfg = config();
    let solid = ShapeBundle::new(&cfg, 7u8);
    assert_eq!(solid.fill.ty, FillType::Fill);
    cfg.hollow = true;
    let hollow = ShapeBundle::new(&cfg, 7u8);
    assert_eq!(hollow.fill.ty, FillType::Stroke(cfg.thickness, ThicknessType::Screen));
}

#[test]
fn spawner_adds_entities_in_order() {
    let mut commands = ShapeCommands::new(config());
    assert_eq!(commands.polyline(strip3()), 0);
    assert_eq!(commands.polyline(vec![v3(4.0, 4.0, 4.0)]), 1);
    assert_eq!(commands.spawned.len(), 2);
    assert_eq!(commands.spawned[0].shape.strip, strip3());
    assert_eq!(commands.spawned[1].shape.strip.len(), 1);
    assert_eq!(commands.spawned[1].fill.ty, FillType::Stroke(0.5f32.to_bits(), ThicknessType::Screen));
}

#[test]
fn default_component_is_empty() {
    let c = PolylineComponent::default();
    assert_eq!(c.alignment, Alignment::Flat);
    assert_eq!(c.cap, Cap::Butt);
    assert!(c.strip.is_empty());
    assert!(c.get_data(&translation(0.0, 0.0, 0.0), &stroke()).is_empty());
}

#[test]
fn vertex_layout_covers_the_record() {
    let layout = PolylineData::vertex_layout();
    let offsets: Vec<u64> = layout.iter().map(|a| a.offset).collect();
    assert_eq!(offsets, vec![0, 16, 32, 48, 64, 80, 84, 88, 100]);
    let locations: Vec<u32> = layout.iter().map(|a| a.shader_location).collect();
    assert_eq!(locations, (0..9).collect::<Vec<u32>>());
    assert_eq!(layout[5].format, VertexFormat::Float32);
    assert_eq!(layout[6].format, VertexFormat::Uint32);
    assert_eq!(layout[8].format, VertexFormat::Float32x3);
    let last = layout[8];
    assert_eq!(last.offset + last.format.size(), PolylineData::byte_size());
    assert_eq!(PolylineData::byte_size(), 112);
    assert_eq!(std::mem::size_of::<PolylineData>() as u64, PolylineData::byte_size());
}

#[test]
fn polyline_records_use_the_line_shader() {
    assert_eq!(PolylineData::shader(), ShaderKind::Line);
}
