//! Polylines: a strip of points drawn as one line segment per adjacent pair.
use vstd::prelude::*;

use crate::flags::{
    decode_word, encode_word, lemma_encode_fields, lemma_round_trip, lemma_fields_determine_word, lemma_zero_fields, Alignment,
    Cap, Flags, ThicknessType,
};
use crate::record::{
    formats_size, layout_span, packed_attributes, packed_layout, Mat4Bits, Vec3Bits, Vec4Bits,
    VertexAttribute, VertexFormat,
};
use crate::shape::{
    FillType, ShaderKind, ShapeBundle, ShapeConfig, ShapeFill, UNIT_THICKNESS,
};

verus! {

/// Raw data sent to the line shader to draw one segment of a polyline.
#[derive(Clone, Copy, Debug, PartialEq, Eq, Structural)]
pub struct PolylineData {
    pub transform: Mat4Bits,
    pub color: Vec4Bits,
    pub thickness: u32,
    pub flags: u32,
    pub start: Vec3Bits,
    pub end: Vec3Bits,
}

/// Size in bytes of a `PolylineData` record, field by field.
pub open spec fn polyline_data_size() -> nat {
    let vec3 = 3 * 4nat;
    let vec4 = 4 * 4nat;
    let mat4 = 4 * vec4;
    mat4 + vec4 + 4 + 4 + vec3 + vec3
}

/// The formats of the fields of a `PolylineData` record, in field order.
pub open spec fn polyline_formats() -> Seq<VertexFormat> {
    seq![
        VertexFormat::Float32x4,
        VertexFormat::Float32x4,
        VertexFormat::Float32x4,
        VertexFormat::Float32x4,
        VertexFormat::Float32x4,
        VertexFormat::Float32,
        VertexFormat::Uint32,
        VertexFormat::Float32x3,
        VertexFormat::Float32x3,
    ]
}

/// Number of segments in a strip of `n` points.
pub open spec fn segment_count(n: nat) -> nat {
    if n == 0 {
        0
    } else {
        (n - 1) as nat
    }
}

/// The records of a strip: one per adjacent pair of points, in strip order,
/// all with the same transform, color, thickness and flags.
pub open spec fn segments(
    tf: Mat4Bits,
    color: Vec4Bits,
    thickness: u32,
    flags: u32,
    strip: Seq<Vec3Bits>,
) -> Seq<PolylineData> {
    Seq::new(
        segment_count(strip.len()),
        |i: int|
            PolylineData { transform: tf, color, thickness, flags, start: strip[i], end: strip[i + 1] },
    )
}

/// The flags of a stroked polyline drawn with `config`.
pub open spec fn stroke_flags(config: ShapeConfig) -> u32 {
    encode_word(config.alignment, config.cap, config.thickness_type, true)
}

/// The records that drawing `strip` with `config` produces at once.
pub open spec fn immediate_records(config: ShapeConfig, strip: Seq<Vec3Bits>) -> Seq<PolylineData> {
    segments(config.transform, config.color, config.thickness, stroke_flags(config), strip)
}

/// The thickness that a fill gives every segment.
pub open spec fn fill_thickness(ty: FillType) -> u32 {
    match ty {
        FillType::Stroke(t, _) => t,
        FillType::Fill => UNIT_THICKNESS,
    }
}

/// The flags that a fill, an alignment and a cap give every segment.
pub open spec fn fill_flags(ty: FillType, alignment: Alignment, cap: Cap) -> u32 {
    match ty {
        FillType::Stroke(_, tt) => encode_word(alignment, cap, tt, true),
        FillType::Fill => encode_word(alignment, cap, ThicknessType::World, false),
    }
}

/// The records that a polyline component with the given alignment, cap and
/// strip expands into, under a transform and a fill.
pub open spec fn component_records(
    alignment: Alignment,
    cap: Cap,
    strip: Seq<Vec3Bits>,
    tf: Mat4Bits,
    fill: ShapeFill,
) -> Seq<PolylineData> {
    segments(tf, fill.color, fill_thickness(fill.ty), fill_flags(fill.ty, alignment, cap), strip)
}

/// Appends to `out` one record per adjacent pair of points of `strip`, in
/// strip order.
fn push_segments(
    out: &mut Vec<PolylineData>,
    tf: Mat4Bits,
    color: Vec4Bits,
    thickness: u32,
    flags: u32,
    strip: &Vec<Vec3Bits>,
)
    ensures
        final(out)@ == old(out)@ + segments(tf, color, thickness, flags, strip@),
{
    if strip.len() < 2 {
        assert(segments(tf, color, thickness, flags, strip@) =~= Seq::empty());
        assert(out@ + Seq::empty() =~= out@);
        return;
    }
    let mut i: usize = 1;
    while i < strip.len()
        invariant
            1 <= i <= strip@.len(),
            out@ == old(out)@ + segments(tf, color, thickness, flags, strip@.take(i as int)),
        decreases strip@.len() - i,
    {
        let rec = PolylineData { transform: tf, color, thickness, flags, start: strip[i - 1], end: strip[i] };
        proof {
            assert(segments(tf, color, thickness, flags, strip@.take(i + 1)) =~= segments(
                tf,
                color,
                thickness,
                flags,
                strip@.take(i as int),
            ).push(rec));
        }
        out.push(rec);
        i = i + 1;
    }
    assert(strip@.take(i as int) =~= strip@);
}

impl PolylineData {
    /// The record of the segment from `start` to `end`, stroked with `config`.
    /// A polyline is always a stroke, so the hollow bit is set.
    pub fn new(config: &ShapeConfig, start: Vec3Bits, end: Vec3Bits) -> (r: PolylineData)
        ensures
            r == (PolylineData {
                transform: config.transform,
                color: config.color,
                thickness: config.thickness,
                flags: stroke_flags(*config),
                start,
                end,
            }),
    {
        let flags = Flags::encode(config.alignment, config.cap, config.thickness_type, true);
        PolylineData {
            transform: config.transform,
            color: config.color,
            thickness: config.thickness,
            flags: flags.0,
            start,
            end,
        }
    }

    /// The vertex attributes of a record, one per field, in field order.
    pub fn vertex_layout() -> (r: Vec<VertexAttribute>)
        ensures
            r@ == packed_layout(polyline_formats()),
    {
        let formats = vec![
            VertexFormat::Float32x4,
            VertexFormat::Float32x4,
            VertexFormat::Float32x4,
            VertexFormat::Float32x4,
            VertexFormat::Float32x4,
            VertexFormat::Float32,
            VertexFormat::Uint32,
            VertexFormat::Float32x3,
            VertexFormat::Float32x3,
        ];
        assert(formats@ =~= polyline_formats());
        packed_attributes(&formats)
    }

    /// Size in bytes of a record.
    pub fn byte_size() -> (r: u64)
        ensures
            r == polyline_data_size(),
    {
        112
    }

    /// The shader that draws these records.
    pub fn shader() -> (r: ShaderKind)
        ensures
            r == ShaderKind::Line,
    {
        ShaderKind::Line
    }

    pub fn transform(&self) -> (r: Mat4Bits)
        ensures
            r == self.transform,
    {
        self.transform
    }
}

/// Component holding a polyline: its style options and its strip of points,
/// relative to the entity's transform.
pub struct PolylineComponent {
    pub alignment: Alignment,
    pub cap: Cap,
    pub strip: Vec<Vec3Bits>,
}

impl Default for PolylineComponent {
    /// A flat polyline with butt caps and no points.
    fn default() -> (r: PolylineComponent)
        ensures
            r.alignment == Alignment::Flat,
            r.cap == Cap::Butt,
            r.strip@.len() == 0,
    {
        PolylineComponent { alignment: Alignment::Flat, cap: Cap::Butt, strip: Vec::new() }
    }
}

impl PolylineComponent {
    pub fn new(config: &ShapeConfig, strip: Vec<Vec3Bits>) -> (r: PolylineComponent)
        ensures
            r.alignment == config.alignment,
            r.cap == config.cap,
            r.strip@ == strip@,
    {
        PolylineComponent { alignment: config.alignment, cap: config.cap, strip }
    }

    /// The records of one frame: one per adjacent pair of points, in strip
    /// order. The style comes once from `fill`: a stroke gives its thickness
    /// and thickness type and sets the hollow bit; a solid fill gives unit
    /// thickness and clears it.
    pub fn get_data(&self, tf: &Mat4Bits, fill: &ShapeFill) -> (r: Vec<PolylineData>)
        ensures
            r@ == component_records(self.alignment, self.cap, self.strip@, *tf, *fill),
    {
        let mut flags = Flags::zero();
        let thickness = match fill.ty {
            FillType::Stroke(thickness, thickness_type) => {
                flags.set_thickness_type(thickness_type);
                flags.set_hollow(1);
                thickness
            },
            FillType::Fill => UNIT_THICKNESS,
        };
        flags.set_alignment(self.alignment);
        flags.set_cap(self.cap);
        proof {
            lemma_zero_fields();
            match fill.ty {
                FillType::Stroke(_, tt) => {
                    lemma_encode_fields(self.alignment, self.cap, tt, true);
                },
                FillType::Fill => {
                    lemma_encode_fields(self.alignment, self.cap, ThicknessType::World, false);
                },
            }
            lemma_fields_determine_word(flags.0, fill_flags(fill.ty, self.alignment, self.cap));
        }
        let mut r: Vec<PolylineData> = Vec::new();
        push_segments(&mut r, *tf, fill.color, thickness, flags.0, &self.strip);
        assert(Seq::<PolylineData>::empty() + segments(*tf, fill.color, thickness, flags.0, self.strip@) =~= segments(*tf, fill.color, thickness, flags.0, self.strip@));
        r
    }
}

/// The fill of a persistent polyline: a stroke with the configuration's
/// color, thickness and thickness type.
pub open spec fn polyline_fill(config: ShapeConfig) -> ShapeFill {
    ShapeFill { color: config.color, ty: FillType::Stroke(config.thickness, config.thickness_type) }
}

/// Draws polylines at once, for the current frame only.
pub trait PolylinePainter {
    /// The records submitted so far.
    spec fn sent(&self) -> Seq<PolylineData>;

    /// The records that drawing `strip` in the current state submits.
    spec fn strip_records(&self, strip: Seq<Vec3Bits>) -> Seq<PolylineData>;

    /// Submits one record per adjacent pair of points of `strip`, in strip
    /// order.
    fn polyline(&mut self, strip: Vec<Vec3Bits>)
        ensures
            final(self).sent() == old(self).sent() + old(self).strip_records(strip@),
    ;
}

/// Draws shapes at once with its configuration, into a queue of records.
pub struct ShapePainter {
    pub config: ShapeConfig,
    /// The batch queue of the line shader.
    pub queue: Vec<PolylineData>,
}

impl ShapePainter {
    /// A painter with `config` and an empty queue.
    pub fn new(config: ShapeConfig) -> (r: ShapePainter)
        ensures
            r.config == config,
            r.queue@.len() == 0,
    {
        ShapePainter { config, queue: Vec::new() }
    }

    pub fn config(&self) -> (r: &ShapeConfig)
        ensures
            *r == self.config,
    {
        &self.config
    }

    /// Appends one record to the queue.
    pub fn send(&mut self, data: PolylineData)
        ensures
            final(self).config == old(self).config,
            final(self).queue@ == old(self).queue@.push(data),
    {
        self.queue.push(data);
    }
}

impl PolylinePainter for ShapePainter {
    open spec fn sent(&self) -> Seq<PolylineData> {
        self.queue@
    }

    open spec fn strip_records(&self, strip: Seq<Vec3Bits>) -> Seq<PolylineData> {
        immediate_records(self.config, strip)
    }

    fn polyline(&mut self, strip: Vec<Vec3Bits>) {
        if strip.len() < 2 {
            assert(immediate_records(self.config, strip@) =~= Seq::empty());
            assert(self.queue@ + Seq::empty() =~= self.queue@);
            return;
        }
        proof {
            assert(immediate_records(self.config, strip@.take(1)) =~= Seq::empty());
            assert(self.queue@ + Seq::empty() =~= self.queue@);
        }
        let mut i: usize = 1;
        while i < strip.len()
            invariant
                1 <= i <= strip@.len(),
                self.config == old(self).config,
                self.queue@ == old(self).queue@ + immediate_records(
                    old(self).config,
                    strip@.take(i as int),
                ),
            decreases strip@.len() - i,
        {
            let data = PolylineData::new(self.config(), strip[i - 1], strip[i]);
            proof {
                assert(immediate_records(self.config, strip@.take(i + 1)) =~= immediate_records(
                    self.config,
                    strip@.take(i as int),
                ).push(data));
            }
            self.send(data);
            i = i + 1;
        }
        assert(strip@.take(i as int) =~= strip@);
    }
}

/// Builds the bundle of a persistent polyline entity.
pub trait PolylineBundle: Sized {
    /// Whether this bundle holds the polyline `strip` drawn with `config`.
    spec fn is_polyline_of(&self, config: ShapeConfig, strip: Seq<Vec3Bits>) -> bool;

    fn polyline(config: &ShapeConfig, strip: Vec<Vec3Bits>) -> (r: Self)
        ensures
            r.is_polyline_of(*config, strip@),
    ;
}

impl PolylineBundle for ShapeBundle<PolylineComponent> {
    open spec fn is_polyline_of(&self, config: ShapeConfig, strip: Seq<Vec3Bits>) -> bool {
        &&& self.transform == config.transform
        &&& self.fill == polyline_fill(config)
        &&& self.shape.alignment == config.alignment
        &&& self.shape.cap == config.cap
        &&& self.shape.strip@ == strip
    }

    /// A bundle whose fill is a stroke of the configuration's thickness,
    /// whatever its hollow flag.
    fn polyline(config: &ShapeConfig, strip: Vec<Vec3Bits>) -> (r: Self) {
        let mut bundle = ShapeBundle::new(config, PolylineComponent::new(config, strip));
        bundle.fill.ty = FillType::Stroke(config.thickness, config.thickness_type);
        bundle
    }
}

/// Spawns persistent polyline entities.
pub trait PolylineSpawner {
    /// The configuration that new entities take.
    spec fn spawn_config(&self) -> ShapeConfig;

    /// The entities spawned so far, in spawn order.
    spec fn entities(&self) -> Seq<ShapeBundle<PolylineComponent>>;

    /// Spawns an entity holding the polyline `strip` and returns its index.
    fn polyline(&mut self, strip: Vec<Vec3Bits>) -> (r: usize)
        ensures
            r == old(self).entities().len(),
            final(self).spawn_config() == old(self).spawn_config(),
            final(self).entities().len() == old(self).entities().len() + 1,
            final(self).entities().take(r as int) == old(self).entities(),
            final(self).entities()[r as int].is_polyline_of(old(self).spawn_config(), strip@),
    ;
}

/// Spawns shape entities with its configuration, keeping them in spawn order.
pub struct ShapeCommands {
    pub config: ShapeConfig,
    pub spawned: Vec<ShapeBundle<PolylineComponent>>,
}

impl ShapeCommands {
    /// Commands with `config` and no entities.
    pub fn new(config: ShapeConfig) -> (r: ShapeCommands)
        ensures
            r.config == config,
            r.spawned@.len() == 0,
    {
        ShapeCommands { config, spawned: Vec::new() }
    }

    pub fn config(&self) -> (r: &ShapeConfig)
        ensures
            *r == self.config,
    {
        &self.config
    }

    /// Adds an entity made of `bundle` and returns its index.
    pub fn spawn_shape(&mut self, bundle: ShapeBundle<PolylineComponent>) -> (r: usize)
        ensures
            r == old(self).spawned@.len(),
            final(self).config == old(self).config,
            final(self).spawned@ == old(self).spawned@.push(bundle),
    {
        let r = self.spawned.len();
        self.spawned.push(bundle);
        r
    }
}

impl PolylineSpawner for ShapeCommands {
    open spec fn spawn_config(&self) -> ShapeConfig {
        self.config
    }

    open spec fn entities(&self) -> Seq<ShapeBundle<PolylineComponent>> {
        self.spawned@
    }

    fn polyline(&mut self, strip: Vec<Vec3Bits>) -> (r: usize) {
        let bundle = <ShapeBundle<PolylineComponent> as PolylineBundle>::polyline(self.config(), strip);
        let r = self.spawn_shape(bundle);
        assert(self.spawned@.take(r as int) =~= old(self).spawned@);
        r
    }
}

/// A strip of `n` points gives `max(n - 1, 0)` records, by either path.
pub proof fn lemma_segment_count(config: ShapeConfig, component: PolylineComponent, tf: Mat4Bits, fill: ShapeFill)
    ensures
        immediate_records(config, component.strip@).len() == if component.strip@.len() == 0 {
            0
        } else {
            component.strip@.len() - 1
        },
        component_records(component.alignment, component.cap, component.strip@, tf, fill).len()
            == if component.strip@.len() == 0 {
            0
        } else {
            component.strip@.len() - 1
        },
{
}

/// Record `i` of a strip runs from point `i` to point `i + 1`, by either path.
pub proof fn lemma_segment_content(config: ShapeConfig, component: PolylineComponent, tf: Mat4Bits, fill: ShapeFill, i: int)
    requires
        0 <= i < component.strip@.len() - 1,
    ensures
        immediate_records(config, component.strip@)[i].start == component.strip@[i],
        immediate_records(config, component.strip@)[i].end == component.strip@[i + 1],
        component_records(component.alignment, component.cap, component.strip@, tf, fill)[i].start
            == component.strip@[i],
        component_records(component.alignment, component.cap, component.strip@, tf, fill)[i].end
            == component.strip@[i + 1],
{
}

/// Under a stroke fill, every record of a strip carries the stroke's
/// thickness and the same flags, which decode to the component's alignment
/// and cap, the stroke's thickness type and the hollow bit; only the
/// endpoints differ from record to record.
pub proof fn lemma_stroke_style_invariant(
    component: PolylineComponent,
    tf: Mat4Bits,
    color: Vec4Bits,
    thickness: u32,
    thickness_type: ThicknessType,
    i: int,
    j: int,
)
    requires
        0 <= i < component.strip@.len() - 1,
        0 <= j < component.strip@.len() - 1,
    ensures
        ({
            let fill = ShapeFill { color, ty: FillType::Stroke(thickness, thickness_type) };
            let recs = component_records(component.alignment, component.cap, component.strip@, tf, fill);
            &&& recs[i].thickness == thickness
            &&& recs[i].flags == recs[j].flags
            &&& recs[i].transform == recs[j].transform
            &&& recs[i].color == recs[j].color
            &&& decode_word(recs[i].flags) == (component.alignment, component.cap, thickness_type, true)
        }),
{
    lemma_round_trip(component.alignment, component.cap, thickness_type, true);
}

/// Drawing a strip at once and expanding the bundle that spawning it makes
/// give the same records, field for field.
pub proof fn lemma_paths_agree(config: ShapeConfig, strip: Seq<Vec3Bits>, bundle: ShapeBundle<PolylineComponent>)
    requires
        bundle.is_polyline_of(config, strip),
    ensures
        component_records(bundle.shape.alignment, bundle.shape.cap, bundle.shape.strip@, bundle.transform, bundle.fill)
            == immediate_records(config, strip),
{
}

/// The vertex layout of a record covers exactly the record's bytes.
pub proof fn lemma_layout_matches_record()
    ensures
        layout_span(packed_layout(polyline_formats())) == polyline_data_size(),
        packed_layout(polyline_formats()).len() == 9,
{
    let fs = polyline_formats();
    reveal_with_fuel(formats_size, 10);
    assert(fs.take(8) =~= fs.drop_last());
    assert(fs.take(8).drop_last() =~= fs.take(7));
    assert(fs.take(7).drop_last() =~= fs.take(6));
    assert(fs.take(6).drop_last() =~= fs.take(5));
    assert(fs.take(5).drop_last() =~= fs.take(4));
    assert(fs.take(4).drop_last() =~= fs.take(3));
    assert(fs.take(3).drop_last() =~= fs.take(2));
    assert(fs.take(2).drop_last() =~= fs.take(1));
    assert(fs.take(1).drop_last() =~= fs.take(0));
    assert(formats_size(fs.take(8)) == 100);
}

} // verus!
