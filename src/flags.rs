//! The packed style word shared by every shape record.
//!
//! Bit ranges, least significant first:
//! - bit 0: thickness type
//! - bit 1: alignment
//! - bit 2: hollow
//! - bits 3..=4: cap
//! - bits 5..=31: reserved, always zero
use vstd::prelude::*;

verus! {

/// How a shape is oriented relative to the camera.
#[derive(Clone, Copy, Debug, PartialEq, Eq, Structural)]
pub enum Alignment {
    /// Lies in the plane given by its transform.
    Flat,
    /// Always faces the camera.
    Billboard,
}

/// How the ends of a line are drawn.
#[derive(Clone, Copy, Debug, PartialEq, Eq, Structural)]
pub enum Cap {
    /// Ends flush with the endpoints.
    Butt,
    Square,
    Round,
}

/// The unit in which a thickness is measured.
#[derive(Clone, Copy, Debug, PartialEq, Eq, Structural)]
pub enum ThicknessType {
    /// World-space units.
    World,
    /// Screen-space units.
    Screen,
}

pub open spec fn alignment_code(a: Alignment) -> u32 {
    match a {
        Alignment::Flat => 0,
        Alignment::Billboard => 1,
    }
}

pub open spec fn cap_code(c: Cap) -> u32 {
    match c {
        Cap::Butt => 0,
        Cap::Square => 1,
        Cap::Round => 2,
    }
}

pub open spec fn thickness_type_code(t: ThicknessType) -> u32 {
    match t {
        ThicknessType::World => 0,
        ThicknessType::Screen => 1,
    }
}

pub open spec fn hollow_code(h: bool) -> u32 {
    if h { 1 } else { 0 }
}

/// The thickness-type field of a word.
pub open spec fn thickness_type_field(w: u32) -> u32 {
    w & 1u32
}

/// The alignment field of a word.
pub open spec fn alignment_field(w: u32) -> u32 {
    (w >> 1u32) & 1u32
}

/// The hollow field of a word.
pub open spec fn hollow_field(w: u32) -> u32 {
    (w >> 2u32) & 1u32
}

/// The cap field of a word.
pub open spec fn cap_field(w: u32) -> u32 {
    (w >> 3u32) & 3u32
}

/// The reserved high bits of a word.
pub open spec fn reserved_field(w: u32) -> u32 {
    w >> 5u32
}

/// `w` with its thickness-type field replaced by `v`.
pub open spec fn with_thickness_type(w: u32, v: u32) -> u32 {
    (w & !1u32) | v
}

/// `w` with its alignment field replaced by `v`.
pub open spec fn with_alignment(w: u32, v: u32) -> u32 {
    (w & !2u32) | (v << 1u32)
}

/// `w` with its hollow field replaced by `v`.
pub open spec fn with_hollow(w: u32, v: u32) -> u32 {
    (w & !4u32) | (v << 2u32)
}

/// `w` with its cap field replaced by `v`.
pub open spec fn with_cap(w: u32, v: u32) -> u32 {
    (w & !24u32) | (v << 3u32)
}

/// A word that a well-behaved producer can make: reserved bits clear and a
/// cap code that names a variant.
pub open spec fn word_wf(w: u32) -> bool {
    reserved_field(w) == 0 && cap_field(w) < 3
}

pub open spec fn decode_alignment(w: u32) -> Alignment {
    if alignment_field(w) == 0 { Alignment::Flat } else { Alignment::Billboard }
}

pub open spec fn decode_cap(w: u32) -> Cap {
    if cap_field(w) == 0 {
        Cap::Butt
    } else if cap_field(w) == 1 {
        Cap::Square
    } else {
        Cap::Round
    }
}

pub open spec fn decode_thickness_type(w: u32) -> ThicknessType {
    if thickness_type_field(w) == 0 { ThicknessType::World } else { ThicknessType::Screen }
}

pub open spec fn decode_hollow(w: u32) -> bool {
    hollow_field(w) == 1
}

/// The options that a word holds.
pub open spec fn decode_word(w: u32) -> (Alignment, Cap, ThicknessType, bool) {
    (decode_alignment(w), decode_cap(w), decode_thickness_type(w), decode_hollow(w))
}

/// The word that holds the given options and nothing else.
pub open spec fn encode_word(a: Alignment, c: Cap, t: ThicknessType, h: bool) -> u32 {
    with_cap(with_hollow(with_alignment(with_thickness_type(0, thickness_type_code(t)), alignment_code(a)), hollow_code(h)), cap_code(c))
}

proof fn lemma_with_thickness_type(w: u32, v: u32)
    by (bit_vector)
    requires
        v < 2,
    ensures
        ((w & !1u32) | v) & 1u32 == v,
        (((w & !1u32) | v) >> 1u32) & 1u32 == (w >> 1u32) & 1u32,
        (((w & !1u32) | v) >> 2u32) & 1u32 == (w >> 2u32) & 1u32,
        (((w & !1u32) | v) >> 3u32) & 3u32 == (w >> 3u32) & 3u32,
        ((w & !1u32) | v) >> 5u32 == w >> 5u32,
{
}

proof fn lemma_with_alignment(w: u32, v: u32)
    by (bit_vector)
    requires
        v < 2,
    ensures
        ((w & !2u32) | (v << 1u32)) & 1u32 == w & 1u32,
        (((w & !2u32) | (v << 1u32)) >> 1u32) & 1u32 == v,
        (((w & !2u32) | (v << 1u32)) >> 2u32) & 1u32 == (w >> 2u32) & 1u32,
        (((w & !2u32) | (v << 1u32)) >> 3u32) & 3u32 == (w >> 3u32) & 3u32,
        ((w & !2u32) | (v << 1u32)) >> 5u32 == w >> 5u32,
{
}

proof fn lemma_with_hollow(w: u32, v: u32)
    by (bit_vector)
    requires
        v < 2,
    ensures
        ((w & !4u32) | (v << 2u32)) & 1u32 == w & 1u32,
        (((w & !4u32) | (v << 2u32)) >> 1u32) & 1u32 == (w >> 1u32) & 1u32,
        (((w & !4u32) | (v << 2u32)) >> 2u32) & 1u32 == v,
        (((w & !4u32) | (v << 2u32)) >> 3u32) & 3u32 == (w >> 3u32) & 3u32,
        ((w & !4u32) | (v << 2u32)) >> 5u32 == w >> 5u32,
{
}

proof fn lemma_with_cap(w: u32, v: u32)
    by (bit_vector)
    requires
        v < 4,
    ensures
        ((w & !24u32) | (v << 3u32)) & 1u32 == w & 1u32,
        (((w & !24u32) | (v << 3u32)) >> 1u32) & 1u32 == (w >> 1u32) & 1u32,
        (((w & !24u32) | (v << 3u32)) >> 2u32) & 1u32 == (w >> 2u32) & 1u32,
        (((w & !24u32) | (v << 3u32)) >> 3u32) & 3u32 == v,
        ((w & !24u32) | (v << 3u32)) >> 5u32 == w >> 5u32,
{
}

proof fn lemma_zero_word()
    by (bit_vector)
    ensures
        0u32 & 1u32 == 0,
        (0u32 >> 1u32) & 1u32 == 0,
        (0u32 >> 2u32) & 1u32 == 0,
        (0u32 >> 3u32) & 3u32 == 0,
        0u32 >> 5u32 == 0,
{
}

/// Setting one field of a word leaves every other field, and the reserved
/// bits, as they were: the fields do not overlap.
pub proof fn lemma_fields_disjoint(w: u32, v: u32)
    requires
        v < 2,
    ensures
        thickness_type_field(with_thickness_type(w, v)) == v,
        alignment_field(with_thickness_type(w, v)) == alignment_field(w),
        hollow_field(with_thickness_type(w, v)) == hollow_field(w),
        cap_field(with_thickness_type(w, v)) == cap_field(w),
        reserved_field(with_thickness_type(w, v)) == reserved_field(w),
        thickness_type_field(with_alignment(w, v)) == thickness_type_field(w),
        alignment_field(with_alignment(w, v)) == v,
        hollow_field(with_alignment(w, v)) == hollow_field(w),
        cap_field(with_alignment(w, v)) == cap_field(w),
        reserved_field(with_alignment(w, v)) == reserved_field(w),
        thickness_type_field(with_hollow(w, v)) == thickness_type_field(w),
        alignment_field(with_hollow(w, v)) == alignment_field(w),
        hollow_field(with_hollow(w, v)) == v,
        cap_field(with_hollow(w, v)) == cap_field(w),
        reserved_field(with_hollow(w, v)) == reserved_field(w),
{
    lemma_with_thickness_type(w, v);
    lemma_with_alignment(w, v);
    lemma_with_hollow(w, v);
}

/// Setting the cap field leaves every other field, and the reserved bits, as
/// they were.
pub proof fn lemma_cap_field_disjoint(w: u32, v: u32)
    requires
        v < 4,
    ensures
        thickness_type_field(with_cap(w, v)) == thickness_type_field(w),
        alignment_field(with_cap(w, v)) == alignment_field(w),
        hollow_field(with_cap(w, v)) == hollow_field(w),
        cap_field(with_cap(w, v)) == v,
        reserved_field(with_cap(w, v)) == reserved_field(w),
{
    lemma_with_cap(w, v);
}

proof fn lemma_word_ext(a: u32, b: u32)
    by (bit_vector)
    requires
        a & 1u32 == b & 1u32,
        (a >> 1u32) & 1u32 == (b >> 1u32) & 1u32,
        (a >> 2u32) & 1u32 == (b >> 2u32) & 1u32,
        (a >> 3u32) & 3u32 == (b >> 3u32) & 3u32,
        a >> 5u32 == b >> 5u32,
    ensures
        a == b,
{
}

/// Two words with the same fields and the same reserved bits are the same word.
pub proof fn lemma_fields_determine_word(a: u32, b: u32)
    requires
        thickness_type_field(a) == thickness_type_field(b),
        alignment_field(a) == alignment_field(b),
        hollow_field(a) == hollow_field(b),
        cap_field(a) == cap_field(b),
        reserved_field(a) == reserved_field(b),
    ensures
        a == b,
{
    lemma_word_ext(a, b);
}

/// The fields of the word made from a set of options are the options' codes,
/// and its reserved bits are clear.
pub proof fn lemma_encode_fields(a: Alignment, c: Cap, t: ThicknessType, h: bool)
    ensures
        thickness_type_field(encode_word(a, c, t, h)) == thickness_type_code(t),
        alignment_field(encode_word(a, c, t, h)) == alignment_code(a),
        hollow_field(encode_word(a, c, t, h)) == hollow_code(h),
        cap_field(encode_word(a, c, t, h)) == cap_code(c),
        reserved_field(encode_word(a, c, t, h)) == 0,
{
    lemma_zero_word();
    let w0 = with_thickness_type(0, thickness_type_code(t));
    lemma_with_thickness_type(0, thickness_type_code(t));
    let w1 = with_alignment(w0, alignment_code(a));
    lemma_with_alignment(w0, alignment_code(a));
    let w2 = with_hollow(w1, hollow_code(h));
    lemma_with_hollow(w1, hollow_code(h));
    lemma_with_cap(w2, cap_code(c));
}

/// Decoding the word made from a set of options gives those options back, and
/// the word is well formed.
pub proof fn lemma_round_trip(a: Alignment, c: Cap, t: ThicknessType, h: bool)
    ensures
        decode_word(encode_word(a, c, t, h)) == (a, c, t, h),
        word_wf(encode_word(a, c, t, h)),
{
    lemma_encode_fields(a, c, t, h);
}

/// Every field of the zero word is zero.
pub proof fn lemma_zero_fields()
    ensures
        thickness_type_field(0) == 0,
        alignment_field(0) == 0,
        hollow_field(0) == 0,
        cap_field(0) == 0,
        reserved_field(0) == 0,
{
    lemma_zero_word();
}

/// A packed style word.
#[derive(Clone, Copy, Debug, PartialEq, Eq, Structural)]
pub struct Flags(pub u32);

impl Flags {
    pub open spec fn wf(&self) -> bool {
        word_wf(self.0)
    }

    /// The word with every option at its default.
    pub fn zero() -> (r: Flags)
        ensures
            r.0 == 0,
            r.wf(),
            decode_word(r.0) == (Alignment::Flat, Cap::Butt, ThicknessType::World, false),
    {
        proof {
            lemma_zero_word();
        }
        Flags(0)
    }

    pub fn set_thickness_type(&mut self, thickness_type: ThicknessType)
        ensures
            final(self).0 == with_thickness_type(old(self).0, thickness_type_code(thickness_type)),
            thickness_type_field(final(self).0) == thickness_type_code(thickness_type),
            decode_thickness_type(final(self).0) == thickness_type,
            alignment_field(final(self).0) == alignment_field(old(self).0),
            hollow_field(final(self).0) == hollow_field(old(self).0),
            cap_field(final(self).0) == cap_field(old(self).0),
            reserved_field(final(self).0) == reserved_field(old(self).0),
    {
        let v: u32 = match thickness_type {
            ThicknessType::World => 0,
            ThicknessType::Screen => 1,
        };
        proof {
            lemma_fields_disjoint(self.0, v);
        }
        self.0 = (self.0 & !1u32) | v;
    }

    pub fn set_alignment(&mut self, alignment: Alignment)
        ensures
            final(self).0 == with_alignment(old(self).0, alignment_code(alignment)),
            alignment_field(final(self).0) == alignment_code(alignment),
            decode_alignment(final(self).0) == alignment,
            thickness_type_field(final(self).0) == thickness_type_field(old(self).0),
            hollow_field(final(self).0) == hollow_field(old(self).0),
            cap_field(final(self).0) == cap_field(old(self).0),
            reserved_field(final(self).0) == reserved_field(old(self).0),
    {
        let v: u32 = match alignment {
            Alignment::Flat => 0,
            Alignment::Billboard => 1,
        };
        proof {
            lemma_fields_disjoint(self.0, v);
        }
        self.0 = (self.0 & !2u32) | (v << 1u32);
    }

    /// Sets the hollow bit to `hollow`, which is 0 or 1.
    pub fn set_hollow(&mut self, hollow: u32)
        requires
            hollow < 2,
        ensures
            final(self).0 == with_hollow(old(self).0, hollow),
            hollow_field(final(self).0) == hollow,
            thickness_type_field(final(self).0) == thickness_type_field(old(self).0),
            alignment_field(final(self).0) == alignment_field(old(self).0),
            cap_field(final(self).0) == cap_field(old(self).0),
            reserved_field(final(self).0) == reserved_field(old(self).0),
    {
        proof {
            lemma_fields_disjoint(self.0, hollow);
        }
        self.0 = (self.0 & !4u32) | (hollow << 2u32);
    }

    pub fn set_cap(&mut self, cap: Cap)
        ensures
            final(self).0 == with_cap(old(self).0, cap_code(cap)),
            cap_field(final(self).0) == cap_code(cap),
            decode_cap(final(self).0) == cap,
            thickness_type_field(final(self).0) == thickness_type_field(old(self).0),
            alignment_field(final(self).0) == alignment_field(old(self).0),
            hollow_field(final(self).0) == hollow_field(old(self).0),
            reserved_field(final(self).0) == reserved_field(old(self).0),
    {
        let v: u32 = match cap {
            Cap::Butt => 0,
            Cap::Square => 1,
            Cap::Round => 2,
        };
        proof {
            lemma_cap_field_disjoint(self.0, v);
        }
        self.0 = (self.0 & !24u32) | (v << 3u32);
    }

    /// The word that holds the given options and nothing else.
    pub fn encode(alignment: Alignment, cap: Cap, thickness_type: ThicknessType, hollow: bool) -> (r: Flags)
        ensures
            r.0 == encode_word(alignment, cap, thickness_type, hollow),
            r.wf(),
            decode_word(r.0) == (alignment, cap, thickness_type, hollow),
    {
        let mut f = Flags::zero();
        f.set_thickness_type(thickness_type);
        f.set_alignment(alignment);
        f.set_hollow(if hollow { 1 } else { 0 });
        f.set_cap(cap);
        proof {
            lemma_round_trip(alignment, cap, thickness_type, hollow);
        }
        f
    }

    pub fn alignment(&self) -> (r: Alignment)
        ensures
            r == decode_alignment(self.0),
    {
        if (self.0 >> 1u32) & 1u32 == 0 { Alignment::Flat } else { Alignment::Billboard }
    }

    pub fn cap(&self) -> (r: Cap)
        requires
            self.wf(),
        ensures
            r == decode_cap(self.0),
    {
        let c = (self.0 >> 3u32) & 3u32;
        if c == 0 {
            Cap::Butt
        } else if c == 1 {
            Cap::Square
        } else {
            Cap::Round
        }
    }

    pub fn thickness_type(&self) -> (r: ThicknessType)
        ensures
            r == decode_thickness_type(self.0),
    {
        if self.0 & 1u32 == 0 { ThicknessType::World } else { ThicknessType::Screen }
    }

    pub fn hollow(&self) -> (r: bool)
        ensures
            r == decode_hollow(self.0),
    {
        (self.0 >> 2u32) & 1u32 == 1
    }

    /// The options that the word holds.
    pub fn decode(&self) -> (r: (Alignment, Cap, ThicknessType, bool))
        requires
            self.wf(),
        ensures
            r == decode_word(self.0),
    {
        (self.alignment(), self.cap(), self.thickness_type(), self.hollow())
    }
}

} // verus!
