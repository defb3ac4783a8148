//! Colours as four 8-bit channels: red, green, blue and alpha (unmultiplied).
use vstd::prelude::*;

verus! {

/// An RGBA colour whose channels are stored unmultiplied, in the order red,
/// green, blue, alpha.
#[derive(Copy, Clone, Debug)]
pub struct Color {
    values: [u8; 4],
}

/// A colour channel `v` scaled by the alpha `a`, that is `v * a / 255`
/// rounded to the nearest integer.
pub open spec fn premultiplied_channel(v: u8, a: u8) -> int {
    (2 * v * a + 255) / 510
}

/// The channels of an RGBA colour with its red, green and blue scaled by
/// its alpha (premultiplied alpha), the alpha itself unchanged.
pub open spec fn premultiplied_rgba(c: Seq<u8>) -> Seq<int> {
    seq![
        premultiplied_channel(c[0], c[3]),
        premultiplied_channel(c[1], c[3]),
        premultiplied_channel(c[2], c[3]),
        c[3] as int,
    ]
}

/// Calls `Color32::from_rgba_unmultiplied` of `ecolor` (re-exported by
/// `eframe::egui`) and reads the result back with `Color32::to_array`.
/// Claimed: the four bytes are the red, green and blue channels each
/// multiplied by `a / 255` and rounded to nearest, then `a` itself; this
/// is what `from_rgba_unmultiplied_const` computes in all three of its
/// branches (`a == 0`, `a == 255`, and `mul_frac_round` otherwise, whose
/// fixed-point formula `((p + (p >> 8)) >> 8)` with `p = v * a + 128` is
/// that rounding for every pair of bytes).
#[verifier::external_body]
fn color32_premultiplied(r: u8, g: u8, b: u8, a: u8) -> (res: [u8; 4])
    ensures
        res@.map_values(|x: u8| x as int) == premultiplied_rgba(seq![r, g, b, a]),
{
    eframe::egui::Color32::from_rgba_unmultiplied(r, g, b, a).to_array()
}

/// Alpha of a fully opaque colour.
pub const OPAQUE: u8 = 0xFF;

impl Color {
    /// The four channels, red, green, blue, alpha.
    pub closed spec fn channels(self) -> Seq<u8> {
        self.values@
    }

    /// Makes the colour with the given red, green, blue and alpha channels.
    pub fn new(values: [u8; 4]) -> (c: Color)
        ensures
            c.channels() == values@,
    {
        Color { values }
    }

    /// Makes the opaque colour with the given red, green and blue channels.
    pub fn from_rbg(r: u8, g: u8, b: u8) -> (c: Color)
        ensures
            c.channels() == seq![r, g, b, OPAQUE],
    {
        let c = Color::new([r, g, b, OPAQUE]);
        assert(c.channels() =~= seq![r, g, b, OPAQUE]);
        c
    }

    /// The channels, red, green, blue, alpha.
    pub fn values(&self) -> (v: &[u8; 4])
        ensures
            v@ == self.channels(),
    {
        &self.values
    }

    /// The red channel.
    pub fn r(&self) -> (x: u8)
        ensures
            x == self.channels()[0],
    {
        self.values[0]
    }

    /// The green channel.
    pub fn g(&self) -> (x: u8)
        ensures
            x == self.channels()[1],
    {
        self.values[1]
    }

    /// The blue channel.
    pub fn b(&self) -> (x: u8)
        ensures
            x == self.channels()[2],
    {
        self.values[2]
    }

    /// The alpha channel.
    pub fn a(&self) -> (x: u8)
        ensures
            x == self.channels()[3],
    {
        self.values[3]
    }

    /// The channels as the painting backend stores them: red, green and blue
    /// multiplied by the alpha (rounded to nearest), then the alpha.
    /// An opaque colour keeps its channels; a fully transparent one becomes
    /// all zeros.
    pub fn premultiplied(&self) -> (res: [u8; 4])
        ensures
            res@.map_values(|x: u8| x as int) == premultiplied_rgba(self.channels()),
            self.channels()[3] == OPAQUE ==> res@ == self.channels(),
            self.channels()[3] == 0 ==> res@ == seq![0u8, 0u8, 0u8, 0u8],
    {
        let res = color32_premultiplied(self.values[0], self.values[1], self.values[2], self.values[3]);
        proof {
            let c = self.channels();
            let m = res@.map_values(|x: u8| x as int);
            assert(c =~= seq![c[0], c[1], c[2], c[3]]);
            assert(m[0] == res@[0] && m[1] == res@[1] && m[2] == res@[2] && m[3] == res@[3]);
            if c[3] == OPAQUE {
                lemma_opaque_channel(c[0]);
                lemma_opaque_channel(c[1]);
                lemma_opaque_channel(c[2]);
                assert(res@ =~= c);
            }
            if c[3] == 0 {
                lemma_transparent_channel(c[0]);
                lemma_transparent_channel(c[1]);
                lemma_transparent_channel(c[2]);
                assert(res@ =~= seq![0u8, 0u8, 0u8, 0u8]);
            }
        }
        res
    }
}

/// A premultiplied channel is `v * a / 255` rounded to the nearest integer:
/// `255` times it lies within half of `255` of `v * a`. It is a byte, and
/// never above the alpha.
pub proof fn lemma_premultiplied_channel_rounds(v: u8, a: u8)
    ensures
        -255 < 510 * premultiplied_channel(v, a) - 2 * v * a <= 255,
        0 <= premultiplied_channel(v, a) <= a,
{
    let x = 2 * v * a + 255;
    assert(0 <= x);
    assert(510 * (x / 510) <= x < 510 * (x / 510) + 510) by (nonlinear_arith)
        requires
            0 <= x,
    ;
    assert(2 * v * a <= 510 * a) by (nonlinear_arith)
        requires
            v <= 255,
            0 <= a,
    ;
    assert(0 <= 2 * v * a) by (nonlinear_arith)
        requires
            0 <= v,
            0 <= a,
    ;
}

/// Scaling by a full alpha leaves a channel unchanged.
proof fn lemma_opaque_channel(v: u8)
    ensures
        premultiplied_channel(v, OPAQUE) == v,
{
    assert((2 * v * 255 + 255) / 510 == v as int) by (nonlinear_arith);
}

/// Scaling by a zero alpha clears a channel.
proof fn lemma_transparent_channel(v: u8)
    ensures
        premultiplied_channel(v, 0) == 0,
{
    assert(2 * v * 0 == 0) by (nonlinear_arith);
}

/// Two colours are equal exactly when all four channels agree: red, green,
/// blue and alpha, each compared on its own.
pub proof fn lemma_eq_compares_every_channel(c: Color, d: Color)
    ensures
        vstd::std_specs::cmp::PartialEqSpec::eq_spec(&c, &d) <==> c.channels() == d.channels(),
        vstd::std_specs::cmp::PartialEqSpec::eq_spec(&c, &d) <==> (forall|k: int| 0 <= k < 4 ==> #[trigger] c.channels()[k] == d.channels()[k]),
        c.channels().len() == 4 && d.channels().len() == 4,
{
    if forall|k: int| 0 <= k < 4 ==> #[trigger] c.channels()[k] == d.channels()[k] {
        assert(c.channels() =~= d.channels());
    }
}

impl PartialEq for Color {
    fn eq(&self, other: &Color) -> (res: bool) {
        let res = self.values[0] == other.values[0] && self.values[1] == other.values[1]
            && self.values[2] == other.values[2] && self.values[3] == other.values[3];
        proof {
            if res {
                assert(self.values@ =~= other.values@);
            }
        }
        res
    }
}

impl vstd::std_specs::cmp::PartialEqSpecImpl for Color {
    open spec fn obeys_eq_spec() -> bool {
        true
    }

    open spec fn eq_spec(&self, other: &Color) -> bool {
        self.channels() == other.channels()
    }
}

} // verus!
