//! The unit of display output: one named, formatted metric, plus the
//! fixed color palette the samplers draw from.
use vstd::prelude::*;

verus! {

/// The fixed warning palette. `None` on a block means the consumer's
/// default color.
#[derive(Clone, Copy, Debug, PartialEq, Eq, Structural)]
pub enum BarColor {
    Red,
    Yellow,
}

/// The bytes a palette entry shows as: "#FF0000" for red,
/// "#E9F505" for yellow.
pub open spec fn color_bytes(c: BarColor) -> Seq<u8> {
    match c {
        BarColor::Red => seq![0x23u8, 0x46, 0x46, 0x30, 0x30, 0x30, 0x30],
        BarColor::Yellow => seq![0x23u8, 0x45, 0x39, 0x46, 0x35, 0x30, 0x35],
    }
}

/// Append the palette bytes of `c` to `out`.
pub fn push_color_bytes(out: &mut Vec<u8>, c: BarColor)
    ensures
        final(out)@ == old(out)@ + color_bytes(c),
{
    match c {
        BarColor::Red => {
            // "#FF0000"
            let lit: [u8; 7] = [0x23, 0x46, 0x46, 0x30, 0x30, 0x30, 0x30];
            crate::text::push_bytes(out, lit.as_slice());
            assert(out@ =~= old(out)@ + color_bytes(c));
        },
        BarColor::Yellow => {
            // "#E9F505"
            let lit: [u8; 7] = [0x23, 0x45, 0x39, 0x46, 0x35, 0x30, 0x35];
            crate::text::push_bytes(out, lit.as_slice());
            assert(out@ =~= old(out)@ + color_bytes(c));
        },
    }
}

/// One status block: a stable source name, the rendered UTF-8 text, an
/// optional layout width hint, an optional urgency flag and an optional
/// palette color. A source that has nothing to show yields no block at
/// all, never an empty one.
#[derive(Clone, Debug)]
pub struct SwayBarBlock {
    pub name: Vec<u8>,
    pub full_text: Vec<u8>,
    pub min_width: Option<usize>,
    pub urgent: Option<bool>,
    pub color: Option<BarColor>,
}

impl SwayBarBlock {
    /// Build a block from its parts.
    pub fn new(
        name: Vec<u8>,
        full_text: Vec<u8>,
        min_width: Option<usize>,
        color: Option<BarColor>,
    ) -> (r: SwayBarBlock)
        ensures
            r.name@ == name@,
            r.full_text@ == full_text@,
            r.min_width == min_width,
            r.urgent is None,
            r.color == color,
    {
        SwayBarBlock { name, full_text, min_width, urgent: None, color }
    }
}

} // verus!
