//! JSON rendering of a snapshot, in the pretty layout the status-bar
//! protocol stream carries: one array of block objects, two-space
//! indented, optional fields omitted rather than written as null. String
//! content is escaped: quote and backslash get a backslash, control
//! bytes become a four-digit hexadecimal escape, everything else — all
//! UTF-8 text included — passes through unchanged.
use vstd::prelude::*;

use crate::block::{color_bytes, SwayBarBlock};
use crate::text::dec;

verus! {

/// The lowercase hexadecimal digit of a value below 16.
pub open spec fn hex_digit(n: nat) -> u8 {
    if n < 10 {
        (0x30 + n) as u8
    } else {
        (0x57 + n) as u8
    }
}

/// How one byte appears inside a JSON string.
pub open spec fn esc_byte(b: u8) -> Seq<u8> {
    if b == 0x22 {
        seq![0x5cu8, 0x22]
    } else if b == 0x5c {
        seq![0x5cu8, 0x5c]
    } else if b < 0x20 {
        seq![0x5cu8, 0x75, 0x30, 0x30, hex_digit((b / 16) as nat), hex_digit((b % 16) as nat)]
    } else {
        seq![b]
    }
}

/// `s` escaped for a JSON string.
pub open spec fn esc(s: Seq<u8>) -> Seq<u8>
    decreases s.len(),
{
    if s.len() == 0 {
        Seq::empty()
    } else {
        esc(s.drop_last()) + esc_byte(s.last())
    }
}

/// `s` as a JSON string: quoted and escaped.
pub open spec fn json_string(s: Seq<u8>) -> Seq<u8> {
    seq![0x22u8] + esc(s) + seq![0x22u8]
}

/// "  {\n    \"name\": "
pub open spec fn lit_name_field() -> Seq<u8> {
    seq![0x20u8, 0x20, 0x7b, 0x0a, 0x20, 0x20, 0x20, 0x20, 0x22, 0x6e, 0x61, 0x6d, 0x65, 0x22,
        0x3a, 0x20]
}

/// ",\n    \"full_text\": "
pub open spec fn lit_full_text_field() -> Seq<u8> {
    seq![0x2cu8, 0x0a, 0x20, 0x20, 0x20, 0x20, 0x22, 0x66, 0x75, 0x6c, 0x6c, 0x5f, 0x74, 0x65,
        0x78, 0x74, 0x22, 0x3a, 0x20]
}

/// ",\n    \"min_width\": "
pub open spec fn lit_min_width_field() -> Seq<u8> {
    seq![0x2cu8, 0x0a, 0x20, 0x20, 0x20, 0x20, 0x22, 0x6d, 0x69, 0x6e, 0x5f, 0x77, 0x69, 0x64,
        0x74, 0x68, 0x22, 0x3a, 0x20]
}

/// ",\n    \"urgent\": "
pub open spec fn lit_urgent_field() -> Seq<u8> {
    seq![0x2cu8, 0x0a, 0x20, 0x20, 0x20, 0x20, 0x22, 0x75, 0x72, 0x67, 0x65, 0x6e, 0x74, 0x22,
        0x3a, 0x20]
}

/// ",\n    \"color\": "
pub open spec fn lit_color_field() -> Seq<u8> {
    seq![0x2cu8, 0x0a, 0x20, 0x20, 0x20, 0x20, 0x22, 0x63, 0x6f, 0x6c, 0x6f, 0x72, 0x22, 0x3a,
        0x20]
}

/// "\n  }"
pub open spec fn lit_block_close() -> Seq<u8> {
    seq![0x0au8, 0x20, 0x20, 0x7d]
}

/// "true"
pub open spec fn lit_true() -> Seq<u8> {
    seq![0x74u8, 0x72, 0x75, 0x65]
}

/// "false"
pub open spec fn lit_false() -> Seq<u8> {
    seq![0x66u8, 0x61, 0x6c, 0x73, 0x65]
}

/// One block as a pretty JSON object at array-element depth: name and
/// text always, the optional fields only when present.
pub open spec fn block_json(b: SwayBarBlock) -> Seq<u8> {
    lit_name_field() + json_string(b.name@) + lit_full_text_field() + json_string(b.full_text@)
        + (match b.min_width {
        Some(w) => lit_min_width_field() + dec(w as nat),
        None => Seq::empty(),
    }) + (match b.urgent {
        Some(u) => lit_urgent_field() + (if u {
            lit_true()
        } else {
            lit_false()
        }),
        None => Seq::empty(),
    }) + (match b.color {
        Some(c) => lit_color_field() + json_string(color_bytes(c)),
        None => Seq::empty(),
    }) + lit_block_close()
}

/// The elements of a non-empty snapshot, separated by ",\n".
pub open spec fn blocks_list(s: Seq<SwayBarBlock>) -> Seq<u8>
    decreases s.len(),
{
    if s.len() == 0 {
        Seq::empty()
    } else if s.len() == 1 {
        block_json(s.last())
    } else {
        blocks_list(s.drop_last()) + seq![0x2cu8, 0x0a] + block_json(s.last())
    }
}

/// A whole snapshot as one pretty JSON array.
pub open spec fn snapshot_json(s: Seq<SwayBarBlock>) -> Seq<u8> {
    if s.len() == 0 {
        seq![0x5bu8, 0x5d]
    } else {
        seq![0x5bu8, 0x0a] + blocks_list(s) + seq![0x0au8, 0x5d]
    }
}

/// Append `s` as a JSON string.
pub fn push_json_string(out: &mut Vec<u8>, s: &[u8])
    ensures
        final(out)@ == old(out)@ + json_string(s@),
{
    out.push(0x22);
    let mut i: usize = 0;
    while i < s.len()
        invariant
            0 <= i <= s@.len(),
            out@ == old(out)@ + seq![0x22u8] + esc(s@.take(i as int)),
        decreases s@.len() - i,
    {
        let b = s[i];
        if b == 0x22 {
            out.push(0x5c);
            out.push(0x22);
        } else if b == 0x5c {
            out.push(0x5c);
            out.push(0x5c);
        } else if b < 0x20 {
            out.push(0x5c);
            out.push(0x75);
            out.push(0x30);
            out.push(0x30);
            let hi = b / 16;
            let lo = b % 16;
            out.push(
                if hi < 10 {
                    0x30 + hi
                } else {
                    0x57 + hi
                },
            );
            out.push(
                if lo < 10 {
                    0x30 + lo
                } else {
                    0x57 + lo
                },
            );
        } else {
            out.push(b);
        }
        proof {
            assert(s@.take(i + 1).drop_last() =~= s@.take(i as int));
            assert(out@ =~= old(out)@ + seq![0x22u8] + esc(s@.take(i + 1)));
        }
        i = i + 1;
    }
    assert(s@.take(s@.len() as int) =~= s@);
    out.push(0x22);
    assert(out@ =~= old(out)@ + json_string(s@));
}

/// Append one block as a pretty JSON object.
#[verifier::rlimit(100)]
pub fn push_block_json(out: &mut Vec<u8>, b: &SwayBarBlock)
    ensures
        final(out)@ == old(out)@ + block_json(*b),
{
    // "  {\n    \"name\": "
    let lit1: [u8; 16] = [
        0x20, 0x20, 0x7b, 0x0a, 0x20, 0x20, 0x20, 0x20, 0x22, 0x6e, 0x61, 0x6d, 0x65, 0x22,
        0x3a, 0x20,
    ];
    crate::text::push_bytes(out, lit1.as_slice());
    push_json_string(out, b.name.as_slice());
    // ",\n    \"full_text\": "
    let lit2: [u8; 19] = [
        0x2c, 0x0a, 0x20, 0x20, 0x20, 0x20, 0x22, 0x66, 0x75, 0x6c, 0x6c, 0x5f, 0x74, 0x65,
        0x78, 0x74, 0x22, 0x3a, 0x20,
    ];
    crate::text::push_bytes(out, lit2.as_slice());
    push_json_string(out, b.full_text.as_slice());
    match b.min_width {
        Some(w) => {
            // ",\n    \"min_width\": "
            let lit3: [u8; 19] = [
                0x2c, 0x0a, 0x20, 0x20, 0x20, 0x20, 0x22, 0x6d, 0x69, 0x6e, 0x5f, 0x77, 0x69,
                0x64, 0x74, 0x68, 0x22, 0x3a, 0x20,
            ];
            crate::text::push_bytes(out, lit3.as_slice());
            crate::text::push_dec(out, w as u64);
        },
        None => {},
    }
    match b.urgent {
        Some(u) => {
            // ",\n    \"urgent\": "
            let lit4: [u8; 16] = [
                0x2c, 0x0a, 0x20, 0x20, 0x20, 0x20, 0x22, 0x75, 0x72, 0x67, 0x65, 0x6e, 0x74,
                0x22, 0x3a, 0x20,
            ];
            crate::text::push_bytes(out, lit4.as_slice());
            if u {
                // "true"
                let lit_t: [u8; 4] = [0x74, 0x72, 0x75, 0x65];
                crate::text::push_bytes(out, lit_t.as_slice());
            } else {
                // "false"
                let lit_f: [u8; 5] = [0x66, 0x61, 0x6c, 0x73, 0x65];
                crate::text::push_bytes(out, lit_f.as_slice());
            }
        },
        None => {},
    }
    match b.color {
        Some(c) => {
            // ",\n    \"color\": "
            let lit5: [u8; 15] = [
                0x2c, 0x0a, 0x20, 0x20, 0x20, 0x20, 0x22, 0x63, 0x6f, 0x6c, 0x6f, 0x72, 0x22,
                0x3a, 0x20,
            ];
            crate::text::push_bytes(out, lit5.as_slice());
            let mut cbytes: Vec<u8> = Vec::new();
            crate::block::push_color_bytes(&mut cbytes, c);
            push_json_string(out, cbytes.as_slice());
        },
        None => {},
    }
    // "\n  }"
    let lit6: [u8; 4] = [0x0a, 0x20, 0x20, 0x7d];
    crate::text::push_bytes(out, lit6.as_slice());
    assert(out@ =~= old(out)@ + block_json(*b));
}

/// Render a whole snapshot as one pretty JSON array.
pub fn render_snapshot(blocks: &Vec<SwayBarBlock>) -> (r: Vec<u8>)
    ensures
        r@ == snapshot_json(blocks@),
{
    let mut out: Vec<u8> = Vec::new();
    if blocks.len() == 0 {
        // "[]"
        out.push(0x5b);
        out.push(0x5d);
        assert(out@ =~= snapshot_json(blocks@));
        return out;
    }
    // "[\n"
    out.push(0x5b);
    out.push(0x0a);
    let mut i: usize = 0;
    while i < blocks.len()
        invariant
            0 <= i <= blocks@.len(),
            blocks@.len() > 0,
            i == 0 ==> out@ == seq![0x5bu8, 0x0a],
            i > 0 ==> out@ == seq![0x5bu8, 0x0a] + blocks_list(blocks@.take(i as int)),
        decreases blocks@.len() - i,
    {
        if i > 0 {
            out.push(0x2c);
            out.push(0x0a);
        }
        push_block_json(&mut out, &blocks[i]);
        proof {
            assert(blocks@.take(i + 1).drop_last() =~= blocks@.take(i as int));
            assert(blocks@.take(i + 1).last() == blocks@[i as int]);
            if i > 0 {
                assert(out@ =~= seq![0x5bu8, 0x0a] + blocks_list(blocks@.take(i + 1)));
            } else {
                assert(out@ =~= seq![0x5bu8, 0x0a] + blocks_list(blocks@.take(i + 1)));
            }
        }
        i = i + 1;
    }
    assert(blocks@.take(blocks@.len() as int) =~= blocks@);
    // "\n]"
    out.push(0x0a);
    out.push(0x5d);
    assert(out@ =~= snapshot_json(blocks@));
    out
}

} // verus!
