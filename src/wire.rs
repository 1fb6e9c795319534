//! Little-endian field layouts of the kernel's fixed-size message blocks.
//!
//! A fixed block is described by its layout: the byte width (2, 4 or 8) of
//! each of its fields in order. `pack` gives the bytes of a block from its
//! field values, `unpack` reads the field values back from bytes.
use vstd::bytes::*;
use vstd::prelude::*;
use vstd::slice::slice_subrange;

verus! {

/// A field is 2, 4 or 8 bytes wide.
pub open spec fn valid_width(w: u8) -> bool {
    w == 2 || w == 4 || w == 8
}

/// A layout lists valid field widths.
pub open spec fn valid_layout(layout: Seq<u8>) -> bool {
    forall|i: int| 0 <= i < layout.len() ==> valid_width(#[trigger] layout[i])
}

/// The value fits in a field of the given width.
pub open spec fn fits(w: u8, v: u64) -> bool {
    w == 8 || (w == 4 && v <= u32::MAX) || (w == 2 && v <= u16::MAX)
}

/// Every value fits its field of the layout.
pub open spec fn fits_layout(layout: Seq<u8>, vals: Seq<u64>) -> bool {
    &&& vals.len() == layout.len()
    &&& forall|i: int| 0 <= i < layout.len() ==> fits(#[trigger] layout[i], vals[i])
}

/// Little-endian bytes of one field.
pub open spec fn field_bytes(w: u8, v: u64) -> Seq<u8> {
    if w == 2 {
        spec_u16_to_le_bytes(v as u16)
    } else if w == 4 {
        spec_u32_to_le_bytes(v as u32)
    } else {
        spec_u64_to_le_bytes(v)
    }
}

/// The value of the field of width `w` at the start of `s`.
pub open spec fn field_value(w: u8, s: Seq<u8>) -> u64 {
    if w == 2 {
        spec_u16_from_le_bytes(s.take(2)) as u64
    } else if w == 4 {
        spec_u32_from_le_bytes(s.take(4)) as u64
    } else {
        spec_u64_from_le_bytes(s.take(8))
    }
}

/// Total byte size of a layout.
pub open spec fn layout_size(layout: Seq<u8>) -> nat
    decreases layout.len(),
{
    if layout.len() == 0 {
        0
    } else {
        layout[0] as nat + layout_size(layout.drop_first())
    }
}

/// Bytes of a block: its fields' bytes one after another.
pub open spec fn pack(layout: Seq<u8>, vals: Seq<u64>) -> Seq<u8>
    decreases layout.len(),
{
    if layout.len() == 0 {
        Seq::empty()
    } else {
        field_bytes(layout[0], vals[0]) + pack(layout.drop_first(), vals.drop_first())
    }
}

/// Field values read from the start of `s` by the layout.
pub open spec fn unpack(layout: Seq<u8>, s: Seq<u8>) -> Seq<u64>
    decreases layout.len(),
{
    if layout.len() == 0 {
        Seq::empty()
    } else {
        seq![field_value(layout[0], s)] + unpack(layout.drop_first(), s.skip(layout[0] as int))
    }
}

/// Appending a field adds its width to the size of a layout.
pub broadcast proof fn lemma_layout_size_push(layout: Seq<u8>, w: u8)
    ensures
        #[trigger] layout_size(layout.push(w)) == layout_size(layout) + w,
    decreases layout.len(),
{
    let p = layout.push(w);
    if layout.len() == 0 {
        assert(p.drop_first() =~= Seq::<u8>::empty());
        assert(p[0] == w);
        assert(layout_size(p.drop_first()) == 0);
    } else {
        assert(p.drop_first() =~= layout.drop_first().push(w));
        assert(p[0] == layout[0]);
        lemma_layout_size_push(layout.drop_first(), w);
    }
}

proof fn lemma_field_round_trip(w: u8, v: u64, tail: Seq<u8>)
    requires
        valid_width(w),
        fits(w, v),
    ensures
        field_bytes(w, v).len() == w as nat,
        field_value(w, field_bytes(w, v) + tail) == v,
        (field_bytes(w, v) + tail).skip(w as int) == tail,
{
    lemma_auto_spec_u16_to_from_le_bytes();
    lemma_auto_spec_u32_to_from_le_bytes();
    lemma_auto_spec_u64_to_from_le_bytes();
    let b = field_bytes(w, v);
    assert((b + tail).take(w as int) =~= b);
    assert((b + tail).skip(w as int) =~= tail);
}

/// Reading back the bytes of a block gives its field values, whatever follows it.
pub proof fn lemma_unpack_pack(layout: Seq<u8>, vals: Seq<u64>, tail: Seq<u8>)
    requires
        valid_layout(layout),
        fits_layout(layout, vals),
    ensures
        pack(layout, vals).len() == layout_size(layout),
        unpack(layout, pack(layout, vals) + tail) == vals,
    decreases layout.len(),
{
    if layout.len() > 0 {
        let w = layout[0];
        let rest = pack(layout.drop_first(), vals.drop_first());
        assert(fits(layout[0], vals[0]));
        lemma_unpack_pack(layout.drop_first(), vals.drop_first(), tail);
        lemma_field_round_trip(w, vals[0], rest + tail);
        assert(field_bytes(w, vals[0]) + rest + tail == field_bytes(w, vals[0]) + (rest + tail));
        assert(unpack(layout, pack(layout, vals) + tail) =~= vals);
    }
}

/// The value of the field of width `w` at position `pos` of `s`.
pub fn read_field(s: &[u8], pos: usize, w: u8) -> (r: u64)
    requires
        valid_width(w),
        pos + w <= s@.len(),
    ensures
        r == field_value(w, s@.skip(pos as int)),
{
    let n = s.len();
    assert(pos + w <= n);
    if w == 2 {
        assert(s@.skip(pos as int).take(2) =~= s@.subrange(pos as int, pos + 2));
        u16_from_le_bytes(slice_subrange(s, pos, pos + 2)) as u64
    } else if w == 4 {
        assert(s@.skip(pos as int).take(4) =~= s@.subrange(pos as int, pos + 4));
        u32_from_le_bytes(slice_subrange(s, pos, pos + 4)) as u64
    } else {
        assert(s@.skip(pos as int).take(8) =~= s@.subrange(pos as int, pos + 8));
        u64_from_le_bytes(slice_subrange(s, pos, pos + 8))
    }
}

/// Append `src` to `dst`.
pub fn append_bytes(dst: &mut Vec<u8>, src: &[u8])
    ensures
        final(dst)@ == old(dst)@ + src@,
{
    let mut i: usize = 0;
    while i < src.len()
        invariant
            i <= src@.len(),
            dst@ == old(dst)@ + src@.take(i as int),
        decreases src@.len() - i,
    {
        dst.push(src[i]);
        i = i + 1;
        assert(src@.take(i as int) =~= src@.take(i - 1) + seq![src@[i - 1]]);
    }
    assert(src@.take(src@.len() as int) =~= src@);
}

/// Append the little-endian bytes of one field.
pub fn push_field(dst: &mut Vec<u8>, w: u8, v: u64)
    requires
        valid_width(w),
        fits(w, v),
    ensures
        final(dst)@ == old(dst)@ + field_bytes(w, v),
{
    if w == 2 {
        let b = u16_to_le_bytes(v as u16);
        append_bytes(dst, b.as_slice());
    } else if w == 4 {
        let b = u32_to_le_bytes(v as u32);
        append_bytes(dst, b.as_slice());
    } else {
        let b = u64_to_le_bytes(v);
        append_bytes(dst, b.as_slice());
    }
}

/// The bytes of a block with the given layout and field values.
pub fn pack_fields(layout: &[u8], vals: &[u64]) -> (r: Vec<u8>)
    requires
        valid_layout(layout@),
        fits_layout(layout@, vals@),
    ensures
        r@ == pack(layout@, vals@),
{
    let mut out: Vec<u8> = Vec::new();
    let mut i: usize = 0;
    assert(layout@.skip(0) =~= layout@);
    assert(vals@.skip(0) =~= vals@);
    assert(out@ + pack(layout@, vals@) =~= pack(layout@, vals@));
    while i < layout.len()
        invariant
            i <= layout@.len(),
            valid_layout(layout@),
            fits_layout(layout@, vals@),
            out@ + pack(layout@.skip(i as int), vals@.skip(i as int)) == pack(layout@, vals@),
        decreases layout@.len() - i,
    {
        let ghost before = out@;
        assert(fits(layout@[i as int], vals@[i as int]));
        push_field(&mut out, layout[i], vals[i]);
        assert(layout@.skip(i as int).drop_first() =~= layout@.skip(i + 1));
        assert(vals@.skip(i as int).drop_first() =~= vals@.skip(i + 1));
        assert(before + pack(layout@.skip(i as int), vals@.skip(i as int)) =~= out@ + pack(
            layout@.skip(i + 1),
            vals@.skip(i + 1),
        ));
        i = i + 1;
    }
    assert(out@ =~= out@ + pack(layout@.skip(i as int), vals@.skip(i as int)));
    out
}

} // verus!
