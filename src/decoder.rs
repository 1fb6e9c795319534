//! Bounds-checked extraction of fixed blocks, NUL-terminated names and raw
//! byte runs from the argument region of a request.
use crate::wire::{
    fits_layout, layout_size, pack, pack_fields, read_field, unpack, valid_layout, valid_width,
    lemma_unpack_pack,
};
use vstd::prelude::*;
use vstd::slice::slice_subrange;

verus! {

/// A fixed-size block of the kernel ABI, described by its field layout.
pub trait Wire: Sized {
    /// Field widths of the block, in wire order.
    spec fn layout() -> Seq<u8>;

    /// The block whose fields hold the given values.
    spec fn from_cells(v: Seq<u64>) -> Self;

    /// The field values of the block, in wire order.
    spec fn cells(&self) -> Seq<u64>;

    /// The layout is well formed, and every block is given back by its own field values.
    proof fn lemma_wire()
        ensures
            valid_layout(Self::layout()),
            forall|x: Self|
                #![trigger x.cells()]
                fits_layout(Self::layout(), x.cells()) && Self::from_cells(x.cells()) == x,
    ;

    fn layout_exec() -> (r: Vec<u8>)
        ensures
            r@ == Self::layout(),
    ;

    fn from_fields(v: &[u64]) -> (r: Self)
        requires
            v@.len() == Self::layout().len(),
        ensures
            r == Self::from_cells(v@),
    ;

    fn to_fields(&self) -> (r: Vec<u64>)
        ensures
            r@ == self.cells(),
    ;
}

/// The bytes of a block on the wire.
pub open spec fn encode<T: Wire>(x: T) -> Seq<u8> {
    pack(T::layout(), x.cells())
}

/// A block read from the start of `s`, and what follows it; `None` if `s` is short.
pub open spec fn parse_fixed<T: Wire>(s: Seq<u8>) -> Option<(T, Seq<u8>)> {
    if layout_size(T::layout()) <= s.len() {
        Some((T::from_cells(unpack(T::layout(), s)), s.skip(layout_size(T::layout()) as int)))
    } else {
        None
    }
}

/// `n` is the position of the first NUL byte of `s`.
pub open spec fn first_nul(s: Seq<u8>, n: int) -> bool {
    &&& 0 <= n < s.len()
    &&& s[n] == 0
    &&& forall|j: int| 0 <= j < n ==> s[j] != 0
}

/// `s` holds a NUL byte.
pub open spec fn has_nul(s: Seq<u8>) -> bool {
    exists|n: int| first_nul(s, n)
}

/// A name read up to the first NUL byte (without it), and what follows the NUL.
pub open spec fn parse_cstr(s: Seq<u8>) -> Option<(Seq<u8>, Seq<u8>)> {
    if has_nul(s) {
        let n = choose|n: int| first_nul(s, n);
        Some((s.take(n), s.skip(n + 1)))
    } else {
        None
    }
}

/// The first `n` bytes of `s` and what follows them; `None` if `s` is short.
pub open spec fn parse_bytes(s: Seq<u8>, n: nat) -> Option<(Seq<u8>, Seq<u8>)> {
    if n <= s.len() {
        Some((s.take(n as int), s.skip(n as int)))
    } else {
        None
    }
}

/// The bytes of a name followed by its NUL terminator.
pub open spec fn encode_cstr(name: Seq<u8>) -> Seq<u8> {
    name + seq![0u8]
}

/// A name holds no NUL byte.
pub open spec fn nul_free(name: Seq<u8>) -> bool {
    forall|j: int| 0 <= j < name.len() ==> name[j] != 0
}

proof fn lemma_first_nul_unique(s: Seq<u8>, a: int, b: int)
    requires
        first_nul(s, a),
        first_nul(s, b),
    ensures
        a == b,
{
    if a < b {
        assert(s[a] != 0);
    } else if b < a {
        assert(s[b] != 0);
    }
}

/// The bytes of a block are as many as its layout's widths add up to.
pub proof fn lemma_encode_len<T: Wire>(x: T)
    ensures
        encode(x).len() == layout_size(T::layout()),
{
    T::lemma_wire();
    lemma_unpack_pack(T::layout(), x.cells(), Seq::empty());
}

/// Reading back a block's bytes gives the block and leaves what follows.
pub proof fn lemma_parse_fixed_encode<T: Wire>(x: T, tail: Seq<u8>)
    ensures
        parse_fixed::<T>(encode(x) + tail) == Some((x, tail)),
{
    T::lemma_wire();
    assert(fits_layout(T::layout(), x.cells()));
    lemma_unpack_pack(T::layout(), x.cells(), tail);
    let b = encode(x);
    assert((b + tail).skip(b.len() as int) =~= tail);
}

/// Reading back a NUL-free name and its terminator gives the name and leaves what follows.
pub proof fn lemma_parse_cstr_encode(name: Seq<u8>, tail: Seq<u8>)
    requires
        nul_free(name),
    ensures
        parse_cstr(encode_cstr(name) + tail) == Some((name, tail)),
{
    let s = encode_cstr(name) + tail;
    let n = name.len() as int;
    assert(s[n] == 0);
    assert forall|j: int| 0 <= j < n implies s[j] != 0 by {
        assert(s[j] == name[j]);
    }
    assert(first_nul(s, n));
    let m = choose|m: int| first_nul(s, m);
    lemma_first_nul_unique(s, m, n);
    assert(s.take(n) =~= name);
    assert(s.skip(n + 1) =~= tail);
}

/// Reading back `n` bytes gives them and leaves what follows.
pub proof fn lemma_parse_bytes_encode(b: Seq<u8>, tail: Seq<u8>)
    ensures
        parse_bytes(b + tail, b.len()) == Some((b, tail)),
{
    assert((b + tail).take(b.len() as int) =~= b);
    assert((b + tail).skip(b.len() as int) =~= tail);
}

/// A cursor over the argument region of a request.
pub struct Decoder<'a> {
    bytes: &'a [u8],
    pos: usize,
}

impl<'a> Decoder<'a> {
    /// The cursor stands within its bytes.
    pub closed spec fn wf(&self) -> bool {
        self.pos <= self.bytes@.len()
    }

    /// The bytes not read yet.
    pub closed spec fn rest(&self) -> Seq<u8> {
        self.bytes@.skip(self.pos as int)
    }

    pub fn new(bytes: &'a [u8]) -> (r: Self)
        ensures
            r.wf(),
            r.rest() == bytes@,
    {
        let r = Decoder { bytes, pos: 0 };
        assert(bytes@.skip(0) =~= bytes@);
        r
    }

    /// The unread tail.
    pub fn remaining(&self) -> (r: &'a [u8])
        requires
            self.wf(),
        ensures
            r@ == self.rest(),
    {
        let n = self.bytes.len();
        assert(self.bytes@.subrange(self.pos as int, n as int) =~= self.rest());
        slice_subrange(self.bytes, self.pos, n)
    }

    /// Read `n` bytes.
    pub fn fetch_bytes(&mut self, n: usize) -> (r: Option<&'a [u8]>)
        requires
            old(self).wf(),
        ensures
            final(self).wf(),
            match parse_bytes(old(self).rest(), n as nat) {
                Some((b, t)) => r matches Some(x) && x@ == b && final(self).rest() == t,
                None => r is None && final(self).rest() == old(self).rest(),
            },
    {
        let len = self.bytes.len();
        if n <= len - self.pos {
            let start = self.pos;
            let r = slice_subrange(self.bytes, start, start + n);
            self.pos = start + n;
            assert(r@ =~= old(self).rest().take(n as int));
            assert(self.rest() =~= old(self).rest().skip(n as int));
            Some(r)
        } else {
            None
        }
    }

    /// Read a name up to and including its NUL terminator; the name comes without it.
    pub fn fetch_cstr(&mut self) -> (r: Option<&'a [u8]>)
        requires
            old(self).wf(),
        ensures
            final(self).wf(),
            match parse_cstr(old(self).rest()) {
                Some((b, t)) => r matches Some(x) && x@ == b && final(self).rest() == t,
                None => r is None && final(self).rest() == old(self).rest(),
            },
    {
        let len = self.bytes.len();
        let start = self.pos;
        let ghost s = old(self).rest();
        let mut i: usize = start;
        while i < len
            invariant
                start <= i <= len,
                len == self.bytes@.len(),
                start == self.pos,
                self.bytes == old(self).bytes,
                self.pos == old(self).pos,
                s == self.bytes@.skip(start as int),
                forall|j: int| 0 <= j < i - start ==> s[j] != 0,
            decreases len - i,
        {
            if self.bytes[i] == 0 {
                let r = slice_subrange(self.bytes, start, i);
                self.pos = i + 1;
                proof {
                    let n = i - start;
                    assert(first_nul(s, n));
                    assert(has_nul(s));
                    let m = choose|m: int| first_nul(s, m);
                    lemma_first_nul_unique(s, m, n);
                    assert(r@ =~= s.take(n));
                    assert(self.rest() =~= s.skip(n + 1));
                }
                return Some(r);
            }
            i = i + 1;
        }
        proof {
            if has_nul(s) {
                let m = choose|m: int| first_nul(s, m);
                assert(s[m] != 0);
            }
        }
        None
    }

    /// Read the fields of a block with the given layout.
    pub fn fetch_fields(&mut self, layout: &[u8]) -> (r: Option<Vec<u64>>)
        requires
            old(self).wf(),
            valid_layout(layout@),
        ensures
            final(self).wf(),
            layout_size(layout@) <= old(self).rest().len() ==> (r matches Some(v) && v@ == unpack(
                layout@,
                old(self).rest(),
            ) && final(self).rest() == old(self).rest().skip(layout_size(layout@) as int)),
            layout_size(layout@) > old(self).rest().len() ==> r is None && final(self).rest()
                == old(self).rest(),
    {
        let ghost s = old(self).rest();
        let avail = self.bytes.len() - self.pos;
        // first make sure the whole block is there
        let mut need: usize = 0;
        let mut i: usize = 0;
        assert(layout@.skip(0) =~= layout@);
        while i < layout.len()
            invariant
                i <= layout@.len(),
                valid_layout(layout@),
                need <= avail,
                avail == s.len(),
                s == self.rest(),
                self.wf(),
                self == old(self),
                need + layout_size(layout@.skip(i as int)) == layout_size(layout@),
            decreases layout@.len() - i,
        {
            assert(layout@.skip(i as int).drop_first() =~= layout@.skip(i + 1));
            assert(valid_width(layout@[i as int]));
            let w = layout[i] as usize;
            if w > avail - need {
                return None;
            }
            need = need + w;
            i = i + 1;
        }
        assert(layout@.skip(i as int).len() == 0);
        let mut out: Vec<u64> = Vec::new();
        let mut k: usize = 0;
        let blen = self.bytes.len();
        let start = self.pos;
        assert(self.bytes@.skip(start as int) =~= s);
        while k < layout.len()
            invariant
                k <= layout@.len(),
                valid_layout(layout@),
                start <= self.pos <= self.bytes@.len(),
                self.bytes@.len() <= usize::MAX,
                self.bytes@.skip(start as int) == s,
                self.pos + layout_size(layout@.skip(k as int)) == start + layout_size(layout@),
                start + layout_size(layout@) <= self.bytes@.len(),
                out@ + unpack(layout@.skip(k as int), self.bytes@.skip(self.pos as int)) == unpack(
                    layout@,
                    s,
                ),
            decreases layout@.len() - k,
        {
            let ghost before = out@;
            let ghost p = self.pos;
            assert(layout@.skip(k as int).drop_first() =~= layout@.skip(k + 1));
            assert(valid_width(layout@[k as int]));
            let w = layout[k];
            let v = read_field(self.bytes, self.pos, w);
            out.push(v);
            self.pos = self.pos + w as usize;
            assert(self.bytes@.skip(p as int).skip(w as int) =~= self.bytes@.skip(self.pos as int));
            assert(before + unpack(layout@.skip(k as int), self.bytes@.skip(p as int)) =~= out@
                + unpack(layout@.skip(k + 1), self.bytes@.skip(self.pos as int)));
            k = k + 1;
        }
        assert(out@ =~= out@ + unpack(layout@.skip(k as int), self.bytes@.skip(self.pos as int)));
        assert(self.rest() =~= s.skip(layout_size(layout@) as int));
        Some(out)
    }

    /// Read a fixed block.
    pub fn fetch<T: Wire>(&mut self) -> (r: Option<T>)
        requires
            old(self).wf(),
        ensures
            final(self).wf(),
            match parse_fixed::<T>(old(self).rest()) {
                Some((x, t)) => r == Some(x) && final(self).rest() == t,
                None => r is None && final(self).rest() == old(self).rest(),
            },
    {
        proof {
            T::lemma_wire();
        }
        let layout = T::layout_exec();
        match self.fetch_fields(layout.as_slice()) {
            Some(v) => {
                proof {
                    lemma_unpack_len(T::layout(), old(self).rest());
                }
                Some(T::from_fields(v.as_slice()))
            },
            None => None,
        }
    }
}

proof fn lemma_unpack_len(layout: Seq<u8>, s: Seq<u8>)
    ensures
        unpack(layout, s).len() == layout.len(),
    decreases layout.len(),
{
    if layout.len() > 0 {
        lemma_unpack_len(layout.drop_first(), s.skip(layout[0] as int));
    }
}

/// The bytes of a fixed block.
pub fn to_bytes<T: Wire>(x: &T) -> (r: Vec<u8>)
    ensures
        r@ == encode(*x),
{
    proof {
        T::lemma_wire();
    }
    let layout = T::layout_exec();
    let vals = x.to_fields();
    assert(fits_layout(T::layout(), x.cells()));
    pack_fields(layout.as_slice(), vals.as_slice())
}

} // verus!
