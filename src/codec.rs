use vstd::prelude::*;

verus! {

/// A unary codec on opaque bytes: it carries no schema.
#[derive(Debug, Clone, Copy)]
pub struct BytesCodec;

/// Writes a request body verbatim.
#[derive(Debug, Clone, Copy)]
pub struct BytesEncoder;

/// Hands back the remaining bytes of a response body as one blob.
#[derive(Debug, Clone, Copy)]
pub struct BytesDecoder;

impl BytesCodec {
    pub fn encoder(&mut self) -> (r: BytesEncoder) {
        BytesEncoder
    }

    pub fn decoder(&mut self) -> (r: BytesDecoder) {
        BytesDecoder
    }
}

impl BytesEncoder {
    /// Appends `item` to `dst` unchanged.
    pub fn encode(&mut self, item: &Vec<u8>, dst: &mut Vec<u8>)
        ensures
            final(dst)@ == old(dst)@ + item@,
    {
        let mut i: usize = 0;
        while i < item.len()
            invariant
                i <= item@.len(),
                dst@ == old(dst)@ + item@.subrange(0, i as int),
            decreases item@.len() - i,
        {
            dst.push(item[i]);
            i = i + 1;
            assert(item@.subrange(0, i as int) =~= item@.subrange(0, i - 1).push(item@[i - 1]));
        }
        assert(item@.subrange(0, item@.len() as int) =~= item@);
    }
}

impl BytesDecoder {
    /// Takes every remaining byte of `src`: `None` when there is none,
    /// otherwise all of them, leaving `src` empty.
    pub fn decode(&mut self, src: &mut Vec<u8>) -> (r: Option<Vec<u8>>)
        ensures
            old(src)@.len() == 0 ==> (r is None && final(src)@ == old(src)@),
            old(src)@.len() > 0 ==> (r matches Some(b) && b@ == old(src)@ && final(src)@.len() == 0),
    {
        if src.len() == 0 {
            return None;
        }
        let mut out: Vec<u8> = Vec::new();
        std::mem::swap(&mut out, src);
        Some(out)
    }
}

} // verus!
