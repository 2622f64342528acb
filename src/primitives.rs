use vstd::prelude::*;
use crate::layout::{encode_words, read_le_word, le_word, words_bytes, lemma_words_bytes_decode, ONE_BITS, MINUS_ONE_BITS};

verus! {

/// The shader's uniform block. Each field holds the bit pattern of an IEEE-754 binary32
/// value; on the wire the block is these four words, little-endian, with no padding.
#[derive(Clone, Copy, Debug, PartialEq, Eq)]
pub struct Uniforms {
    pub center: [u32; 2],
    pub zoom: u32,
    pub aspect: u32,
}

impl Uniforms {
    /// The words of the block in wire order.
    pub open spec fn words(self) -> Seq<u32> {
        seq![self.center@[0], self.center@[1], self.zoom, self.aspect]
    }

    /// The 16 bytes of the block as the shader reads them.
    pub open spec fn wire(self) -> Seq<u8> {
        words_bytes(self.words())
    }

    /// Center (0, 0), zoom 1, square aspect.
    pub fn new() -> (r: Uniforms)
        ensures
            r.center@ == seq![0u32, 0u32],
            r.zoom == ONE_BITS,
            r.aspect == ONE_BITS,
    {
        Uniforms { center: [0, 0], zoom: ONE_BITS, aspect: ONE_BITS }
    }

    /// Builds the block from a view center, a zoom and the surface's aspect ratio.
    pub fn from_view(center_x: u32, center_y: u32, zoom: u32, aspect: u32) -> (r: Uniforms)
        ensures
            r.words() == seq![center_x, center_y, zoom, aspect],
    {
        let r = Uniforms { center: [center_x, center_y], zoom, aspect };
        assert(r.words() =~= seq![center_x, center_y, zoom, aspect]);
        r
    }

    /// The block's wire bytes.
    pub fn to_bytes(&self) -> (r: Vec<u8>)
        ensures
            r@ == self.wire(),
            r@.len() == 16,
    {
        let ws: Vec<u32> = vec![self.center[0], self.center[1], self.zoom, self.aspect];
        assert(ws@ =~= self.words());
        encode_words(ws.as_slice())
    }

    /// Reads a block back from its wire bytes: `None` unless there are exactly 16 bytes.
    pub fn from_bytes(b: &[u8]) -> (r: Option<Uniforms>)
        ensures
            r.is_some() <==> b@.len() == 16,
            r.is_some() ==> r.unwrap().words() == seq![
                le_word(b@, 0) as u32,
                le_word(b@, 4) as u32,
                le_word(b@, 8) as u32,
                le_word(b@, 12) as u32,
            ],
    {
        if b.len() != 16 {
            None
        } else {
            let x = read_le_word(b, 0);
            let y = read_le_word(b, 4);
            let z = read_le_word(b, 8);
            let a = read_le_word(b, 12);
            Some(Uniforms::from_view(x, y, z, a))
        }
    }
}

/// Decoding a block's wire bytes gives back the block's words exactly, so the view's
/// center and zoom are re-derived unchanged.
pub proof fn lemma_uniforms_round_trip(u: Uniforms)
    ensures
        u.wire().len() == 16,
        le_word(u.wire(), 0) == u.center@[0],
        le_word(u.wire(), 4) == u.center@[1],
        le_word(u.wire(), 8) == u.zoom,
        le_word(u.wire(), 12) == u.aspect,
{
    lemma_words_bytes_decode(u.words(), 0);
    lemma_words_bytes_decode(u.words(), 1);
    lemma_words_bytes_decode(u.words(), 2);
    lemma_words_bytes_decode(u.words(), 3);
}

} // verus!

verus! {

/// One vertex of the quad: a position whose three coordinates hold binary32 bit patterns.
#[derive(Clone, Copy, Debug, PartialEq, Eq)]
pub struct Vertex {
    pub position: [u32; 3],
}

/// The number of vertices in the quad.
pub const QUAD_VERTEX_COUNT: usize = 6;

/// The size in bytes of one vertex record: three 4-byte coordinates.
pub const VERTEX_STRIDE: usize = 12;

/// The corner `(x, y, 0)` of the normalized-device square, each of `x`, `y` being -1 or 1.
pub open spec fn corner(x_positive: bool, y_positive: bool) -> Seq<u32> {
    seq![
        if x_positive { ONE_BITS } else { MINUS_ONE_BITS },
        if y_positive { ONE_BITS } else { MINUS_ONE_BITS },
        0u32,
    ]
}

/// Two counter-clockwise triangles covering [-1, 1] x [-1, 1]: top left, bottom left,
/// bottom right, then top left, bottom right, top right.
pub open spec fn quad_positions() -> Seq<Seq<u32>> {
    seq![
        corner(false, true),
        corner(false, false),
        corner(true, false),
        corner(false, true),
        corner(true, false),
        corner(true, true),
    ]
}

impl Vertex {
    /// The words of the vertex record in wire order.
    pub open spec fn words(self) -> Seq<u32> {
        self.position@
    }

    fn at(x_positive: bool, y_positive: bool) -> (r: Vertex)
        ensures
            r.position@ == corner(x_positive, y_positive),
    {
        let x = if x_positive { ONE_BITS } else { MINUS_ONE_BITS };
        let y = if y_positive { ONE_BITS } else { MINUS_ONE_BITS };
        let r = Vertex { position: [x, y, 0] };
        assert(r.position@ =~= corner(x_positive, y_positive));
        r
    }
}

/// The quad that covers the whole viewport.
pub fn quad_vertices() -> (r: Vec<Vertex>)
    ensures
        r@.len() == QUAD_VERTEX_COUNT,
        forall|i: int| 0 <= i < 6 ==> (#[trigger] r@[i]).position@ == quad_positions()[i],
{
    let r: Vec<Vertex> = vec![
        Vertex::at(false, true),
        Vertex::at(false, false),
        Vertex::at(true, false),
        Vertex::at(false, true),
        Vertex::at(true, false),
        Vertex::at(true, true),
    ];
    r
}

/// The quad's coordinates, vertex after vertex.
pub open spec fn quad_words() -> Seq<u32> {
    quad_positions()[0] + quad_positions()[1] + quad_positions()[2] + quad_positions()[3]
        + quad_positions()[4] + quad_positions()[5]
}

proof fn lemma_quad_words_split(k: int)
    requires
        0 <= k < 6,
    ensures
        quad_words().len() == 18,
        quad_words().subrange(3 * k, 3 * k + 3) == quad_positions()[k],
{
    let q = quad_words();
    assert(q.subrange(0, 3) =~= quad_positions()[0]);
    assert(q.subrange(3, 6) =~= quad_positions()[1]);
    assert(q.subrange(6, 9) =~= quad_positions()[2]);
    assert(q.subrange(9, 12) =~= quad_positions()[3]);
    assert(q.subrange(12, 15) =~= quad_positions()[4]);
    assert(q.subrange(15, 18) =~= quad_positions()[5]);
}

/// The wire bytes of the quad: 12 bytes per vertex, its three coordinates little-endian.
pub fn quad_bytes() -> (r: Vec<u8>)
    ensures
        r@ == words_bytes(quad_words()),
        r@.len() == VERTEX_STRIDE * QUAD_VERTEX_COUNT,
{
    let vs = quad_vertices();
    let mut ws: Vec<u32> = Vec::new();
    let mut i: usize = 0;
    proof {
        lemma_quad_words_split(0);
    }
    while i < vs.len()
        invariant
            vs@.len() == 6,
            i <= 6,
            quad_words().len() == 18,
            forall|k: int| 0 <= k < 6 ==> (#[trigger] vs@[k]).position@ == quad_positions()[k],
            ws@ == quad_words().subrange(0, 3 * i),
        decreases 6 - i,
    {
        let p = vs[i].position;
        proof {
            lemma_quad_words_split(i as int);
        }
        ws.push(p[0]);
        ws.push(p[1]);
        ws.push(p[2]);
        assert(ws@ =~= quad_words().subrange(0, 3 * i + 3)) by {
            assert(quad_words().subrange(0, 3 * i + 3) =~= quad_words().subrange(0, 3 * i)
                + quad_words().subrange(3 * i, 3 * i + 3));
        };
        i = i + 1;
    }
    assert(ws@ =~= quad_words());
    encode_words(ws.as_slice())
}

} // verus!
