use vstd::prelude::*;

verus! {

/// The byte at position `i` of `d` after exchanging, in every 4-byte pixel,
/// the bytes at positions 0 and 2.
pub open spec fn swapped_byte(d: Seq<u8>, i: int) -> u8 {
    if i % 4 == 0 {
        d[i + 2]
    } else if i % 4 == 2 {
        d[i - 2]
    } else {
        d[i]
    }
}

/// `d` with the first and third byte of each 4-byte pixel exchanged.
pub open spec fn swap_red_blue(d: Seq<u8>) -> Seq<u8> {
    Seq::new(d.len(), |i: int| swapped_byte(d, i))
}

/// A buffer holds whole 4-byte pixels.
pub open spec fn whole_pixels(len: nat) -> bool {
    len % 4 == 0
}

fn swap_pixels(data: &[u8]) -> (r: Vec<u8>)
    requires
        whole_pixels(data@.len()),
    ensures
        r@ == swap_red_blue(data@),
{
    let mut out: Vec<u8> = Vec::with_capacity(data.len());
    let mut i: usize = 0;
    while i < data.len()
        invariant
            i <= data@.len(),
            i % 4 == 0,
            whole_pixels(data@.len()),
            out@.len() == i,
            forall|j: int| 0 <= j < i ==> out@[j] == swapped_byte(data@, j),
        decreases data@.len() - i,
    {
        out.push(data[i + 2]);
        out.push(data[i + 1]);
        out.push(data[i]);
        out.push(data[i + 3]);
        i = i + 4;
    }
    assert(out@ =~= swap_red_blue(data@));
    out
}

fn copy_pixels(data: &[u8]) -> (r: Vec<u8>)
    ensures
        r@ == data@,
{
    let mut out: Vec<u8> = Vec::with_capacity(data.len());
    let mut i: usize = 0;
    while i < data.len()
        invariant
            i <= data@.len(),
            out@ == data@.subrange(0, i as int),
        decreases data@.len() - i,
    {
        out.push(data[i]);
        i = i + 1;
        assert(out@ =~= data@.subrange(0, i as int));
    }
    assert(out@ =~= data@);
    out
}

/// Converts `ABGR8888` pixels to RGBA8. Packed little-endian, these pixels
/// already lie in memory as R, G, B, A, so the bytes are copied unchanged. A
/// buffer that is not made of whole pixels is rejected.
pub fn abgr8888_to_rgba8(data: &[u8]) -> (r: Option<Vec<u8>>)
    ensures
        r.is_none() <==> !whole_pixels(data@.len()),
        r matches Some(v) ==> v@ == data@,
{
    if data.len() % 4 != 0 {
        return None;
    }
    Some(copy_pixels(data))
}

/// Converts `ARGB8888` pixels (bytes B, G, R, A in memory) to RGBA8.
/// A buffer that is not made of whole pixels is rejected.
pub fn argb8888_to_rgba8(data: &[u8]) -> (r: Option<Vec<u8>>)
    ensures
        r.is_none() <==> !whole_pixels(data@.len()),
        r matches Some(v) ==> v@ == swap_red_blue(data@),
{
    if data.len() % 4 != 0 {
        return None;
    }
    Some(swap_pixels(data))
}

/// `BGR888` shares its byte layout with RGB8: the bytes are copied unchanged.
/// A buffer that is not made of whole 4-byte groups is rejected.
pub fn bgr888_to_rgb8(data: &[u8]) -> (r: Option<Vec<u8>>)
    ensures
        r.is_none() <==> !whole_pixels(data@.len()),
        r matches Some(v) ==> v@ == data@,
{
    if data.len() % 4 != 0 {
        return None;
    }
    Some(copy_pixels(data))
}

/// The little-endian 32-bit word made of the four bytes of `b`.
pub open spec fn le_word(b0: u8, b1: u8, b2: u8, b3: u8) -> u32 {
    (b0 as int + b1 as int * 0x100 + b2 as int * 0x10000 + b3 as int * 0x1000000) as u32
}

/// Bits 31..30 of a packed `ABGR2101010` word.
pub open spec fn alpha2(w: u32) -> u32 {
    (w & 0xC000_0000) >> 30
}

/// Bits 9..0 of a packed `ABGR2101010` word.
pub open spec fn red10(w: u32) -> u32 {
    w & 0x0000_03FF
}

/// Bits 19..10 of a packed `ABGR2101010` word.
pub open spec fn green10(w: u32) -> u32 {
    (w & 0x000F_FC00) >> 10
}

/// Bits 29..20 of a packed `ABGR2101010` word.
pub open spec fn blue10(w: u32) -> u32 {
    (w & 0x3FF0_0000) >> 20
}

/// Channel `c` (0 = A, 1 = R, 2 = G, 3 = B) of the RGBA16 value of a packed
/// word: each component widened into the high bits of 16.
pub open spec fn rgba16_channel(w: u32, c: int) -> u16 {
    if c == 0 {
        (alpha2(w) << 14) as u16
    } else if c == 1 {
        (red10(w) << 6) as u16
    } else if c == 2 {
        (green10(w) << 6) as u16
    } else {
        (blue10(w) << 6) as u16
    }
}

/// The packed word of the pixel that holds byte `i` of `d`.
pub open spec fn pixel_word(d: Seq<u8>, i: int) -> u32 {
    let p = i - i % 4;
    le_word(d[p], d[p + 1], d[p + 2], d[p + 3])
}

/// `d`, read as packed `ABGR2101010` pixels, expanded to four 16-bit channels
/// per pixel.
pub open spec fn abgr2101010_rgba16(d: Seq<u8>) -> Seq<u16> {
    Seq::new(d.len(), |i: int| rgba16_channel(pixel_word(d, i), i % 4))
}

/// Expands one little-endian `ABGR2101010` pixel to its four 16-bit channels.
pub fn pixel_abgr2101010_to_rgba16(chunk: &[u8; 4]) -> (r: [u16; 4])
    ensures
        forall|c: int|
            0 <= c < 4 ==> #[trigger] r@[c] == rgba16_channel(
                le_word(chunk@[0], chunk@[1], chunk@[2], chunk@[3]),
                c,
            ),
{
    let pixel: u32 = chunk[0] as u32 + chunk[1] as u32 * 0x100 + chunk[2] as u32 * 0x10000
        + chunk[3] as u32 * 0x1000000;
    let a2: u32 = (pixel & 0xC000_0000) >> 30;
    let b10: u32 = (pixel & 0x3FF0_0000) >> 20;
    let g10: u32 = (pixel & 0x000F_FC00) >> 10;
    let r10: u32 = pixel & 0x0000_03FF;
    let converted: [u16; 4] = [(a2 << 14) as u16, (r10 << 6) as u16, (g10 << 6) as u16, (b10 << 6) as u16];
    assert(forall|c: int|
        0 <= c < 4 ==> #[trigger] converted@[c] == rgba16_channel(pixel, c));
    converted
}

proof fn lemma_pixel_channels(d: Seq<u8>, i: int)
    requires
        0 <= i,
        i + 4 <= d.len(),
        i % 4 == 0,
    ensures
        forall|c: int|
            0 <= c < 4 ==> #[trigger] abgr2101010_rgba16(d)[i + c] == rgba16_channel(
                le_word(d[i], d[i + 1], d[i + 2], d[i + 3]),
                c,
            ),
{
    assert forall|c: int| 0 <= c < 4 implies #[trigger] abgr2101010_rgba16(d)[i + c]
        == rgba16_channel(le_word(d[i], d[i + 1], d[i + 2], d[i + 3]), c) by {
        assert((i + c) % 4 == c);
        assert((i + c) - (i + c) % 4 == i);
    }
}

/// Converts packed `ABGR2101010` pixels to RGBA16. A buffer that is not made
/// of whole pixels is rejected.
pub fn abgr2101010_to_rgba16(data: &[u8]) -> (r: Option<Vec<u16>>)
    ensures
        r.is_none() <==> !whole_pixels(data@.len()),
        r matches Some(v) ==> v@ == abgr2101010_rgba16(data@),
{
    if data.len() % 4 != 0 {
        return None;
    }
    let mut out: Vec<u16> = Vec::with_capacity(data.len());
    let mut i: usize = 0;
    while i < data.len()
        invariant
            i <= data@.len(),
            i % 4 == 0,
            whole_pixels(data@.len()),
            out@.len() == i,
            forall|j: int| 0 <= j < i ==> out@[j] == abgr2101010_rgba16(data@)[j],
        decreases data@.len() - i,
    {
        let chunk: [u8; 4] = [data[i], data[i + 1], data[i + 2], data[i + 3]];
        let px = pixel_abgr2101010_to_rgba16(&chunk);
        proof {
            lemma_pixel_channels(data@, i as int);
        }
        out.push(px[0]);
        out.push(px[1]);
        out.push(px[2]);
        out.push(px[3]);
        i = i + 4;
    }
    assert(out@ =~= abgr2101010_rgba16(data@));
    Some(out)
}

/// Exchanging red and blue is its own inverse: applied twice to a buffer of
/// whole pixels it gives back the original bytes.
pub proof fn lemma_swap_red_blue_involution(d: Seq<u8>)
    requires
        whole_pixels(d.len()),
    ensures
        swap_red_blue(swap_red_blue(d)) == d,
{
    let once = swap_red_blue(d);
    assert forall|i: int| 0 <= i < d.len() implies #[trigger] swap_red_blue(once)[i] == d[i] by {
        if i % 4 == 0 {
            assert((i + 2) % 4 == 2);
        } else if i % 4 == 2 {
            assert((i - 2) % 4 == 0);
        }
    }
    assert(swap_red_blue(once) =~= d);
}

/// The conversions depend on the input bytes alone: equal inputs give equal
/// outputs.
pub proof fn lemma_conversions_deterministic(a: Seq<u8>, b: Seq<u8>)
    requires
        a == b,
    ensures
        swap_red_blue(a) == swap_red_blue(b),
        abgr2101010_rgba16(a) == abgr2101010_rgba16(b),
{
}

/// For every packed word the extracted alpha lies in 0..=3 and each colour
/// component in 0..=1023, and each 16-bit channel is the component shifted
/// left, by 14 for alpha and by 6 for colour, with no bit lost.
pub proof fn lemma_rgba16_channel_ranges(w: u32)
    ensures
        alpha2(w) <= 3,
        red10(w) <= 1023,
        green10(w) <= 1023,
        blue10(w) <= 1023,
        rgba16_channel(w, 0) as int == alpha2(w) * 0x4000,
        rgba16_channel(w, 1) as int == red10(w) * 0x40,
        rgba16_channel(w, 2) as int == green10(w) * 0x40,
        rgba16_channel(w, 3) as int == blue10(w) * 0x40,
{
    assert(((w & 0xC000_0000) >> 30) <= 3) by (bit_vector);
    assert((w & 0x0000_03FF) <= 1023) by (bit_vector);
    assert(((w & 0x000F_FC00) >> 10) <= 1023) by (bit_vector);
    assert(((w & 0x3FF0_0000) >> 20) <= 1023) by (bit_vector);
    let a = alpha2(w);
    let r = red10(w);
    let g = green10(w);
    let b = blue10(w);
    assert(a <= 3 ==> ((a << 14) as u16) as u32 == a * 0x4000) by (bit_vector);
    assert(r <= 1023 ==> ((r << 6) as u16) as u32 == r * 0x40) by (bit_vector);
    assert(g <= 1023 ==> ((g << 6) as u16) as u32 == g * 0x40) by (bit_vector);
    assert(b <= 1023 ==> ((b << 6) as u16) as u32 == b * 0x40) by (bit_vector);
}

} // verus!
