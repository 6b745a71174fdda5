use vstd::prelude::*;

verus! {

/// Width of the popup's pixel buffer, in pixels.
pub const WIDTH: usize = 10;

/// Height of the popup's pixel buffer, in pixels.
pub const HEIGHT: usize = 300;

/// Byte `j` (0..4) of the colour that the pixel with the given index takes
/// when `count` frames have been drawn before: rows above `count / 10` are red,
/// the rest blue (bytes in memory order of a 32-bit ARGB pixel).
pub open spec fn pixel_byte(pixel: int, j: int, count: int) -> u8 {
    if pixel / (WIDTH as int) < count / 10 {
        if j == 2 || j == 3 { 255u8 } else { 0u8 }
    } else {
        if j == 0 || j == 3 { 255u8 } else { 0u8 }
    }
}

/// The buffer `data` after it is filled for frame `count`: every whole 4-byte
/// pixel is painted, a trailing partial pixel is left as it was.
pub open spec fn filled(data: Seq<u8>, count: int) -> Seq<u8> {
    Seq::new(
        data.len(),
        |i: int|
            if i < data.len() - data.len() % 4 {
                pixel_byte(i / 4, i % 4, count)
            } else {
                data[i]
            },
    )
}

/// Paints the test pattern for frame `count` into `data`.
pub fn draw_into(data: &mut [u8], count: usize)
    ensures
        final(data)@ == filled(old(data)@, count as int),
{
    let len = data.len();
    let whole = len - len % 4;
    let rows_red = count / 10;
    let mut i: usize = 0;
    while i < whole
        invariant
            whole == len - len % 4,
            len == old(data)@.len(),
            data@.len() == len,
            i <= whole,
            i % 4 == 0,
            rows_red == count / 10,
            forall|k: int| 0 <= k < i ==> data@[k] == #[trigger] filled(old(data)@, count as int)[k],
            forall|k: int| i <= k < len ==> data@[k] == old(data)@[k],
        decreases whole - i,
    {
        let pixel = i / 4;
        let red = pixel / WIDTH < rows_red;
        let (b0, b1, b2, b3): (u8, u8, u8, u8) = if red {
            (0, 0, 255, 255)
        } else {
            (255, 0, 0, 255)
        };
        data[i] = b0;
        data[i + 1] = b1;
        data[i + 2] = b2;
        data[i + 3] = b3;
        i = i + 4;
    }
    assert(data@ =~= filled(old(data)@, count as int));
}

/// Filling a buffer twice for the same frame leaves it as filling it once.
pub proof fn lemma_fill_idempotent(data: Seq<u8>, count: int)
    ensures
        filled(filled(data, count), count) == filled(data, count),
{
    assert(filled(filled(data, count), count) =~= filled(data, count));
}

/// A buffer of whole pixels is filled to the same bytes for the same frame,
/// whatever it held before.
pub proof fn lemma_fill_ignores_old_content(a: Seq<u8>, b: Seq<u8>, count: int)
    requires
        a.len() == b.len(),
        a.len() % 4 == 0,
    ensures
        filled(a, count) == filled(b, count),
{
    assert(filled(a, count) =~= filled(b, count));
}

} // verus!
