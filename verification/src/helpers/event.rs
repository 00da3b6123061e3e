//! A window message as plain values, and the words packed into its parameters.

use vstd::prelude::*;
use crate::helpers::msg::WM_MOUSEMOVE;

verus! {

/// The low-order 16 bits of `value`, as a number in `0..0x1_0000`.
pub open spec fn low_word(value: int) -> int {
    value % 0x1_0000
}

/// Bits 16 to 31 of `value`, as a number in `0..0x1_0000`.
pub open spec fn high_word(value: int) -> int {
    (value / 0x1_0000) % 0x1_0000
}

/// A 16-bit word read as a two's-complement signed number.
pub open spec fn signed_word(word: int) -> int {
    if word < 0x8000 {
        word
    } else {
        word - 0x1_0000
    }
}

/// Both coordinates of a position lie in the signed 16-bit range, whatever
/// the parameter they are read from.
pub proof fn lemma_coordinate_range(value: int)
    ensures
        -0x8000 <= signed_word(low_word(value)) < 0x8000,
        -0x8000 <= signed_word(high_word(value)) < 0x8000,
{
}

/// A position in the signed 16-bit range, packed with `x` in the low word
/// and `y` in the high word, is read back as it was, wherever the words
/// stand above them.
pub proof fn lemma_packed_position(x: int, y: int, upper: int)
    requires
        -0x8000 <= x < 0x8000,
        -0x8000 <= y < 0x8000,
    ensures
        ({
            let packed = upper * 0x1_0000_0000 + (y % 0x1_0000) * 0x1_0000 + x % 0x1_0000;
            &&& signed_word(low_word(packed)) == x
            &&& signed_word(high_word(packed)) == y
        }),
{
    let lo = x % 0x1_0000;
    let hi = y % 0x1_0000;
    let packed = upper * 0x1_0000_0000 + hi * 0x1_0000 + lo;
    assert(packed == (upper * 0x1_0000 + hi) * 0x1_0000 + lo);
    assert(packed % 0x1_0000 == lo && packed / 0x1_0000 == upper * 0x1_0000 + hi) by (nonlinear_arith)
        requires
            packed == (upper * 0x1_0000 + hi) * 0x1_0000 + lo,
            0 <= lo < 0x1_0000,
    ;
    assert((upper * 0x1_0000 + hi) % 0x1_0000 == hi) by (nonlinear_arith)
        requires
            0 <= hi < 0x1_0000,
    ;
}

/// The low-order word of a 32-bit value.
pub fn loword(l: u32) -> (w: u16)
    ensures
        w == low_word(l as int),
{
    assert(l & 0xffff == l % 0x1_0000) by (bit_vector);
    (l & 0xffff) as u16
}

/// The high-order word of a 32-bit value.
pub fn hiword(l: u32) -> (w: u16)
    ensures
        w == high_word(l as int),
{
    assert((l >> 16) & 0xffff == (l / 0x1_0000) % 0x1_0000) by (bit_vector);
    ((l >> 16) & 0xffff) as u16
}

/// A word read as a signed 16-bit value and widened.
fn signed(w: u16) -> (v: i32)
    ensures
        v == signed_word(w as int),
{
    let s: i16 = #[verifier::truncate] (w as i16);
    assert(s as int == signed_word(w as int)) by (bit_vector)
        requires
            s == w as i16,
    ;
    s as i32
}

/// The 32 low-order bits of a pointer-sized message parameter.
pub(crate) fn dword(lp: isize) -> (l: u32)
    ensures
        low_word(l as int) == low_word(lp as int),
        high_word(l as int) == high_word(lp as int),
{
    let l: u32 = #[verifier::truncate] (lp as u32);
    assert((l as int) % 0x1_0000 == (lp as int) % 0x1_0000 && ((l as int) / 0x1_0000) % 0x1_0000 == ((lp as int)
        / 0x1_0000) % 0x1_0000) by (bit_vector)
        requires
            l == lp as u32,
    ;
    l
}

/// The signed horizontal coordinate packed into the low word of `lp`.
pub fn get_x_lparam(lp: isize) -> (x: i32)
    ensures
        x == signed_word(low_word(lp as int)),
{
    signed(loword(dword(lp)))
}

/// The signed vertical coordinate packed into the high word of `lp`.
pub fn get_y_lparam(lp: isize) -> (y: i32)
    ensures
        y == signed_word(high_word(lp as int)),
{
    signed(hiword(dword(lp)))
}

/// One window message: the window it is for, its identifier and its two
/// parameters. The window handle is kept as its address; zero is the null
/// handle.
#[derive(Clone, Copy, Debug, PartialEq, Eq, Structural)]
pub struct Event {
    pub wnd: usize,
    pub l_param: isize,
    pub w_param: usize,
    pub message: u32,
}

impl Event {
    /// The pointer position that a mouse-move message carries, in client
    /// coordinates.
    pub open spec fn spec_mouse_pos(self) -> (int, int) {
        (signed_word(low_word(self.l_param as int)), signed_word(high_word(self.l_param as int)))
    }

    /// The pointer position of a mouse-move message. Only a mouse-move
    /// message carries one.
    pub fn mouse_pos(&self) -> (pos: (i32, i32))
        requires
            self.message == WM_MOUSEMOVE,
        ensures
            pos.0 == self.spec_mouse_pos().0,
            pos.1 == self.spec_mouse_pos().1,
    {
        (get_x_lparam(self.l_param), get_y_lparam(self.l_param))
    }
}

} // verus!
