//! What the renderer decides without the graphics device: how large the
//! buffer of instances is, how an instance lies in it, and which of the modes
//! that a surface offers are taken.
use vstd::prelude::*;

verus! {

/// Bytes of one instance in the buffer: a position and a size of two 32-bit
/// floats each, and a colour of four.
pub const INSTANCE_STRIDE: u64 = 32;

/// Byte offset of the position in an instance.
pub const POSITION_OFFSET: u64 = 0;

/// Byte offset of the size in an instance.
pub const SIZE_OFFSET: u64 = 8;

/// Byte offset of the colour in an instance.
pub const COLOR_OFFSET: u64 = 16;

/// Shader location of the corner of the quad.
pub const CORNER_LOCATION: u32 = 0;

/// Shader location of the position of an instance.
pub const POSITION_LOCATION: u32 = 1;

/// Shader location of the size of an instance.
pub const SIZE_LOCATION: u32 = 2;

/// Shader location of the colour of an instance.
pub const COLOR_LOCATION: u32 = 3;

/// Vertices drawn for one instance: two triangles.
pub const VERTICES_PER_INSTANCE: u32 = 6;

/// Bytes of the uniform that holds the size of the screen: two 32-bit
/// floats, padded.
pub const UNIFORM_SIZE: u64 = 16;

/// Instances that the buffer of the letterboxed game holds at first.
pub const INITIAL_CAPACITY: usize = 64;

/// Bytes that the buffer of the screen-relative game holds at first.
pub const INITIAL_BUFFER_BYTES: usize = 1024;

/// Instances that the buffer of the screen-relative game holds at first: as
/// many as fit into [`INITIAL_BUFFER_BYTES`].
pub const INITIAL_SCREEN_CAPACITY: usize = 32;

/// `n` is a power of two.
pub open spec fn is_power_of_two(n: int) -> bool
    decreases n,
{
    if n <= 0 {
        false
    } else if n == 1 {
        true
    } else {
        n % 2 == 0 && is_power_of_two(n / 2)
    }
}

/// `p` is the least power of two that is at least `n`.
pub open spec fn is_next_power_of_two(n: int, p: int) -> bool {
    &&& is_power_of_two(p)
    &&& n <= p
    &&& p == 1 || p < 2 * n
}

/// The least power of two that is at least `n`.
pub fn next_power_of_two(n: usize) -> (p: usize)
    requires
        n <= usize::MAX / 2,
    ensures
        is_next_power_of_two(n as int, p as int),
{
    let mut p: usize = 1;
    while p < n
        invariant
            is_power_of_two(p as int),
            p == 1 || p < 2 * n,
            n <= usize::MAX / 2,
        decreases 2 * n - p,
    {
        p = 2 * p;
    }
    p
}

/// `grown` is the capacity of a buffer that holds `capacity` instances once
/// `count` instances are to be drawn: the same if they fit, or else the least
/// power of two that holds them.
pub open spec fn grown(capacity: int, count: int, grown: int) -> bool {
    if count <= capacity {
        grown == capacity
    } else {
        is_next_power_of_two(count, grown)
    }
}

/// The capacity that the buffer of the letterboxed game needs for `count`
/// instances, when it holds `capacity`.  The buffer is made anew where the
/// capacity changes.
pub fn ensure_capacity(capacity: usize, count: usize) -> (new_capacity: usize)
    requires
        count <= usize::MAX / 2,
    ensures
        grown(capacity as int, count as int, new_capacity as int),
        new_capacity >= count,
{
    if count <= capacity {
        capacity
    } else {
        next_power_of_two(count)
    }
}

/// `capacity` doubled until it is at least `count`.
pub open spec fn doubled_to(capacity: int, count: int) -> int
    decreases (if count > capacity {
        count - capacity
    } else {
        0
    }),
{
    if capacity >= count || capacity <= 0 {
        capacity
    } else {
        doubled_to(2 * capacity, count)
    }
}

/// The capacity that the buffer of the screen-relative game needs for
/// `count` instances, when it holds `capacity`: the capacity doubled until they
/// fit.
pub fn doubled_capacity(capacity: usize, count: usize) -> (new_capacity: usize)
    requires
        1 <= capacity,
        count <= usize::MAX / 2,
    ensures
        new_capacity == doubled_to(capacity as int, count as int),
        new_capacity >= count,
{
    let mut grown: usize = capacity;
    while grown < count
        invariant
            1 <= grown,
            count <= usize::MAX / 2,
            doubled_to(capacity as int, count as int) == doubled_to(grown as int, count as int),
        decreases (if count > grown {
            count - grown
        } else {
            0
        }),
    {
        grown = 2 * grown;
    }
    grown
}

/// How finished frames are handed to the display.
#[derive(Clone, Copy, Debug, PartialEq, Eq, Structural)]
pub enum PresentMode {
    /// In step with the display.
    Fifo,
    /// As fast as they come.
    Immediate,
}

/// The present mode to take: as fast as frames come only where that is both
/// asked for and on offer, and in step with the display otherwise.
pub fn choose_present_mode(uncapped: bool, immediate_offered: bool) -> (mode: PresentMode)
    ensures
        mode == if uncapped && immediate_offered {
            PresentMode::Immediate
        } else {
            PresentMode::Fifo
        },
{
    if uncapped && immediate_offered {
        PresentMode::Immediate
    } else {
        PresentMode::Fifo
    }
}

/// The place of the first `true` in `wanted`, or the first place if there is
/// none.
pub fn first_wanted(wanted: &Vec<bool>) -> (place: usize)
    requires
        wanted@.len() >= 1,
    ensures
        place < wanted@.len(),
        forall|i: int| 0 <= i < place ==> !wanted@[i],
        wanted@[place as int] || (place == 0 && forall|i: int|
            0 <= i < wanted@.len() ==> !wanted@[i]),
{
    let mut i: usize = 0;
    while i < wanted.len()
        invariant
            i <= wanted@.len(),
            forall|k: int| 0 <= k < i ==> !wanted@[k],
        decreases wanted@.len() - i,
    {
        if wanted[i] {
            return i;
        }
        i += 1;
    }
    0
}

/// The place of the surface format to take among those on offer, of which
/// `is_srgb` says for each whether it is an sRGB format: the first sRGB format,
/// or the first format if none is.
pub fn choose_format(is_srgb: &Vec<bool>) -> (place: usize)
    requires
        is_srgb@.len() >= 1,
    ensures
        place < is_srgb@.len(),
        forall|i: int| 0 <= i < place ==> !is_srgb@[i],
        is_srgb@[place as int] || (place == 0 && forall|i: int|
            0 <= i < is_srgb@.len() ==> !is_srgb@[i]),
{
    first_wanted(is_srgb)
}

/// The place of the alpha mode to take among those on offer, of which
/// `is_opaque` says for each whether it is the opaque one: the opaque mode, or
/// the first mode if it is not on offer.
pub fn choose_alpha_mode(is_opaque: &Vec<bool>) -> (place: usize)
    requires
        is_opaque@.len() >= 1,
    ensures
        place < is_opaque@.len(),
        forall|i: int| 0 <= i < place ==> !is_opaque@[i],
        is_opaque@[place as int] || (place == 0 && forall|i: int|
            0 <= i < is_opaque@.len() ==> !is_opaque@[i]),
{
    first_wanted(is_opaque)
}

} // verus!
