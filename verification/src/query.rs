//! The options that a page's query string carries: `bg=RRGGBB` for the colour
//! of the background, `uncapped=1` for frames as fast as they come.
//!
//! The query string is read as bytes.  It is a list of options with `&`
//! between them, behind a `?` or without one; an option is a key, `=`, and a
//! value that runs to the next `&` or to the end.  Where a key stands more than
//! once, its first option counts.  Keys that are not known and values that are
//! not as they should be are passed over.
use crate::color::Color;
use vstd::prelude::*;
use vstd::string::StringSliceAdditionalSpecFns;

verus! {

/// `needle` stands in `hay` at the place `at`.
pub open spec fn found_at(hay: Seq<u8>, needle: Seq<u8>, at: int) -> bool {
    &&& 0 <= at
    &&& at + needle.len() <= hay.len()
    &&& forall|k: int| 0 <= k < needle.len() ==> #[trigger] hay[at + k] == needle[k]
}

/// An option of `query` begins at the place `at`: at the start of the
/// string, right behind the `?` that the string starts with, or right behind a
/// `&`.
pub open spec fn option_starts(query: Seq<u8>, at: int) -> bool {
    &&& 0 <= at <= query.len()
    &&& (at == 0 || query[at - 1] == 38 || (at == 1 && query[0] == 63))
}

/// The first place at or after `from` at which an option of `query` begins
/// whose key and `=` are `key`.
pub open spec fn first_option(query: Seq<u8>, key: Seq<u8>, from: int) -> Option<int>
    decreases query.len() - from + 1,
{
    if from < 0 || from + key.len() > query.len() {
        None
    } else if option_starts(query, from) && found_at(query, key, from) {
        Some(from)
    } else {
        first_option(query, key, from + 1)
    }
}

/// The place at which the value that begins at `from` ends: that of the
/// next `&`, or the end of the string.
pub open spec fn value_end(query: Seq<u8>, from: int) -> int
    decreases query.len() - from,
{
    if from < 0 || from >= query.len() || query[from] == 38 {
        from
    } else {
        value_end(query, from + 1)
    }
}

/// The value of the hexadecimal digit `b`, in either case.
pub open spec fn hex_value(b: u8) -> Option<int> {
    if 48 <= b <= 57 {
        Some(b - 48)
    } else if 97 <= b <= 102 {
        Some(b - 87)
    } else if 65 <= b <= 70 {
        Some(b - 55)
    } else {
        None
    }
}

/// The value of the two hexadecimal digits at `at` and after it.
pub open spec fn hex_pair(bytes: Seq<u8>, at: int) -> Option<int> {
    if hex_value(bytes[at]) is Some && hex_value(bytes[at + 1]) is Some {
        Some(16 * hex_value(bytes[at])->Some_0 + hex_value(bytes[at + 1])->Some_0)
    } else {
        None
    }
}

/// The colour that the six bytes of `bytes` from `at` on spell as `RRGGBB`;
/// none if there are fewer than six or they are not all hexadecimal digits.
pub open spec fn color_at(bytes: Seq<u8>, at: int) -> Option<Color> {
    if 0 <= at && at + 6 <= bytes.len() && hex_pair(bytes, at) is Some && hex_pair(bytes, at + 2)
        is Some && hex_pair(bytes, at + 4) is Some {
        Some(
            Color {
                r: hex_pair(bytes, at)->Some_0 as u8,
                g: hex_pair(bytes, at + 2)->Some_0 as u8,
                b: hex_pair(bytes, at + 4)->Some_0 as u8,
                a: 255,
            },
        )
    } else {
        None
    }
}

/// The colour that the query string `query` asks for as background: the
/// value of its first option `bg`, if there is one and its value is exactly six
/// hexadecimal digits.
pub open spec fn background_in(query: Seq<u8>) -> Option<Color> {
    match first_option(query, "bg=".spec_bytes(), 0) {
        Some(at) => {
            let value = at + "bg=".spec_bytes().len();
            if value_end(query, value) == value + 6 {
                color_at(query, value)
            } else {
                None
            }
        },
        None => None,
    }
}

/// The query string `query` asks for frames as fast as they come: it has an
/// option `uncapped`, and the value of the first is exactly `1`.
pub open spec fn uncapped_in(query: Seq<u8>) -> bool {
    match first_option(query, "uncapped=".spec_bytes(), 0) {
        Some(at) => {
            let value = at + "uncapped=".spec_bytes().len();
            value_end(query, value) == value + 1 && query[value] == 49
        },
        None => false,
    }
}

/// The sky blue that is the background where none is asked for.
pub open spec fn default_background() -> Color {
    Color { r: 92, g: 184, b: 235, a: 255 }
}

/// The first place at which an option of `query` begins whose key and `=`
/// are `key`.
pub fn find_option(query: &[u8], key: &[u8]) -> (place: Option<usize>)
    ensures
        match place {
            Some(at) => first_option(query@, key@, 0) == Some(at as int) && found_at(
                query@,
                key@,
                at as int,
            ),
            None => first_option(query@, key@, 0) is None,
        },
{
    let n: usize = query.len();
    let m: usize = key.len();
    if m > n {
        return None;
    }
    let last: usize = n - m;
    let mut at: usize = 0;
    while at <= last
        invariant
            at <= last,
            n == query@.len(),
            m == key@.len(),
            last == n - m,
            first_option(query@, key@, 0) == first_option(query@, key@, at as int),
        decreases last - at,
    {
        let starts: bool = at == 0 || query[at - 1] == 38 || (at == 1 && query[0] == 63);
        let mut k: usize = 0;
        while starts && k < m && query[at + k] == key[k]
            invariant
                k <= m,
                n == query@.len(),
                m == key@.len(),
                at + m <= n,
                forall|j: int| 0 <= j < k ==> #[trigger] query@[at + j] == key@[j],
            decreases m - k,
        {
            k += 1;
        }
        if starts && k == m {
            assert(found_at(query@, key@, at as int));
            return Some(at);
        }
        assert(!(option_starts(query@, at as int) && found_at(query@, key@, at as int))) by {
            if starts {
                assert(query@[at + k] != key@[k as int]);
            }
        }
        if at == last {
            assert(first_option(query@, key@, at as int + 1) is None);
            return None;
        }
        at += 1;
    }
    None
}

/// The place at which the value that begins at `from` ends.
pub fn find_value_end(query: &[u8], from: usize) -> (end: usize)
    requires
        from <= query@.len(),
    ensures
        end == value_end(query@, from as int),
        from <= end <= query@.len(),
{
    let n: usize = query.len();
    let mut end: usize = from;
    while end < n && query[end] != 38
        invariant
            from <= end <= n,
            n == query@.len(),
            value_end(query@, from as int) == value_end(query@, end as int),
        decreases n - end,
    {
        end += 1;
    }
    end
}

/// The value of the hexadecimal digit `b`.
pub fn hex_digit(b: u8) -> (value: Option<u8>)
    ensures
        match value {
            Some(v) => hex_value(b) == Some(v as int),
            None => hex_value(b) is None,
        },
{
    if b >= 48 && b <= 57 {
        Some(b - 48)
    } else if b >= 97 && b <= 102 {
        Some(b - 87)
    } else if b >= 65 && b <= 70 {
        Some(b - 55)
    } else {
        None
    }
}

/// The value of the two hexadecimal digits at `at` and after it.
fn hex_byte(bytes: &[u8], at: usize) -> (value: Option<u8>)
    requires
        at + 1 < bytes@.len(),
    ensures
        match value {
            Some(v) => hex_pair(bytes@, at as int) == Some(v as int),
            None => hex_pair(bytes@, at as int) is None,
        },
{
    match (hex_digit(bytes[at]), hex_digit(bytes[at + 1])) {
        (Some(high), Some(low)) => Some(16 * high + low),
        _ => None,
    }
}

/// The colour that the six bytes of `bytes` from `at` on spell as `RRGGBB`.
pub fn parse_color(bytes: &[u8], at: usize) -> (color: Option<Color>)
    ensures
        color == color_at(bytes@, at as int),
{
    if at > bytes.len() || bytes.len() - at < 6 {
        return None;
    }
    match (hex_byte(bytes, at), hex_byte(bytes, at + 2), hex_byte(bytes, at + 4)) {
        (Some(r), Some(g), Some(b)) => Some(Color { r, g, b, a: 255 }),
        _ => None,
    }
}

/// The colour that the query string asks for as background, if it asks for
/// one.
pub fn background_override(query: &str) -> (color: Option<Color>)
    ensures
        color == background_in(query.spec_bytes()),
{
    let bytes = query.as_bytes();
    let key = "bg=".as_bytes();
    let n: usize = bytes.len();
    match find_option(bytes, key) {
        Some(at) => {
            assert(at + key@.len() <= n);
            let value: usize = at + key.len();
            let end: usize = find_value_end(bytes, value);
            if end - value == 6 {
                parse_color(bytes, value)
            } else {
                None
            }
        },
        None => None,
    }
}

/// The colour of the background for the query string: the one it asks for,
/// or else the default.
pub fn parse_bg_color(query: &str) -> (color: Color)
    ensures
        color == match background_in(query.spec_bytes()) {
            Some(asked) => asked,
            None => default_background(),
        },
{
    match background_override(query) {
        Some(color) => color,
        None => Color { r: 92, g: 184, b: 235, a: 255 },
    }
}

/// Whether the query string asks for frames as fast as they come.
pub fn wants_uncapped(query: &str) -> (uncapped: bool)
    ensures
        uncapped == uncapped_in(query.spec_bytes()),
{
    let bytes = query.as_bytes();
    let key = "uncapped=".as_bytes();
    let n: usize = bytes.len();
    match find_option(bytes, key) {
        Some(at) => {
            assert(at + key@.len() <= n);
            let value: usize = at + key.len();
            let end: usize = find_value_end(bytes, value);
            end - value == 1 && bytes[value] == 49
        },
        None => false,
    }
}

} // verus!
