//! Names of rooms. A room of an area is stored as `area_x_y`, a room
//! within its area as `x_y`, and its map file as `dir/area_x_y.tmj`.

use vstd::prelude::*;
use crate::strings::{
    before, before_char, decimal, lacks, lemma_decimal_lacks, lemma_first_index_of,
    lemma_lacks_no_index, lemma_parse_decimal, lemma_split_after, parse_i32, push_i32,
    spec_parse_i32, split_once, split_once_char,
};

verus! {

/// `area_x_y`, as `format!("{}_{}_{}", area, x, y)` writes it.
pub open spec fn spec_room_name(area: Seq<char>, x: int, y: int) -> Seq<char> {
    area + seq!['_'] + decimal(x) + seq!['_'] + decimal(y)
}

/// `x_y`, as `format!("{}_{}", x, y)` writes it.
pub open spec fn spec_room_key(x: int, y: int) -> Seq<char> {
    decimal(x) + seq!['_'] + decimal(y)
}

/// The coordinates in a room key `x_y`: the text is split at its first
/// `_` and both parts are read as `i32`.
pub open spec fn spec_parse_room_key(key: Seq<char>) -> Option<(i32, i32)> {
    match split_once(key, '_') {
        Some((a, b)) => match (spec_parse_i32(a), spec_parse_i32(b)) {
            (Some(x), Some(y)) => Some((x, y)),
            _ => None,
        },
        None => None,
    }
}

/// The coordinates in the name of a map file: the second and third
/// `_`-separated parts, the third cut at its first `.`.
pub open spec fn spec_map_file_coords(name: Seq<char>) -> Option<(i32, i32)> {
    match split_once(name, '_') {
        Some((_, rest)) => match split_once(rest, '_') {
            Some((first, tail)) => match (
                spec_parse_i32(first),
                spec_parse_i32(before(before(tail, '_'), '.')),
            ) {
                (Some(x), Some(y)) => Some((x, y)),
                _ => None,
            },
            None => None,
        },
        None => None,
    }
}

/// The name under which a room is stored: `area_x_y`.
pub fn room_name(area: &str, x: i32, y: i32) -> (r: String)
    ensures
        r@ == spec_room_name(area@, x as int, y as int),
{
    let mut s = String::from_str(area);
    s.append("_");
    push_i32(&mut s, x);
    s.append("_");
    push_i32(&mut s, y);
    proof {
        reveal_strlit("_");
    }
    assert(s@ =~= spec_room_name(area@, x as int, y as int));
    s
}

/// The name of a room within its area: `x_y`.
pub fn room_key(x: i32, y: i32) -> (r: String)
    ensures
        r@ == spec_room_key(x as int, y as int),
{
    let mut s = String::new();
    push_i32(&mut s, x);
    s.append("_");
    push_i32(&mut s, y);
    proof {
        reveal_strlit("_");
    }
    assert(s@ =~= spec_room_key(x as int, y as int));
    s
}

/// Reads `x_y` back into its coordinates.
pub fn parse_room_key(key: &str) -> (r: Option<(i32, i32)>)
    ensures
        r == spec_parse_room_key(key@),
{
    match split_once_char(key, '_') {
        Some((a, b)) => match (parse_i32(a), parse_i32(b)) {
            (Some(x), Some(y)) => Some((x, y)),
            _ => None,
        },
        None => None,
    }
}

/// Reads the room coordinates out of a map file's name.
pub fn map_file_coords(name: &str) -> (r: Option<(i32, i32)>)
    ensures
        r == spec_map_file_coords(name@),
{
    match split_once_char(name, '_') {
        Some((_, rest)) => match split_once_char(rest, '_') {
            Some((first, tail)) => {
                let third = before_char(tail, '_');
                let y_text = before_char(third, '.');
                match (parse_i32(first), parse_i32(y_text)) {
                    (Some(x), Some(y)) => Some((x, y)),
                    _ => None,
                }
            },
            None => None,
        },
        None => None,
    }
}

/// A room name splits at its first `_` into the area and the room key,
/// and the room key reads back as the room's coordinates, whenever the
/// area's name has no `_` in it.
pub proof fn lemma_room_name_round_trip(area: Seq<char>, x: i32, y: i32)
    requires
        lacks(area, '_'),
    ensures
        split_once(spec_room_name(area, x as int, y as int), '_') == Some(
            (area, spec_room_key(x as int, y as int)),
        ),
        spec_parse_room_key(spec_room_key(x as int, y as int)) == Some((x, y)),
{
    lemma_decimal_lacks(x as int);
    lemma_parse_decimal(x);
    lemma_parse_decimal(y);
    let key = spec_room_key(x as int, y as int);
    assert(spec_room_name(area, x as int, y as int) =~= area + seq!['_'] + key);
    lemma_split_after(area, '_', key);
    lemma_split_after(decimal(x as int), '_', decimal(y as int));
}

/// The map file of room `(x, y)`, `dir` + `area_x_y` + `ext`, names the
/// room's coordinates, whenever neither `dir` nor the area's name has a
/// `_` in it and the extension starts with `.` and has no `_`.
pub proof fn lemma_map_file_round_trip(
    dir: Seq<char>,
    area: Seq<char>,
    x: i32,
    y: i32,
    ext: Seq<char>,
)
    requires
        lacks(dir + area, '_'),
        lacks(ext, '_'),
        ext.len() > 0,
        ext[0] == '.',
    ensures
        spec_map_file_coords(dir + spec_room_name(area, x as int, y as int) + ext) == Some((x, y)),
{
    lemma_decimal_lacks(x as int);
    lemma_decimal_lacks(y as int);
    lemma_parse_decimal(x);
    lemma_parse_decimal(y);
    let dx = decimal(x as int);
    let dy = decimal(y as int);
    let name = dir + spec_room_name(area, x as int, y as int) + ext;
    let rest = dx + seq!['_'] + (dy + ext);
    assert(name =~= (dir + area) + seq!['_'] + rest);
    lemma_split_after(dir + area, '_', rest);
    lemma_split_after(dx, '_', dy + ext);
    let tail = dy + ext;
    assert(lacks(tail, '_'));
    lemma_lacks_no_index(tail, '_');
    assert(before(tail, '_') == tail);
    lemma_first_index_of(tail, '.', dy.len() as int);
    assert(tail.take(dy.len() as int) =~= dy);
}

} // verus!
