//! A plain model of the JSON values that travel through the gateway.
//!
//! Requests hand their parameters to the dispatcher as a `JsonValue`, and
//! every locally produced response is a `JsonValue`; the runtime converts
//! between this model and its wire representation at the edge.

use vstd::prelude::*;

verus! {

/// A JSON value. Objects keep their members in order as key/value pairs;
/// numbers beyond `i64` travel as text in this protocol (quantities are
/// hex strings), so a signed 64-bit integer covers the numeric values the
/// gateway itself ever inspects or produces.
#[derive(Debug, PartialEq)]
pub enum JsonValue {
    Null,
    Bool(bool),
    Int(i64),
    Text(String),
    Array(Vec<JsonValue>),
    Object(Vec<(String, JsonValue)>),
}

/// The value under the first member of `pairs` whose key reads `key`.
pub open spec fn obj_lookup(pairs: Seq<(String, JsonValue)>, key: Seq<char>) -> Option<JsonValue>
    decreases pairs.len(),
{
    if pairs.len() == 0 {
        None
    } else if pairs[0].0@ == key {
        Some(pairs[0].1)
    } else {
        obj_lookup(pairs.skip(1), key)
    }
}

/// Looks `key` up among an object's members.
pub fn obj_get<'a>(pairs: &'a Vec<(String, JsonValue)>, key: &String) -> (r: Option<
    &'a JsonValue,
>)
    ensures
        match r {
            Some(v) => obj_lookup(pairs@, key@) == Some(*v),
            None => obj_lookup(pairs@, key@) is None,
        },
{
    let len = pairs.len();
    let mut i: usize = 0;
    proof {
        assert(pairs@.skip(0) =~= pairs@);
    }
    while i < len
        invariant
            0 <= i <= len,
            len == pairs@.len(),
            obj_lookup(pairs@.skip(i as int), key@) == obj_lookup(pairs@, key@),
        decreases len - i,
    {
        if pairs[i].0 == *key {
            proof {
                assert(pairs@.skip(i as int)[0] == pairs@[i as int]);
            }
            return Some(&pairs[i].1);
        }
        proof {
            assert(pairs@.skip(i as int)[0] == pairs@[i as int]);
            assert(pairs@.skip(i as int).skip(1) =~= pairs@.skip(i + 1));
        }
        i = i + 1;
    }
    proof {
        assert(pairs@.skip(len as int).len() == 0);
    }
    None
}

} // verus!
