//! Canonical text encodings of integer lists, used inside the canonical
//! forms that get hashed.

use vstd::prelude::*;
use crate::numfmt::{dec_of, u64_to_string};

verus! {

use vstd::string::{StringExecFns, StrSliceExecFns};

/// Comma-separated decimal rendering of the elements of `s`.
pub open spec fn dec_items_u32(s: Seq<u32>) -> Seq<char>
    decreases s.len(),
{
    if s.len() == 0 {
        Seq::empty()
    } else if s.len() == 1 {
        dec_of(s[0] as nat)
    } else {
        dec_items_u32(s.drop_last()) + ","@ + dec_of(s.last() as nat)
    }
}

/// `[a,b,c]` rendering of a `u32` list.
pub open spec fn dec_list_u32(s: Seq<u32>) -> Seq<char> {
    "["@ + dec_items_u32(s) + "]"@
}

/// Comma-separated decimal rendering of the elements of `s`.
pub open spec fn dec_items_u8(s: Seq<u8>) -> Seq<char>
    decreases s.len(),
{
    if s.len() == 0 {
        Seq::empty()
    } else if s.len() == 1 {
        dec_of(s[0] as nat)
    } else {
        dec_items_u8(s.drop_last()) + ","@ + dec_of(s.last() as nat)
    }
}

/// `[a,b,c]` rendering of a `u8` list.
pub open spec fn dec_list_u8(s: Seq<u8>) -> Seq<char> {
    "["@ + dec_items_u8(s) + "]"@
}

/// Renders a `u32` list canonically.
pub fn u32_list_string(v: &Vec<u32>) -> (r: String)
    ensures
        r@ == dec_list_u32(v@),
{
    let mut s = "[".to_owned();
    let n = v.len();
    let mut i: usize = 0;
    while i < n
        invariant
            i <= n,
            n == v@.len(),
            s@ == "["@ + dec_items_u32(v@.take(i as int)),
        decreases n - i,
    {
        if i > 0 {
            s.append(",");
        }
        let d = u64_to_string(v[i] as u64);
        s.append(d.as_str());
        proof {
            let pre = v@.take(i as int);
            let post = v@.take(i + 1);
            assert(post.drop_last() =~= pre);
            assert(post.last() == v@[i as int]);
            if i == 0 {
                assert(post.len() == 1);
                assert(post[0] == v@[0]);
                assert(s@ =~= "["@ + dec_items_u32(post));
            } else {
                assert(s@ =~= "["@ + dec_items_u32(post));
            }
        }
        i = i + 1;
    }
    s.append("]");
    proof {
        assert(v@.take(n as int) =~= v@);
        assert(s@ =~= dec_list_u32(v@));
    }
    s
}

/// Renders a `u8` list canonically.
pub fn u8_list_string(v: &Vec<u8>) -> (r: String)
    ensures
        r@ == dec_list_u8(v@),
{
    let mut s = "[".to_owned();
    let n = v.len();
    let mut i: usize = 0;
    while i < n
        invariant
            i <= n,
            n == v@.len(),
            s@ == "["@ + dec_items_u8(v@.take(i as int)),
        decreases n - i,
    {
        if i > 0 {
            s.append(",");
        }
        let d = u64_to_string(v[i] as u64);
        s.append(d.as_str());
        proof {
            let pre = v@.take(i as int);
            let post = v@.take(i + 1);
            assert(post.drop_last() =~= pre);
            assert(post.last() == v@[i as int]);
            if i == 0 {
                assert(post.len() == 1);
                assert(post[0] == v@[0]);
                assert(s@ =~= "["@ + dec_items_u8(post));
            } else {
                assert(s@ =~= "["@ + dec_items_u8(post));
            }
        }
        i = i + 1;
    }
    s.append("]");
    proof {
        assert(v@.take(n as int) =~= v@);
        assert(s@ =~= dec_list_u8(v@));
    }
    s
}

} // verus!
