//! Normalization of the bearer token used for the remote calls.
//!
//! The credential provider may hand back the token already prefixed with the
//! HTTP `Bearer ` scheme marker; the remote client wants the bare token.  Any
//! number of leading `Bearer ` markers is stripped, mirroring how repeated
//! prefix trimming behaves.

use vstd::prelude::*;

verus! {

/// The bytes of the `Bearer ` scheme marker, in ASCII.
pub open spec fn bearer_prefix() -> Seq<u8> {
    seq![66u8, 101u8, 97u8, 114u8, 101u8, 114u8, 32u8]
}

/// The token with every leading `Bearer ` marker removed.
pub open spec fn spec_strip_bearer(s: Seq<u8>) -> Seq<u8>
    decreases s.len(),
{
    if s.len() >= 7 && s.subrange(0, 7) == bearer_prefix() {
        spec_strip_bearer(s.subrange(7, s.len() as int))
    } else {
        s
    }
}

/// Whether the seven bytes at `start` spell `Bearer `.
fn prefix_eq(token: &Vec<u8>, start: usize) -> (b: bool)
    requires
        start <= token@.len(),
        token@.len() - start >= 7,
    ensures
        b <==> token@.subrange(start as int, start as int + 7) == bearer_prefix(),
{
    let tlen: usize = token.len();
    proof {
        assert(start + 7 <= tlen);
    }
    let b = token[start] == 66 && token[start + 1] == 101 && token[start + 2] == 97
        && token[start + 3] == 114 && token[start + 4] == 101 && token[start + 5] == 114
        && token[start + 6] == 32;
    proof {
        let s = start as int;
        let sub = token@.subrange(s, s + 7);
        assert(sub.len() == 7);
        assert(sub[0] == token@[s]);
        assert(sub[1] == token@[s + 1]);
        assert(sub[2] == token@[s + 2]);
        assert(sub[3] == token@[s + 3]);
        assert(sub[4] == token@[s + 4]);
        assert(sub[5] == token@[s + 5]);
        assert(sub[6] == token@[s + 6]);
        assert(bearer_prefix()[0] == 66u8);
        assert(bearer_prefix()[1] == 101u8);
        assert(bearer_prefix()[2] == 97u8);
        assert(bearer_prefix()[3] == 114u8);
        assert(bearer_prefix()[4] == 101u8);
        assert(bearer_prefix()[5] == 114u8);
        assert(bearer_prefix()[6] == 32u8);
        if b {
            assert(sub =~= bearer_prefix());
        }
    }
    b
}

/// Strips every leading `Bearer ` marker from the token bytes.
pub fn strip_bearer_prefix(token: &Vec<u8>) -> (r: Vec<u8>)
    ensures
        r@ == spec_strip_bearer(token@),
{
    let mut start: usize = 0;
    proof {
        assert(token@.subrange(0, token@.len() as int) =~= token@);
    }
    while token.len() - start >= 7 && prefix_eq(token, start)
        invariant
            start <= token@.len(),
            spec_strip_bearer(token@) == spec_strip_bearer(
                token@.subrange(start as int, token@.len() as int),
            ),
        decreases token@.len() - start,
    {
        proof {
            let s = start as int;
            let len = token@.len() as int;
            let tail = token@.subrange(s, len);
            assert(tail.subrange(0, 7) =~= token@.subrange(s, s + 7));
            assert(tail.subrange(7, tail.len() as int) =~= token@.subrange(s + 7, len));
        }
        start = start + 7;
    }
    proof {
        let s = start as int;
        let len = token@.len() as int;
        let tail = token@.subrange(s, len);
        if tail.len() >= 7 {
            assert(tail.subrange(0, 7) =~= token@.subrange(s, s + 7));
        }
        assert(spec_strip_bearer(tail) == tail);
    }
    let mut r: Vec<u8> = Vec::new();
    let mut i: usize = start;
    while i < token.len()
        invariant
            start <= i <= token@.len(),
            r@ == token@.subrange(start as int, i as int),
        decreases token@.len() - i,
    {
        r.push(token[i]);
        proof {
            assert(r@ =~= token@.subrange(start as int, i as int + 1));
        }
        i = i + 1;
    }
    proof {
        assert(r@ =~= token@.subrange(start as int, token@.len() as int));
    }
    r
}

} // verus!
