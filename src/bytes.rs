use vstd::prelude::*;
use vstd::string::StringSliceAdditionalSpecFns;

verus! {

/// True when `b` holds a NUL byte.
pub open spec fn has_nul(b: Seq<u8>) -> bool {
    exists|i: int| 0 <= i < b.len() && b[i] == 0
}

/// The bytes of `b` that come before its first NUL byte (all of `b` when it has none).
pub open spec fn text_before_nul(b: Seq<u8>) -> Seq<u8>
    decreases b.len(),
{
    if b.len() == 0 || b[0] == 0 {
        Seq::empty()
    } else {
        seq![b[0]] + text_before_nul(b.drop_first())
    }
}

/// Tells whether `b` holds a NUL byte.
pub fn contains_nul(b: &[u8]) -> (r: bool)
    ensures
        r == has_nul(b@),
{
    let mut i: usize = 0;
    while i < b.len()
        invariant
            i <= b@.len(),
            forall|j: int| 0 <= j < i ==> b@[j] != 0,
        decreases b@.len() - i,
    {
        if b[i] == 0 {
            return true;
        }
        i = i + 1;
    }
    false
}

/// The bytes of `b` followed by a terminating NUL, as a C string is laid out.
pub fn nul_terminated(b: &[u8]) -> (r: Vec<u8>)
    ensures
        r@ == b@.push(0u8),
{
    let mut r: Vec<u8> = Vec::new();
    let mut i: usize = 0;
    while i < b.len()
        invariant
            i <= b@.len(),
            r@ == b@.subrange(0, i as int),
        decreases b@.len() - i,
    {
        r.push(b[i]);
        i = i + 1;
    }
    r.push(0u8);
    assert(b@.subrange(0, b@.len() as int) == b@);
    r
}

/// `text` laid out as a C string (its UTF-8 bytes and a terminating NUL); `None` when
/// it holds a NUL character, which a C string cannot carry.
pub fn c_string(text: &str) -> (r: Option<Vec<u8>>)
    ensures
        r is None <==> has_nul(text.spec_bytes()),
        r matches Some(b) ==> b@ == text.spec_bytes().push(0u8),
{
    let b = text.as_bytes();
    if contains_nul(b) {
        None
    } else {
        Some(nul_terminated(b))
    }
}

/// A copy of `v`, element for element.
pub fn copied<T: Copy>(v: &Vec<T>) -> (r: Vec<T>)
    ensures
        r@ == v@,
{
    let mut r: Vec<T> = Vec::with_capacity(v.len());
    let mut i: usize = 0;
    while i < v.len()
        invariant
            i <= v@.len(),
            r@ == v@.subrange(0, i as int),
        decreases v@.len() - i,
    {
        r.push(v[i]);
        proof {
            assert(v@.subrange(0, i as int + 1) == v@.subrange(0, i as int).push(v@[i as int]));
        }
        i = i + 1;
    }
    assert(v@.subrange(0, v@.len() as int) == v@);
    r
}

/// The bytes of `b` that come before its first NUL byte.
pub fn prefix_before_nul(b: &Vec<u8>) -> (r: Vec<u8>)
    ensures
        r@ == text_before_nul(b@),
{
    let mut r: Vec<u8> = Vec::new();
    let mut i: usize = 0;
    assert(b@.subrange(0, b@.len() as int) == b@);
    assert(r@ + text_before_nul(b@) == text_before_nul(b@));
    while i < b.len() && b[i] != 0
        invariant
            i <= b@.len(),
            r@ == b@.subrange(0, i as int),
            text_before_nul(b@) == r@ + text_before_nul(b@.subrange(i as int, b@.len() as int)),
        decreases b@.len() - i,
    {
        proof {
            let rest = b@.subrange(i as int, b@.len() as int);
            assert(rest.drop_first() == b@.subrange(i as int + 1, b@.len() as int));
            assert(b@.subrange(0, i as int + 1) == b@.subrange(0, i as int).push(b@[i as int]));
            assert(r@ + text_before_nul(rest) == r@.push(b@[i as int]) + text_before_nul(rest.drop_first()));
        }
        r.push(b[i]);
        i = i + 1;
    }
    proof {
        let rest = b@.subrange(i as int, b@.len() as int);
        assert(text_before_nul(rest) == Seq::<u8>::empty());
        assert(r@ + Seq::<u8>::empty() == r@);
    }
    r
}

} // verus!
