//! Stable widget ids.
//!
//! An [`Id`] is a 64-bit FNV-1a digest of the text it was made from.
//! Ids are pure values: the same text always yields the same id, in
//! every process, so hosts can rebuild a key from the outside.

use vstd::prelude::*;
use vstd::string::StrSliceExecFns;

verus! {

/// FNV-1a 64-bit offset basis.
pub const FNV_OFFSET: u64 = 0xcbf2_9ce4_8422_2325u64;

/// FNV-1a 64-bit prime.
pub const FNV_PRIME: u64 = 0x0000_0100_0000_01b3u64;

/// Separator folded in between the parts of a compound id, so that
/// `("ab", "c")` and `("a", "bc")` hash differently.
pub const PART_SEPARATOR: u64 = 0x1fu64;

/// One FNV-1a step: xor the unit in, multiply by the prime (mod 2^64).
pub open spec fn fnv_step(h: u64, unit: u64) -> u64 {
    (h ^ unit).wrapping_mul(FNV_PRIME)
}

/// FNV-1a over the code points of `s`, starting from `h`.
pub open spec fn fnv_chars(h: u64, s: Seq<char>) -> u64
    decreases s.len(),
{
    if s.len() == 0 {
        h
    } else {
        fnv_step(fnv_chars(h, s.drop_last()), s.last() as u64)
    }
}

/// The id made from the text `s`.
pub open spec fn id_of(s: Seq<char>) -> Id {
    Id { value: fnv_chars(FNV_OFFSET, s) }
}

/// The id `parent` salted with the text `s`.
pub open spec fn id_with(parent: Id, s: Seq<char>) -> Id {
    Id { value: fnv_chars(fnv_step(parent.value, PART_SEPARATOR), s) }
}

/// The id `parent` salted with the number `n`.
pub open spec fn id_with_u64(parent: Id, n: u64) -> Id {
    Id { value: fnv_step(fnv_step(parent.value, PART_SEPARATOR), n) }
}

/// A stable widget / state-store id.
#[derive(Clone, Copy, Debug, PartialEq, Eq, Hash, Structural)]
pub struct Id {
    pub value: u64,
}

fn fnv_fold(h: u64, s: &str) -> (r: u64)
    ensures
        r == fnv_chars(h, s@),
{
    let n = s.unicode_len();
    let mut acc: u64 = h;
    let mut i: usize = 0;
    while i < n
        invariant
            n == s@.len(),
            i <= n,
            acc == fnv_chars(h, s@.take(i as int)),
        decreases n - i,
    {
        let c = s.get_char(i);
        let unit: u64 = c as u32 as u64;
        proof {
            assert(s@.take(i + 1).drop_last() =~= s@.take(i as int));
        }
        acc = (acc ^ unit).wrapping_mul(FNV_PRIME);
        i = i + 1;
    }
    proof {
        assert(s@.take(n as int) =~= s@);
    }
    acc
}

impl Id {
    /// The id made from `name`.
    pub fn new(name: &str) -> (id: Id)
        ensures
            id == id_of(name@),
    {
        Id { value: fnv_fold(FNV_OFFSET, name) }
    }

    /// The id made from the two-part key `(first, second)`.
    pub fn pair(first: &str, second: &str) -> (id: Id)
        ensures
            id == id_with(id_of(first@), second@),
    {
        Id::new(first).with(second)
    }

    /// This id salted with the text `salt`.
    pub fn with(self, salt: &str) -> (id: Id)
        ensures
            id == id_with(self, salt@),
    {
        let start = (self.value ^ PART_SEPARATOR).wrapping_mul(FNV_PRIME);
        Id { value: fnv_fold(start, salt) }
    }

    /// This id salted with the number `n`.
    pub fn with_u64(self, n: u64) -> (id: Id)
        ensures
            id == id_with_u64(self, n),
    {
        let start = (self.value ^ PART_SEPARATOR).wrapping_mul(FNV_PRIME);
        Id { value: (start ^ n).wrapping_mul(FNV_PRIME) }
    }

    /// This id salted with another id.
    pub fn with_id(self, other: Id) -> (id: Id)
        ensures
            id == id_with_u64(self, other.value),
    {
        self.with_u64(other.value)
    }
}


impl<'a> From<&'a str> for Id {
    /// The id made from the text, as [`Id::new`] makes it.
    fn from(name: &'a str) -> (id: Id) {
        Id::new(name)
    }
}

impl<'a> vstd::std_specs::convert::FromSpecImpl<&'a str> for Id {
    open spec fn obeys_from_spec() -> bool {
        true
    }

    open spec fn from_spec(name: &'a str) -> Id {
        id_of(name@)
    }
}


/// An FNV-1a step can be undone: the prime is odd, so multiplying by it
/// is a bijection on 64-bit words.
proof fn lemma_fnv_step_cancels(h1: u64, u1: u64, h2: u64, u2: u64)
    requires
        fnv_step(h1, u1) == fnv_step(h2, u2),
    ensures
        h1 ^ u1 == h2 ^ u2,
{
    let a = h1 ^ u1;
    let b = h2 ^ u2;
    assert(a.wrapping_mul(0x100000001b3u64).wrapping_mul(0xce965057aff6957bu64) == a) by (bit_vector);
    assert(b.wrapping_mul(0x100000001b3u64).wrapping_mul(0xce965057aff6957bu64) == b) by (bit_vector);
}

/// One id salted with two different numbers gives two different ids.
pub proof fn law_number_salts_keep_ids_apart(parent: Id, a: u64, b: u64)
    requires
        a != b,
    ensures
        id_with_u64(parent, a) != id_with_u64(parent, b),
{
    let h = fnv_step(parent.value, PART_SEPARATOR);
    if fnv_step(h, a) == fnv_step(h, b) {
        lemma_fnv_step_cancels(h, a, h, b);
        assert(h ^ a == h ^ b ==> a == b) by (bit_vector);
    }
}

/// Two different ids salted with the same number stay different.
pub proof fn law_salting_keeps_parents_apart(p: Id, q: Id, n: u64)
    requires
        p != q,
    ensures
        id_with_u64(p, n) != id_with_u64(q, n),
{
    let hp = fnv_step(p.value, PART_SEPARATOR);
    let hq = fnv_step(q.value, PART_SEPARATOR);
    if fnv_step(hp, n) == fnv_step(hq, n) {
        lemma_fnv_step_cancels(hp, n, hq, n);
        assert(hp ^ n == hq ^ n ==> hp == hq) by (bit_vector);
        lemma_fnv_step_cancels(p.value, PART_SEPARATOR, q.value, PART_SEPARATOR);
        let pv = p.value;
        let qv = q.value;
        assert(pv ^ 0x1fu64 == qv ^ 0x1fu64 ==> pv == qv) by (bit_vector);
    }
}

/// FNV-1a folds a character in after the ones before it.
pub proof fn lemma_fnv_push(h: u64, s: Seq<char>, c: char)
    ensures
        fnv_chars(h, s.push(c)) == fnv_step(fnv_chars(h, s), c as u64),
{
    assert(s.push(c).drop_last() =~= s);
}

} // verus!
