use vstd::prelude::*;

verus! {

/// Upper-case letters the generator draws from (A–Z without J, O and X).
pub open spec fn is_upper_char(b: u8) -> bool {
    65 <= b <= 90 && b != 74 && b != 79 && b != 88
}

/// Lower-case letters the generator draws from (a–z without j, l and x).
pub open spec fn is_lower_char(b: u8) -> bool {
    97 <= b <= 122 && b != 106 && b != 108 && b != 120
}

/// Digits the generator draws from (1–9).
pub open spec fn is_digit_char(b: u8) -> bool {
    49 <= b <= 57
}

/// Symbols the generator draws from (! @ # $ % ^ & *).
pub open spec fn is_symbol_char(b: u8) -> bool {
    b == 33 || b == 64 || b == 35 || b == 36 || b == 37 || b == 94 || b == 38 || b == 42
}

/// Some byte of `s` satisfies `p`.
pub open spec fn contains_class(s: Seq<u8>, p: spec_fn(u8) -> bool) -> bool {
    exists|i: int| 0 <= i < s.len() && p(s[i])
}

/// Number of character classes left enabled by the four opt-out flags.
pub open spec fn spec_enabled_count(
    noupper: bool,
    nolower: bool,
    nonumber: bool,
    nosymbol: bool,
) -> int {
    (if !noupper { 1int } else { 0int }) + (if !nolower { 1int } else { 0int }) + (if !nonumber {
        1int
    } else {
        0int
    }) + (if !nosymbol { 1int } else { 0int })
}

/// Whether `b` belongs to one of the classes left enabled.
pub open spec fn in_enabled_classes(
    b: u8,
    noupper: bool,
    nolower: bool,
    nonumber: bool,
    nosymbol: bool,
) -> bool {
    ||| (!noupper && is_upper_char(b))
    ||| (!nolower && is_lower_char(b))
    ||| (!nonumber && is_digit_char(b))
    ||| (!nosymbol && is_symbol_char(b))
}

/// Relies on rand's `Rng::gen_range` over the operating system's secure
/// random source: an index below `n`. Nothing is assumed of its value
/// beyond the bound.
#[verifier::external_body]
fn rand_below(n: usize) -> (r: usize)
    requires
        n >= 1,
    ensures
        r < n,
{
    rand::Rng::gen_range(&mut rand::rngs::OsRng, 0..n)
}

// The pools cover "ABCDEFGHIKLMNPQRSTUVWSYZ", "abcdefghikmnopqrstuvwsyz",
// "123456789" and "!@#$%^&*": the letter pools leave out a few letters, the
// digit pool leaves out zero.
fn upper_pool() -> (r: Vec<u8>)
    ensures
        r@.len() >= 1,
        forall|i: int| 0 <= i < r@.len() ==> is_upper_char(r@[i]),
{
    let mut v: Vec<u8> = Vec::new();
    let mut b: u8 = 65;
    while b <= 90
        invariant
            65 <= b <= 91,
            b > 65 ==> v@.len() >= 1,
            forall|i: int| 0 <= i < v@.len() ==> is_upper_char(v@[i]),
        decreases 91 - b,
    {
        if b != 74 && b != 79 && b != 88 {
            v.push(b);
        }
        b = b + 1;
    }
    v
}

fn lower_pool() -> (r: Vec<u8>)
    ensures
        r@.len() >= 1,
        forall|i: int| 0 <= i < r@.len() ==> is_lower_char(r@[i]),
{
    let mut v: Vec<u8> = Vec::new();
    let mut b: u8 = 97;
    while b <= 122
        invariant
            97 <= b <= 123,
            b > 97 ==> v@.len() >= 1,
            forall|i: int| 0 <= i < v@.len() ==> is_lower_char(v@[i]),
        decreases 123 - b,
    {
        if b != 106 && b != 108 && b != 120 {
            v.push(b);
        }
        b = b + 1;
    }
    v
}

fn number_pool() -> (r: Vec<u8>)
    ensures
        r@.len() >= 1,
        forall|i: int| 0 <= i < r@.len() ==> is_digit_char(r@[i]),
{
    let mut v: Vec<u8> = Vec::new();
    let mut b: u8 = 49;
    while b <= 57
        invariant
            49 <= b <= 58,
            b > 49 ==> v@.len() >= 1,
            forall|i: int| 0 <= i < v@.len() ==> is_digit_char(v@[i]),
        decreases 58 - b,
    {
        v.push(b);
        b = b + 1;
    }
    v
}

fn symbol_pool() -> (r: Vec<u8>)
    ensures
        r@.len() >= 1,
        forall|i: int| 0 <= i < r@.len() ==> is_symbol_char(r@[i]),
{
    let mut v: Vec<u8> = Vec::new();
    v.push(33);
    v.push(64);
    v.push(35);
    v.push(36);
    v.push(37);
    v.push(94);
    v.push(38);
    v.push(42);
    v
}

/// Appending a byte keeps every class already present, and contributes its
/// own class.
proof fn lemma_push_contains(s: Seq<u8>, c: u8, p: spec_fn(u8) -> bool)
    ensures
        contains_class(s, p) ==> contains_class(s.push(c), p),
        p(c) ==> contains_class(s.push(c), p),
{
    if contains_class(s, p) {
        let i = choose|i: int| 0 <= i < s.len() && p(s[i]);
        assert(s.push(c)[i] == s[i]);
    }
    if p(c) {
        assert(s.push(c)[s.len() as int] == c);
    }
}

/// Swapping two positions of a sequence keeps every class present in it.
proof fn lemma_swap_contains(s1: Seq<u8>, s2: Seq<u8>, i: int, j: int, p: spec_fn(u8) -> bool)
    requires
        0 <= i < s1.len(),
        0 <= j < s1.len(),
        s2 == s1.update(i, s1[j]).update(j, s1[i]),
        contains_class(s1, p),
    ensures
        contains_class(s2, p),
{
    let k = choose|k: int| 0 <= k < s1.len() && p(s1[k]);
    if k == i {
        assert(s2[j] == s1[i]);
    } else if k == j {
        assert(s2[i] == s1[j]);
    } else {
        assert(s2[k] == s1[k]);
    }
}

/// Generate a random password of exactly `length` bytes. Every byte comes
/// from a class left enabled, and every class left enabled contributes at
/// least one byte; the bytes are then shuffled so the guaranteed class
/// representatives sit at random positions.
///
/// `length` must leave room for one byte from each enabled class; with
/// every class disabled only the empty password can be asked for.
pub fn genpass_process(
    length: u8,
    noupper: bool,
    nolower: bool,
    nonumber: bool,
    nosymbol: bool,
) -> (r: Vec<u8>)
    requires
        spec_enabled_count(noupper, nolower, nonumber, nosymbol) == 0 ==> length == 0,
        length as int >= spec_enabled_count(noupper, nolower, nonumber, nosymbol),
    ensures
        r@.len() == length as int,
        forall|i: int|
            0 <= i < r@.len() ==> in_enabled_classes(r@[i], noupper, nolower, nonumber, nosymbol),
        !noupper ==> contains_class(r@, |b: u8| is_upper_char(b)),
        !nolower ==> contains_class(r@, |b: u8| is_lower_char(b)),
        !nonumber ==> contains_class(r@, |b: u8| is_digit_char(b)),
        !nosymbol ==> contains_class(r@, |b: u8| is_symbol_char(b)),
{
    let mut res: Vec<u8> = Vec::new();
    let mut shadow: Vec<u8> = Vec::new();
    if !nolower {
        let mut pool = lower_pool();
        let c = pool[rand_below(pool.len())];
        let ghost before = res@;
        res.push(c);
        proof {
            lemma_push_contains(before, c, |b: u8| is_lower_char(b));
        }
        shadow.append(&mut pool);
    }
    if !noupper {
        let mut pool = upper_pool();
        let c = pool[rand_below(pool.len())];
        let ghost before = res@;
        res.push(c);
        proof {
            lemma_push_contains(before, c, |b: u8| is_upper_char(b));
            lemma_push_contains(before, c, |b: u8| is_lower_char(b));
        }
        shadow.append(&mut pool);
    }
    if !nonumber {
        let mut pool = number_pool();
        let c = pool[rand_below(pool.len())];
        let ghost before = res@;
        res.push(c);
        proof {
            lemma_push_contains(before, c, |b: u8| is_digit_char(b));
            lemma_push_contains(before, c, |b: u8| is_lower_char(b));
            lemma_push_contains(before, c, |b: u8| is_upper_char(b));
        }
        shadow.append(&mut pool);
    }
    if !nosymbol {
        let mut pool = symbol_pool();
        let c = pool[rand_below(pool.len())];
        let ghost before = res@;
        res.push(c);
        proof {
            lemma_push_contains(before, c, |b: u8| is_symbol_char(b));
            lemma_push_contains(before, c, |b: u8| is_lower_char(b));
            lemma_push_contains(before, c, |b: u8| is_upper_char(b));
            lemma_push_contains(before, c, |b: u8| is_digit_char(b));
        }
        shadow.append(&mut pool);
    }
    while res.len() < length as usize
        invariant
            res@.len() <= length as int,
            res@.len() < length as int ==> shadow@.len() >= 1,
            forall|i: int|
                0 <= i < shadow@.len() ==> in_enabled_classes(
                    shadow@[i],
                    noupper,
                    nolower,
                    nonumber,
                    nosymbol,
                ),
            forall|i: int|
                0 <= i < res@.len() ==> in_enabled_classes(
                    res@[i],
                    noupper,
                    nolower,
                    nonumber,
                    nosymbol,
                ),
            !noupper ==> contains_class(res@, |b: u8| is_upper_char(b)),
            !nolower ==> contains_class(res@, |b: u8| is_lower_char(b)),
            !nonumber ==> contains_class(res@, |b: u8| is_digit_char(b)),
            !nosymbol ==> contains_class(res@, |b: u8| is_symbol_char(b)),
        decreases length as int - res@.len(),
    {
        let c = shadow[rand_below(shadow.len())];
        let ghost before = res@;
        res.push(c);
        proof {
            lemma_push_contains(before, c, |b: u8| is_lower_char(b));
            lemma_push_contains(before, c, |b: u8| is_upper_char(b));
            lemma_push_contains(before, c, |b: u8| is_digit_char(b));
            lemma_push_contains(before, c, |b: u8| is_symbol_char(b));
        }
    }
    let n = res.len();
    let mut i: usize = n;
    while i > 1
        invariant
            i <= n,
            res@.len() == n,
            forall|k: int|
                0 <= k < res@.len() ==> in_enabled_classes(
                    res@[k],
                    noupper,
                    nolower,
                    nonumber,
                    nosymbol,
                ),
            !noupper ==> contains_class(res@, |b: u8| is_upper_char(b)),
            !nolower ==> contains_class(res@, |b: u8| is_lower_char(b)),
            !nonumber ==> contains_class(res@, |b: u8| is_digit_char(b)),
            !nosymbol ==> contains_class(res@, |b: u8| is_symbol_char(b)),
        decreases i,
    {
        let ghost before = res@;
        let j = rand_below(i);
        let a = res[i - 1];
        let b = res[j];
        res.set(i - 1, b);
        res.set(j, a);
        proof {
            assert(res@ == before.update(i - 1, before[j as int]).update(j as int, before[i - 1]));
            if !noupper {
                lemma_swap_contains(before, res@, i - 1, j as int, |b: u8| is_upper_char(b));
            }
            if !nolower {
                lemma_swap_contains(before, res@, i - 1, j as int, |b: u8| is_lower_char(b));
            }
            if !nonumber {
                lemma_swap_contains(before, res@, i - 1, j as int, |b: u8| is_digit_char(b));
            }
            if !nosymbol {
                lemma_swap_contains(before, res@, i - 1, j as int, |b: u8| is_symbol_char(b));
            }
            assert forall|k: int| 0 <= k < res@.len() implies in_enabled_classes(
                res@[k],
                noupper,
                nolower,
                nonumber,
                nosymbol,
            ) by {
                if k == j {
                    assert(res@[k] == before[i - 1]);
                } else if k == i - 1 {
                    assert(res@[k] == before[j as int]);
                } else {
                    assert(res@[k] == before[k]);
                }
            }
        }
        i = i - 1;
    }
    res
}

/// Destination of freshly generated key material; the surrounding I/O glue
/// writes the bytes to the path it names.
#[derive(Debug)]
pub struct GenKey {
    pub path: String,
}

impl GenKey {
    pub fn new(path: &str) -> (r: Self)
        ensures
            r.path@ == path@,
    {
        GenKey { path: path.to_owned() }
    }
}

/// Produce fresh high-entropy key material: a 32-byte random string drawn
/// with every character class enabled, usable directly as a symmetric key or
/// as a signature seed. The caller writes the bytes to its sink.
pub fn process_gen_key() -> (r: Vec<u8>)
    ensures
        r@.len() == 32,
        forall|i: int| 0 <= i < r@.len() ==> in_enabled_classes(r@[i], false, false, false, false),
        contains_class(r@, |b: u8| is_upper_char(b)),
        contains_class(r@, |b: u8| is_lower_char(b)),
        contains_class(r@, |b: u8| is_digit_char(b)),
        contains_class(r@, |b: u8| is_symbol_char(b)),
{
    genpass_process(32, false, false, false, false)
}

} // verus!
