use vstd::prelude::*;

verus! {

/// The byte that stops the dongle once it has been upper-cased.
pub const QUIT_BYTE: u8 = 0x51;

/// ASCII upper-casing of one byte: `a`..=`z` lose bit 5, every other byte stays.
pub open spec fn upper_byte(b: u8) -> u8 {
    if 0x61 <= b && b <= 0x7a {
        (b - 0x20) as u8
    } else {
        b
    }
}

/// A byte that asks the dongle to stop: `Q` or `q`.
pub open spec fn is_quit(b: u8) -> bool {
    upper_byte(b) == QUIT_BYTE
}

/// Every byte of `s` upper-cased, in order.
pub open spec fn upper_all(s: Seq<u8>) -> Seq<u8> {
    s.map_values(|b: u8| upper_byte(b))
}

/// `s` holds no quit byte.
pub open spec fn quit_free(s: Seq<u8>) -> bool {
    forall|i: int| 0 <= i < s.len() ==> !is_quit(#[trigger] s[i])
}

/// `k` is the position of the first quit byte of `s`.
pub open spec fn is_first_quit(s: Seq<u8>, k: int) -> bool {
    0 <= k < s.len() && is_quit(s[k]) && quit_free(s.take(k))
}

/// Position of the first quit byte of `s`, or its length where it has none.
pub open spec fn first_quit(s: Seq<u8>) -> int {
    if exists|k: int| is_first_quit(s, k) {
        choose|k: int| is_first_quit(s, k)
    } else {
        s.len() as int
    }
}

/// What the echo writes back for a chunk: the upper-cased bytes before the first
/// quit byte.
pub open spec fn echo_of(s: Seq<u8>) -> Seq<u8> {
    upper_all(s.take(first_quit(s)))
}

/// Whether a chunk stops the dongle.
pub open spec fn halts(s: Seq<u8>) -> bool {
    first_quit(s) < s.len()
}

/// What one USB chunk yields: the bytes to write back, and whether to stop.
#[derive(Debug, PartialEq, Eq)]
pub struct Echo {
    pub output: Vec<u8>,
    pub halt: bool,
}

/// A position before which no byte quits, and at which one does (or the end),
/// is the first quit position.
pub proof fn lemma_first_quit_unique(s: Seq<u8>, k: int)
    requires
        0 <= k <= s.len(),
        quit_free(s.take(k)),
        k < s.len() ==> is_quit(s[k]),
    ensures
        first_quit(s) == k,
{
    if k < s.len() {
        assert(is_first_quit(s, k));
        let c = choose|c: int| is_first_quit(s, c);
        assert(is_first_quit(s, c));
        if c < k {
            assert(s.take(k)[c] == s[c]);
        } else if k < c {
            assert(s.take(c)[k] == s[k]);
        }
    } else {
        assert(s.take(k) =~= s);
        if exists|c: int| is_first_quit(s, c) {
            let c = choose|c: int| is_first_quit(s, c);
            assert(s.take(k)[c] == s[c]);
        }
    }
}

/// Upper-cases one byte with the bit mask of ASCII.
pub fn upper(b: u8) -> (r: u8)
    ensures
        r == upper_byte(b),
{
    if 0x61 <= b && b <= 0x7a {
        let r = b & !0x20u8;
        assert(0x61 <= b && b <= 0x7a ==> b & !0x20u8 == (b - 0x20) as u8) by (bit_vector);
        r
    } else {
        b
    }
}

/// Transforms one chunk read from USB: lowercase ASCII letters become
/// uppercase, other bytes pass through, and the chunk stops at the first `Q`
/// or `q`, which is not echoed and halts the dongle.
pub fn echo_chunk(data: &[u8]) -> (r: Echo)
    ensures
        r.output@ == echo_of(data@),
        r.halt == halts(data@),
        r.output@.len() == first_quit(data@),
        quit_free(data@) ==> r.output@ == upper_all(data@) && !r.halt,
{
    let mut output: Vec<u8> = Vec::new();
    let mut i: usize = 0;
    let mut halt = false;
    while i < data.len() && !halt
        invariant
            0 <= i <= data@.len(),
            quit_free(data@.take(i as int)),
            output@ == upper_all(data@.take(i as int)),
            halt ==> i < data@.len() && is_quit(data@[i as int]),
        decreases data@.len() - i, (if halt { 0int } else { 1int }),
    {
        let u = upper(data[i]);
        if u == QUIT_BYTE {
            halt = true;
        } else {
            output.push(u);
            assert(data@.take(i + 1) =~= data@.take(i as int).push(data@[i as int]));
            assert(upper_all(data@.take(i + 1)) =~= upper_all(data@.take(i as int)).push(u));
            i = i + 1;
        }
    }
    proof {
        lemma_first_quit_unique(data@, i as int);
        if quit_free(data@) {
            if i < data@.len() {
                assert(!is_quit(data@[i as int]));
            }
            assert(data@.take(i as int) =~= data@);
        }
    }
    Echo { output, halt }
}

} // verus!
