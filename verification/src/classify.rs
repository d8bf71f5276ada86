//! The binary-content classifier: a statistical heuristic over a leading
//! byte sample that decides whether content is opaque binary or text.

use vstd::prelude::*;

verus! {

/// Control bytes are values below 32, excluding tab, newline and
/// carriage return.
pub open spec fn is_control_byte(b: u8) -> bool {
    b < 32 && b != 9 && b != 10 && b != 13
}

/// Number of NUL bytes in `s` at positions `i` and beyond.
pub open spec fn count_nul_from(s: Seq<u8>, i: int) -> int
    decreases s.len() - i,
        when 0 <= i <= s.len()
{
    if i >= s.len() {
        0
    } else {
        (if s[i] == 0 {
            1int
        } else {
            0int
        }) + count_nul_from(s, i + 1)
    }
}

/// Number of control bytes in `s` at positions `i` and beyond.
pub open spec fn count_control_from(s: Seq<u8>, i: int) -> int
    decreases s.len() - i,
        when 0 <= i <= s.len()
{
    if i >= s.len() {
        0
    } else {
        (if is_control_byte(s[i]) {
            1int
        } else {
            0int
        }) + count_control_from(s, i + 1)
    }
}

/// A sample is binary when more than 3 in 10 of its bytes are NUL, or
/// more than 3 in 10 are control bytes; an empty sample is not binary.
pub open spec fn is_binary_spec(sample: Seq<u8>) -> bool {
    sample.len() > 0 && (10 * count_nul_from(sample, 0) > 3 * sample.len() || 10
        * count_control_from(sample, 0) > 3 * sample.len())
}

/// The classifier's sample: the first 1024 bytes, or all of them when
/// there are fewer.
pub open spec fn sample_of(b: Seq<u8>) -> Seq<u8> {
    if b.len() <= 1024 {
        b
    } else {
        b.subrange(0, 1024)
    }
}

/// Copies the leading sample of a file's bytes.
pub fn take_sample(b: &Vec<u8>) -> (r: Vec<u8>)
    ensures
        r@ == sample_of(b@),
{
    let n: usize = if b.len() <= 1024 {
        b.len()
    } else {
        1024
    };
    let mut r: Vec<u8> = Vec::new();
    let mut i: usize = 0;
    while i < n
        invariant
            i <= n <= b.len(),
            r@ == b@.subrange(0, i as int),
        decreases n - i,
    {
        r.push(b[i]);
        proof {
            assert(b@.subrange(0, i + 1 as int) =~= b@.subrange(0, i as int).push(b@[i as int]));
        }
        i += 1;
    }
    proof {
        assert(b@.subrange(0, b@.len() as int) =~= b@);
    }
    r
}

fn count_nul(v: &Vec<u8>) -> (r: usize)
    ensures
        r == count_nul_from(v@, 0),
        r <= v.len(),
{
    let mut i: usize = v.len();
    let mut acc: usize = 0;
    while i > 0
        invariant
            i <= v.len(),
            acc == count_nul_from(v@, i as int),
            acc <= v.len() - i,
        decreases i,
    {
        i -= 1;
        if v[i] == 0 {
            acc += 1;
        }
    }
    acc
}

fn count_control(v: &Vec<u8>) -> (r: usize)
    ensures
        r == count_control_from(v@, 0),
        r <= v.len(),
{
    let mut i: usize = v.len();
    let mut acc: usize = 0;
    while i > 0
        invariant
            i <= v.len(),
            acc == count_control_from(v@, i as int),
            acc <= v.len() - i,
        decreases i,
    {
        i -= 1;
        let b = v[i];
        if b < 32 && b != 9 && b != 10 && b != 13 {
            acc += 1;
        }
    }
    acc
}

/// Classifies a leading byte sample as binary or text.
///
/// The fractions of NUL bytes and of control bytes among the sampled
/// bytes are compared against the threshold 3/10; exceeding either marks
/// the sample binary. An empty sample is vacuously text.
pub fn is_binary_file(sample: &Vec<u8>) -> (r: bool)
    ensures
        r == is_binary_spec(sample@),
        sample@.len() == 0 ==> r == false,
{
    if sample.len() == 0 {
        return false;
    }
    let nuls = count_nul(sample);
    let ctrls = count_control(sample);
    let n: u128 = sample.len() as u128;
    (nuls as u128) * 10 > n * 3 || (ctrls as u128) * 10 > n * 3
}

} // verus!
