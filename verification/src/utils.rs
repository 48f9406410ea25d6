use vstd::prelude::*;
use vstd::string::StrSliceExecFns;

verus! {

/// A point in simulated time, in nanoseconds since the runtime's epoch.
///
/// The clock itself lives outside the library; every operation that needs
/// the current time takes it as an argument and is verified for every
/// value of it.
#[derive(Clone, Copy, Debug, PartialEq, Eq, Structural)]
pub struct MyTime(pub i64);

/// A rigid pose: an orientation quaternion followed by a position vector.
///
/// The runtime never computes on poses, it only stores and returns them,
/// so each component is carried as the raw bit pattern of the caller's
/// 32-bit float.
#[derive(Clone, Copy, Debug, PartialEq, Eq, Structural)]
pub struct Pose {
    pub orientation_x: u32,
    pub orientation_y: u32,
    pub orientation_z: u32,
    pub orientation_w: u32,
    pub position_x: u32,
    pub position_y: u32,
    pub position_z: u32,
}

/// Bit pattern of the 32-bit float 1.0, the identity quaternion's w component.
pub const FLOAT_ONE_BITS: u32 = 0x3F800000;

/// The identity pose expected by this value.
pub open spec fn spec_identity_pose() -> Pose {
    Pose {
        orientation_x: 0,
        orientation_y: 0,
        orientation_z: 0,
        orientation_w: FLOAT_ONE_BITS,
        position_x: 0,
        position_y: 0,
        position_z: 0,
    }
}

/// The pose with identity orientation and zero position.
pub fn create_identity_pose() -> (r: Pose)
    ensures
        r == spec_identity_pose(),
{
    Pose {
        orientation_x: 0,
        orientation_y: 0,
        orientation_z: 0,
        orientation_w: FLOAT_ONE_BITS,
        position_x: 0,
        position_y: 0,
        position_z: 0,
    }
}

/// A semantic version triple as the protocol packs it.
#[derive(Clone, Copy, Debug, PartialEq, Eq, Structural)]
pub struct Version {
    pub major: u16,
    pub minor: u16,
    pub patch: u32,
}

/// Whether `prefix` is an initial segment of `s`.
pub open spec fn spec_starts_with(s: Seq<char>, prefix: Seq<char>) -> bool {
    prefix.len() <= s.len() && s.subrange(0, prefix.len() as int) == prefix
}

/// Whether `prefix` is an initial segment of `s`, character by character.
pub fn str_starts_with(s: &str, prefix: &str) -> (r: bool)
    ensures
        r == spec_starts_with(s@, prefix@),
{
    let n = prefix.unicode_len();
    let s_len = s.unicode_len();
    if n > s_len {
        return false;
    }
    let mut i: usize = 0;
    while i < n
        invariant
            n == prefix@.len(),
            n <= s@.len(),
            0 <= i <= n,
            forall|j: int| 0 <= j < i ==> s@[j] == prefix@[j],
        decreases n - i,
    {
        if s.get_char(i) != prefix.get_char(i) {
            proof {
                assert(s@.subrange(0, n as int)[i as int] == s@[i as int]);
            }
            return false;
        }
        i = i + 1;
    }
    proof {
        assert(s@.subrange(0, n as int) =~= prefix@);
    }
    true
}

/// The ASCII decimal digits of `n` without leading zeros; empty for 0.
pub open spec fn spec_decimal_digits(n: int) -> Seq<u8>
    decreases n,
{
    if n <= 0 {
        Seq::empty()
    } else {
        spec_decimal_digits(n / 10).push((48 + (n % 10)) as u8)
    }
}

/// The ASCII decimal rendering of `n`, with the single digit 0 for 0.
pub open spec fn spec_decimal(n: int) -> Seq<u8> {
    if n == 0 {
        seq![48u8]
    } else {
        spec_decimal_digits(n)
    }
}

/// Appends the decimal digits of `x` to `out`, most significant first.
fn push_decimal_digits(x: u64, out: &mut Vec<u8>)
    ensures
        final(out)@ =~= old(out)@ + spec_decimal_digits(x as int),
    decreases x,
{
    if x > 0 {
        push_decimal_digits(x / 10, out);
        out.push(48 + (x % 10) as u8);
    }
}

/// The ASCII decimal rendering of `x`.
pub fn decimal_bytes(x: u64) -> (r: Vec<u8>)
    ensures
        r@ =~= spec_decimal(x as int),
{
    let mut out: Vec<u8> = Vec::new();
    if x == 0 {
        out.push(48);
        return out;
    }
    push_decimal_digits(x, &mut out);
    out
}

/// A list of extension name strings, reported to callers as one buffer of
/// space-separated names with a single trailing NUL byte.
pub struct ExtList {
    exts: Vec<Vec<u8>>,
}

/// Number of buffer bytes the extension names starting at index `i` need:
/// one byte per name byte plus one separator or terminator per name.
pub open spec fn spec_ext_list_len(exts: Seq<Seq<u8>>, i: int) -> int
    decreases exts.len() - i,
{
    if i < 0 || i >= exts.len() {
        0
    } else {
        exts[i].len() + 1 + spec_ext_list_len(exts, i + 1)
    }
}

/// The encoded buffer for the extension names starting at index `i`:
/// names joined by single spaces, with one NUL byte at the very end.
pub open spec fn spec_ext_list_encode(exts: Seq<Seq<u8>>, i: int) -> Seq<u8>
    decreases exts.len() - i,
{
    if i < 0 || i >= exts.len() {
        Seq::empty()
    } else if i == exts.len() - 1 {
        exts[i] + seq![0u8]
    } else {
        exts[i] + seq![32u8] + spec_ext_list_encode(exts, i + 1)
    }
}

impl ExtList {
    /// The names this list holds.
    pub closed spec fn exts_seq(&self) -> Seq<Seq<u8>> {
        self.exts.deep_view()
    }

    /// Wraps a list of extension names.
    pub fn new(exts: Vec<Vec<u8>>) -> (r: Self)
        ensures
            r.exts_seq() == exts.deep_view(),
    {
        ExtList { exts }
    }

    /// Number of bytes the encoded buffer needs.
    pub fn len(&self) -> (r: usize)
        requires
            spec_ext_list_len(self.exts_seq(), 0) <= usize::MAX,
        ensures
            r == spec_ext_list_len(self.exts_seq(), 0),
    {
        let mut size: usize = 0;
        let n = self.exts.len();
        proof {
            lemma_ext_list_len_split(self.exts_seq(), 0, n as int);
        }
        let mut i: usize = 0;
        while i < n
            invariant
                n == self.exts.len(),
                0 <= i <= n,
                spec_ext_list_len(self.exts_seq(), 0) <= usize::MAX,
                size == spec_ext_list_len(self.exts_seq(), 0) - spec_ext_list_len(
                    self.exts_seq(),
                    i as int,
                ),
            decreases n - i,
        {
            proof {
                lemma_ext_list_len_split(self.exts_seq(), i as int, n as int);
                lemma_ext_list_len_nonneg(self.exts_seq(), i + 1);
            }
            assert(self.exts_seq()[i as int] == self.exts@[i as int].deep_view());
            size = size + self.exts[i].len() + 1;
            i = i + 1;
        }
        size
    }
}

impl ExtList {
    /// The encoded buffer: the names joined by single spaces with one
    /// trailing NUL byte.
    pub fn encode(&self) -> (r: Vec<u8>)
        ensures
            r@ =~= spec_ext_list_encode(self.exts_seq(), 0),
    {
        let mut buf: Vec<u8> = Vec::new();
        let n = self.exts.len();
        let mut i: usize = 0;
        while i < n
            invariant
                n == self.exts@.len(),
                0 <= i <= n,
                buf@ + spec_ext_list_encode(self.exts_seq(), i as int) =~= spec_ext_list_encode(
                    self.exts_seq(),
                    0,
                ),
            decreases n - i,
        {
            let ghost buf0 = buf@;
            let m = self.exts[i].len();
            let mut j: usize = 0;
            while j < m
                invariant
                    n == self.exts@.len(),
                    0 <= i < n,
                    m == self.exts@[i as int]@.len(),
                    0 <= j <= m,
                    buf@ =~= buf0 + self.exts@[i as int]@.take(j as int),
                decreases m - j,
            {
                buf.push(self.exts[i][j]);
                j = j + 1;
            }
            proof {
                assert(self.exts@[i as int]@.take(m as int) =~= self.exts@[i as int]@);
                assert(self.exts_seq()[i as int] =~= self.exts@[i as int]@);
            }
            if i == n - 1 {
                buf.push(0u8);
            } else {
                buf.push(32u8);
            }
            proof {
                if i == n - 1 {
                    assert(buf@ =~= buf0 + (self.exts_seq()[i as int] + seq![0u8]));
                } else {
                    assert(buf@ =~= buf0 + (self.exts_seq()[i as int] + seq![32u8]));
                }
            }
            i = i + 1;
        }
        buf
    }
}

/// Each suffix of the list needs a nonnegative number of buffer bytes.
pub proof fn lemma_ext_list_len_nonneg(exts: Seq<Seq<u8>>, i: int)
    ensures
        spec_ext_list_len(exts, i) >= 0,
    decreases exts.len() - i,
{
    if 0 <= i && i < exts.len() {
        lemma_ext_list_len_nonneg(exts, i + 1);
    }
}

/// The bytes needed from index `i` split at any later index `j`.
pub proof fn lemma_ext_list_len_split(exts: Seq<Seq<u8>>, i: int, j: int)
    requires
        0 <= i <= j <= exts.len(),
    ensures
        spec_ext_list_len(exts, i) == spec_ext_list_len(exts, i) - spec_ext_list_len(exts, j)
            + spec_ext_list_len(exts, j),
        spec_ext_list_len(exts, i) - spec_ext_list_len(exts, j) >= 0,
    decreases j - i,
{
    if i < j {
        lemma_ext_list_len_split(exts, i + 1, j);
        lemma_ext_list_len_nonneg(exts, j);
    } else {
        lemma_ext_list_len_nonneg(exts, i);
    }
}

} // verus!
