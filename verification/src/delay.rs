//! The circular stereo delay line of the corrosion effect.
//!
//! Both channels share one write position.  Each sample is written at the
//! write position, which then advances by one, wrapping around; reads look a
//! whole number of samples behind the position just written (the host
//! interpolates between that tap and the next older one).

use vstd::prelude::*;
use vstd::arithmetic::power2::pow2;

verus! {

/// The delay actually used for a requested one: at most `len - 1`.
pub open spec fn capped_delay(delay: int, len: int) -> int {
    if delay < len - 1 {
        delay
    } else {
        len - 1
    }
}

/// Index of the sample `delay` writes behind the sample written at `pos`, in
/// a buffer of `len` samples.
pub open spec fn spec_tap_index(pos: int, delay: int, len: int) -> int {
    (pos + len - capped_delay(delay, len)) % len
}

/// Index of the sample just older than that tap.
pub open spec fn spec_older_index(pos: int, delay: int, len: int) -> int {
    (pos + len - capped_delay(delay, len) - 1) % len
}

/// Index of `pos`'s successor in a buffer of `len` samples.
pub open spec fn spec_next_index(pos: int, len: int) -> int {
    (pos + 1) % len
}

/// Indices of the two samples around a fractional delay whose whole part is
/// `delay` (capped at `len - 1`), behind the sample written at `pos`: the tap
/// itself and the one just older.
pub fn tap_indices(pos: usize, delay: usize, len: usize) -> (r: (usize, usize))
    requires
        len > 0,
        pos + len <= usize::MAX,
    ensures
        r.0 == spec_tap_index(pos as int, delay as int, len as int),
        r.1 == spec_older_index(pos as int, delay as int, len as int),
        r.0 < len,
        r.1 < len,
{
    let d = if delay < len - 1 {
        delay
    } else {
        len - 1
    };
    let i0 = (pos + len - d) % len;
    let i1 = (pos + len - d - 1) % len;
    (i0, i1)
}

/// A stereo circular delay line whose two channels share one write position.
pub struct StereoDelay<T> {
    buf_l: Vec<T>,
    buf_r: Vec<T>,
    write: usize,
}

impl<T> StereoDelay<T> {
    /// Both buffers have the same, nonzero length, and the write position
    /// lies inside them.
    #[verifier::type_invariant]
    closed spec fn well_formed(&self) -> bool {
        &&& self.buf_l@.len() > 0
        &&& self.buf_l@.len() == self.buf_r@.len()
        &&& self.write < self.buf_l@.len()
    }
}

impl<T: Copy> StereoDelay<T> {
    /// The left buffer.
    pub closed spec fn left(&self) -> Seq<T> {
        self.buf_l@
    }

    /// The right buffer.
    pub closed spec fn right(&self) -> Seq<T> {
        self.buf_r@
    }

    /// The position the next sample is written to.
    pub closed spec fn write_pos(&self) -> usize {
        self.write
    }

    /// Buffers of `len` copies of `fill`, writing from the start.
    pub fn new(len: usize, fill: T) -> (d: Self)
        requires
            len > 0,
        ensures
            d.left() == Seq::new(len as nat, |i: int| fill),
            d.right() == Seq::new(len as nat, |i: int| fill),
            d.write_pos() == 0,
    {
        let mut l: Vec<T> = Vec::new();
        let mut r: Vec<T> = Vec::new();
        for i in 0..len
            invariant
                l@ == Seq::new(i as nat, |k: int| fill),
                r@ == Seq::new(i as nat, |k: int| fill),
        {
            l.push(fill);
            r.push(fill);
            assert(l@ =~= Seq::new((i + 1) as nat, |k: int| fill));
            assert(r@ =~= Seq::new((i + 1) as nat, |k: int| fill));
        }
        StereoDelay { buf_l: l, buf_r: r, write: 0 }
    }

    /// Number of samples each buffer holds.
    pub fn len(&self) -> (n: usize)
        ensures
            n == self.left().len(),
            n == self.right().len(),
            n > 0,
            self.write_pos() < n,
    {
        proof {
            use_type_invariant(self);
        }
        self.buf_l.len()
    }

    /// Fills both buffers with `fill` and writes from the start again.
    pub fn reset(&mut self, fill: T)
        ensures
            final(self).left() == Seq::new(old(self).left().len(), |i: int| fill),
            final(self).right() == Seq::new(old(self).right().len(), |i: int| fill),
            final(self).write_pos() == 0,
    {
        proof {
            use_type_invariant(&*self);
        }
        let n = self.buf_l.len();
        let ghost len = n as nat;
        for i in 0..n
            invariant
                n == len,
                self.buf_l@.len() == len,
                self.buf_r@.len() == len,
                len > 0,
                self.write < len,
                len == old(self).left().len(),
                len == old(self).right().len(),
                forall|k: int| 0 <= k < i ==> self.buf_l@[k] == fill,
                forall|k: int| 0 <= k < i ==> self.buf_r@[k] == fill,
        {
            self.buf_l[i] = fill;
            self.buf_r[i] = fill;
        }
        self.write = 0;
        assert(self.buf_l@ =~= Seq::new(len, |i: int| fill));
        assert(self.buf_r@ =~= Seq::new(len, |i: int| fill));
    }

    /// Writes one stereo sample at the write position and advances it;
    /// returns the position written.
    pub fn write(&mut self, l: T, r: T) -> (pos: usize)
        ensures
            pos == old(self).write_pos(),
            pos < old(self).left().len(),
            final(self).left() == old(self).left().update(pos as int, l),
            final(self).right() == old(self).right().update(pos as int, r),
            final(self).write_pos() == spec_next_index(pos as int, old(self).left().len() as int),
            pos < final(self).left().len(),
    {
        proof {
            use_type_invariant(&*self);
        }
        let pos = self.write;
        let n = self.buf_l.len();
        let next = if pos + 1 < n {
            pos + 1
        } else {
            0
        };
        proof {
            if pos + 1 < n {
                vstd::arithmetic::div_mod::lemma_small_mod((pos + 1) as nat, n as nat);
            } else {
                vstd::arithmetic::div_mod::lemma_mod_self_0(n as int);
            }
        }
        self.buf_l[pos] = l;
        self.buf_r[pos] = r;
        self.write = next;
        pos
    }

    /// The left and right samples at `index`.
    pub fn at(&self, index: usize) -> (r: (T, T))
        requires
            index < self.left().len(),
        ensures
            r.0 == self.left()[index as int],
            r.1 == self.right()[index as int],
    {
        proof {
            use_type_invariant(self);
        }
        (self.buf_l[index], self.buf_r[index])
    }
}

/// One more write moves every tap one sample further back: reading `delay + 1`
/// behind the new sample gives what reading `delay` behind the previous one
/// gave, as long as the delay stays inside the buffer.  Reading zero behind
/// the sample just written gives that sample.
pub proof fn lemma_delay_shifts<T>(buf: Seq<T>, prev_pos: int, x: T, delay: int)
    requires
        buf.len() > 0,
        0 <= prev_pos < buf.len(),
        0 <= delay,
        delay + 1 < buf.len(),
    ensures
        ({
            let len = buf.len() as int;
            let pos = spec_next_index(prev_pos, len);
            let after = buf.update(pos, x);
            &&& 0 <= pos < len
            &&& after[spec_tap_index(pos, 0, len)] == x
            &&& after[spec_tap_index(pos, delay + 1, len)] == buf[spec_tap_index(
                prev_pos,
                delay,
                len,
            )]
        }),
{
    let len = buf.len() as int;
    let pos = spec_next_index(prev_pos, len);
    if prev_pos + 1 < len {
        vstd::arithmetic::div_mod::lemma_small_mod((prev_pos + 1) as nat, len as nat);
    } else {
        vstd::arithmetic::div_mod::lemma_mod_self_0(len);
    }
    assert(pos == if prev_pos + 1 < len { prev_pos + 1 } else { 0 });
    // Tap zero is the sample just written.
    vstd::arithmetic::div_mod::lemma_mod_add_multiples_vanish(pos, len);
    vstd::arithmetic::div_mod::lemma_small_mod(pos as nat, len as nat);
    assert(spec_tap_index(pos, 0, len) == pos);
    // The older tap after the write is the newer one before it.
    let k = len - 1 - delay;
    vstd::arithmetic::div_mod::lemma_small_mod(k as nat, len as nat);
    let i_new = spec_tap_index(pos, delay + 1, len);
    let i_old = spec_tap_index(prev_pos, delay, len);
    if prev_pos + 1 < len {
        assert(i_new == i_old);
    } else {
        assert(i_new == k % len);
        vstd::arithmetic::div_mod::lemma_mod_add_multiples_vanish(k, len);
        assert(prev_pos + len - delay == len + k);
        assert(i_old == k);
    }
    let j = prev_pos + len - delay;
    if prev_pos >= delay {
        vstd::arithmetic::div_mod::lemma_mod_add_multiples_vanish(prev_pos - delay, len);
        vstd::arithmetic::div_mod::lemma_small_mod((prev_pos - delay) as nat, len as nat);
    } else {
        vstd::arithmetic::div_mod::lemma_small_mod(j as nat, len as nat);
    }
    assert(0 <= i_old < len);
    assert(i_new != pos);
}

/// Whether `n` is a power of two.
pub open spec fn is_power_of_two(n: nat) -> bool {
    exists|e: nat| n == pow2(e)
}

/// Size of the corrosion delay buffers for a maximum delay of
/// `delay_samples`: the smallest power of two holding that delay plus four
/// samples of headroom.
pub fn corrosion_buffer_len(delay_samples: usize) -> (n: usize)
    requires
        delay_samples + 4 <= usize::MAX / 2 + 1,
    ensures
        is_power_of_two(n as nat),
        n >= delay_samples + 4,
        n == 1 || n / 2 < delay_samples + 4,
{
    let want = delay_samples + 4;
    let mut n: usize = 1;
    let ghost mut e: nat = 0;
    proof {
        vstd::arithmetic::power2::lemma2_to64();
    }
    while n < want
        invariant
            want == delay_samples + 4,
            want <= usize::MAX / 2 + 1,
            n == pow2(e),
            1 <= n < 2 * want,
            n == 1 || n / 2 < want,
        decreases 2 * want - n,
    {
        proof {
            vstd::arithmetic::power2::lemma_pow2_adds(e, 1);
            vstd::arithmetic::power2::lemma2_to64();
        }
        n = n * 2;
        proof {
            e = e + 1;
        }
    }
    assert(is_power_of_two(n as nat));
    n
}

} // verus!
