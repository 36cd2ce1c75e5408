//! Tensors as plain values.
use crate::logits::{argmax, argmax_of, exceeds, is_nan, law_argmax_is_greatest};
use vstd::prelude::*;

verus! {

/// A tensor of single-precision numbers: its dimensions, and the bit patterns
/// of its elements in row-major order.
pub struct FloatTensor {
    pub shape: Vec<i64>,
    pub bits: Vec<u32>,
}

/// A tensor of integers: its dimensions, and its elements in row-major order.
pub struct IntTensor {
    pub shape: Vec<i64>,
    pub data: Vec<i64>,
}

/// A [`FloatTensor`] over sequences.
#[verifier::ext_equal]
pub struct FloatTensorView {
    pub shape: Seq<i64>,
    pub bits: Seq<u32>,
}

/// An [`IntTensor`] over sequences.
#[verifier::ext_equal]
pub struct IntTensorView {
    pub shape: Seq<i64>,
    pub data: Seq<i64>,
}

impl View for FloatTensor {
    type V = FloatTensorView;

    open spec fn view(&self) -> FloatTensorView {
        FloatTensorView { shape: self.shape@, bits: self.bits@ }
    }
}

impl View for IntTensor {
    type V = IntTensorView;

    open spec fn view(&self) -> IntTensorView {
        IntTensorView { shape: self.shape@, data: self.data@ }
    }
}

impl FloatTensorView {
    /// The number of time steps of logits `[batch, seq_len, vocab_size]`.
    pub open spec fn seq_len(self) -> int {
        self.shape[1] as usize as int
    }

    /// The number of scores per time step of logits
    /// `[batch, seq_len, vocab_size]`.
    pub open spec fn vocab_size(self) -> int {
        self.shape[2] as usize as int
    }

    /// Whether the tensor holds, as logits `[batch, seq_len, vocab_size]`, a
    /// last time step of the first sequence of the batch.
    pub open spec fn has_last_step(self) -> bool {
        &&& self.shape.len() >= 3
        &&& self.seq_len() >= 1
        &&& self.seq_len() * self.vocab_size() <= self.bits.len()
    }

    /// The scores of the last time step of the first sequence of the batch.
    pub open spec fn last_step(self) -> Seq<u32> {
        self.bits.subrange(
            (self.seq_len() - 1) * self.vocab_size(),
            self.seq_len() * self.vocab_size(),
        )
    }

    /// The token with the greatest score at the last time step.
    pub open spec fn greedy_token(self) -> i64 {
        argmax_of(self.last_step()) as i64
    }
}

impl FloatTensor {
    /// Whether the tensor holds, as logits `[batch, seq_len, vocab_size]`, a
    /// last time step of the first sequence of the batch.
    pub fn has_last_step(&self) -> (r: bool)
        ensures
            r == self@.has_last_step(),
            r <==> {
                &&& self.shape@.len() >= 3
                &&& self.shape@[1] as usize >= 1
                &&& (self.shape@[1] as usize) * (self.shape@[2] as usize) <= self.bits@.len()
            },
    {
        if self.shape.len() < 3 {
            return false;
        }
        let seq_len: usize = self.shape[1] as usize;
        let vocab_size: usize = self.shape[2] as usize;
        if seq_len < 1 {
            return false;
        }
        let available: usize = self.bits.len();
        match seq_len.checked_mul(vocab_size) {
            Some(end) => end <= available,
            None => false,
        }
    }

    /// Greedy choice: the token with the greatest score at the last time step
    /// of logits `[batch, seq_len, vocab_size]`.
    pub fn greedy_token(&self) -> (r: i64)
        requires
            self@.has_last_step(),
        ensures
            r == self@.greedy_token(),
            self.shape@[2] as usize == 0 ==> r == 0,
            0 < self.shape@[2] as usize <= i64::MAX ==> ({
                let s = self.shape@[1] as usize as int;
                let v = self.shape@[2] as usize as int;
                let picked = self.bits@[(s - 1) * v + r];
                &&& 0 <= r < v
                &&& forall|i: int|
                    (s - 1) * v <= i < s * v ==> !exceeds(#[trigger] self.bits@[i], picked)
                &&& forall|i: int|
                    (s - 1) * v <= i < (s - 1) * v + r ==> is_nan(#[trigger] self.bits@[i])
                        || exceeds(picked, self.bits@[i])
                &&& !exceeds(picked, 0xff80_0000) ==> r == 0 && forall|i: int|
                    (s - 1) * v <= i < s * v ==> !exceeds(#[trigger] self.bits@[i], 0xff80_0000)
            }),
    {
        proof {
            law_greedy_token(self@);
        }
        let seq_len: usize = self.shape[1] as usize;
        let vocab_size: usize = self.shape[2] as usize;
        proof {
            let s = seq_len as int;
            let v = vocab_size as int;
            assert(s * v <= self.bits.len());
            assert(0 <= (s - 1) * v && (s - 1) * v + v == s * v) by (nonlinear_arith)
                requires
                    s >= 1,
                    v >= 0,
            ;
        }
        let last_step_offset: usize = (seq_len - 1) * vocab_size;
        let last_logits = vstd::slice::slice_subrange(
            self.bits.as_slice(),
            last_step_offset,
            last_step_offset + vocab_size,
        );
        argmax(last_logits) as i64
    }
}

impl IntTensor {
    /// A tensor with the same dimensions and elements.
    pub fn copy(&self) -> (r: IntTensor)
        ensures
            r@ == self@,
    {
        IntTensor { shape: self.shape.clone(), data: self.data.clone() }
    }
}

/// The view of a tensor has its dimensions and its elements.
pub proof fn law_tensor_views(floats: FloatTensor, ints: IntTensor)
    ensures
        floats@.shape == floats.shape@,
        floats@.bits == floats.bits@,
        ints@.shape == ints.shape@,
        ints@.data == ints.data@,
{
}

/// Scores `[batch, s, v]` have a last time step exactly where they have three
/// dimensions, at least one time step and the elements of all of them.
pub proof fn law_has_last_step(logits: FloatTensorView)
    ensures
        logits.has_last_step() <==> {
            &&& logits.shape.len() >= 3
            &&& logits.shape[1] as usize >= 1
            &&& (logits.shape[1] as usize) * (logits.shape[2] as usize) <= logits.bits.len()
        },
{
}

/// Of scores `[batch, s, v]` the last time step of the first sequence decides,
/// that is the elements from `(s - 1) * v` up to `s * v`: the token is the
/// position there of a score that none exceeds and that exceeds every number
/// before it; where no score is above minus infinity it is zero.
pub proof fn law_greedy_token(logits: FloatTensorView)
    requires
        logits.shape.len() >= 3,
        logits.shape[1] as usize >= 1,
        (logits.shape[1] as usize) * (logits.shape[2] as usize) <= logits.bits.len(),
    ensures
        logits.shape[2] as usize == 0 ==> logits.greedy_token() == 0,
        0 < logits.shape[2] as usize <= i64::MAX ==> ({
            let s = logits.shape[1] as usize as int;
            let v = logits.shape[2] as usize as int;
            let t = logits.greedy_token();
            let picked = logits.bits[(s - 1) * v + t];
            &&& 0 <= t < v
            &&& forall|i: int|
                (s - 1) * v <= i < s * v ==> !exceeds(#[trigger] logits.bits[i], picked)
            &&& forall|i: int|
                (s - 1) * v <= i < (s - 1) * v + t ==> is_nan(#[trigger] logits.bits[i])
                    || exceeds(picked, logits.bits[i])
            &&& !exceeds(picked, 0xff80_0000) ==> t == 0 && forall|i: int|
                (s - 1) * v <= i < s * v ==> !exceeds(#[trigger] logits.bits[i], 0xff80_0000)
        }),
{
    let s = logits.shape[1] as usize as int;
    let v = logits.shape[2] as usize as int;
    let offset = (s - 1) * v;
    assert(0 <= offset && offset + v == s * v) by (nonlinear_arith)
        requires
            s >= 1,
            v >= 0,
            offset == (s - 1) * v,
    ;
    let step = logits.last_step();
    assert(step.len() == v);
    if v > 0 {
        law_argmax_is_greatest(step);
        let t = argmax_of(step);
        if v <= i64::MAX {
            assert(logits.greedy_token() == t);
            assert(step[t] == logits.bits[offset + t]);
            assert forall|i: int| offset <= i < s * v implies logits.bits[i] == #[trigger] step[i
                - offset] by {}
            assert forall|i: int| offset <= i < s * v implies !exceeds(
                #[trigger] logits.bits[i],
                step[t],
            ) by {
                assert(logits.bits[i] == step[i - offset]);
            }
            assert forall|i: int| offset <= i < offset + t implies is_nan(
                #[trigger] logits.bits[i],
            ) || exceeds(step[t], logits.bits[i]) by {
                assert(logits.bits[i] == step[i - offset]);
            }
            if !exceeds(step[t], 0xff80_0000) {
                assert forall|i: int| offset <= i < s * v implies !exceeds(
                    #[trigger] logits.bits[i],
                    0xff80_0000,
                ) by {
                    assert(logits.bits[i] == step[i - offset]);
                }
            }
        }
    } else {
        crate::logits::law_argmax_of_nothing(step);
    }
}

} // verus!
