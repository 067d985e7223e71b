//! Fixed-shape audio channel storage and the bound view handed to one render
//! call.
//!
//! A pool is configured once with its channel counts and block length; every
//! view it binds has exactly that shape, so the render path never sees storage
//! of the wrong shape without an explicit error.

use vstd::prelude::*;

use crate::errors::HostError;
use crate::Sample;

verus! {

/// All channels in `chs` have exactly `block_len` samples.
pub open spec fn channels_shaped(chs: Seq<Vec<Sample>>, block_len: nat) -> bool {
    forall|c: int| 0 <= c < chs.len() ==> (#[trigger] chs[c])@.len() == block_len
}

/// All samples of all channels in `chs` are zero.
pub open spec fn channels_silent(chs: Seq<Vec<Sample>>) -> bool {
    forall|c: int, i: int|
        0 <= c < chs.len() && 0 <= i < chs[c]@.len() ==> (#[trigger] chs[c]@[i]) == 0
}

/// Check that every channel holds exactly `block_len` samples.
fn channels_have_block_len(chs: &Vec<Vec<Sample>>, block_len: usize) -> (r: bool)
    ensures
        r == channels_shaped(chs@, block_len as nat),
{
    let mut c: usize = 0;
    while c < chs.len()
        invariant
            c <= chs@.len(),
            forall|k: int| 0 <= k < c ==> (#[trigger] chs@[k])@.len() == block_len,
        decreases chs@.len() - c,
    {
        if chs[c].len() != block_len {
            return false;
        }
        c += 1;
    }
    true
}

/// Allocate `count` channels of `block_len` zero samples each.
pub fn silent_channels(count: usize, block_len: usize) -> (r: Vec<Vec<Sample>>)
    ensures
        r@.len() == count,
        channels_shaped(r@, block_len as nat),
        channels_silent(r@),
{
    let mut chs: Vec<Vec<Sample>> = Vec::new();
    let mut c: usize = 0;
    while c < count
        invariant
            c <= count,
            chs@.len() == c,
            channels_shaped(chs@, block_len as nat),
            channels_silent(chs@),
        decreases count - c,
    {
        let mut ch: Vec<Sample> = Vec::new();
        let mut i: usize = 0;
        while i < block_len
            invariant
                i <= block_len,
                ch@.len() == i,
                forall|k: int| 0 <= k < i ==> (#[trigger] ch@[k]) == 0,
            decreases block_len - i,
        {
            ch.push(0);
            i += 1;
        }
        chs.push(ch);
        c += 1;
    }
    chs
}

/// A pairing of input and output channel sequences, all of one fixed block
/// length, bound for a single render call.
pub struct AudioBufferView {
    /// Input channels the plugin reads.
    pub inputs: Vec<Vec<Sample>>,
    /// Output channels the plugin populates.
    pub outputs: Vec<Vec<Sample>>,
    /// The block length shared by every channel.
    pub block_len: usize,
}

impl AudioBufferView {
    /// Every channel of the view holds exactly one block of samples.
    pub open spec fn wf(self) -> bool {
        &&& channels_shaped(self.inputs@, self.block_len as nat)
        &&& channels_shaped(self.outputs@, self.block_len as nat)
    }

    /// Some output sample of the view is not silence.
    pub open spec fn has_sound(self) -> bool {
        exists|c: int, i: int|
            0 <= c < self.outputs@.len() && 0 <= i < self.outputs@[c]@.len()
                && (#[trigger] self.outputs@[c]@[i]) != 0
    }

    /// The number of input channels.
    pub fn num_inputs(&self) -> (r: usize)
        ensures
            r == self.inputs@.len(),
    {
        self.inputs.len()
    }

    /// The number of output channels.
    pub fn num_outputs(&self) -> (r: usize)
        ensures
            r == self.outputs@.len(),
    {
        self.outputs.len()
    }

    /// Read one output sample.
    pub fn output_sample(&self, channel: usize, index: usize) -> (r: Sample)
        requires
            channel < self.outputs@.len(),
            index < self.outputs@[channel as int]@.len(),
        ensures
            r == self.outputs@[channel as int]@[index as int],
    {
        self.outputs[channel][index]
    }

    /// Whether any output sample differs from silence.
    pub fn any_output_nonzero(&self) -> (r: bool)
        ensures
            r == self.has_sound(),
    {
        let mut c: usize = 0;
        while c < self.outputs.len()
            invariant
                c <= self.outputs@.len(),
                forall|k: int, i: int|
                    0 <= k < c && 0 <= i < self.outputs@[k]@.len()
                        ==> (#[trigger] self.outputs@[k]@[i]) == 0,
            decreases self.outputs@.len() - c,
        {
            let ch = &self.outputs[c];
            let mut i: usize = 0;
            while i < ch.len()
                invariant
                    c < self.outputs@.len(),
                    ch@ == self.outputs@[c as int]@,
                    i <= ch@.len(),
                    forall|k: int| 0 <= k < i ==> (#[trigger] ch@[k]) == 0,
                decreases ch@.len() - i,
            {
                if ch[i] != 0 {
                    assert(self.outputs@[c as int]@[i as int] != 0);
                    return true;
                }
                i += 1;
            }
            c += 1;
        }
        false
    }

    /// Give the channel storage back for reuse in the next cycle.
    pub fn into_storage(self) -> (r: (Vec<Vec<Sample>>, Vec<Vec<Sample>>))
        ensures
            r.0 == self.inputs,
            r.1 == self.outputs,
    {
        (self.inputs, self.outputs)
    }
}

/// The configured shape of the storage backing each render call: channel
/// counts fixed at construction and a block length constant for the session.
pub struct BufferPool {
    /// The number of input channels every bound view must have.
    pub num_inputs: usize,
    /// The number of output channels every bound view must have.
    pub num_outputs: usize,
    /// The block length every channel must have.
    pub block_len: usize,
}

impl BufferPool {
    /// The pool's configured shape admits this channel storage.
    pub open spec fn accepts(self, inputs: Seq<Vec<Sample>>, outputs: Seq<Vec<Sample>>) -> bool {
        &&& inputs.len() == self.num_inputs
        &&& outputs.len() == self.num_outputs
        &&& channels_shaped(inputs, self.block_len as nat)
        &&& channels_shaped(outputs, self.block_len as nat)
    }

    /// Configure a pool for `num_inputs`/`num_outputs` channels of
    /// `block_len` samples.
    pub fn new(num_inputs: usize, num_outputs: usize, block_len: usize) -> (r: BufferPool)
        ensures
            r.num_inputs == num_inputs,
            r.num_outputs == num_outputs,
            r.block_len == block_len,
    {
        BufferPool { num_inputs, num_outputs, block_len }
    }

    /// Allocate zeroed input channels of the pool's shape.
    pub fn silent_inputs(&self) -> (r: Vec<Vec<Sample>>)
        ensures
            r@.len() == self.num_inputs,
            channels_shaped(r@, self.block_len as nat),
            channels_silent(r@),
    {
        silent_channels(self.num_inputs, self.block_len)
    }

    /// Allocate zeroed output channels of the pool's shape.
    pub fn silent_outputs(&self) -> (r: Vec<Vec<Sample>>)
        ensures
            r@.len() == self.num_outputs,
            channels_shaped(r@, self.block_len as nat),
            channels_silent(r@),
    {
        silent_channels(self.num_outputs, self.block_len)
    }

    /// Bind the given channel storage into a view for one render call, or
    /// reject it with `ShapeMismatch` when it differs from the configured
    /// shape. A shape mismatch is a fatal configuration error.
    pub fn bind(&self, inputs: Vec<Vec<Sample>>, outputs: Vec<Vec<Sample>>) -> (r: Result<
        AudioBufferView,
        HostError,
    >)
        ensures
            self.accepts(inputs@, outputs@) ==> {
                &&& r matches Ok(v)
                &&& v.inputs == inputs
                &&& v.outputs == outputs
                &&& v.block_len == self.block_len
                &&& v.wf()
            },
            !self.accepts(inputs@, outputs@) ==> r == Err::<AudioBufferView, HostError>(
                HostError::ShapeMismatch,
            ),
    {
        if inputs.len() != self.num_inputs || outputs.len() != self.num_outputs {
            return Err(HostError::ShapeMismatch);
        }
        if !channels_have_block_len(&inputs, self.block_len) {
            return Err(HostError::ShapeMismatch);
        }
        if !channels_have_block_len(&outputs, self.block_len) {
            return Err(HostError::ShapeMismatch);
        }
        Ok(AudioBufferView { inputs, outputs, block_len: self.block_len })
    }
}

} // verus!
