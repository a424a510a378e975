//! The capture lifecycle: which blocks enter the sample buffer, how stream
//! faults are handled, and the negotiated stream parameters.
use vstd::prelude::*;
use crate::buffer::SampleBuffer;

verus! {

/// Where the input stream is in its life.
#[derive(Clone, Copy, Debug, PartialEq, Eq, Structural)]
pub enum StreamState {
    /// Opened, not yet delivering.
    Opened,
    /// Delivering blocks.
    Running,
    /// Stopped for good: no block is taken any more.
    Stopped,
}

/// Whether blocks are taken in state `s`.
pub open spec fn delivering(s: StreamState) -> bool {
    s == StreamState::Running
}

/// What `stop` does in state `s`: the next state, and whether the device
/// must be halted.
pub open spec fn stop_transition(s: StreamState) -> (StreamState, bool) {
    (StreamState::Stopped, delivering(s))
}

/// What a delivered `block` does to `samples` in state `s`: the samples
/// after, and whether the block was taken.
pub open spec fn block_transition<T>(s: StreamState, samples: Seq<T>, block: Seq<T>) -> (Seq<T>, bool) {
    if delivering(s) {
        (samples + block, true)
    } else {
        (samples, false)
    }
}

/// A fault that the device reports while the stream runs.
#[derive(Clone, Copy, Debug, PartialEq, Eq, Structural)]
pub enum StreamFault {
    /// The device went away: the stream is closed.
    DeviceNotAvailable,
    /// Any other backend error (an overrun, a dropout): capture goes on.
    BackendSpecific,
}

/// Why capture could not begin.
#[derive(Clone, Copy, Debug, PartialEq, Eq, Structural)]
pub enum OpenError {
    /// There is no default input device.
    DeviceUnavailable,
    /// The device rejected the requested configuration.
    ConfigNegotiationFailed,
}

/// The device's buffer size: a fixed frame count or the device default.
#[derive(Clone, Copy, Debug, PartialEq, Eq, Structural)]
pub enum BufferSize {
    /// This many frames per block.
    Fixed(u32),
    /// Whatever the device chooses.
    Default,
}

/// The parameters negotiated when the stream was opened.
#[derive(Clone, Debug)]
pub struct StreamDescriptor {
    /// Samples per second per channel.
    pub sample_rate: u32,
    pub buffer_size: BufferSize,
    /// Interleaved channels per frame.
    pub channels: u16,
    /// The device's display name.
    pub device_name: String,
}

impl StreamDescriptor {
    /// The rate and channel count are positive.
    pub open spec fn wf(&self) -> bool {
        self.sample_rate > 0 && self.channels > 0
    }

    /// The stream parameters, or `ConfigNegotiationFailed` where the device
    /// offered a zero rate or no channel.
    pub fn new(sample_rate: u32, buffer_size: BufferSize, channels: u16, device_name: String) -> (r: Result<
        StreamDescriptor,
        OpenError,
    >)
        ensures
            r is Ok <==> (sample_rate > 0 && channels > 0),
            r is Ok ==> r->Ok_0.wf() && r->Ok_0.sample_rate == sample_rate && r->Ok_0.buffer_size
                == buffer_size && r->Ok_0.channels == channels && r->Ok_0.device_name@ == device_name@,
            r is Err ==> r->Err_0 == OpenError::ConfigNegotiationFailed,
    {
        if sample_rate == 0 || channels == 0 {
            Err(OpenError::ConfigNegotiationFailed)
        } else {
            Ok(StreamDescriptor { sample_rate, buffer_size, channels, device_name })
        }
    }

    /// The buffer size as a number for display: the frame count, or -1 for
    /// the device default.
    pub fn buffer_size_code(&self) -> (r: i64)
        ensures
            r == match self.buffer_size {
                BufferSize::Fixed(n) => n as i64,
                BufferSize::Default => -1i64,
            },
    {
        match self.buffer_size {
            BufferSize::Fixed(n) => n as i64,
            BufferSize::Default => -1,
        }
    }
}

/// The receiving end of a capture: the lifecycle state and the buffer that
/// delivered blocks go into. Only a running recorder takes blocks.
pub struct Recorder<T> {
    state: StreamState,
    buffer: SampleBuffer<T>,
}

impl<T: Copy> Recorder<T> {
    /// The lifecycle state.
    pub closed spec fn state_of(&self) -> StreamState {
        self.state
    }

    /// The samples taken so far, in arrival order.
    pub closed spec fn samples(&self) -> Seq<T> {
        self.buffer@
    }

    /// An opened recorder with no samples.
    pub fn new() -> (r: Self)
        ensures
            r.state_of() == StreamState::Opened,
            r.samples() == Seq::<T>::empty(),
    {
        Recorder { state: StreamState::Opened, buffer: SampleBuffer::new() }
    }

    /// The lifecycle state.
    pub fn state(&self) -> (r: StreamState)
        ensures
            r == self.state_of(),
    {
        self.state
    }

    /// Begins delivery. Returns whether the device must now be started: only
    /// an opened recorder starts; a stopped one stays stopped.
    pub fn start(&mut self) -> (started: bool)
        ensures
            started == (old(self).state_of() == StreamState::Opened),
            final(self).state_of() == (if started {
                StreamState::Running
            } else {
                old(self).state_of()
            }),
            final(self).samples() == old(self).samples(),
    {
        if self.state == StreamState::Opened {
            self.state = StreamState::Running;
            true
        } else {
            false
        }
    }

    /// Ends delivery for good. Returns whether the device must now be
    /// halted, that is whether it was running. Stopping again changes
    /// nothing and is no error.
    pub fn stop(&mut self) -> (halted: bool)
        ensures
            (final(self).state_of(), halted) == stop_transition(old(self).state_of()),
            final(self).samples() == old(self).samples(),
    {
        let halted = self.state == StreamState::Running;
        self.state = StreamState::Stopped;
        halted
    }

    /// Takes one delivered block: appended while running, ignored otherwise.
    /// Returns whether it was taken.
    pub fn on_block(&mut self, block: &[T]) -> (taken: bool)
        ensures
            (final(self).samples(), taken) == block_transition(old(self).state_of(), old(self).samples(), block@),
            final(self).state_of() == old(self).state_of(),
    {
        if self.state == StreamState::Running {
            self.buffer.append(block);
            true
        } else {
            false
        }
    }

    /// Handles a fault reported by the stream. A closed device stops the
    /// capture, keeping what was buffered; any other fault lets it go on.
    /// Returns whether the capture must now be finalised.
    pub fn on_fault(&mut self, fault: StreamFault) -> (fatal: bool)
        ensures
            fatal == (fault == StreamFault::DeviceNotAvailable),
            final(self).state_of() == (if fatal {
                StreamState::Stopped
            } else {
                old(self).state_of()
            }),
            final(self).samples() == old(self).samples(),
    {
        match fault {
            StreamFault::DeviceNotAvailable => {
                self.state = StreamState::Stopped;
                true
            },
            StreamFault::BackendSpecific => false,
        }
    }

    /// The number of samples taken.
    pub fn len(&self) -> (r: usize)
        ensures
            r == self.samples().len(),
    {
        self.buffer.len()
    }

    /// A copy of the samples taken, in arrival order.
    pub fn snapshot(&self) -> (r: Vec<T>)
        ensures
            r@ == self.samples(),
    {
        self.buffer.snapshot()
    }
}

/// Stopping is idempotent: after a stop from any state, a second stop
/// halts nothing and leaves the state as it is, and a block delivered
/// afterwards is not taken and leaves the samples as they are.
pub proof fn lemma_stop_idempotent<T>(s: StreamState, samples: Seq<T>, block: Seq<T>)
    ensures
        stop_transition(stop_transition(s).0) == (stop_transition(s).0, false),
        block_transition(stop_transition(s).0, samples, block) == (samples, false),
{
}

} // verus!
