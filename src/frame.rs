//! The graphics device model: its surface configuration and the
//! acquire / record / submit protocol that every frame goes through.
use vstd::prelude::*;
use crate::surface::{PixelFormat, SurfaceConfig, choose_format};

verus! {

/// Why the next presentable texture could not be acquired.
#[derive(Clone, Copy, Debug, PartialEq, Eq, Structural)]
pub enum SurfaceError {
    /// Acquisition timed out.
    Timeout,
    /// The surface changed and must be configured again.
    Outdated,
    /// The swap chain was lost and must be configured again.
    Lost,
    /// No memory was left for a new frame.
    OutOfMemory,
    /// Any other acquisition failure.
    Other,
}

/// Why a device could not be set up.
#[derive(Clone, Copy, Debug, PartialEq, Eq, Structural)]
pub enum InitError {
    /// The surface reported no pixel format at all.
    NoSurfaceFormat,
}

/// An 8-bit RGBA color.
#[derive(Clone, Copy, Debug, PartialEq, Eq, Structural)]
pub struct Rgba8 {
    pub r: u8,
    pub g: u8,
    pub b: u8,
    pub a: u8,
}

impl Rgba8 {
    pub open spec fn black_spec() -> Rgba8 {
        Rgba8 { r: 0, g: 0, b: 0, a: 255 }
    }

    /// Opaque black.
    pub fn black() -> (r: Rgba8)
        ensures
            r == Rgba8::black_spec(),
    {
        Rgba8 { r: 0, g: 0, b: 0, a: 255 }
    }
}

/// One command recorded into a frame's command session.
#[derive(Clone, Copy, Debug, PartialEq, Eq, Structural)]
pub enum Command {
    /// Opens a render pass on the frame's view, cleared to the given color.
    BeginRenderPass { clear: Rgba8 },
    /// Binds the pipeline that targets the given format.
    SetPipeline { format: PixelFormat },
    /// A non-indexed draw of vertices `vertex_start..vertex_end` and
    /// instances `instance_start..instance_end`.
    Draw { vertex_start: u32, vertex_end: u32, instance_start: u32, instance_end: u32 },
    /// Closes the open render pass.
    EndRenderPass,
}

/// What a frame is, mathematically.
pub struct FrameView {
    /// The position of the frame in the device's sequence of frames.
    pub seq: u64,
    /// The size of the acquired texture.
    pub width: u32,
    pub height: u32,
    /// The commands recorded so far.
    pub commands: Seq<Command>,
}

/// One acquired frame: the presentable texture of the configured size and an
/// open command session. It can be neither copied nor cloned, and submitting
/// it consumes it.
pub struct FrameContext {
    seq: u64,
    width: u32,
    height: u32,
    commands: Vec<Command>,
}

impl View for FrameContext {
    type V = FrameView;

    closed spec fn view(&self) -> FrameView {
        FrameView { seq: self.seq, width: self.width, height: self.height, commands: self.commands@ }
    }
}

impl FrameContext {
    /// Appends one command to the frame's command session.
    pub fn record(&mut self, c: Command)
        ensures
            final(self)@ == (FrameView { commands: old(self)@.commands.push(c), ..old(self)@ }),
    {
        self.commands.push(c);
    }

    /// The position of the frame in the device's sequence of frames.
    pub fn seq(&self) -> (r: u64)
        ensures
            r == self@.seq,
    {
        self.seq
    }

    /// The width of the acquired texture.
    pub fn width(&self) -> (r: u32)
        ensures
            r == self@.width,
    {
        self.width
    }

    /// The height of the acquired texture.
    pub fn height(&self) -> (r: u32)
        ensures
            r == self@.height,
    {
        self.height
    }

    /// The commands recorded so far.
    pub fn commands(&self) -> (r: &Vec<Command>)
        ensures
            r@ == self@.commands,
    {
        &self.commands
    }
}

/// A finished command buffer: the commands of one frame, in recording order.
pub struct CommandBuffer {
    pub seq: u64,
    /// The size of the frame that the commands draw into.
    pub width: u32,
    pub height: u32,
    pub commands: Vec<Command>,
}

/// What a device is, mathematically.
pub struct DeviceView {
    pub config: SurfaceConfig,
    /// Whether a frame has been begun and not yet submitted.
    pub frame_open: bool,
    /// The sequence numbers of the submitted command buffers, in submission order.
    pub submitted: Seq<u64>,
    /// The sequence numbers of the presented frames, in presentation order.
    pub presented: Seq<u64>,
}

impl DeviceView {
    /// The configuration is valid, every frame was submitted once and in
    /// order, and each submitted frame was presented right after.
    pub open spec fn wf(&self) -> bool {
        &&& self.config.wf()
        &&& forall|i: int| 0 <= i < self.submitted.len() ==> self.submitted[i] == i
        &&& self.presented == self.submitted
        &&& self.submitted.len() <= u64::MAX
    }

    /// The sequence number that the next frame gets.
    pub open spec fn next_seq(&self) -> u64 {
        self.submitted.len() as u64
    }

    /// The device after a resize to `width` by `height`: the new size when
    /// both are non-zero, else the device as it was.
    pub open spec fn resized(self, width: u32, height: u32) -> DeviceView {
        if width > 0 && height > 0 {
            DeviceView { config: SurfaceConfig { width, height, ..self.config }, ..self }
        } else {
            self
        }
    }

    /// The frame that the next successful acquisition opens.
    pub open spec fn next_frame(self) -> FrameView {
        FrameView {
            seq: self.next_seq(),
            width: self.config.width,
            height: self.config.height,
            commands: Seq::empty(),
        }
    }

    /// The device once the frame numbered `seq` has been submitted and presented.
    pub open spec fn submitted_frame(self, seq: u64) -> DeviceView {
        DeviceView {
            frame_open: false,
            submitted: self.submitted.push(seq),
            presented: self.presented.push(seq),
            ..self
        }
    }

    /// The device after one full cycle: the next frame opened, submitted and
    /// presented.
    pub open spec fn cycled(self) -> DeviceView {
        self.submitted_frame(self.next_seq())
    }
}

/// The device side of rendering: surface configuration and frame protocol.
pub struct GpuResource {
    config: SurfaceConfig,
    frames_submitted: u64,
    frame_open: bool,
    submitted: Ghost<Seq<u64>>,
    presented: Ghost<Seq<u64>>,
}

impl View for GpuResource {
    type V = DeviceView;

    closed spec fn view(&self) -> DeviceView {
        DeviceView {
            config: self.config,
            frame_open: self.frame_open,
            submitted: self.submitted@,
            presented: self.presented@,
        }
    }
}

impl GpuResource {
    pub closed spec fn wf(&self) -> bool {
        &&& self@.wf()
        &&& self.frames_submitted == self.submitted@.len()
    }

    /// Sets up the device model for a surface that reports `formats` and has
    /// the given size: the format is `preferred_format`, zero dimensions are
    /// raised to one. Fails when no format is reported.
    pub fn new(formats: &Vec<PixelFormat>, width: u32, height: u32) -> (r: Result<GpuResource, InitError>)
        ensures
            formats@.len() > 0 <==> r is Ok,
            formats@.len() == 0 <==> r == Err::<GpuResource, InitError>(InitError::NoSurfaceFormat),
            r matches Ok(d) ==> {
                &&& d.wf()
                &&& d@.wf()
                &&& Some(d@.config.format) == crate::surface::preferred_format(formats@)
                &&& d@.config.width == if width == 0 { 1 } else { width }
                &&& d@.config.height == if height == 0 { 1 } else { height }
                &&& !d@.frame_open
                &&& d@.submitted.len() == 0
                &&& d@.presented.len() == 0
            },
    {
        match choose_format(formats) {
            None => Err(InitError::NoSurfaceFormat),
            Some(format) => Ok(GpuResource {
                config: SurfaceConfig::new(format, width, height),
                frames_submitted: 0,
                frame_open: false,
                submitted: Ghost(Seq::empty()),
                presented: Ghost(Seq::empty()),
            }),
        }
    }

    /// The current surface configuration.
    pub fn config(&self) -> (r: &SurfaceConfig)
        ensures
            *r == self@.config,
    {
        &self.config
    }

    /// The number of command buffers submitted so far.
    pub fn frames_submitted(&self) -> (r: u64)
        requires
            self.wf(),
        ensures
            r == self@.submitted.len(),
    {
        self.frames_submitted
    }

    /// Whether a frame has been begun and not yet submitted.
    pub fn frame_open(&self) -> (r: bool)
        ensures
            r == self@.frame_open,
    {
        self.frame_open
    }

    /// Takes a new surface size when both dimensions are non-zero, and
    /// otherwise changes nothing. Returns whether the surface must be
    /// configured again.
    pub fn resize(&mut self, width: u32, height: u32) -> (changed: bool)
        requires
            old(self).wf(),
        ensures
            final(self).wf(),
            changed == (width > 0 && height > 0),
            final(self)@ == old(self)@.resized(width, height),
    {
        self.config.resize(width, height)
    }

    /// Opens the next frame once its texture has been acquired. `acquired`
    /// is the outcome of acquiring the surface's next texture: on success the
    /// frame has the configured size and an empty command session; an error
    /// is handed back and nothing changes.
    pub fn begin_frame(&mut self, acquired: Result<(), SurfaceError>) -> (r: Result<FrameContext, SurfaceError>)
        requires
            old(self).wf(),
            !old(self)@.frame_open,
        ensures
            final(self).wf(),
            match acquired {
                Ok(_) => r matches Ok(f) && f@ == old(self)@.next_frame()
                    && final(self)@ == (DeviceView { frame_open: true, ..old(self)@ }),
                Err(e) => r == Err::<FrameContext, SurfaceError>(e) && final(self)@ == old(self)@,
            },
    {
        match acquired {
            Err(e) => Err(e),
            Ok(()) => {
                self.frame_open = true;
                Ok(FrameContext {
                    seq: self.frames_submitted,
                    width: self.config.width,
                    height: self.config.height,
                    commands: Vec::new(),
                })
            },
        }
    }

    /// Finishes the open frame into one command buffer, submits it after all
    /// earlier ones and presents the frame.
    pub fn submit_frame(&mut self, frame: FrameContext) -> (buffer: CommandBuffer)
        requires
            old(self).wf(),
            old(self)@.frame_open,
            frame@.seq == old(self)@.next_seq(),
            old(self)@.submitted.len() < u64::MAX,
        ensures
            final(self).wf(),
            final(self)@ == old(self)@.submitted_frame(frame@.seq),
            buffer.seq == frame@.seq,
            buffer.width == frame@.width,
            buffer.height == frame@.height,
            buffer.commands@ == frame@.commands,
    {
        let seq = frame.seq;
        proof {
            self.submitted@ = self.submitted@.push(seq);
            self.presented@ = self.presented@.push(seq);
        }
        self.frames_submitted = self.frames_submitted + 1;
        self.frame_open = false;
        CommandBuffer { seq, width: frame.width, height: frame.height, commands: frame.commands }
    }
}

} // verus!
