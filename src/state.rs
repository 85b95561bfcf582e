//! The render state that a window drives: one device and one pipeline, and
//! the render cycle that runs on every redraw.
use vstd::prelude::*;
use crate::surface::PixelFormat;
use crate::frame::{CommandBuffer, DeviceView, GpuResource, InitError, SurfaceError};
use crate::pipeline::{GpuConnector, PipelineDesc, fullscreen_pipeline, pass_commands};

verus! {

/// What to do after a frame could not be acquired.
#[derive(Clone, Copy, Debug, PartialEq, Eq, Structural)]
pub enum Recovery {
    /// Skip this redraw; the next one tries again.
    SkipTick,
    /// Configure the surface again, then try on the next redraw.
    Reconfigure,
}

/// The recovery policy for each acquisition failure.
pub open spec fn recovery_spec(e: SurfaceError) -> Recovery {
    match e {
        SurfaceError::Outdated | SurfaceError::Lost => Recovery::Reconfigure,
        _ => Recovery::SkipTick,
    }
}

/// Outdated and lost surfaces are configured again; every other failure
/// skips the redraw.
pub fn recovery_for(e: SurfaceError) -> (r: Recovery)
    ensures
        r == recovery_spec(e),
{
    match e {
        SurfaceError::Outdated => Recovery::Reconfigure,
        SurfaceError::Lost => Recovery::Reconfigure,
        _ => Recovery::SkipTick,
    }
}

/// What the render state is, mathematically.
pub struct StateView {
    pub device: DeviceView,
    pub pipeline: PipelineDesc,
}

impl StateView {
    /// The device is well formed with no frame open, and the pipeline is the
    /// full-screen one for the device's surface format.
    pub open spec fn wf(&self) -> bool {
        &&& self.device.wf()
        &&& !self.device.frame_open
        &&& self.pipeline == fullscreen_pipeline(self.device.config.format)
    }
}

/// A device together with the pipeline built against it.
pub struct State {
    gpu_res: GpuResource,
    connector: GpuConnector,
}

impl View for State {
    type V = StateView;

    closed spec fn view(&self) -> StateView {
        StateView { device: self.gpu_res@, pipeline: self.connector@ }
    }
}

impl State {
    pub closed spec fn wf(&self) -> bool {
        &&& self.gpu_res.wf()
        &&& self@.wf()
    }

    /// Sets up the device for a surface that reports `formats` and has the
    /// given size, then the pipeline against it.
    pub fn new(formats: &Vec<PixelFormat>, width: u32, height: u32) -> (r: Result<State, InitError>)
        ensures
            formats@.len() > 0 <==> r is Ok,
            formats@.len() == 0 <==> r == Err::<State, InitError>(InitError::NoSurfaceFormat),
            r matches Ok(st) ==> {
                &&& st.wf()
                &&& Some(st@.device.config.format) == crate::surface::preferred_format(formats@)
                &&& st@.device.config.width == if width == 0 { 1 } else { width }
                &&& st@.device.config.height == if height == 0 { 1 } else { height }
                &&& st@.device.submitted.len() == 0
            },
    {
        match GpuResource::new(formats, width, height) {
            Err(e) => Err(e),
            Ok(gpu_res) => {
                let connector = GpuConnector::new(&gpu_res);
                Ok(State { gpu_res, connector })
            },
        }
    }

    /// The device.
    pub fn gpu_res(&self) -> (r: &GpuResource)
        ensures
            r@ == self@.device,
    {
        &self.gpu_res
    }

    /// The pipeline.
    pub fn connector(&self) -> (r: &GpuConnector)
        ensures
            r@ == self@.pipeline,
    {
        &self.connector
    }

    /// The number of frames rendered so far.
    pub fn frames_submitted(&self) -> (r: u64)
        requires
            self.wf(),
        ensures
            r == self@.device.submitted.len(),
    {
        self.gpu_res.frames_submitted()
    }

    /// Forwards a new window size to the device. Returns whether the surface
    /// must be configured again.
    pub fn resize(&mut self, width: u32, height: u32) -> (changed: bool)
        requires
            old(self).wf(),
        ensures
            final(self).wf(),
            changed == (width > 0 && height > 0),
            final(self)@ == (StateView {
                device: old(self)@.device.resized(width, height),
                ..old(self)@
            }),
    {
        self.gpu_res.resize(width, height)
    }

    /// One render cycle. `acquired` is the outcome of acquiring the surface's
    /// next texture. On success the frame is begun, the full-screen pass is
    /// recorded into it, and it is submitted and presented; the finished
    /// command buffer is returned. On failure the error is returned and
    /// nothing changes.
    pub fn render(&mut self, acquired: Result<(), SurfaceError>) -> (r: Result<CommandBuffer, SurfaceError>)
        requires
            old(self).wf(),
            old(self)@.device.submitted.len() < u64::MAX,
        ensures
            final(self).wf(),
            match acquired {
                Ok(_) => r matches Ok(buffer) && {
                    &&& final(self)@ == (StateView { device: old(self)@.device.cycled(), ..old(self)@ })
                    &&& buffer.seq == old(self)@.device.next_seq()
                    &&& buffer.width == old(self)@.device.config.width
                    &&& buffer.height == old(self)@.device.config.height
                    &&& buffer.commands@ == pass_commands(old(self)@.device.config.format)
                },
                Err(e) => r == Err::<CommandBuffer, SurfaceError>(e) && final(self)@ == old(self)@,
            },
    {
        let mut frame = match self.gpu_res.begin_frame(acquired) {
            Ok(f) => f,
            Err(e) => return Err(e),
        };
        self.connector.render_pass(&mut frame);
        proof {
            assert(frame@.commands =~= pass_commands(self.connector@.target_format));
        }
        Ok(self.gpu_res.submit_frame(frame))
    }
}

/// After a resize to non-zero `width` and `height`, the next frame that is
/// acquired has exactly that size, and the device can open it.
pub proof fn lemma_resize_sets_frame_size(d: DeviceView, width: u32, height: u32)
    requires
        d.wf(),
        width >= 1,
        height >= 1,
    ensures
        d.resized(width, height).wf(),
        d.resized(width, height).frame_open == d.frame_open,
        d.resized(width, height).next_frame().width == width,
        d.resized(width, height).next_frame().height == height,
{
}

/// A resize with a zero dimension leaves the device as it was.
pub proof fn lemma_zero_resize_is_noop(d: DeviceView, width: u32, height: u32)
    requires
        width == 0 || height == 0,
    ensures
        d.resized(width, height) == d,
{
}

/// Resizing twice to the same size is the same as resizing once.
pub proof fn lemma_resize_idempotent(d: DeviceView, width: u32, height: u32)
    ensures
        d.resized(width, height).resized(width, height) == d.resized(width, height),
{
}

/// Running the full render cycle `runs.len() - 1` times in a row submits and
/// presents that many frames, numbered on from the first state, each once
/// and in order.
pub proof fn lemma_cycles_in_order(runs: Seq<DeviceView>)
    requires
        runs.len() >= 1,
        runs[0].wf(),
        runs[0].submitted.len() + runs.len() - 1 <= u64::MAX,
        forall|i: int| 0 <= i < runs.len() - 1 ==> #[trigger] runs[i + 1] == runs[i].cycled(),
    ensures
        ({
            let first = runs[0];
            let last = runs[runs.len() - 1];
            let fresh = Seq::new((runs.len() - 1) as nat, |k: int| (first.submitted.len() + k) as u64);
            &&& last.submitted == first.submitted + fresh
            &&& last.presented == first.presented + fresh
            &&& forall|i: int| 0 <= i < last.submitted.len() ==> last.submitted[i] == i
        }),
    decreases runs.len(),
{
    let first = runs[0];
    let n = (runs.len() - 1) as nat;
    let fresh = Seq::new(n, |k: int| (first.submitted.len() + k) as u64);
    if runs.len() == 1 {
        assert(first.submitted + fresh =~= first.submitted);
        assert(first.presented + fresh =~= first.presented);
    } else {
        let prefix = runs.drop_last();
        assert forall|i: int| 0 <= i < prefix.len() - 1 implies #[trigger] prefix[i + 1] == prefix[i].cycled() by {
            assert(runs[i + 1] == runs[i].cycled());
        }
        lemma_cycles_in_order(prefix);
        let prev = prefix[prefix.len() - 1];
        let fresh_prev = Seq::new((n - 1) as nat, |k: int| (first.submitted.len() + k) as u64);
        assert(runs[runs.len() - 1] == runs[runs.len() - 2].cycled());
        assert(prev.submitted.len() == first.submitted.len() + n - 1);
        assert(fresh =~= fresh_prev.push((first.submitted.len() + n - 1) as u64));
        assert(runs[runs.len() - 1].submitted =~= first.submitted + fresh);
        assert(runs[runs.len() - 1].presented =~= first.presented + fresh);
    }
}

} // verus!
