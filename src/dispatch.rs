use vstd::prelude::*;
use crate::region::{regions_overlap, LogicalRegion, Position, Size};
use std::collections::HashSet;
use crate::error::Error;
use crate::screencopy::{is_supported, FrameFormat, PixelFormat};

verus! {

/// Rotation or flip that the compositor applies to an output's image.
#[derive(Debug, Clone, Copy, PartialEq, Eq, Structural)]
pub enum Transform {
    Normal,
    Rotated90,
    Rotated180,
    Rotated270,
    Flipped,
    Flipped90,
    Flipped180,
    Flipped270,
}

/// What is known of one output. `handle` is the registry name the output was
/// bound under; events about the output are routed by it.
#[derive(Debug)]
pub struct OutputInfo {
    pub handle: u32,
    pub name: String,
    pub description: String,
    pub transform: Transform,
    pub physical_size: Size,
    pub logical_region: LogicalRegion,
    /// Set once the extended-geometry stream has signalled completion; the
    /// logical region is only meaningful after that.
    pub logical_done: bool,
}

impl OutputInfo {
    /// The logical region, available once its geometry stream is complete.
    pub fn logical_region(&self) -> (r: Option<LogicalRegion>)
        ensures
            r == (if self.logical_done {
                Some(self.logical_region)
            } else {
                None::<LogicalRegion>
            }),
    {
        if self.logical_done {
            Some(self.logical_region)
        } else {
            None
        }
    }
}

/// Events of a bound output, with the values the registry keeps.
#[derive(Debug)]
pub enum OutputEvent {
    Name(String),
    Description(String),
    Mode { width: i32, height: i32 },
    /// A geometry event; the transform is absent when its code is unknown.
    Geometry { transform: Option<Transform> },
    Scale,
    Done,
    Other,
}

/// Events of the extended-geometry object of an output.
#[derive(Debug, Clone, Copy, PartialEq, Eq, Structural)]
pub enum XdgOutputEvent {
    LogicalPosition { x: i32, y: i32 },
    LogicalSize { width: i32, height: i32 },
    Done,
    Other,
}

/// The lowest protocol version of an output that the registry binds.
pub const MIN_OUTPUT_VERSION: u32 = 4;

/// `o` is the record the registry starts with for an output bound under
/// `handle`: empty name and description, no transform, zero sizes.
pub open spec fn is_fresh_output(o: OutputInfo, handle: u32) -> bool {
    &&& o.handle == handle
    &&& o.name@ == Seq::<char>::empty()
    &&& o.description@ == Seq::<char>::empty()
    &&& o.transform == Transform::Normal
    &&& o.physical_size == Size { width: 0, height: 0 }
    &&& o.logical_region.inner.position == Position { x: 0, y: 0 }
    &&& o.logical_region.inner.size == Size { width: 0, height: 0 }
    &&& !o.logical_done
}

/// `n` is `o` after the output event `e`: a name, description, mode or known
/// transform replaces the matching field, anything else changes nothing.
pub open spec fn output_after(o: OutputInfo, e: OutputEvent, n: OutputInfo) -> bool {
    match e {
        OutputEvent::Name(s) => n == OutputInfo { name: s, ..o },
        OutputEvent::Description(s) => n == OutputInfo { description: s, ..o },
        OutputEvent::Mode { width, height } => n == OutputInfo {
            physical_size: Size { width: width as u32, height: height as u32 },
            ..o
        },
        OutputEvent::Geometry { transform: Some(t) } => n == OutputInfo { transform: t, ..o },
        _ => n == o,
    }
}

/// `n` is `o` after the extended-geometry event `e`.
pub open spec fn xdg_output_after(o: OutputInfo, e: XdgOutputEvent, n: OutputInfo) -> bool {
    match e {
        XdgOutputEvent::LogicalPosition { x, y } => n == OutputInfo {
            logical_region: LogicalRegion {
                inner: crate::region::Region {
                    position: Position { x, y },
                    ..o.logical_region.inner
                },
            },
            ..o
        },
        XdgOutputEvent::LogicalSize { width, height } => n == OutputInfo {
            logical_region: LogicalRegion {
                inner: crate::region::Region {
                    size: Size { width: width as u32, height: height as u32 },
                    ..o.logical_region.inner
                },
            },
            ..o
        },
        XdgOutputEvent::Done => n == OutputInfo { logical_done: true, ..o },
        XdgOutputEvent::Other => n == o,
    }
}

/// `i` is the first position in `outs` of the output bound under `handle`.
pub open spec fn first_with_handle(outs: Seq<OutputInfo>, handle: u32, i: int) -> bool {
    &&& 0 <= i < outs.len()
    &&& outs[i].handle == handle
    &&& forall|j: int| 0 <= j < i ==> outs[j].handle != handle
}

/// The outputs known to a connection, filled in from the registry and from
/// each output's own event streams.
#[derive(Debug)]
pub struct OutputCaptureState {
    pub outputs: Vec<OutputInfo>,
}

impl OutputCaptureState {
    /// A registry that knows no output yet.
    pub fn new() -> (r: OutputCaptureState)
        ensures
            r.outputs@.len() == 0,
    {
        OutputCaptureState { outputs: Vec::new() }
    }

    /// Handles a global advertised by the registry. An output of protocol
    /// version at least 4 is recorded under `handle` and `true` says that it
    /// is to be bound; every other global, older outputs included, is left
    /// alone.
    pub fn on_global(&mut self, handle: u32, interface: &String, version: u32) -> (bind: bool)
        ensures
            bind == (interface@ == "wl_output"@ && version >= MIN_OUTPUT_VERSION),
            bind ==> final(self).outputs@.len() == old(self).outputs@.len() + 1
                && final(self).outputs@.drop_last() == old(self).outputs@
                && is_fresh_output(final(self).outputs@.last(), handle),
            !bind ==> final(self).outputs@ == old(self).outputs@,
    {
        let output_interface = String::from_str("wl_output");
        if *interface == output_interface && version >= MIN_OUTPUT_VERSION {
            let info = OutputInfo {
                handle,
                name: String::new(),
                description: String::new(),
                transform: Transform::Normal,
                physical_size: Size::zero(),
                logical_region: LogicalRegion::zero(),
                logical_done: false,
            };
            self.outputs.push(info);
            assert(self.outputs@.drop_last() =~= old(self).outputs@);
            true
        } else {
            false
        }
    }

    /// Position of the first output recorded under `handle`.
    pub fn find(&self, handle: u32) -> (r: Option<usize>)
        ensures
            r matches Some(i) ==> first_with_handle(self.outputs@, handle, i as int),
            r is None ==> forall|j: int|
                0 <= j < self.outputs@.len() ==> #[trigger] self.outputs@[j].handle != handle,
    {
        let mut i: usize = 0;
        while i < self.outputs.len()
            invariant
                i <= self.outputs@.len(),
                forall|j: int| 0 <= j < i ==> #[trigger] self.outputs@[j].handle != handle,
            decreases self.outputs@.len() - i,
        {
            if self.outputs[i].handle == handle {
                return Some(i);
            }
            i = i + 1;
        }
        None
    }

    /// Positions, in increasing order, of the outputs whose logical region is
    /// complete and overlaps `region`.
    pub fn outputs_intersecting(&self, region: &LogicalRegion) -> (r: Vec<usize>)
        ensures
            forall|k: int| 0 <= k < r@.len() ==> #[trigger] r@[k] < self.outputs@.len(),
            forall|k: int, l: int| 0 <= k < l < r@.len() ==> r@[k] < r@[l],
            forall|i: int|
                0 <= i < self.outputs@.len() ==> (r@.contains(i as usize) <==> (
                #[trigger] self.outputs@[i].logical_done && regions_overlap(
                    self.outputs@[i].logical_region.inner,
                    region.inner,
                ))),
    {
        let mut found: Vec<usize> = Vec::new();
        let mut i: usize = 0;
        while i < self.outputs.len()
            invariant
                i <= self.outputs@.len(),
                forall|k: int| 0 <= k < found@.len() ==> #[trigger] found@[k] < i,
                forall|k: int, l: int| 0 <= k < l < found@.len() ==> found@[k] < found@[l],
                forall|j: int|
                    0 <= j < i ==> (found@.contains(j as usize) <==> (
                    #[trigger] self.outputs@[j].logical_done && regions_overlap(
                        self.outputs@[j].logical_region.inner,
                        region.inner,
                    ))),
            decreases self.outputs@.len() - i,
        {
            let o = &self.outputs[i];
            if o.logical_done && o.logical_region.inner.intersects(&region.inner) {
                let ghost before = found@;
                found.push(i);
                assert forall|j: int| 0 <= j < i implies (#[trigger] found@.contains(j as usize)
                    <==> before.contains(j as usize)) by {
                    if found@.contains(j as usize) {
                        let k = choose|k: int| 0 <= k < found@.len() && found@[k] == j as usize;
                        if k < before.len() {
                            assert(before[k] == j as usize);
                        }
                    }
                    if before.contains(j as usize) {
                        let k = choose|k: int| 0 <= k < before.len() && before[k] == j as usize;
                        assert(found@[k] == j as usize);
                    }
                }
                assert(found@[before.len() as int] == i);
            } else {
                assert(!found@.contains(i));
            }
            i = i + 1;
        }
        found
    }

    /// Applies an event of the output bound under `handle`. An event for an
    /// output that is not recorded is ignored and `false` returned.
    pub fn on_output_event(&mut self, handle: u32, event: OutputEvent) -> (found: bool)
        ensures
            found <==> exists|i: int| 0 <= i < old(self).outputs@.len()
                && #[trigger] old(self).outputs@[i].handle == handle,
            !found ==> final(self).outputs@ == old(self).outputs@,
            found ==> exists|i: int|
                first_with_handle(old(self).outputs@, handle, i)
                && final(self).outputs@.len() == old(self).outputs@.len()
                && (forall|j: int| 0 <= j < old(self).outputs@.len() && j != i
                    ==> final(self).outputs@[j] == old(self).outputs@[j])
                && output_after(old(self).outputs@[i], event, #[trigger] final(self).outputs@[i]),
    {
        match self.find(handle) {
            None => false,
            Some(i) => {
                let ghost before = self.outputs@[i as int];
                match event {
                    OutputEvent::Name(s) => {
                        self.outputs[i].name = s;
                    },
                    OutputEvent::Description(s) => {
                        self.outputs[i].description = s;
                    },
                    OutputEvent::Mode { width, height } => {
                        self.outputs[i].physical_size = Size {
                            width: #[verifier::truncate] (width as u32),
                            height: #[verifier::truncate] (height as u32),
                        };
                    },
                    OutputEvent::Geometry { transform: Some(t) } => {
                        self.outputs[i].transform = t;
                    },
                    _ => {},
                }
                assert(output_after(before, event, self.outputs@[i as int]));
                assert(first_with_handle(old(self).outputs@, handle, i as int));
                true
            },
        }
    }

    /// Applies an event of the extended-geometry object made for the output
    /// at position `index`. An index past the recorded outputs is ignored and
    /// `false` returned.
    pub fn on_xdg_output_event(&mut self, index: usize, event: XdgOutputEvent) -> (found: bool)
        ensures
            found == (index < old(self).outputs@.len()),
            !found ==> final(self).outputs@ == old(self).outputs@,
            found ==> final(self).outputs@.len() == old(self).outputs@.len()
                && (forall|j: int| 0 <= j < old(self).outputs@.len() && j != index
                    ==> final(self).outputs@[j] == old(self).outputs@[j])
                && xdg_output_after(old(self).outputs@[index as int], event, final(self).outputs@[index as int]),
    {
        if index >= self.outputs.len() {
            return false;
        }
        match event {
            XdgOutputEvent::LogicalPosition { x, y } => {
                self.outputs[index].logical_region.inner.position = Position { x, y };
            },
            XdgOutputEvent::LogicalSize { width, height } => {
                self.outputs[index].logical_region.inner.size = Size {
                    width: #[verifier::truncate] (width as u32),
                    height: #[verifier::truncate] (height as u32),
                };
            },
            XdgOutputEvent::Done => {
                self.outputs[index].logical_done = true;
            },
            XdgOutputEvent::Other => {},
        }
        true
    }
}

/// Outcome of a copy request.
#[derive(Debug, Clone, Copy, PartialEq, Eq, Structural)]
pub enum FrameState {
    /// The compositor answered the copy with a failure.
    Failed,
    /// The compositor reported the copy as ready.
    Finished,
}

/// Events of a screen-copy frame, with the values the session keeps.
#[derive(Debug, Clone, Copy, PartialEq, Eq, Structural)]
pub enum FrameEvent {
    /// One buffer format the compositor can copy into.
    Buffer { format: PixelFormat, width: u32, height: u32, stride: u32 },
    /// The copy completed.
    Ready,
    /// The copy failed.
    Failed,
    /// Every buffer format has been advertised.
    BufferDone,
    Other,
}

/// One capture session: the formats advertised so far, whether their list is
/// complete, and the outcome of the copy once there is one.
#[derive(Debug)]
pub struct CaptureFrameState {
    pub formats: Vec<FrameFormat>,
    pub state: Option<FrameState>,
    pub buffer_done: bool,
}

/// `n` is session `o` after event `e`. The outcome is set by the first
/// `Ready` or `Failed` and never changes afterwards.
pub open spec fn frame_after(o: CaptureFrameState, e: FrameEvent, n: CaptureFrameState) -> bool {
    match e {
        FrameEvent::Buffer { format, width, height, stride } => {
            &&& n.formats@ == o.formats@.push(
                FrameFormat { format, size: Size { width, height }, stride },
            )
            &&& n.state == o.state
            &&& n.buffer_done == o.buffer_done
        },
        FrameEvent::Ready => {
            &&& n.formats@ == o.formats@
            &&& n.state == (if o.state is None {
                Some(FrameState::Finished)
            } else {
                o.state
            })
            &&& n.buffer_done == o.buffer_done
        },
        FrameEvent::Failed => {
            &&& n.formats@ == o.formats@
            &&& n.state == (if o.state is None {
                Some(FrameState::Failed)
            } else {
                o.state
            })
            &&& n.buffer_done == o.buffer_done
        },
        FrameEvent::BufferDone => {
            &&& n.formats@ == o.formats@
            &&& n.state == o.state
            &&& n.buffer_done
        },
        FrameEvent::Other => {
            &&& n.formats@ == o.formats@
            &&& n.state == o.state
            &&& n.buffer_done == o.buffer_done
        },
    }
}

/// `i` is the position of the first supported format in `formats`.
pub open spec fn first_supported(formats: Seq<FrameFormat>, i: int) -> bool {
    &&& 0 <= i < formats.len()
    &&& is_supported(formats[i].format)
    &&& forall|j: int| 0 <= j < i ==> !is_supported(#[trigger] formats[j].format)
}

impl CaptureFrameState {
    /// A session that has heard nothing from the compositor yet.
    pub fn new() -> (r: CaptureFrameState)
        ensures
            r.formats@.len() == 0,
            r.state is None,
            !r.buffer_done,
    {
        CaptureFrameState { formats: Vec::new(), state: None, buffer_done: false }
    }

    /// Applies one frame event to the session.
    pub fn handle_event(&mut self, event: FrameEvent)
        ensures
            frame_after(*old(self), event, *final(self)),
    {
        match event {
            FrameEvent::Buffer { format, width, height, stride } => {
                self.formats.push(FrameFormat { format, size: Size { width, height }, stride });
            },
            FrameEvent::Ready => {
                if self.state.is_none() {
                    self.state = Some(FrameState::Finished);
                }
            },
            FrameEvent::Failed => {
                if self.state.is_none() {
                    self.state = Some(FrameState::Failed);
                }
            },
            FrameEvent::BufferDone => {
                self.buffer_done = true;
            },
            FrameEvent::Other => {},
        }
    }

    /// Chooses the buffer format: the first advertised one that can be
    /// normalised, in the order the compositor sent them.
    pub fn select_format(&self) -> (r: Result<FrameFormat, Error>)
        ensures
            r matches Ok(f) ==> exists|i: int|
                first_supported(self.formats@, i) && f == #[trigger] self.formats@[i],
            r is Err <==> forall|j: int|
                0 <= j < self.formats@.len() ==> !is_supported(#[trigger] self.formats@[j].format),
            r matches Err(e) ==> e == Error::NoSupportedBufferFormat,
    {
        let mut i: usize = 0;
        while i < self.formats.len()
            invariant
                i <= self.formats@.len(),
                forall|j: int| 0 <= j < i ==> !is_supported(#[trigger] self.formats@[j].format),
            decreases self.formats@.len() - i,
        {
            let f = self.formats[i];
            match f.format {
                PixelFormat::Other(_) => {},
                _ => {
                    assert(first_supported(self.formats@, i as int));
                    return Ok(f);
                },
            }
            i = i + 1;
        }
        Err(Error::NoSupportedBufferFormat)
    }

    /// How the copy ended: nothing yet, success, or the compositor's refusal.
    pub fn completion(&self) -> (r: Option<Result<(), Error>>)
        ensures
            self.state is None <==> r is None,
            self.state == Some(FrameState::Finished) ==> r == Some(Ok::<(), Error>(())),
            self.state == Some(FrameState::Failed) ==> r == Some(
                Err::<(), Error>(Error::CompositorRejected),
            ),
    {
        match self.state {
            None => None,
            Some(FrameState::Finished) => Some(Ok(())),
            Some(FrameState::Failed) => Some(Err(Error::CompositorRejected)),
        }
    }
}

/// Once a session has an outcome, no event changes it: a finished copy never
/// becomes failed nor the reverse.
pub proof fn lemma_outcome_is_final(o: CaptureFrameState, e: FrameEvent, n: CaptureFrameState)
    requires
        frame_after(o, e, n),
        o.state is Some,
    ensures
        n.state == o.state,
{
}

/// State of the connection while globals are listed; it keeps nothing.
pub struct WayshotState {}

/// Events of an overlay surface.
#[derive(Debug, Clone, Copy, PartialEq, Eq, Structural)]
pub enum LayerSurfaceEvent {
    Configure { serial: u32, width: u32, height: u32 },
    Closed,
    Other,
}

/// The outputs whose overlay surface has acknowledged a configure sequence.
#[derive(Debug)]
pub struct LayerShellState {
    pub configured_outputs: HashSet<u32>,
}

impl LayerShellState {
    /// No overlay configured yet.
    pub fn new() -> (r: LayerShellState)
        ensures
            r.configured_outputs@ == Set::<u32>::empty(),
    {
        LayerShellState { configured_outputs: HashSet::new() }
    }

    /// Whether the overlay of `output` is configured.
    pub fn is_configured(&self, output: u32) -> (r: bool)
        ensures
            r == self.configured_outputs@.contains(output),
    {
        broadcast use vstd::std_specs::hash::group_hash_axioms;

        self.configured_outputs.contains(&output)
    }

    /// Handles an event of the overlay surface made for `output`. A configure
    /// marks the output configured and returns the serial to acknowledge it
    /// with; other events change nothing and ask for no reply.
    pub fn on_surface_event(&mut self, output: u32, event: LayerSurfaceEvent) -> (ack: Option<u32>)
        ensures
            event matches LayerSurfaceEvent::Configure { serial, .. } ==> ack == Some(serial)
                && final(self).configured_outputs@ == old(self).configured_outputs@.insert(output),
            !(event is Configure) ==> ack is None
                && final(self).configured_outputs@ == old(self).configured_outputs@,
    {
        broadcast use vstd::std_specs::hash::group_hash_axioms;

        match event {
            LayerSurfaceEvent::Configure { serial, .. } => {
                self.configured_outputs.insert(output);
                Some(serial)
            },
            _ => None,
        }
    }
}

} // verus!
