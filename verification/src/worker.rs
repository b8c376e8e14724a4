//! The export job, as a machine that the background thread drives.
//!
//! The thread hands the machine what happened (a request arrived, the GPU is
//! ready, a frame was read back, a file was written) and gets back the
//! messages for the panel and what to do next. The machine owns the recorder
//! of the job's own GPU context; the display never sees it. One job runs at a
//! time: a request is only taken while the machine waits, and the machine
//! only waits again after it has said `Done`.

use crate::compute::Compute;
use crate::compute::TIME_OFFSET;
use crate::device::all_encoded;
use crate::device::BufferUsages;
use crate::device::Command;
use crate::device::CommandView;
use crate::device::Device;
use crate::device::Extent3d;
use crate::device::ImageCopyBuffer;
use crate::device::Payload;
use crate::device::TextureCopy;
use crate::device::TextureFormat;
use crate::device::TextureUsages;
use crate::export::encoder_arguments;
use crate::export::frame_file;
use crate::export::frame_path;
use crate::export::layout_fits;
use crate::export::layout_of;
use crate::export::make_video;
use crate::export::msg_views;
use crate::export::progress_message;
use crate::export::progress_text;
use crate::export::readback_layout;
use crate::export::starting_message;
use crate::export::starting_text;
use crate::export::string_views;
use crate::export::video_file;
use crate::export::video_path;
use crate::export::ExportData;
use crate::export::ExportDataView;
use crate::export::Msg;
use crate::export::MsgView;
use crate::export::ReadbackLayout;
use crate::export::State;
use crate::export::FPS;
use crate::frame::flipped_cropped;
use crate::frame::holdable;
use crate::frame::image_samples;
use crate::frame::image_size;
use crate::frame::FrameImage;
use crate::texture::Texture;
use vstd::prelude::*;
use vstd::string::StringExecFns;

verus! {

/// Where a job stands.
#[derive(Clone, Copy, Debug, PartialEq, Eq, Structural)]
pub enum Phase {
    /// No job runs.
    Waiting,
    /// A job has started and waits for its GPU context.
    Acquiring,
    /// The job waits to be told the time of the next frame.
    Timing,
    /// The job waits for the frame to be read back.
    Reading,
    /// The job waits for the frame to be written to its file.
    Saving,
    /// The job waits for the encoder.
    Encoding,
}

/// What the panel makes of a phase: a job runs in every phase but the first.
pub open spec fn state_of(phase: Phase) -> State {
    if phase == Phase::Waiting {
        State::Waiting
    } else {
        State::Generating
    }
}

/// What happened on the thread that runs the job.
#[derive(Clone, Debug, PartialEq, Eq)]
pub enum Event {
    /// The panel asked for an export.
    Request(ExportData),
    /// The GPU context of the job is there.
    DeviceReady,
    /// The time of the frame that was asked about, a single-precision number
    /// of seconds as its bit pattern.
    Clock(u32),
    /// The recorded commands ran and this is what the buffer holds.
    Mapped(Vec<u8>),
    /// The frame was written to its file.
    Saved,
    /// The encoder ran; `Some` holds its complaint if it could not be run.
    Encoded(Option<String>),
    /// What was last asked for could not be done, for the reason given.
    Failed(String),
}

/// The mathematical value of an [`Event`].
pub enum EventView {
    Request(ExportDataView),
    DeviceReady,
    Clock(u32),
    Mapped(Seq<u8>),
    Saved,
    Encoded(Option<Seq<char>>),
    Failed(Seq<char>),
}

impl View for Event {
    type V = EventView;

    open spec fn view(&self) -> EventView {
        match *self {
            Event::Request(data) => EventView::Request(data@),
            Event::DeviceReady => EventView::DeviceReady,
            Event::Clock(t) => EventView::Clock(t),
            Event::Mapped(bytes) => EventView::Mapped(bytes@),
            Event::Saved => EventView::Saved,
            Event::Encoded(Some(complaint)) => EventView::Encoded(Some(complaint@)),
            Event::Encoded(None) => EventView::Encoded(None),
            Event::Failed(reason) => EventView::Failed(reason@),
        }
    }
}

/// What the thread is to do next.
pub enum Action {
    /// Wait for the next request.
    AwaitRequest,
    /// Get a GPU device and queue of the job's own.
    AcquireDevice,
    /// Say at what time the frame `frame` of an animation of `rate` frames
    /// per second is: `frame` divided by `rate`, in seconds.
    Clock { frame: u32, rate: u32 },
    /// Run the recorded commands, then map `size` bytes of `buffer` and hand
    /// them over.
    Readback { buffer: u64, size: u64 },
    /// Write `image` to the file `path`.
    Save { path: String, image: FrameImage },
    /// Run `program` with `arguments`.
    Encode { program: String, arguments: Vec<String> },
    /// Nothing: the event did not belong here and was passed over.
    Ignored,
}

/// The mathematical value of an [`Action`].
pub enum ActionView {
    AwaitRequest,
    AcquireDevice,
    Clock { frame: u32, rate: u32 },
    Readback { buffer: u64, size: u64 },
    Save { path: Seq<char>, size: (nat, nat), samples: Seq<u8> },
    Encode { program: Seq<char>, arguments: Seq<Seq<char>> },
    Ignored,
}

impl View for Action {
    type V = ActionView;

    open spec fn view(&self) -> ActionView {
        match *self {
            Action::AwaitRequest => ActionView::AwaitRequest,
            Action::AcquireDevice => ActionView::AcquireDevice,
            Action::Clock { frame, rate } => ActionView::Clock { frame, rate },
            Action::Readback { buffer, size } => ActionView::Readback { buffer, size },
            Action::Save { path, image } => ActionView::Save {
                path: path@,
                size: image_size(image),
                samples: image_samples(image),
            },
            Action::Encode { program, arguments } => ActionView::Encode {
                program: program@,
                arguments: string_views(arguments@),
            },
            Action::Ignored => ActionView::Ignored,
        }
    }
}

/// What one step gives back: the messages for the panel, in order, and what
/// to do next.
pub struct Outcome {
    pub messages: Vec<Msg>,
    pub action: Action,
}

/// The mathematical value of an [`Outcome`].
pub struct OutcomeView {
    pub messages: Seq<MsgView>,
    pub action: ActionView,
}

impl View for Outcome {
    type V = OutcomeView;

    open spec fn view(&self) -> OutcomeView {
        OutcomeView { messages: msg_views(self.messages@), action: self.action@ }
    }
}

/// What the buffer that receives the frames may be used for.
pub open spec fn copy_buffer_usage() -> BufferUsages {
    BufferUsages { map_read: true, copy_dst: true, index: false, vertex: false, uniform: false }
}

/// What the offscreen image may be used for: the compute pass writes it and
/// it is copied from.
pub open spec fn offscreen_usage() -> TextureUsages {
    TextureUsages {
        copy_src: true,
        copy_dst: false,
        texture_binding: false,
        storage_binding: true,
    }
}

/// Whether a job for an image of this size can run: its padded rows can be
/// described to the GPU and a frame can be held in host memory.
pub open spec fn exportable(width: u32, height: u32) -> bool {
    layout_fits(width as int) && holdable(width as int, height as int)
}

/// The first line of every job.
pub open spec fn greeting() -> Seq<char> {
    "Initlializing"@
}

/// The line before the encoder runs.
pub open spec fn converting() -> Seq<char> {
    "Converting to video"@
}

/// The line of a job whose image is too large.
pub open spec fn too_large() -> Seq<char> {
    "The image is too large to export"@
}

/// The line of a job that was handed a frame of the wrong size.
pub open spec fn wrong_size() -> Seq<char> {
    "The frame that was read back has the wrong size"@
}

/// The state of the machine.
pub struct WorkerModel {
    pub phase: Phase,
    /// The request of the job that runs or ran last.
    pub data: ExportDataView,
    /// Index of the frame in the making; frames below it are written.
    pub frame: u32,
    pub layout: ReadbackLayout,
    /// Handle of the buffer that frames are copied to.
    pub copy_buffer: u64,
    /// The offscreen image.
    pub texture: Texture,
    /// The compute stage that writes the offscreen image.
    pub compute: Compute,
    /// Next handle of the job's recorder.
    pub next_id: u64,
    /// What the recorder holds for the host to run.
    pub pending: Seq<CommandView>,
    /// File of the video, once the encoder was called.
    pub file_name: Seq<char>,
}

impl WorkerModel {
    /// The state of a machine that has not run a job yet: it waits, its
    /// request asks for nothing, its recorder has issued no handle and holds
    /// no command, and no video is named.
    pub open spec fn idle() -> WorkerModel {
        WorkerModel {
            phase: Phase::Waiting,
            data: ExportDataView { width: 0, height: 0, frames: 0, shader: Seq::empty() },
            frame: 0,
            layout: ReadbackLayout { aligned_width: 0, bytes_per_row: 0, rows: 0, size: 0 },
            copy_buffer: 0,
            texture: Texture {
                width: 0,
                height: 0,
                format: TextureFormat::Rgba8Unorm,
                usage: TextureUsages {
                    copy_src: false,
                    copy_dst: false,
                    texture_binding: false,
                    storage_binding: false,
                },
                inner: 0,
                view: 0,
                sampler: 0,
            },
            compute: Compute {
                pipeline: 0,
                compute_shader: 0,
                data_bind_group: 0,
                data_bind_group_layout: 0,
                data_buffer: 0,
                data: crate::compute::ComputeDataUniform { width: 0, height: 0, t: 0 },
                texture_bind_group: 0,
                texture_bind_group_layout: 0,
                target: 0,
            },
            next_id: 0,
            pending: Seq::empty(),
            file_name: Seq::empty(),
        }
    }

    /// What holds of the state in every phase that works on frames: the
    /// frame in the making is one of the job, and the layout is that of the
    /// image of the request, which is of a size that can be exported.
    pub open spec fn wf(self) -> bool {
        (self.phase == Phase::Timing || self.phase == Phase::Reading || self.phase
            == Phase::Saving) ==> {
            &&& self.frame < self.data.frames
            &&& exportable(self.data.width, self.data.height)
            &&& self.layout == layout_of(self.data.width, self.data.height)
        }
    }

    /// The copy that follows the dispatch of a frame: the whole offscreen
    /// image into the buffer, rows padded as the layout says.
    pub open spec fn copy(self) -> TextureCopy {
        TextureCopy {
            texture: self.texture.inner,
            buffer: ImageCopyBuffer {
                buffer: self.copy_buffer,
                offset: 0,
                bytes_per_row: self.layout.bytes_per_row,
                rows_per_image: self.layout.rows,
            },
            size: Extent3d {
                width: self.layout.aligned_width,
                height: self.layout.rows,
                depth_or_array_layers: 1,
            },
        }
    }

    /// The state once the GPU context is there: a recorder that starts from
    /// handle 0 and holds the creation of the buffer, of the offscreen image
    /// with padded rows, and of the compute stage over that image.
    pub open spec fn set_up(self) -> WorkerModel {
        let layout = layout_of(self.data.width, self.data.height);
        let texture = Texture::fresh(
            layout.aligned_width,
            self.data.height,
            TextureFormat::Rgba8Unorm,
            offscreen_usage(),
            1,
        );
        let compute = Compute::fresh(texture, 4);
        WorkerModel {
            frame: 0,
            layout,
            copy_buffer: 0,
            texture,
            compute,
            next_id: 12,
            pending: seq![
                CommandView::CreateBuffer { id: 0, size: layout.size, usage: copy_buffer_usage() },
            ] + texture.creation() + compute.creation(texture, self.data.shader),
            ..self
        }
    }

    /// The step into encoding: after `said`, the line that announces the
    /// encoder; the file of the video is named after `stamp`.
    pub open spec fn encoding(self, said: Seq<MsgView>, stamp: Seq<char>) -> (
        WorkerModel,
        OutcomeView,
    ) {
        (
            WorkerModel { phase: Phase::Encoding, file_name: video_path(stamp), ..self },
            OutcomeView {
                messages: said.push(MsgView::Info(converting())),
                action: ActionView::Encode {
                    program: "ffmpeg"@,
                    arguments: encoder_arguments(self.data.frames, video_path(stamp)),
                },
            },
        )
    }

    /// The end of a job: one last line, then `Done`, and the machine waits.
    pub open spec fn finished(self, last: Seq<char>) -> (WorkerModel, OutcomeView) {
        (
            WorkerModel { phase: Phase::Waiting, ..self },
            OutcomeView {
                messages: seq![MsgView::Info(last), MsgView::Done],
                action: ActionView::AwaitRequest,
            },
        )
    }

    /// An event that does not belong to the phase: nothing changes and
    /// nothing is said. A machine that waits goes on waiting.
    pub open spec fn passed_over(self) -> (WorkerModel, OutcomeView) {
        (
            self,
            OutcomeView {
                messages: Seq::empty(),
                action: if self.phase == Phase::Waiting {
                    ActionView::AwaitRequest
                } else {
                    ActionView::Ignored
                },
            },
        )
    }

    /// One step of the machine. `stamp` is the time at which the step is
    /// taken, as text; it names the video if this step calls the encoder.
    pub open spec fn transition(self, event: EventView, stamp: Seq<char>) -> (
        WorkerModel,
        OutcomeView,
    ) {
        match (self.phase, event) {
            (Phase::Waiting, EventView::Request(data)) => (
                WorkerModel { phase: Phase::Acquiring, data, frame: 0, ..self },
                OutcomeView {
                    messages: seq![MsgView::Info(greeting())],
                    action: ActionView::AcquireDevice,
                },
            ),
            (Phase::Waiting, _) => self.passed_over(),
            (_, EventView::Failed(reason)) => self.finished(reason),
            (Phase::Acquiring, EventView::DeviceReady) => if exportable(
                self.data.width,
                self.data.height,
            ) {
                let ready = self.set_up();
                let said = seq![MsgView::Info(starting_text(self.data.frames))];
                if self.data.frames == 0 {
                    ready.encoding(said, stamp)
                } else {
                    (
                        WorkerModel { phase: Phase::Timing, ..ready },
                        OutcomeView {
                            messages: said,
                            action: ActionView::Clock { frame: 0, rate: FPS },
                        },
                    )
                }
            } else {
                self.finished(too_large())
            },
            (Phase::Timing, EventView::Clock(t)) => (
                WorkerModel {
                    phase: Phase::Reading,
                    compute: self.compute.with_time(t),
                    pending: self.pending + seq![
                        CommandView::WriteBuffer {
                            buffer: self.compute.data_buffer,
                            offset: TIME_OFFSET,
                            data: Payload::Words(seq![t]),
                        },
                        self.compute.with_time(t).dispatch(Some(self.copy())),
                    ],
                    ..self
                },
                OutcomeView {
                    messages: Seq::empty(),
                    action: ActionView::Readback {
                        buffer: self.copy_buffer,
                        size: self.layout.size,
                    },
                },
            ),
            (Phase::Reading, EventView::Mapped(bytes)) => if bytes.len() == self.layout.size {
                (
                    WorkerModel { phase: Phase::Saving, ..self },
                    OutcomeView {
                        messages: Seq::empty(),
                        action: ActionView::Save {
                            path: frame_path(self.frame),
                            size: (self.data.width as nat, self.data.height as nat),
                            samples: flipped_cropped(
                                bytes,
                                self.data.width as int,
                                self.data.height as int,
                                self.layout.aligned_width as int,
                            ),
                        },
                    },
                )
            } else {
                self.finished(wrong_size())
            },
            (Phase::Saving, EventView::Saved) => {
                let done = (self.frame + 1) as u32;
                let said = seq![MsgView::Info(progress_text(done, self.data.frames))];
                if done < self.data.frames {
                    (
                        WorkerModel { phase: Phase::Timing, frame: done, ..self },
                        OutcomeView {
                            messages: said,
                            action: ActionView::Clock { frame: done, rate: FPS },
                        },
                    )
                } else {
                    self.encoding(said, stamp)
                }
            },
            (Phase::Encoding, EventView::Encoded(None)) => self.finished(
                "Saved "@ + self.file_name,
            ),
            (Phase::Encoding, EventView::Encoded(Some(complaint))) => self.finished(
                "Error saving file: "@ + complaint,
            ),
            _ => self.passed_over(),
        }
    }
}

/// The time of now in UTC, written by `chrono::Utc::now` and
/// `chrono::DateTime::format` after `pattern`. Nothing is claimed of the
/// text, which is different from call to call. `requires` admits only the
/// one pattern that is used, which names nothing that the formatter fails on.
/// The outside function panics if the clock of the machine stands before
/// 1970.
#[verifier::external_body]
fn utc_now(pattern: &str) -> (stamp: String)
    requires
        pattern@ == "%Y%m%d_%H%M%S"@,
{
    chrono::Utc::now().format(pattern).to_string()
}

/// Everything the machine keeps.
struct Job {
    phase: Phase,
    data: ExportData,
    frame: u32,
    layout: ReadbackLayout,
    copy_buffer: u64,
    texture: Texture,
    compute: Compute,
    device: Device,
    file_name: String,
}

/// The machine that runs export jobs.
pub struct Worker {
    job: Job,
}

/// A step that says nothing.
fn silently(action: Action) -> (outcome: Outcome)
    ensures
        outcome@ == (OutcomeView { messages: Seq::empty(), action: action@ }),
{
    let outcome = Outcome { messages: Vec::new(), action };
    assert(msg_views(outcome.messages@) =~= Seq::<MsgView>::empty());
    outcome
}

/// A step that says one thing.
fn saying(line: String, action: Action) -> (outcome: Outcome)
    ensures
        outcome@ == (OutcomeView { messages: seq![MsgView::Info(line@)], action: action@ }),
{
    let mut messages: Vec<Msg> = Vec::new();
    messages.push(Msg::Info(line));
    assert(msg_views(messages@) =~= seq![MsgView::Info(line@)]);
    Outcome { messages, action }
}

/// The step that ends a job: one last line, then `Done`.
fn ending(last: String) -> (outcome: Outcome)
    ensures
        outcome@ == (OutcomeView {
            messages: seq![MsgView::Info(last@), MsgView::Done],
            action: ActionView::AwaitRequest,
        }),
{
    let mut messages: Vec<Msg> = Vec::new();
    messages.push(Msg::Info(last));
    messages.push(Msg::Done);
    assert(msg_views(messages@) =~= seq![MsgView::Info(last@), MsgView::Done]);
    Outcome { messages, action: Action::AwaitRequest }
}

impl Job {
    spec fn model(&self) -> WorkerModel {
        WorkerModel {
            phase: self.phase,
            data: self.data@,
            frame: self.frame,
            layout: self.layout,
            copy_buffer: self.copy_buffer,
            texture: self.texture,
            compute: self.compute,
            next_id: self.device.next_id(),
            pending: self.device.pending(),
            file_name: self.file_name@,
        }
    }

    fn idle() -> (job: Job)
        ensures
            job.model() == WorkerModel::idle(),
    {
        Job {
            phase: Phase::Waiting,
            data: ExportData { width: 0, height: 0, frames: 0, shader: String::new() },
            frame: 0,
            layout: ReadbackLayout { aligned_width: 0, bytes_per_row: 0, rows: 0, size: 0 },
            copy_buffer: 0,
            texture: Texture {
                width: 0,
                height: 0,
                format: TextureFormat::Rgba8Unorm,
                usage: TextureUsages {
                    copy_src: false,
                    copy_dst: false,
                    texture_binding: false,
                    storage_binding: false,
                },
                inner: 0,
                view: 0,
                sampler: 0,
            },
            compute: Compute {
                pipeline: 0,
                compute_shader: 0,
                data_bind_group: 0,
                data_bind_group_layout: 0,
                data_buffer: 0,
                data: crate::compute::ComputeDataUniform { width: 0, height: 0, t: 0 },
                texture_bind_group: 0,
                texture_bind_group_layout: 0,
                target: 0,
            },
            device: Device::new(),
            file_name: String::new(),
        }
    }

    /// Goes over to encoding. `said` is what the step has said so far.
    fn encode(&mut self, said: String, stamp: String) -> (outcome: Outcome)
        ensures
            (final(self).model(), outcome@) == old(self).model().encoding(
                seq![MsgView::Info(said@)],
                stamp@,
            ),
    {
        let file_name = video_file(stamp.as_str());
        let arguments = make_video(self.data.frames, file_name.as_str());
        self.phase = Phase::Encoding;
        self.file_name = file_name;
        let mut messages: Vec<Msg> = Vec::new();
        messages.push(Msg::Info(said));
        messages.push(Msg::Info(String::from_str("Converting to video")));
        assert(msg_views(messages@) =~= seq![MsgView::Info(said@)].push(
            MsgView::Info(converting()),
        ));
        Outcome {
            messages,
            action: Action::Encode { program: String::from_str("ffmpeg"), arguments },
        }
    }

    /// Ends the job with one last line.
    fn finish(&mut self, last: String) -> (outcome: Outcome)
        ensures
            (final(self).model(), outcome@) == old(self).model().finished(last@),
    {
        self.phase = Phase::Waiting;
        ending(last)
    }

    /// Passes an event over.
    fn pass_over(&self) -> (outcome: Outcome)
        ensures
            (self.model(), outcome@) == self.model().passed_over(),
    {
        match self.phase {
            Phase::Waiting => silently(Action::AwaitRequest),
            _ => silently(Action::Ignored),
        }
    }

    /// Records the creation of the buffer, the offscreen image and the
    /// compute stage on a recorder that starts from handle 0.
    fn set_up(&mut self, layout: ReadbackLayout)
        requires
            layout == layout_of(old(self).data.width, old(self).data.height),
        ensures
            final(self).model() == old(self).model().set_up(),
    {
        let mut device = Device::new();
        let copy_buffer = device.create_buffer(
            layout.size,
            BufferUsages {
                map_read: true,
                copy_dst: true,
                index: false,
                vertex: false,
                uniform: false,
            },
        );
        let texture = Texture::new(
            layout.aligned_width,
            self.data.height,
            TextureFormat::Rgba8Unorm,
            &mut device,
            TextureUsages {
                copy_src: true,
                copy_dst: false,
                texture_binding: false,
                storage_binding: true,
            },
        );
        let compute = Compute::new(&mut device, &texture, self.data.shader.as_str());
        assert(device.pending() =~= old(self).model().set_up().pending);
        self.frame = 0;
        self.layout = layout;
        self.copy_buffer = copy_buffer;
        self.texture = texture;
        self.compute = compute;
        self.device = device;
    }

    /// The copy that follows the dispatch of a frame.
    fn copy(&self) -> (copy: TextureCopy)
        ensures
            copy == self.model().copy(),
    {
        TextureCopy {
            texture: self.texture.inner,
            buffer: ImageCopyBuffer {
                buffer: self.copy_buffer,
                offset: 0,
                bytes_per_row: self.layout.bytes_per_row,
                rows_per_image: self.layout.rows,
            },
            size: Extent3d {
                width: self.layout.aligned_width,
                height: self.layout.rows,
                depth_or_array_layers: 1,
            },
        }
    }

    fn advance(&mut self, event: Event, stamp: String) -> (outcome: Outcome)
        requires
            old(self).model().wf(),
        ensures
            (final(self).model(), outcome@) == old(self).model().transition(event@, stamp@),
            final(self).model().wf(),
    {
        match (self.phase, event) {
            (Phase::Waiting, Event::Request(request)) => {
                self.phase = Phase::Acquiring;
                self.data = request;
                self.frame = 0;
                saying(String::from_str("Initlializing"), Action::AcquireDevice)
            },
            (Phase::Waiting, _) => self.pass_over(),
            (_, Event::Failed(reason)) => self.finish(reason),
            (Phase::Acquiring, Event::DeviceReady) => {
                let planned = readback_layout(self.data.width, self.data.height);
                if planned.is_some() && FrameImage::fits(self.data.width, self.data.height) {
                    self.set_up(planned.unwrap());
                    let said = starting_message(self.data.frames);
                    if self.data.frames == 0 {
                        self.encode(said, stamp)
                    } else {
                        self.phase = Phase::Timing;
                        saying(said, Action::Clock { frame: 0, rate: FPS })
                    }
                } else {
                    self.finish(String::from_str("The image is too large to export"))
                }
            },
            (Phase::Timing, Event::Clock(t)) => {
                let copy = self.copy();
                self.compute.update_time(&mut self.device, t);
                self.compute.step(&mut self.device, Some(copy));
                self.phase = Phase::Reading;
                assert(self.device.pending() =~= old(self).model().pending + seq![
                    CommandView::WriteBuffer {
                        buffer: old(self).compute.data_buffer,
                        offset: TIME_OFFSET,
                        data: Payload::Words(seq![t]),
                    },
                    old(self).compute.with_time(t).dispatch(Some(old(self).model().copy())),
                ]);
                silently(Action::Readback { buffer: self.copy_buffer, size: self.layout.size })
            },
            (Phase::Reading, Event::Mapped(bytes)) => {
                if bytes.len() as u64 == self.layout.size {
                    proof {
                        crate::export::aligned_width_is_next_multiple(self.data.width as int);
                        assert(4 * crate::export::aligned_width(self.data.width as int)
                            * self.data.height <= 0xffff_ffff * 0xffff_ffff) by (nonlinear_arith)
                            requires
                                0 <= 4 * crate::export::aligned_width(self.data.width as int)
                                    <= 0xffff_ffff,
                                0 <= self.data.height <= 0xffff_ffff,
                        ;
                    }
                    let image = FrameImage::from_readback(
                        &bytes,
                        self.data.width,
                        self.data.height,
                        self.layout.aligned_width,
                    );
                    self.phase = Phase::Saving;
                    silently(Action::Save { path: frame_file(self.frame), image })
                } else {
                    self.finish(
                        String::from_str("The frame that was read back has the wrong size"),
                    )
                }
            },
            (Phase::Saving, Event::Saved) => {
                let done = self.frame + 1;
                let said = progress_message(done, self.data.frames);
                if done < self.data.frames {
                    self.phase = Phase::Timing;
                    self.frame = done;
                    saying(said, Action::Clock { frame: done, rate: FPS })
                } else {
                    self.encode(said, stamp)
                }
            },
            (Phase::Encoding, Event::Encoded(None)) => {
                let last = String::from_str("Saved ").concat(self.file_name.as_str());
                self.finish(last)
            },
            (Phase::Encoding, Event::Encoded(Some(complaint))) => {
                let last = String::from_str("Error saving file: ").concat(complaint.as_str());
                self.finish(last)
            },
            _ => self.pass_over(),
        }
    }
}

impl Worker {
    #[verifier::type_invariant]
    spec fn sound(self) -> bool {
        self.job.model().wf()
    }

    /// The state of the machine.
    pub closed spec fn model(&self) -> WorkerModel {
        self.job.model()
    }

    /// A machine that waits for its first request.
    pub fn new() -> (worker: Worker)
        ensures
            worker.model() == WorkerModel::idle(),
            worker.model().wf(),
    {
        Worker { job: Job::idle() }
    }

    /// Where the job stands.
    pub fn phase(&self) -> (phase: Phase)
        ensures
            phase == self.model().phase,
    {
        self.job.phase
    }

    /// Whether a job runs.
    pub fn state(&self) -> (state: State)
        ensures
            state == state_of(self.model().phase),
    {
        match self.job.phase {
            Phase::Waiting => State::Waiting,
            _ => State::Generating,
        }
    }

    /// Hands the recorded GPU commands to the host, to run on the context of
    /// the job.
    pub fn take_commands(&mut self) -> (taken: Vec<Command>)
        ensures
            all_encoded(old(self).model().pending, taken@),
            final(self).model() == (WorkerModel {
                pending: Seq::<CommandView>::empty(),
                ..old(self).model()
            }),
    {
        let mut held = Worker::new();
        std::mem::swap(self, &mut held);
        proof {
            use_type_invariant(&held);
        }
        let Worker { job } = held;
        let mut job = job;
        let taken = job.device.take_commands();
        *self = Worker { job };
        taken
    }

    /// One step of the machine, taken now: the clock is read for the name of
    /// the video in case this step calls the encoder.
    pub fn step(&mut self, event: Event) -> (outcome: Outcome)
        ensures
            final(self).model().wf(),
            exists|stamp: Seq<char>|
                (final(self).model(), outcome@) == #[trigger] old(self).model().transition(
                    event@,
                    stamp,
                ),
    {
        let stamp = utc_now("%Y%m%d_%H%M%S");
        let outcome = self.advance(event, stamp);
        proof {
            use_type_invariant(&*self);
        }
        outcome
    }

    /// One step of the machine, taken at the time that `stamp` tells.
    pub fn advance(&mut self, event: Event, stamp: String) -> (outcome: Outcome)
        ensures
            (final(self).model(), outcome@) == old(self).model().transition(event@, stamp@),
    {
        let mut held = Worker::new();
        std::mem::swap(self, &mut held);
        proof {
            use_type_invariant(&held);
        }
        let Worker { job } = held;
        let mut job = job;
        let outcome = job.advance(event, stamp);
        *self = Worker { job };
        outcome
    }
}

impl WorkerModel {
    /// The state and everything said after the machine took `events` one
    /// after the other; step `i` was taken at the time `stamps(i)`.
    pub open spec fn run(self, events: Seq<EventView>, stamps: spec_fn(int) -> Seq<char>) -> (
        WorkerModel,
        Seq<MsgView>,
    )
        decreases events.len(),
    {
        if events.len() == 0 {
            (self, Seq::empty())
        } else {
            let (before, said) = self.run(events.drop_last(), stamps);
            let (after, outcome) = before.transition(events.last(), stamps(events.len() - 1));
            (after, said + outcome.messages)
        }
    }
}

impl WorkerModel {
    /// The state after the host has gone through one frame for every entry
    /// of `times`: it told the time, handed over the frame in `frames` and
    /// wrote the file.
    pub open spec fn after_frames(
        self,
        times: Seq<u32>,
        frames: Seq<Seq<u8>>,
        stamp: Seq<char>,
    ) -> WorkerModel
        decreases times.len(),
    {
        if times.len() == 0 {
            self
        } else {
            let before = self.after_frames(times.drop_last(), frames.drop_last(), stamp);
            let timed = before.transition(EventView::Clock(times.last()), stamp).0;
            let read = timed.transition(EventView::Mapped(frames.last()), stamp).0;
            read.transition(EventView::Saved, stamp).0
        }
    }

    /// The files that the host was asked to write on the way, in order.
    pub open spec fn files_of_frames(
        self,
        times: Seq<u32>,
        frames: Seq<Seq<u8>>,
        stamp: Seq<char>,
    ) -> Seq<Seq<char>>
        decreases times.len(),
    {
        if times.len() == 0 {
            Seq::empty()
        } else {
            let before = self.after_frames(times.drop_last(), frames.drop_last(), stamp);
            let timed = before.transition(EventView::Clock(times.last()), stamp).0;
            let asked = timed.transition(EventView::Mapped(frames.last()), stamp).1.action;
            self.files_of_frames(times.drop_last(), frames.drop_last(), stamp).push(
                match asked {
                    ActionView::Save { path, .. } => path,
                    _ => Seq::empty(),
                },
            )
        }
    }
}

/// A job writes its frames in order and numbers the files from 1: after the
/// first `k` frames the files written are those of the frames 0 to `k - 1`,
/// the machine is at frame `k`, and it calls the encoder exactly when `k`
/// is the number of frames of the job.
pub proof fn files_are_numbered_from_one(
    start: WorkerModel,
    times: Seq<u32>,
    frames: Seq<Seq<u8>>,
    stamp: Seq<char>,
)
    requires
        start.wf(),
        start.phase == Phase::Timing,
        start.frame == 0,
        times.len() == frames.len(),
        times.len() <= start.data.frames,
        forall|i: int| 0 <= i < frames.len() ==> (#[trigger] frames[i]).len() == start.layout.size,
    ensures
        ({
            let end = start.after_frames(times, frames, stamp);
            let files = start.files_of_frames(times, frames, stamp);
            &&& files.len() == times.len()
            &&& forall|i: int| 0 <= i < files.len() ==> #[trigger] files[i] == frame_path(i as u32)
            &&& end.data == start.data
            &&& end.layout == start.layout
            &&& end.wf()
            &&& times.len() < start.data.frames ==> end.phase == Phase::Timing && end.frame
                == times.len()
            &&& times.len() == start.data.frames ==> end.phase == Phase::Encoding
        }),
    decreases times.len(),
{
    if times.len() > 0 {
        let fewer_times = times.drop_last();
        let fewer_frames = frames.drop_last();
        assert forall|i: int| 0 <= i < fewer_frames.len() implies (#[trigger] fewer_frames[i]).len()
            == start.layout.size by {
            assert(fewer_frames[i] == frames[i]);
        }
        files_are_numbered_from_one(start, fewer_times, fewer_frames, stamp);
        let before = start.after_frames(fewer_times, fewer_frames, stamp);
        frames_are_written_in_order(before, times.last(), frames.last(), stamp);
    }
}

/// A step keeps the state sound.
pub proof fn step_keeps_state_sound(before: WorkerModel, event: EventView, stamp: Seq<char>)
    requires
        before.wf(),
    ensures
        before.transition(event, stamp).0.wf(),
{
}

/// While a job runs a request is passed over: the state stays as it is,
/// nothing is said and nothing is started.
pub proof fn request_waits_for_the_job_to_end(
    before: WorkerModel,
    data: ExportDataView,
    stamp: Seq<char>,
)
    requires
        before.phase != Phase::Waiting,
    ensures
        before.transition(EventView::Request(data), stamp) == (
            before,
            OutcomeView { messages: Seq::empty(), action: ActionView::Ignored },
        ),
{
}

/// `Done` is said exactly by the step that ends a job, and it is the last
/// thing that step says. A machine that waits says nothing, except that it
/// greets the request it takes.
pub proof fn done_ends_the_job(before: WorkerModel, event: EventView, stamp: Seq<char>)
    ensures
        ({
            let (after, outcome) = before.transition(event, stamp);
            let said = outcome.messages;
            &&& said.contains(MsgView::Done) <==> before.phase != Phase::Waiting && after.phase
                == Phase::Waiting
            &&& forall|i: int| 0 <= i < said.len() - 1 ==> said[i] is Info
            &&& said.contains(MsgView::Done) ==> said.last() == MsgView::Done && outcome.action
                == ActionView::AwaitRequest
            &&& before.phase == Phase::Waiting ==> {
                ||| said.len() == 0 && after == before
                ||| event is Request && said == seq![MsgView::Info(greeting())] && after.phase
                    == Phase::Acquiring
            }
            &&& before.phase != Phase::Waiting && after.phase != Phase::Waiting ==> forall|i: int|
                0 <= i < said.len() ==> said[i] is Info
        }),
{
    let (after, outcome) = before.transition(event, stamp);
    let said = outcome.messages;
    if said.len() == 2 && said[1] == MsgView::Done {
        assert(said.contains(MsgView::Done));
    }
}

/// Jobs never overlap. Whatever happens to a machine that started out
/// waiting, it waits if and only if nothing was said yet or the last thing
/// said was `Done`. So when a request is taken, everything the job before
/// it had to say lies before it, its `Done` last; and the first line of the
/// new job comes after that `Done`.
pub proof fn jobs_never_overlap(
    start: WorkerModel,
    events: Seq<EventView>,
    stamps: spec_fn(int) -> Seq<char>,
)
    requires
        start.phase == Phase::Waiting,
    ensures
        ({
            let (end, said) = start.run(events, stamps);
            end.phase == Phase::Waiting <==> said.len() == 0 || said.last() == MsgView::Done
        }),
    decreases events.len(),
{
    if events.len() > 0 {
        jobs_never_overlap(start, events.drop_last(), stamps);
        let (before, said) = start.run(events.drop_last(), stamps);
        let stamp = stamps(events.len() - 1);
        done_ends_the_job(before, events.last(), stamp);
        let (after, outcome) = before.transition(events.last(), stamp);
        let all = said + outcome.messages;
        if outcome.messages.len() > 0 {
            assert(all.last() == outcome.messages.last());
            if after.phase != Phase::Waiting {
                assert(outcome.messages[outcome.messages.len() - 1] is Info);
            } else {
                assert(outcome.messages.contains(MsgView::Done));
            }
        } else {
            assert(all =~= said);
        }
    }
}

/// The first line of a job comes right after the `Done` of the job before
/// it: when a machine that has run a job takes the next request, the last
/// thing said so far is `Done`, and the greeting of the new job is the next
/// thing said.
pub proof fn next_job_speaks_after_done(
    start: WorkerModel,
    events: Seq<EventView>,
    stamps: spec_fn(int) -> Seq<char>,
    data: ExportDataView,
)
    requires
        start.phase == Phase::Waiting,
        start.run(events, stamps).0.phase == Phase::Waiting,
        start.run(events, stamps).1.len() > 0,
    ensures
        ({
            let said = start.run(events, stamps).1;
            let all = start.run(events.push(EventView::Request(data)), stamps).1;
            &&& all.len() == said.len() + 1
            &&& all[said.len() - 1] == MsgView::Done
            &&& all[said.len() as int] == MsgView::Info(greeting())
            &&& start.run(events.push(EventView::Request(data)), stamps).0.phase
                == Phase::Acquiring
        }),
{
    jobs_never_overlap(start, events, stamps);
    let longer = events.push(EventView::Request(data));
    assert(longer.drop_last() =~= events);
}

/// One frame of a job: told the time and handed a frame of the right size,
/// the machine records the write of the time and the dispatch with the copy,
/// has the frame written to the file numbered one above the frame's index,
/// and reports one more frame written. Then it goes on with the next frame,
/// or calls the encoder if that was the last one.
pub proof fn frames_are_written_in_order(
    before: WorkerModel,
    t: u32,
    bytes: Seq<u8>,
    stamp: Seq<char>,
)
    requires
        before.wf(),
        before.phase == Phase::Timing,
        bytes.len() == before.layout.size,
    ensures
        ({
            let (timed, asked) = before.transition(EventView::Clock(t), stamp);
            let (read, save) = timed.transition(EventView::Mapped(bytes), stamp);
            let (saved, told) = read.transition(EventView::Saved, stamp);
            &&& asked.action == ActionView::Readback {
                buffer: before.copy_buffer,
                size: before.layout.size,
            }
            &&& timed.pending.last() == before.compute.with_time(t).dispatch(Some(before.copy()))
            &&& save.action matches ActionView::Save { path, size, .. } && path == frame_path(
                before.frame,
            ) && size == (before.data.width as nat, before.data.height as nat)
            &&& told.messages[0] == MsgView::Info(
                progress_text((before.frame + 1) as u32, before.data.frames),
            )
            &&& before.frame + 1 < before.data.frames ==> saved.phase == Phase::Timing
                && saved.frame == before.frame + 1 && told.action == ActionView::Clock {
                frame: (before.frame + 1) as u32,
                rate: FPS,
            }
            &&& before.frame + 1 == before.data.frames ==> saved.phase == Phase::Encoding
                && told.action is Encode
        }),
{
}

} // verus!
