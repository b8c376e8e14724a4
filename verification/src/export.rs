//! Export of an animation: what the user asks for, what the panel shows
//! while a job runs, and the numbers and texts of a job.
//!
//! A job renders its frames one after the other at a fixed rate, writes each
//! as a numbered still image and has an encoder turn the stills into a video.
//! The job itself is run by [`crate::worker::Worker`].

use crate::text::decimal;
use crate::text::to_decimal;
use vstd::prelude::*;
use vstd::string::StringExecFns;

verus! {

/// Frames per second of an exported animation.
pub const FPS: u32 = 60;

/// Rows of a buffer that receives an image start at multiples of this many
/// texels.
pub const ROW_ALIGNMENT: u32 = 64;

/// What one export job is asked to render.
#[derive(Clone, Debug, PartialEq, Eq)]
pub struct ExportData {
    pub width: u32,
    pub height: u32,
    /// Length of the animation in frames: the duration in seconds times
    /// [`FPS`], rounded to the nearest whole number.
    pub frames: u32,
    /// The shader, as the catalog knows it.
    pub shader: String,
}

/// The mathematical value of an [`ExportData`].
pub struct ExportDataView {
    pub width: u32,
    pub height: u32,
    pub frames: u32,
    pub shader: Seq<char>,
}

impl View for ExportData {
    type V = ExportDataView;

    open spec fn view(&self) -> ExportDataView {
        ExportDataView {
            width: self.width,
            height: self.height,
            frames: self.frames,
            shader: self.shader@,
        }
    }
}

impl ExportData {
    /// A copy of the request.
    pub fn duplicate(&self) -> (copy: ExportData)
        ensures
            copy@ == self@,
    {
        ExportData {
            width: self.width,
            height: self.height,
            frames: self.frames,
            shader: self.shader.clone(),
        }
    }
}

/// Whether an export job is running.
#[derive(Clone, Copy, Debug, PartialEq, Eq, Structural)]
pub enum State {
    Waiting,
    Generating,
}

/// What a running job tells the panel: any number of progress lines, then
/// `Done` exactly once.
#[derive(Clone, Debug, PartialEq, Eq)]
pub enum Msg {
    Info(String),
    Done,
}

/// The mathematical value of a [`Msg`].
pub enum MsgView {
    Info(Seq<char>),
    Done,
}

impl View for Msg {
    type V = MsgView;

    open spec fn view(&self) -> MsgView {
        match *self {
            Msg::Info(text) => MsgView::Info(text@),
            Msg::Done => MsgView::Done,
        }
    }
}

/// The values of a list of messages, in the same order.
pub open spec fn msg_views(messages: Seq<Msg>) -> Seq<MsgView> {
    messages.map_values(|m: Msg| m@)
}

/// The export panel: the request that the user is editing, whether a job
/// runs, and the last progress line of the job.
#[derive(Clone, Debug, PartialEq, Eq)]
pub struct Export {
    pub data: ExportData,
    pub state: State,
    pub thread_msg: String,
}

/// The mathematical value of an [`Export`].
pub struct ExportView {
    pub data: ExportDataView,
    pub state: State,
    pub thread_msg: Seq<char>,
}

impl View for Export {
    type V = ExportView;

    open spec fn view(&self) -> ExportView {
        ExportView { data: self.data@, state: self.state, thread_msg: self.thread_msg@ }
    }
}

impl ExportView {
    /// The panel after one frame in which the user clicked the export button
    /// or not, and the job had `polled` to say or nothing.
    ///
    /// While no job runs only the button counts: a click starts a job. While
    /// a job runs only its messages count: a progress line is kept for
    /// display, `Done` ends the job.
    pub open spec fn after_frame(self, clicked: bool, polled: Option<MsgView>) -> ExportView {
        match self.state {
            State::Waiting => if clicked {
                ExportView { state: State::Generating, ..self }
            } else {
                self
            },
            State::Generating => match polled {
                Some(MsgView::Info(text)) => ExportView { thread_msg: text, ..self },
                Some(MsgView::Done) => ExportView { state: State::Waiting, ..self },
                None => self,
            },
        }
    }

    /// The request that the panel sends in such a frame: the one being edited,
    /// if the button was clicked while no job ran, and none otherwise.
    pub open spec fn sent(self, clicked: bool) -> Option<ExportDataView> {
        if self.state == State::Waiting && clicked {
            Some(self.data)
        } else {
            None
        }
    }
}

impl Export {
    /// A panel with no job running and a request for 800 by 800 pixels and
    /// five seconds of the given shader.
    pub fn new(shader: String) -> (export: Export)
        ensures
            export@ == (ExportView {
                data: ExportDataView { width: 800, height: 800, frames: 300, shader: shader@ },
                state: State::Waiting,
                thread_msg: Seq::<char>::empty(),
            }),
    {
        Export {
            data: ExportData { width: 800, height: 800, frames: 300, shader },
            state: State::Waiting,
            thread_msg: String::new(),
        }
    }

    /// Makes later requests use another shader.
    pub fn set_shader(&mut self, shader: String)
        ensures
            final(self)@ == (ExportView {
                data: ExportDataView { shader: shader@, ..old(self)@.data },
                ..old(self)@
            }),
    {
        self.data.shader = shader;
    }

    /// Makes later requests ask for another resolution.
    pub fn set_resolution(&mut self, width: u32, height: u32)
        ensures
            final(self)@ == (ExportView {
                data: ExportDataView { width, height, ..old(self)@.data },
                ..old(self)@
            }),
    {
        self.data.width = width;
        self.data.height = height;
    }

    /// Makes later requests ask for another number of frames.
    pub fn set_frames(&mut self, frames: u32)
        ensures
            final(self)@ == (ExportView {
                data: ExportDataView { frames, ..old(self)@.data },
                ..old(self)@
            }),
    {
        self.data.frames = frames;
    }

    /// One frame of the panel. `clicked` says whether the user clicked the
    /// export button, `polled` is what the job had to say, if anything. The
    /// result is the request to hand to the job, if one starts now.
    pub fn render_save_ui(&mut self, clicked: bool, polled: Option<Msg>) -> (request: Option<
        ExportData,
    >)
        ensures
            final(self)@ == old(self)@.after_frame(
                clicked,
                match polled {
                    Some(m) => Some(m@),
                    None => None,
                },
            ),
            match request {
                Some(data) => old(self)@.sent(clicked) == Some(data@),
                None => old(self)@.sent(clicked) is None,
            },
    {
        match self.state {
            State::Waiting => {
                if clicked {
                    self.state = State::Generating;
                    Some(self.data.duplicate())
                } else {
                    None
                }
            },
            State::Generating => {
                match polled {
                    Some(Msg::Info(text)) => {
                        self.thread_msg = text;
                    },
                    Some(Msg::Done) => {
                        self.state = State::Waiting;
                    },
                    None => {},
                }
                None
            },
        }
    }
}

/// While a job runs the panel starts no other: whatever the user clicks, no
/// request is sent, and the panel only leaves that state when the job says
/// `Done`.
pub proof fn one_job_at_a_time(panel: ExportView, clicked: bool, polled: Option<MsgView>)
    requires
        panel.state == State::Generating,
    ensures
        panel.sent(clicked) is None,
        panel.after_frame(clicked, polled).state == State::Waiting <==> polled == Some(
            MsgView::Done,
        ),
        panel.after_frame(clicked, polled).data == panel.data,
{
}

/// A click while no job runs sends exactly the request on the panel, and a
/// second click in the next frame sends nothing.
pub proof fn second_click_sends_nothing(panel: ExportView, polled: Option<MsgView>)
    requires
        panel.state == State::Waiting,
    ensures
        panel.sent(true) == Some(panel.data),
        panel.after_frame(true, polled).state == State::Generating,
        panel.after_frame(true, polled).sent(true) is None,
{
}

/// `width` rounded up to the next multiple of [`ROW_ALIGNMENT`].
pub open spec fn aligned_width(width: int) -> int {
    width + (64 - width % 64) % 64
}

/// How a frame lies in the buffer that it is copied to.
#[derive(Clone, Copy, Debug, PartialEq, Eq, Structural)]
pub struct ReadbackLayout {
    /// Texels per row, padding included.
    pub aligned_width: u32,
    /// Bytes per row, padding included.
    pub bytes_per_row: u32,
    /// Number of rows.
    pub rows: u32,
    /// Bytes in all.
    pub size: u64,
}

/// Whether a row of an image of this width, padded, still has a length in
/// bytes that the GPU can be told.
pub open spec fn layout_fits(width: int) -> bool {
    4 * aligned_width(width) <= u32::MAX
}

/// The layout of a frame of `width` by `height` texels of four bytes.
pub open spec fn layout_of(width: u32, height: u32) -> ReadbackLayout {
    ReadbackLayout {
        aligned_width: aligned_width(width as int) as u32,
        bytes_per_row: (4 * aligned_width(width as int)) as u32,
        rows: height,
        size: (4 * aligned_width(width as int) * height) as u64,
    }
}

/// The padded width is the least multiple of 64 that is not below the width.
pub proof fn aligned_width_is_next_multiple(width: int)
    requires
        0 <= width,
    ensures
        aligned_width(width) % 64 == 0,
        width <= aligned_width(width) < width + 64,
        width % 64 == 0 ==> aligned_width(width) == width,
{
}

/// Works out how a frame of `width` by `height` lies in the buffer it is
/// copied to, or finds that its rows are too long.
pub fn readback_layout(width: u32, height: u32) -> (layout: Option<ReadbackLayout>)
    ensures
        layout == if layout_fits(width as int) {
            Some(layout_of(width, height))
        } else {
            None::<ReadbackLayout>
        },
{
    let padding: u32 = (ROW_ALIGNMENT - width % ROW_ALIGNMENT) % ROW_ALIGNMENT;
    let aligned: u64 = width as u64 + padding as u64;
    if aligned > (u32::MAX / 4) as u64 {
        return None;
    }
    let bytes_per_row: u64 = 4 * aligned;
    assert(bytes_per_row * height <= 0xffff_ffff * 0xffff_ffff) by (nonlinear_arith)
        requires
            bytes_per_row <= 0xffff_ffff,
            height <= 0xffff_ffff,
    ;
    Some(
        ReadbackLayout {
            aligned_width: aligned as u32,
            bytes_per_row: bytes_per_row as u32,
            rows: height,
            size: bytes_per_row * height as u64,
        },
    )
}

/// The progress line of a job that sets out to render `frames` frames.
pub open spec fn starting_text(frames: u32) -> Seq<char> {
    "Starting to render "@ + decimal(frames as nat) + " frames"@
}

/// The progress line after `done` of `frames` frames are written.
pub open spec fn progress_text(done: u32, frames: u32) -> Seq<char> {
    "Rendered frame "@ + decimal(done as nat) + "/"@ + decimal(frames as nat)
}

/// The file of the frame with index `frame`, counted from 0: files are
/// numbered from 1.
pub open spec fn frame_path(frame: u32) -> Seq<char> {
    "output/tmp/image_"@ + decimal((frame + 1) as nat) + ".png"@
}

/// The file of the video of a job that was encoded at the time `stamp`.
pub open spec fn video_path(stamp: Seq<char>) -> Seq<char> {
    "output/"@ + stamp + ".mp4"@
}

/// What the encoder is called with: frame rate in and out, the numbered
/// stills, the codec, the number of frames and the file of the video.
pub open spec fn encoder_arguments(frames: u32, file_name: Seq<char>) -> Seq<Seq<char>> {
    seq![
        "-framerate"@,
        decimal(FPS as nat),
        "-i"@,
        "output/tmp/image_%d.png"@,
        "-c:v"@,
        "libx264"@,
        "-r"@,
        decimal(FPS as nat),
        "-frames:v"@,
        decimal(frames as nat),
        file_name,
    ]
}

/// The values of a list of strings, in the same order.
pub open spec fn string_views(strings: Seq<String>) -> Seq<Seq<char>> {
    strings.map_values(|s: String| s@)
}

/// Writes the progress line of a job that sets out to render `frames` frames.
pub fn starting_message(frames: u32) -> (text: String)
    ensures
        text@ == starting_text(frames),
{
    let count = to_decimal(frames as u64);
    String::from_str("Starting to render ").concat(count.as_str()).concat(" frames")
}

/// Writes the progress line after `done` of `frames` frames are written.
pub fn progress_message(done: u32, frames: u32) -> (text: String)
    ensures
        text@ == progress_text(done, frames),
{
    let done_text = to_decimal(done as u64);
    let frames_text = to_decimal(frames as u64);
    String::from_str("Rendered frame ").concat(done_text.as_str()).concat("/").concat(
        frames_text.as_str(),
    )
}

/// Names the file of the frame with index `frame`, counted from 0.
pub fn frame_file(frame: u32) -> (path: String)
    ensures
        path@ == frame_path(frame),
{
    let number = to_decimal(frame as u64 + 1);
    String::from_str("output/tmp/image_").concat(number.as_str()).concat(".png")
}

/// Names the file of the video of a job that was encoded at the time `stamp`.
pub fn video_file(stamp: &str) -> (path: String)
    ensures
        path@ == video_path(stamp@),
{
    String::from_str("output/").concat(stamp).concat(".mp4")
}

/// Lists what the encoder is called with to turn the stills of `frames`
/// frames into the video `file_name`.
pub fn make_video(frames: u32, file_name: &str) -> (arguments: Vec<String>)
    ensures
        string_views(arguments@) == encoder_arguments(frames, file_name@),
{
    let mut arguments: Vec<String> = Vec::new();
    arguments.push(String::from_str("-framerate"));
    arguments.push(to_decimal(FPS as u64));
    arguments.push(String::from_str("-i"));
    arguments.push(String::from_str("output/tmp/image_%d.png"));
    arguments.push(String::from_str("-c:v"));
    arguments.push(String::from_str("libx264"));
    arguments.push(String::from_str("-r"));
    arguments.push(to_decimal(FPS as u64));
    arguments.push(String::from_str("-frames:v"));
    arguments.push(to_decimal(frames as u64));
    arguments.push(String::from_str(file_name));
    assert(string_views(arguments@) =~= encoder_arguments(frames, file_name@));
    arguments
}

} // verus!
