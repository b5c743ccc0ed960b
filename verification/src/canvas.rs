use vstd::prelude::*;
use crate::raster::Image;

verus! {

/// Number of particles the field starts with.
pub const STARTING_NUM_PARTICLES: usize = 10000;

/// Mean lifetime, in frames, of the particles the field is seeded with: each
/// lifetime is drawn from `0..2 * AVG_LIFETIME`.
pub const AVG_LIFETIME: i32 = 200;

/// Upper bound on the particle count that a new canvas starts with.
pub const DEFAULT_MAX_PARTICLES: u32 = 30000;

/// Field function the canvas starts with.
pub const DEFAULT_FUNCTION: &'static str = "(
100*abs(sin(r/t))*sin(t)
,
100*sin(r/t)*cos(t)
)";

/// A message to the animation canvas. `F` is the handle of an uploaded file.
pub enum Msg<F> {
    Init,
    Render,
    RandomFunction,
    UpdateFunc(String),
    ImageUploaded(F),
    ImageLoaded(Vec<u8>, u32, u32),
    RemoveImage,
    UpdateMaxParticles(u32),
    ToggleBugFix,
    ToggleFastImage,
    ToggleUiVisibility,
    StartVideoRecording,
    StopVideoRecording,
    RecordingSaved,
}

/// The outside work a message asks of the page after the canvas state has
/// been updated.
pub enum Effect<F> {
    /// Cancel the pending animation frame, rebuild the drawing contexts and the
    /// pixel buffer, clear the canvas, seed a fresh particle field, restart the
    /// clocks and ask for a frame.
    Restart,
    /// Move and draw every particle, and every half second adjust the particle
    /// count to the frame rate.
    DrawFrame,
    /// Search for a random field function that moves enough sample points.
    SearchFunction,
    /// Interpret the field function text now stored in the state, and report
    /// the outcome with `record_interpretation`.
    InterpretFunction,
    /// Read the uploaded file and decode it into an image.
    ReadImage(F),
    /// Send `Init` once the page has remounted the canvas.
    ScheduleRestart,
    /// Start capturing the canvas into a video.
    StartRecorder,
    /// Stop the video capture; the saved file arrives with `RecordingSaved`.
    StopRecorder,
    /// Drop the recorder and its callbacks.
    ReleaseRecorder,
    /// Nothing to do.
    Nothing,
}

/// What the canvas answers to a message: whether the view is to be drawn
/// again (`None` where the outside work decides it), and the outside work.
pub struct Reply<F> {
    pub rerender: Option<bool>,
    pub effect: Effect<F>,
}

/// The state of the animation canvas that its decisions read and write.
pub struct CanvasState {
    pub image: Option<Image>,
    pub bug_fix_enabled: bool,
    pub fast_image_mode: bool,
    pub ui_visible: bool,
    pub recording: bool,
    pub max_particles: u32,
    pub func_string: String,
    pub func_error_message: String,
    pub frame_counter: usize,
}

/// The canvas state as values: the image as its bytes and size.
pub struct CanvasModel {
    pub image: Option<(Seq<u8>, u32, u32)>,
    pub bug_fix_enabled: bool,
    pub fast_image_mode: bool,
    pub ui_visible: bool,
    pub recording: bool,
    pub max_particles: u32,
    pub func_string: Seq<char>,
    pub func_error_message: Seq<char>,
    pub frame_counter: nat,
}

impl View for CanvasState {
    type V = CanvasModel;

    open spec fn view(&self) -> CanvasModel {
        CanvasModel {
            image: match self.image {
                Some(img) => Some((img.data@, img.width, img.height)),
                None => None,
            },
            bug_fix_enabled: self.bug_fix_enabled,
            fast_image_mode: self.fast_image_mode,
            ui_visible: self.ui_visible,
            recording: self.recording,
            max_particles: self.max_particles,
            func_string: self.func_string@,
            func_error_message: self.func_error_message@,
            frame_counter: self.frame_counter as nat,
        }
    }
}

impl CanvasModel {
    /// The state after the canvas has handled `msg`.
    pub open spec fn next<F>(self, msg: Msg<F>) -> CanvasModel {
        match msg {
            Msg::Init => CanvasModel { frame_counter: 0, ..self },
            Msg::Render => CanvasModel { frame_counter: self.frame_counter + 1, ..self },
            Msg::UpdateFunc(s) => CanvasModel { func_string: s@, ..self },
            Msg::ImageLoaded(raw, w, h) => CanvasModel { image: Some((raw@, w, h)), ..self },
            Msg::RemoveImage => CanvasModel { image: None, ..self },
            Msg::UpdateMaxParticles(n) => CanvasModel { max_particles: n, ..self },
            Msg::ToggleBugFix => if self.recording {
                self
            } else {
                CanvasModel { bug_fix_enabled: !self.bug_fix_enabled, ..self }
            },
            Msg::ToggleFastImage => CanvasModel { fast_image_mode: !self.fast_image_mode, ..self },
            Msg::ToggleUiVisibility => CanvasModel { ui_visible: !self.ui_visible, ..self },
            Msg::StartVideoRecording => CanvasModel { recording: true, ..self },
            Msg::StopVideoRecording => CanvasModel { recording: false, ..self },
            Msg::RandomFunction => self,
            Msg::ImageUploaded(_) => self,
            Msg::RecordingSaved => self,
        }
    }

    /// What the canvas answers to `msg` in this state.
    pub open spec fn reply<F>(self, msg: Msg<F>) -> Reply<F> {
        match msg {
            Msg::Init => Reply { rerender: Some(true), effect: Effect::Restart },
            Msg::Render => Reply { rerender: None, effect: Effect::DrawFrame },
            Msg::RandomFunction => Reply { rerender: Some(false), effect: Effect::SearchFunction },
            Msg::UpdateFunc(_) => Reply { rerender: Some(false), effect: Effect::InterpretFunction },
            Msg::ImageUploaded(f) => Reply { rerender: Some(false), effect: Effect::ReadImage(f) },
            Msg::ImageLoaded(_, _, _) => Reply { rerender: Some(true), effect: Effect::Nothing },
            Msg::RemoveImage => Reply { rerender: Some(true), effect: Effect::Nothing },
            Msg::UpdateMaxParticles(_) => Reply { rerender: Some(true), effect: Effect::Nothing },
            Msg::ToggleBugFix => if self.recording {
                Reply { rerender: Some(false), effect: Effect::Nothing }
            } else {
                Reply { rerender: Some(true), effect: Effect::ScheduleRestart }
            },
            Msg::ToggleFastImage => Reply { rerender: Some(true), effect: Effect::Nothing },
            Msg::ToggleUiVisibility => Reply { rerender: Some(true), effect: Effect::Nothing },
            Msg::StartVideoRecording => Reply { rerender: Some(true), effect: Effect::StartRecorder },
            Msg::StopVideoRecording => Reply { rerender: Some(true), effect: Effect::StopRecorder },
            Msg::RecordingSaved => Reply { rerender: Some(false), effect: Effect::ReleaseRecorder },
        }
    }
}

/// The particle count to aim for: a thousand more than the current count
/// scaled by the frame-rate ratio (`scaled`), but no more than `max_particles`.
pub open spec fn target_count(scaled: int, max_particles: int) -> int {
    if 1000 + scaled <= max_particles {
        1000 + scaled
    } else {
        max_particles
    }
}

/// The target count is the smaller of `1000 + scaled` and the cap.
pub proof fn lemma_target_count_is_min(scaled: int, max_particles: int)
    ensures
        target_count(scaled, max_particles) <= max_particles,
        target_count(scaled, max_particles) <= 1000 + scaled,
        target_count(scaled, max_particles) == 1000 + scaled || target_count(scaled, max_particles)
            == max_particles,
{
}

/// `min(1000 + scaled, max_particles)`.
pub fn target_particle_count(scaled: usize, max_particles: u32) -> (n: usize)
    requires
        scaled <= usize::MAX - 1000,
    ensures
        n == target_count(scaled as int, max_particles as int),
        n <= max_particles,
        n <= 1000 + scaled,
        n == 1000 + scaled || n == max_particles,
{
    let wanted = 1000 + scaled;
    let max = max_particles as usize;
    if wanted <= max {
        wanted
    } else {
        max
    }
}

/// `c` is an ASCII decimal digit.
pub open spec fn is_decimal_digit(c: char) -> bool {
    '0' <= c <= '9'
}

/// The number that the decimal digits `d` spell, most significant first.
pub open spec fn decimal_value(d: Seq<char>) -> nat
    decreases d.len(),
{
    if d.len() == 0 {
        0
    } else {
        decimal_value(d.drop_last()) * 10 + ((d.last() as int - '0' as int) as nat)
    }
}

/// Every character of `d` is an ASCII decimal digit.
pub open spec fn all_decimal_digits(d: Seq<char>) -> bool {
    forall|i: int| 0 <= i < d.len() ==> is_decimal_digit(#[trigger] d[i])
}

/// The text with one leading `+` taken off, if it has one.
pub open spec fn without_plus(text: Seq<char>) -> Seq<char> {
    if text.len() > 0 && text[0] == '+' {
        text.drop_first()
    } else {
        text
    }
}

/// What `u32`'s `FromStr` reads from a text: an optional `+`, then one or
/// more ASCII digits whose value is at most `u32::MAX`; anything else (an empty
/// text, a sign alone, another character, a value that does not fit) is no
/// number.
pub open spec fn decimal_u32(text: Seq<char>) -> Option<u32> {
    let d = without_plus(text);
    if d.len() > 0 && all_decimal_digits(d) && decimal_value(d) <= u32::MAX {
        Some(decimal_value(d) as u32)
    } else {
        None
    }
}

/// `text.parse::<u32>()`, its error dropped.
/// Claimed, as std documents for the integer `from_str`: the text is a number
/// exactly when it is an optional `+` followed by one or more ASCII digits
/// whose value fits in a `u32`, and the result is that value.
#[verifier::external_body]
fn parse_u32(text: &str) -> (r: Option<u32>)
    ensures
        r == decimal_u32(text@),
{
    text.parse::<u32>().ok()
}

/// The particle cap the max-particles field asks for: the number its text
/// holds, zero when it is empty, and otherwise the cap as it was.
pub open spec fn cap_from_field(text: Seq<char>, current: u32) -> u32 {
    match decimal_u32(text) {
        Some(n) => n,
        None => if text.len() == 0 {
            0
        } else {
            current
        },
    }
}

/// The cap that the text `text` of the max-particles field asks for, when the
/// cap is `current`.
pub fn max_particles_from_input(text: &str, current: u32) -> (n: u32)
    ensures
        n == cap_from_field(text@, current),
{
    match parse_u32(text) {
        Some(n) => n,
        None => if text.is_empty() {
            0
        } else {
            current
        },
    }
}

impl CanvasState {
    /// The state of a freshly created canvas.
    pub fn new() -> (s: CanvasState)
        ensures
            s@.image is None,
            !s@.bug_fix_enabled,
            s@.fast_image_mode,
            s@.ui_visible,
            !s@.recording,
            s@.max_particles == DEFAULT_MAX_PARTICLES,
            s@.func_string == DEFAULT_FUNCTION@,
            s@.func_error_message == Seq::<char>::empty(),
            s@.frame_counter == 0,
    {
        CanvasState {
            image: None,
            bug_fix_enabled: false,
            fast_image_mode: true,
            ui_visible: true,
            recording: false,
            max_particles: DEFAULT_MAX_PARTICLES,
            func_string: DEFAULT_FUNCTION.to_owned(),
            func_error_message: String::new(),
            frame_counter: 0,
        }
    }

    /// Handles one message: updates the state and says what is left to do.
    pub fn update<F>(&mut self, msg: Msg<F>) -> (reply: Reply<F>)
        requires
            msg is Render ==> old(self).frame_counter < usize::MAX,
        ensures
            final(self)@ == old(self)@.next(msg),
            reply == old(self)@.reply(msg),
    {
        match msg {
            Msg::Init => {
                self.frame_counter = 0;
                Reply { rerender: Some(true), effect: Effect::Restart }
            },
            Msg::Render => {
                self.frame_counter = self.frame_counter + 1;
                Reply { rerender: None, effect: Effect::DrawFrame }
            },
            Msg::RandomFunction => Reply { rerender: Some(false), effect: Effect::SearchFunction },
            Msg::UpdateFunc(s) => {
                self.func_string = s;
                Reply { rerender: Some(false), effect: Effect::InterpretFunction }
            },
            Msg::ImageUploaded(f) => Reply { rerender: Some(false), effect: Effect::ReadImage(f) },
            Msg::ImageLoaded(raw, w, h) => {
                self.image = Some(Image { data: raw, width: w, height: h });
                Reply { rerender: Some(true), effect: Effect::Nothing }
            },
            Msg::RemoveImage => {
                self.image = None;
                Reply { rerender: Some(true), effect: Effect::Nothing }
            },
            Msg::UpdateMaxParticles(n) => {
                self.max_particles = n;
                Reply { rerender: Some(true), effect: Effect::Nothing }
            },
            Msg::ToggleBugFix => {
                if self.recording {
                    return Reply { rerender: Some(false), effect: Effect::Nothing };
                }
                self.bug_fix_enabled = !self.bug_fix_enabled;
                Reply { rerender: Some(true), effect: Effect::ScheduleRestart }
            },
            Msg::ToggleFastImage => {
                self.fast_image_mode = !self.fast_image_mode;
                Reply { rerender: Some(true), effect: Effect::Nothing }
            },
            Msg::ToggleUiVisibility => {
                self.ui_visible = !self.ui_visible;
                Reply { rerender: Some(true), effect: Effect::Nothing }
            },
            Msg::StartVideoRecording => {
                self.recording = true;
                Reply { rerender: Some(true), effect: Effect::StartRecorder }
            },
            Msg::StopVideoRecording => {
                self.recording = false;
                Reply { rerender: Some(true), effect: Effect::StopRecorder }
            },
            Msg::RecordingSaved => Reply { rerender: Some(false), effect: Effect::ReleaseRecorder },
        }
    }

    /// Records the outcome of interpreting the field function text: no error
    /// message on success, the interpreter's message on failure.
    pub fn record_interpretation(&mut self, outcome: Result<(), String>)
        ensures
            final(self)@ == (CanvasModel {
                func_error_message: match outcome {
                    Ok(_) => Seq::<char>::empty(),
                    Err(e) => e@,
                },
                ..old(self)@
            }),
    {
        match outcome {
            Ok(_) => {
                self.func_error_message = String::new();
            },
            Err(e) => {
                self.func_error_message = e;
            },
        }
    }

    /// Takes on the field function that the random search found: its text
    /// becomes the stored text and the error message is cleared.
    pub fn adopt_function(&mut self, text: String)
        ensures
            final(self)@ == (CanvasModel {
                func_string: text@,
                func_error_message: Seq::<char>::empty(),
                ..old(self)@
            }),
    {
        self.func_string = text;
        self.func_error_message = String::new();
    }

    /// Ends a frame-rate window: returns the frames counted in it and starts
    /// counting again from zero.
    pub fn take_frame_count(&mut self) -> (frames: usize)
        ensures
            frames == old(self).frame_counter,
            final(self)@ == (CanvasModel { frame_counter: 0, ..old(self)@ }),
    {
        let frames = self.frame_counter;
        self.frame_counter = 0;
        frames
    }
}

/// Each display toggle undone by a second press gives back the state it
/// started from; so does the bug-fix toggle when no video is being recorded.
pub proof fn lemma_toggles_undo_themselves<F>(m: CanvasModel)
    ensures
        m.next(Msg::<F>::ToggleFastImage).next(Msg::<F>::ToggleFastImage) == m,
        m.next(Msg::<F>::ToggleUiVisibility).next(Msg::<F>::ToggleUiVisibility) == m,
        !m.recording ==> m.next(Msg::<F>::ToggleBugFix).next(Msg::<F>::ToggleBugFix) == m,
{
}

/// While a video is being recorded the bug-fix mode (which remounts the canvas)
/// cannot change: no message changes it, and its toggle is refused with no
/// redraw and no outside work.
pub proof fn lemma_bug_fix_locked_while_recording<F>(m: CanvasModel, msg: Msg<F>)
    requires
        m.recording,
    ensures
        m.next(msg).bug_fix_enabled == m.bug_fix_enabled,
        msg is ToggleBugFix ==> m.next(msg) == m,
        msg is ToggleBugFix ==> m.reply(msg) == (Reply::<F> { rerender: Some(false), effect: Effect::Nothing }),
{
}

/// Starting a recording marks the canvas as recording and stopping one clears
/// the mark; starting and then stopping from a canvas that was not recording
/// gives back the state it started from.
pub proof fn lemma_recording_round_trip<F>(m: CanvasModel)
    ensures
        m.next(Msg::<F>::StartVideoRecording).recording,
        !m.next(Msg::<F>::StopVideoRecording).recording,
        !m.recording ==> m.next(Msg::<F>::StartVideoRecording).next(Msg::<F>::StopVideoRecording) == m,
{
}

/// A loaded image is held exactly as it came, and removing it leaves no image
/// and the rest of the state as it was before the load.
pub proof fn lemma_image_load_then_remove<F>(m: CanvasModel, raw: Vec<u8>, w: u32, h: u32)
    ensures
        m.next(Msg::<F>::ImageLoaded(raw, w, h)).image == Some((raw@, w, h)),
        m.next(Msg::<F>::ImageLoaded(raw, w, h)).next(Msg::<F>::RemoveImage) == m.next(Msg::<F>::RemoveImage),
        m.next(Msg::<F>::RemoveImage).image is None,
{
}

/// Messages that only hand work to the page leave the state unchanged.
pub proof fn lemma_work_only_messages_keep_state<F>(m: CanvasModel, msg: Msg<F>)
    requires
        msg is RandomFunction || msg is ImageUploaded || msg is RecordingSaved,
    ensures
        m.next(msg) == m,
{
}

/// What each message does to the state it is about: the frame counter, the
/// function text, the image, the particle cap, the toggles and the recording
/// flag each take the value the message gives them.
pub proof fn lemma_messages_set_their_fields<F>(m: CanvasModel, n: u32, text: String, raw: Vec<u8>, w: u32, h: u32)
    ensures
        m.next(Msg::<F>::UpdateMaxParticles(n)).max_particles == n,
        m.next(Msg::<F>::UpdateMaxParticles(n)).image == m.image,
        m.next(Msg::<F>::Init).frame_counter == 0,
        m.next(Msg::<F>::Render).frame_counter == m.frame_counter + 1,
        m.next(Msg::<F>::UpdateFunc(text)).func_string == text@,
        m.next(Msg::<F>::UpdateFunc(text)).func_error_message == m.func_error_message,
        m.next(Msg::<F>::ImageLoaded(raw, w, h)).image == Some((raw@, w, h)),
        m.next(Msg::<F>::RemoveImage).image == None::<(Seq<u8>, u32, u32)>,
        m.next(Msg::<F>::ToggleFastImage).fast_image_mode == !m.fast_image_mode,
        m.next(Msg::<F>::ToggleUiVisibility).ui_visible == !m.ui_visible,
        m.next(Msg::<F>::ToggleBugFix).bug_fix_enabled == (m.bug_fix_enabled != !m.recording),
        m.next(Msg::<F>::StartVideoRecording).recording == true,
        m.next(Msg::<F>::StopVideoRecording).recording == false,
{
}

/// Any cap can be set, and setting one replaces the old cap whatever it was:
/// raising it after lowering it gives the higher cap.
pub proof fn lemma_cap_can_be_raised<F>(m: CanvasModel, low: u32, high: u32)
    ensures
        m.next(Msg::<F>::UpdateMaxParticles(low)).next(Msg::<F>::UpdateMaxParticles(high)).max_particles
            == high,
{
}

} // verus!
