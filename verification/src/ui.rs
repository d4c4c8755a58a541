//! User-interface models: dialog state for connection requests and
//! password entry, the pointer-coordinate translation of the viewer, its
//! frame-rate counter, and the status overlay settings. Rendering happens
//! in the embedding program against these models.

use vstd::prelude::*;

use crate::security::DeviceId;

verus! {

/// The user's answer to a connection request.
#[derive(Debug, Clone, PartialEq, Eq, Structural)]
pub enum DialogResponse {
    /// No answer yet.
    Pending,
    /// The user accepted.
    Accepted,
    /// The user rejected.
    Rejected,
}

/// Model of the connection-request dialog.
#[derive(Debug)]
pub struct ConnectionRequestDialog {
    /// The requesting device's identifier.
    pub remote_id: DeviceId,
    /// The requesting device's name.
    pub remote_name: String,
    /// Whether the host requires a password.
    pub requires_password: bool,
    /// The password typed so far.
    pub password_input: String,
    /// The user's answer so far.
    pub response: DialogResponse,
}

impl ConnectionRequestDialog {
    /// The dialog's current answer.
    pub open spec fn spec_response(&self) -> DialogResponse {
        self.response
    }

    /// Opens a dialog with no answer yet.
    pub fn new(remote_id: DeviceId, remote_name: String, requires_password: bool) -> (r:
        ConnectionRequestDialog)
        ensures
            r.remote_id == remote_id,
            r.remote_name == remote_name,
            r.requires_password == requires_password,
            r.spec_response() == DialogResponse::Pending,
    {
        ConnectionRequestDialog {
            remote_id,
            remote_name,
            requires_password,
            password_input: String::new(),
            response: DialogResponse::Pending,
        }
    }

    /// The dialog's current answer.
    pub fn response(&self) -> (r: &DialogResponse)
        ensures
            r == self.spec_response(),
    {
        &self.response
    }

    /// Records that the user accepted.
    pub fn accept(&mut self)
        ensures
            final(self).spec_response() == DialogResponse::Accepted,
    {
        self.response = DialogResponse::Accepted;
    }

    /// Records that the user rejected.
    pub fn reject(&mut self)
        ensures
            final(self).spec_response() == DialogResponse::Rejected,
    {
        self.response = DialogResponse::Rejected;
    }
}

/// The user's answer to a password prompt.
#[derive(Debug)]
pub enum PasswordResponse {
    /// No answer yet.
    Pending,
    /// The user entered this password.
    Entered(String),
    /// The user cancelled.
    Cancelled,
}

/// Model of the password-entry dialog.
#[derive(Debug)]
pub struct PasswordDialog {
    /// The device the password is for.
    pub remote_id: DeviceId,
    /// The password typed so far.
    pub password_input: String,
    /// The user's answer so far.
    pub response: PasswordResponse,
}

impl PasswordDialog {
    /// Opens a dialog with no answer yet.
    pub fn new(remote_id: DeviceId) -> (r: PasswordDialog)
        ensures
            r.remote_id == remote_id,
            r.spec_pending(),
    {
        PasswordDialog {
            remote_id,
            password_input: String::new(),
            response: PasswordResponse::Pending,
        }
    }

    /// True while no answer was given.
    pub open spec fn spec_pending(&self) -> bool {
        self.response is Pending
    }

    /// The dialog's current answer.
    pub fn response(&self) -> &PasswordResponse {
        &self.response
    }

    /// Records the entered password.
    pub fn submit(&mut self, password: String)
        ensures
            !final(self).spec_pending(),
    {
        self.response = PasswordResponse::Entered(password);
    }

    /// Records a cancellation.
    pub fn cancel(&mut self)
        ensures
            !final(self).spec_pending(),
    {
        self.response = PasswordResponse::Cancelled;
    }
}

/// Model of the settings dialog: the values being edited.
#[derive(Debug)]
pub struct SettingsDialog {
    /// The quality being edited.
    pub quality: u8,
    /// The frame rate being edited.
    pub fps: u8,
    /// Whether the dialog is open.
    pub open: bool,
}

impl SettingsDialog {
    /// Opens a settings dialog with the given current values.
    pub fn new(quality: u8, fps: u8) -> (r: SettingsDialog)
        ensures
            r.quality == quality,
            r.fps == fps,
            r.open,
    {
        SettingsDialog { quality, fps, open: true }
    }
}

/// Translates a pointer position from window coordinates into
/// remote-screen coordinates: the position relative to the displayed image
/// rectangle, scaled by the remote frame size and truncated to integers.
///
/// The rectangle is `(left, top, width, height)` in window coordinates and
/// must have positive size; positions outside it translate to nothing.
pub fn translate_mouse_position(
    mx: i32,
    my: i32,
    rect_left: i32,
    rect_top: i32,
    rect_width: i32,
    rect_height: i32,
    remote_width: u32,
    remote_height: u32,
) -> (r: Option<(i32, i32)>)
    requires
        rect_width > 0,
        rect_height > 0,
        remote_width <= 65535,
        remote_height <= 65535,
    ensures
        r is Some <==> (rect_left <= mx < rect_left + rect_width && rect_top <= my < rect_top
            + rect_height),
        r matches Some(p) ==> p.0 == (mx - rect_left) * (remote_width as int) / (
        rect_width as int) && p.1 == (my - rect_top) * (remote_height as int) / (
        rect_height as int),
{
    if mx < rect_left || my < rect_top {
        return None;
    }
    let dx = mx as i64 - rect_left as i64;
    let dy = my as i64 - rect_top as i64;
    if dx >= rect_width as i64 || dy >= rect_height as i64 {
        return None;
    }
    proof {
        assert(0 <= (dx as int * remote_width as int / rect_width as int) && (dx as int
            * remote_width as int / rect_width as int) < 65536) by (nonlinear_arith)
            requires
                0 <= dx as int,
                (dx as int) < (rect_width as int),
                0 <= remote_width as int <= 65535,
                rect_width as int >= 1,
        ;
        assert(0 <= (dy as int * remote_height as int / rect_height as int) && (dy as int
            * remote_height as int / rect_height as int) < 65536) by (nonlinear_arith)
            requires
                0 <= dy as int,
                (dy as int) < (rect_height as int),
                0 <= remote_height as int <= 65535,
                rect_height as int >= 1,
        ;
        assert(dx as int * remote_width as int <= 0xFFFF_FFFF * 65535) by (nonlinear_arith)
            requires
                0 <= dx as int <= 0xFFFF_FFFF,
                0 <= remote_width as int <= 65535,
        ;
        assert(dy as int * remote_height as int <= 0xFFFF_FFFF * 65535) by (nonlinear_arith)
            requires
                0 <= dy as int <= 0xFFFF_FFFF,
                0 <= remote_height as int <= 65535,
        ;
    }
    let rx = (dx * remote_width as i64 / rect_width as i64) as i32;
    let ry = (dy * remote_height as i64 / rect_height as i64) as i32;
    Some((rx, ry))
}

/// Coalesces pointer moves: a move is forwarded only when the translated
/// integer position differs from the last forwarded one.
#[derive(Debug, Clone, Copy, PartialEq, Eq)]
pub struct MouseMoveCoalescer {
    /// The last forwarded position, if any.
    pub last: Option<(i32, i32)>,
}

impl MouseMoveCoalescer {
    /// A coalescer that has forwarded nothing.
    pub fn new() -> (r: MouseMoveCoalescer)
        ensures
            r.last is None,
    {
        MouseMoveCoalescer { last: None }
    }

    /// Decides whether to forward a move to `pos`; forwarded positions
    /// become the new reference.
    pub fn should_emit(&mut self, pos: (i32, i32)) -> (r: bool)
        ensures
            r == (old(self).last != Some(pos)),
            r ==> final(self).last == Some(pos),
            !r ==> *final(self) == *old(self),
    {
        let emit = match self.last {
            Some(p) => !(p.0 == pos.0 && p.1 == pos.1),
            None => true,
        };
        if emit {
            self.last = Some(pos);
        }
        emit
    }
}

/// Counts recent frame arrivals inside a sliding window of at most sixty
/// samples, for display of the frame rate.
#[derive(Debug)]
pub struct FpsCounter {
    frame_times_ms: Vec<u64>,
    max_samples: usize,
}

impl FpsCounter {
    /// The retained arrival times.
    pub closed spec fn spec_times(&self) -> Seq<u64> {
        self.frame_times_ms@
    }

    /// The sample bound.
    pub closed spec fn spec_max_samples(&self) -> int {
        self.max_samples as int
    }

    /// At most the sample bound is retained.
    pub open spec fn wf(&self) -> bool {
        self.spec_times().len() <= self.spec_max_samples() && 1 <= self.spec_max_samples() <= 60
    }

    /// An empty counter with the default bound of sixty samples.
    pub fn new() -> (r: FpsCounter)
        ensures
            r.wf(),
            r.spec_times() =~= Seq::<u64>::empty(),
    {
        FpsCounter { frame_times_ms: Vec::new(), max_samples: 60 }
    }

    /// Records a frame arrival at the given wall-clock milliseconds,
    /// keeping only the most recent samples.
    pub fn add_frame(&mut self, now_ms: u64)
        requires
            old(self).wf(),
        ensures
            final(self).wf(),
            final(self).spec_times().len() >= 1,
            final(self).spec_times().last() == now_ms,
    {
        self.frame_times_ms.push(now_ms);
        while self.frame_times_ms.len() > self.max_samples
            invariant
                1 <= self.max_samples <= 60,
                self.frame_times_ms@.len() >= 1,
                self.frame_times_ms@.last() == now_ms,
            decreases self.frame_times_ms@.len(),
        {
            self.frame_times_ms.remove(0);
        }
    }

    /// Frames per second over the retained window, times one hundred.
    pub fn fps_hundredths(&self) -> (r: u64)
        requires
            self.wf(),
    {
        let n = self.frame_times_ms.len();
        if n < 2 {
            return 0;
        }
        let oldest = self.frame_times_ms[0];
        let newest = self.frame_times_ms[n - 1];
        if newest <= oldest {
            return 0;
        }
        let duration_ms = newest - oldest;
        (((n - 1) as u64) * 100_000) / duration_ms
    }
}

impl Default for FpsCounter {
    fn default() -> (r: FpsCounter)
        ensures
            r.wf(),
    {
        FpsCounter::new()
    }
}

/// Where the status overlay sits.
#[derive(Debug, Clone, Copy, PartialEq, Eq, Structural)]
pub enum OverlayPosition {
    /// Top left corner.
    TopLeft,
    /// Top right corner.
    TopRight,
    /// Bottom left corner.
    BottomLeft,
    /// Bottom right corner.
    BottomRight,
}

/// Settings of the status overlay.
#[derive(Debug, Clone, Copy, PartialEq, Eq, Structural)]
pub struct OverlayConfig {
    /// Whether the overlay is shown.
    pub visible: bool,
    /// Where the overlay sits.
    pub position: OverlayPosition,
}

impl Default for OverlayConfig {
    /// Defaults: visible, top left.
    fn default() -> (r: OverlayConfig)
        ensures
            r.visible,
            r.position == OverlayPosition::TopLeft,
    {
        OverlayConfig { visible: true, position: OverlayPosition::TopLeft }
    }
}

/// State of the status overlay.
#[derive(Debug, Clone, Copy, PartialEq, Eq, Structural)]
pub struct StatusOverlay {
    /// The overlay's settings.
    pub config: OverlayConfig,
}

impl StatusOverlay {
    /// Whether the overlay is shown.
    pub fn is_visible(&self) -> (r: bool)
        ensures
            r == self.config.visible,
    {
        self.config.visible
    }

    /// Shows or hides the overlay.
    pub fn set_visible(&mut self, visible: bool)
        ensures
            final(self).config.visible == visible,
            final(self).config.position == old(self).config.position,
    {
        self.config.visible = visible;
    }
}

impl Default for StatusOverlay {
    /// A visible overlay in the default corner.
    fn default() -> (r: StatusOverlay)
        ensures
            r.config.visible,
    {
        StatusOverlay { config: OverlayConfig::default() }
    }
}

} // verus!
