//! Which renderer backend is used, and the sizes that it is given.
use vstd::prelude::*;

verus! {

/// A renderer backend that a host can ask for.
#[derive(Copy, Clone, Debug, PartialEq, Eq, Structural)]
pub enum RenderBackend {
    Vulkan,
    OpenGl,
}

/// What became of a host's choice.
#[derive(Copy, Clone, Debug, PartialEq, Eq, Structural)]
pub enum ModeChange {
    /// The choice is in force.
    Applied,
    /// The choice is stored, but the renderer already exists: it takes effect on
    /// the next start.
    Deferred,
    /// The code means nothing; the earlier choice stands.
    Ignored,
}

/// What follows an attempt to create a renderer.
#[derive(Copy, Clone, Debug, PartialEq, Eq, Structural)]
pub enum RendererStep {
    /// The renderer exists.
    Ready,
    /// Try this backend instead.
    Retry(RenderBackend),
    /// No renderer can be had.
    Fatal,
}

/// The host's choice of a backend and what came of it.
#[derive(Copy, Clone, Debug, PartialEq, Eq, Structural)]
pub struct BackendChoice {
    /// The backend that the host asked for.
    pub mode: RenderBackend,
    /// Set once a renderer is being built; from then on `mode` has no effect on
    /// the running player.
    pub locked_in: bool,
    /// The backend actually in use, if a renderer exists. It may differ from
    /// `mode`, so a host that offers a choice should show this one.
    pub active: Option<RenderBackend>,
}

/// The backend of a host's code.
pub open spec fn backend_of(code: int) -> Option<RenderBackend> {
    if code == 0 {
        Some(RenderBackend::Vulkan)
    } else if code == 1 {
        Some(RenderBackend::OpenGl)
    } else {
        None
    }
}

/// The host's code of the backend in use; -1 while there is none.
pub open spec fn active_code(active: Option<RenderBackend>) -> int {
    match active {
        None => -1,
        Some(RenderBackend::Vulkan) => 0,
        Some(RenderBackend::OpenGl) => 1,
    }
}

/// What follows an attempt: Vulkan that cannot be had gives way to OpenGL, and
/// nothing stands in for OpenGL.
pub open spec fn step_after(attempted: RenderBackend, created: bool) -> RendererStep {
    if created {
        RendererStep::Ready
    } else if attempted == RenderBackend::Vulkan {
        RendererStep::Retry(RenderBackend::OpenGl)
    } else {
        RendererStep::Fatal
    }
}

/// What becomes of a host's code.
pub open spec fn mode_change(locked_in: bool, code: i32) -> ModeChange {
    if code != 0 && code != 1 {
        ModeChange::Ignored
    } else if locked_in {
        ModeChange::Deferred
    } else {
        ModeChange::Applied
    }
}

impl BackendChoice {
    /// The choice after a host's code. An unknown code changes nothing.
    pub open spec fn with_mode(self, code: i32) -> BackendChoice {
        match backend_of(code as int) {
            Some(mode) => BackendChoice { mode, ..self },
            None => self,
        }
    }

    /// The choice once a renderer is being built.
    pub open spec fn begun(self) -> BackendChoice {
        BackendChoice { locked_in: true, ..self }
    }

    /// The choice after an attempt to create a renderer.
    pub open spec fn attempted(self, attempted: RenderBackend, created: bool) -> BackendChoice {
        if created {
            BackendChoice { active: Some(attempted), ..self }
        } else {
            self
        }
    }

    /// The choice before a new renderer is built: the request is live again and
    /// nothing is in use.
    pub open spec fn released(self) -> BackendChoice {
        BackendChoice { locked_in: false, active: None, ..self }
    }

    /// Vulkan is the default.
    pub fn new() -> (choice: BackendChoice)
        ensures
            choice == (BackendChoice {
                mode: RenderBackend::Vulkan,
                locked_in: false,
                active: None,
            }),
    {
        BackendChoice { mode: RenderBackend::Vulkan, locked_in: false, active: None }
    }

    /// Stores the host's choice: 0 Vulkan, 1 OpenGL. It is read once, when the
    /// renderer is built; a later choice is stored for the next start.
    pub fn set_mode(&mut self, code: i32) -> (change: ModeChange)
        ensures
            *final(self) == old(self).with_mode(code),
            change == mode_change(old(self).locked_in, code),
            change == if code != 0 && code != 1 {
                ModeChange::Ignored
            } else if old(self).locked_in {
                ModeChange::Deferred
            } else {
                ModeChange::Applied
            },
    {
        match code {
            0 => self.mode = RenderBackend::Vulkan,
            1 => self.mode = RenderBackend::OpenGl,
            _ => return ModeChange::Ignored,
        }
        if self.locked_in {
            ModeChange::Deferred
        } else {
            ModeChange::Applied
        }
    }

    /// Starts building a renderer: locks the choice in and says which backend to
    /// try. The request is honoured exactly, so only this one is tried.
    pub fn begin(&mut self) -> (requested: RenderBackend)
        ensures
            *final(self) == old(self).begun(),
            requested == old(self).mode,
    {
        self.locked_in = true;
        self.mode
    }

    /// Takes the result of an attempt and says what to do next.
    pub fn attempt_finished(&mut self, attempted: RenderBackend, created: bool) -> (step:
        RendererStep)
        ensures
            *final(self) == old(self).attempted(attempted, created),
            step == step_after(attempted, created),
    {
        if created {
            self.active = Some(attempted);
            RendererStep::Ready
        } else {
            match attempted {
                RenderBackend::Vulkan => RendererStep::Retry(RenderBackend::OpenGl),
                RenderBackend::OpenGl => RendererStep::Fatal,
            }
        }
    }

    /// Forgets the renderer, which is about to be built anew.
    pub fn release(&mut self)
        ensures
            *final(self) == old(self).released(),
    {
        self.locked_in = false;
        self.active = None;
    }

    /// Which backend the renderer actually ended up using: 0 Vulkan, 1 OpenGL,
    /// -1 if the renderer was not created yet.
    pub fn active_backend(&self) -> (code: i32)
        ensures
            code == active_code(self.active),
    {
        match self.active {
            None => -1,
            Some(RenderBackend::Vulkan) => 0,
            Some(RenderBackend::OpenGl) => 1,
        }
    }
}

/// The backend that a whole negotiation ends with: the requested one where it can
/// be created, else OpenGL where that can be created, else none.
pub open spec fn negotiated(
    requested: RenderBackend,
    creatable: spec_fn(RenderBackend) -> bool,
) -> Option<RenderBackend> {
    if creatable(requested) {
        Some(requested)
    } else if creatable(RenderBackend::OpenGl) {
        Some(RenderBackend::OpenGl)
    } else {
        None
    }
}

/// The choice after attempts have been made, starting with `attempt`, for as long
/// as each one asks for another. `fuel` bounds their number.
pub open spec fn after_attempts(
    choice: BackendChoice,
    attempt: RenderBackend,
    creatable: spec_fn(RenderBackend) -> bool,
    fuel: nat,
) -> BackendChoice
    decreases fuel,
{
    let next = choice.attempted(attempt, creatable(attempt));
    match step_after(attempt, creatable(attempt)) {
        RendererStep::Retry(other) if fuel > 0 => after_attempts(
            next,
            other,
            creatable,
            (fuel - 1) as nat,
        ),
        _ => next,
    }
}

/// The backend in use is the one that was asked for wherever it can be created,
/// and OpenGL only where it was asked for or Vulkan failed. One retry is always
/// enough, so however many are allowed the outcome is the same.
pub proof fn requested_backend_is_honoured(
    choice: BackendChoice,
    creatable: spec_fn(RenderBackend) -> bool,
    fuel: nat,
)
    requires
        choice.active is None,
        fuel >= 1,
    ensures
        after_attempts(choice.begun(), choice.mode, creatable, fuel) == (BackendChoice {
            active: negotiated(choice.mode, creatable),
            locked_in: true,
            ..choice
        }),
{
    reveal_with_fuel(after_attempts, 3);
}

/// A choice that is made while a renderer exists changes nothing about it, and the
/// next renderer is built with it.
pub proof fn late_choice_waits_for_restart(choice: BackendChoice, code: i32)
    requires
        backend_of(code as int) is Some,
    ensures
        choice.with_mode(code).active == choice.active,
        choice.with_mode(code).locked_in == choice.locked_in,
        choice.with_mode(code).released().begun().mode == backend_of(code as int).unwrap(),
{
}

/// The codes that a host gets back are those that it may pass in, and only the
/// absence of a renderer reads as -1.
pub proof fn backend_codes_agree(active: Option<RenderBackend>)
    ensures
        backend_of(active_code(active)) == active,
        active_code(active) == -1 <==> active is None,
{
}

/// The size of the window, as the system reports it. It can be negative for a
/// moment while the application resumes.
#[derive(Copy, Clone, Debug, PartialEq, Eq, Structural)]
pub struct WindowSize {
    pub width: i32,
    pub height: i32,
}

/// The density at which one unit of the movie is one pixel of the screen.
pub const BASE_DENSITY: u32 = 160;

/// The size of the player's viewport. The scale factor is
/// `density / BASE_DENSITY`.
#[derive(Copy, Clone, Debug, PartialEq, Eq, Structural)]
pub struct ViewportDimensions {
    pub width: u32,
    pub height: u32,
    pub density: u32,
}

/// A reported length as the renderer takes it: a negative one wraps round.
pub open spec fn surface_length(length: i32) -> u32 {
    if length >= 0 {
        length as u32
    } else {
        (length + 0x1_0000_0000) as u32
    }
}

/// The viewport for a window on a screen of this density. A density that is not
/// known counts as the base density.
pub open spec fn viewport_of(window: WindowSize, density: Option<u32>) -> ViewportDimensions {
    ViewportDimensions {
        width: surface_length(window.width),
        height: surface_length(window.height),
        density: match density {
            Some(dpi) => dpi,
            None => BASE_DENSITY,
        },
    }
}

/// Converts a reported length for the renderer.
pub fn to_surface_length(length: i32) -> (surface: u32)
    ensures
        surface == surface_length(length),
        length >= 0 ==> surface == length,
{
    proof {
        assert(length < 0 ==> length as u32 == length + 0x1_0000_0000) by (bit_vector);
    }
    length as u32
}

/// The viewport for a window on a screen of this density.
pub fn viewport(window: WindowSize, density: Option<u32>) -> (dimensions: ViewportDimensions)
    ensures
        dimensions == viewport_of(window, density),
        window.width >= 0 ==> dimensions.width == window.width,
        window.height >= 0 ==> dimensions.height == window.height,
        density matches Some(dpi) ==> dimensions.density == dpi,
        density is None ==> dimensions.density == 160,
{
    ViewportDimensions {
        width: to_surface_length(window.width),
        height: to_surface_length(window.height),
        density: match density {
            Some(dpi) => dpi,
            None => BASE_DENSITY,
        },
    }
}

/// A length reaches the renderer as it was reported; a negative one, which the system
/// reports for a moment, comes out at the far end of the range, so that no two lengths
/// are confused.
pub proof fn lengths_are_kept(length: i32, other: i32)
    ensures
        length >= 0 ==> surface_length(length) == length,
        length < 0 ==> surface_length(length) - length == 0x1_0000_0000,
        surface_length(length) == surface_length(other) ==> length == other,
{
}

/// The viewport is as wide and as high as the window, upright or not, and as dense as
/// the screen, or 160 where that is not known. Turning the window turns the viewport.
pub proof fn viewport_fits_the_window(window: WindowSize, density: Option<u32>)
    ensures
        ({
            let dimensions = viewport_of(window, density);
            let turned = viewport_of(
                WindowSize { width: window.height, height: window.width },
                density,
            );
            &&& window.width >= 0 ==> dimensions.width == window.width
            &&& window.width < 0 ==> dimensions.width == 0x1_0000_0000 + window.width
            &&& window.height >= 0 ==> dimensions.height == window.height
            &&& window.height < 0 ==> dimensions.height == 0x1_0000_0000 + window.height
            &&& density matches Some(dpi) ==> dimensions.density == dpi
            &&& density is None ==> dimensions.density == 160
            &&& turned.width == dimensions.height && turned.height == dimensions.width
            &&& turned.density == dimensions.density
        }),
{
}

/// A host's code is 0 for Vulkan and 1 for OpenGL. It changes the request alone, and
/// any other code changes nothing. The next renderer is asked for by the last code
/// that meant something.
pub proof fn backend_codes_set_the_request(choice: BackendChoice, code: i32, other: i32)
    ensures
        choice.with_mode(code).locked_in == choice.locked_in,
        choice.with_mode(code).active == choice.active,
        code == 0 ==> choice.with_mode(code).mode is Vulkan,
        code == 1 ==> choice.with_mode(code).mode is OpenGl,
        code != 0 && code != 1 ==> choice.with_mode(code).mode == choice.mode,
        code == 0 || code == 1 ==> choice.with_mode(other).with_mode(code) == choice.with_mode(
            code,
        ),
{
}

/// A host is told that its code is in force exactly if the code means something and the
/// next renderer is still to be built with it, and that it is ignored exactly if it
/// means nothing.
pub proof fn hosts_learn_what_became_of_a_code(choice: BackendChoice, code: i32)
    ensures
        mode_change(choice.begun().locked_in, code) !is Applied,
        mode_change(choice.released().locked_in, code) !is Deferred,
        mode_change(choice.locked_in, code) is Ignored <==> code < 0 || code > 1,
        mode_change(choice.locked_in, code) is Deferred <==> choice.locked_in && (code == 0
            || code == 1),
        mode_change(choice.locked_in, code) is Ignored ==> choice.with_mode(code) == choice,
{
}

/// Building a renderer only locks the request in; an attempt only says what is in use,
/// and only if it succeeds; giving the renderer up undoes both and keeps the request.
pub proof fn building_a_renderer_keeps_the_request(
    choice: BackendChoice,
    backend: RenderBackend,
    created: bool,
)
    ensures
        choice.begun().mode == choice.mode,
        choice.begun().active == choice.active,
        choice.begun().locked_in,
        choice.attempted(backend, created).mode == choice.mode,
        choice.attempted(backend, created).locked_in == choice.locked_in,
        created ==> choice.attempted(backend, created).active == Some(backend),
        !created ==> choice.attempted(backend, created).active == choice.active,
        choice.released().mode == choice.mode,
        !choice.released().locked_in,
        choice.released().active is None,
{
}

/// A renderer that was created is used; failed Vulkan gives way to OpenGL; failed OpenGL
/// is the end.
pub proof fn only_vulkan_gives_way(backend: RenderBackend)
    ensures
        step_after(backend, true) is Ready,
        step_after(RenderBackend::Vulkan, false) == RendererStep::Retry(RenderBackend::OpenGl),
        step_after(RenderBackend::OpenGl, false) is Fatal,
{
}

/// A host reads -1 while nothing is in use, 0 for Vulkan and 1 for OpenGL.
pub proof fn backend_in_use_has_a_code()
    ensures
        active_code(None) == -1,
        active_code(Some(RenderBackend::Vulkan)) == 0,
        active_code(Some(RenderBackend::OpenGl)) == 1,
{
}

} // verus!
