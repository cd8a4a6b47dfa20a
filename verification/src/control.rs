use vstd::prelude::*;

use crate::gui::{FullOutput, FullOutputModel, GuiEvent, Modifiers, OpenUrl, OpenUrlModel, TextureDelta, TextureId};
use crate::mapping::{egui_cursor_to_sapp_cursor, spec_cursor_map};
use crate::platform::{Event, MouseCursor};
use crate::translate::{
    spec_consumed, spec_emitted, spec_focus_after, spec_mods_after, translate_event,
};

verus! {

/// Declares the GUI library's context handle so the controller can own one.
/// The value is opaque to verification; the library only creates it, hands
/// out references to it, and queries it through the trusted functions below.
#[verifier::external_type_specification]
#[verifier::external_body]
pub struct ExContext(egui::Context);

/// Relies on egui::Context::default: allocates a fresh GUI context.
#[verifier::external_body]
fn gui_context_new() -> egui::Context {
    egui::Context::default()
}

/// Relies on egui::Context::wants_keyboard_input: whether the GUI library
/// will use key events this frame. The answer depends on the context's
/// internal focus state, so nothing is promised of it.
#[verifier::external_body]
fn gui_wants_keyboard_input(ctx: &egui::Context) -> bool {
    ctx.wants_keyboard_input()
}

/// Relies on egui::Context::wants_pointer_input: whether the GUI library
/// will use pointer events this frame. The answer depends on the context's
/// internal pointer state, so nothing is promised of it.
#[verifier::external_body]
fn gui_wants_pointer_input(ctx: &egui::Context) -> bool {
    ctx.wants_pointer_input()
}

/// Lifecycle phase of the frame controller.
#[derive(Clone, Copy, PartialEq, Eq, Structural, Debug)]
pub enum Phase {
    Uninitialized,
    Ready,
}

/// A lifecycle-contract violation: the caller invoked an entry point in a
/// phase that forbids it. Fatal for the caller; the controller state is
/// left untouched.
#[derive(Clone, Copy, PartialEq, Eq, Structural, Debug)]
pub enum LifecycleError {
    AlreadyInitialized,
    NotInitialized,
}

/// Configuration recognized by `begin`.
///
/// The host-side frame callbacks and user data of a full integration live
/// outside the verified core; what the core itself recognizes is the
/// pointer-gating policy.
#[derive(Clone, Copy, PartialEq, Eq, Structural, Debug)]
pub struct Desc {
    /// When set, pointer and touch events are translated only while the GUI
    /// library reports that it wants pointer input; when clear, they are
    /// always translated.
    pub gate_pointer_input: bool,
}

impl Desc {
    /// The default configuration: pointer events are always translated.
    pub fn new() -> (d: Desc)
        ensures
            d == (Desc { gate_pointer_input: false }),
    {
        Desc { gate_pointer_input: false }
    }
}

impl Default for Desc {
    /// Same configuration as [`Desc::new`].
    fn default() -> (d: Desc)
        ensures
            d == (Desc { gate_pointer_input: false }),
    {
        Desc::new()
    }
}

/// The input accumulated between frames: translated events in arrival
/// order, the live modifier snapshot, and the window-focus flag.
pub struct RawInput {
    pub events: Vec<GuiEvent>,
    pub modifiers: Modifiers,
    pub has_focus: bool,
}

/// Mathematical model of the accumulated input.
#[verifier::ext_equal]
pub struct RawInputModel {
    pub events: Seq<GuiEvent>,
    pub modifiers: Modifiers,
    pub has_focus: bool,
}

impl View for RawInput {
    type V = RawInputModel;

    open spec fn view(&self) -> RawInputModel {
        RawInputModel {
            events: self.events@,
            modifiers: self.modifiers,
            has_focus: self.has_focus,
        }
    }
}

/// Per-frame window geometry, read afresh by the host each frame. All four
/// measurements are logical-unit values carried through unchanged as IEEE
/// 754 single-precision bit patterns.
#[derive(Clone, Copy, PartialEq, Eq, Structural, Debug)]
pub struct FrameGeometry {
    pub width_bits: u32,
    pub height_bits: u32,
    pub pixels_per_point_bits: u32,
    pub predicted_dt_bits: u32,
}

/// Everything one frame hands to the GUI library: the geometry of the
/// moment and the full accumulated input, in arrival order.
pub struct FrameSnapshot {
    pub geometry: FrameGeometry,
    pub events: Vec<GuiEvent>,
    pub modifiers: Modifiers,
    pub has_focus: bool,
}

/// Mathematical model of a frame snapshot.
#[verifier::ext_equal]
pub struct FrameSnapshotModel {
    pub geometry: FrameGeometry,
    pub events: Seq<GuiEvent>,
    pub modifiers: Modifiers,
    pub has_focus: bool,
}

impl View for FrameSnapshot {
    type V = FrameSnapshotModel;

    open spec fn view(&self) -> FrameSnapshotModel {
        FrameSnapshotModel {
            geometry: self.geometry,
            events: self.events@,
            modifiers: self.modifiers,
            has_focus: self.has_focus,
        }
    }
}

/// The immediate platform-side actions the output of one frame calls for:
/// the cursor to show, clipboard text to copy if any was produced, and a
/// URL to open if one was requested.
pub struct FrameActions {
    pub cursor: MouseCursor,
    pub copy_text: Option<String>,
    pub open_url: Option<OpenUrl>,
}

/// Mathematical model of the per-frame actions.
#[verifier::ext_equal]
pub struct FrameActionsModel {
    pub cursor: MouseCursor,
    pub copy_text: Option<Seq<char>>,
    pub open_url: Option<OpenUrlModel>,
}

impl View for FrameActions {
    type V = FrameActionsModel;

    open spec fn view(&self) -> FrameActionsModel {
        FrameActionsModel {
            cursor: self.cursor,
            copy_text: match self.copy_text {
                Some(t) => Some(t@),
                None => None,
            },
            open_url: match self.open_url {
                Some(u) => Some(u@),
                None => None,
            },
        }
    }
}

/// The deferred renderer-side actions `draw` hands out: texture uploads in
/// output order, texture releases, and the advisory repaint delay.
pub struct DrawActions {
    pub uploads: Vec<TextureDelta>,
    pub frees: Vec<TextureId>,
    pub repaint_after_nanos: u64,
}

/// Mathematical model of the frame controller.
#[verifier::ext_equal]
pub struct StateModel {
    pub phase: Phase,
    pub input: RawInputModel,
    pub latest_output: Option<FullOutputModel>,
    pub gate_pointer_input: bool,
}

/// The frame controller: owns the GUI context, the accumulated input and
/// the most recent frame output, and guards them behind the lifecycle
/// phases Uninitialized and Ready.
pub struct State {
    phase: Phase,
    context: Option<egui::Context>,
    raw_input: RawInput,
    latest_output: Option<FullOutput>,
    desc: Desc,
}

impl View for State {
    type V = StateModel;

    closed spec fn view(&self) -> StateModel {
        StateModel {
            phase: self.phase,
            input: self.raw_input@,
            latest_output: match self.latest_output {
                Some(o) => Some(o@),
                None => None,
            },
            gate_pointer_input: self.desc.gate_pointer_input,
        }
    }
}

/// The model of a controller that has not been started (and of one that was
/// shut down): no input, no output, released modifiers, focus assumed.
pub open spec fn spec_initial_state() -> StateModel {
    StateModel {
        phase: Phase::Uninitialized,
        input: RawInputModel {
            events: Seq::empty(),
            modifiers: Modifiers { alt: false, ctrl: false, shift: false, command: false },
            has_focus: true,
        },
        latest_output: None,
        gate_pointer_input: false,
    }
}

/// The model `begin` establishes: Ready, with empty input, no output, and
/// the configured gating policy.
pub open spec fn spec_begun_state(desc: Desc) -> StateModel {
    StateModel {
        phase: Phase::Ready,
        input: RawInputModel {
            events: Seq::empty(),
            modifiers: Modifiers { alt: false, ctrl: false, shift: false, command: false },
            has_focus: true,
        },
        latest_output: None,
        gate_pointer_input: desc.gate_pointer_input,
    }
}

/// The snapshot a frame step hands to the GUI library, built from the
/// controller state before the step and the geometry of the moment.
pub open spec fn spec_frame_snapshot(s: StateModel, geometry: FrameGeometry) -> FrameSnapshotModel {
    FrameSnapshotModel {
        geometry,
        events: s.input.events,
        modifiers: s.input.modifiers,
        has_focus: s.input.has_focus,
    }
}

/// The controller state after a frame step: the event buffer cleared, and
/// nothing else touched.
pub open spec fn spec_frame_cleared(s: StateModel) -> StateModel {
    StateModel {
        input: RawInputModel { events: Seq::empty(), ..s.input },
        ..s
    }
}

/// The controller state after one platform event was taken in with the
/// given keyboard wish and effective pointer policy.
pub open spec fn spec_event_applied(
    s: StateModel,
    ev: Event,
    wants_keyboard: bool,
    translate_pointer: bool,
) -> StateModel {
    StateModel {
        input: RawInputModel {
            events: s.input.events + spec_emitted(
                ev,
                spec_mods_after(s.input.modifiers, ev, wants_keyboard),
                wants_keyboard,
                translate_pointer,
            ),
            modifiers: spec_mods_after(s.input.modifiers, ev, wants_keyboard),
            has_focus: spec_focus_after(s.input.has_focus, ev),
        },
        ..s
    }
}

/// The controller state after a frame's output was stored: the new output
/// fully replaces the previous one.
pub open spec fn spec_output_stored(s: StateModel, out: FullOutputModel) -> StateModel {
    StateModel { latest_output: Some(out), ..s }
}

/// The actions the output of one frame calls for: the mapped cursor every
/// frame, the copied text exactly when the frame produced any, and the URL
/// request exactly when the frame made one.
pub open spec fn spec_frame_actions(out: FullOutputModel) -> FrameActionsModel {
    FrameActionsModel {
        cursor: spec_cursor_map(out.cursor_icon),
        copy_text: if out.copied_text.len() > 0 {
            Some(out.copied_text)
        } else {
            None
        },
        open_url: out.open_url,
    }
}

impl State {
    /// Well-formed: a GUI context is held exactly while the controller is
    /// Ready.
    pub closed spec fn wf(self) -> bool {
        self.phase == Phase::Ready <==> self.context is Some
    }

    /// A controller that has not been started.
    pub fn new() -> (s: State)
        ensures
            s.wf(),
            s@ == spec_initial_state(),
    {
        State {
            phase: Phase::Uninitialized,
            context: None,
            raw_input: RawInput {
                events: Vec::new(),
                modifiers: Modifiers::default(),
                has_focus: true,
            },
            latest_output: None,
            desc: Desc::new(),
        }
    }

    /// Whether the controller is between `begin` and `shutdown`.
    pub fn is_ready(&self) -> (b: bool)
        ensures
            b == (self@.phase == Phase::Ready),
    {
        match self.phase {
            Phase::Ready => true,
            Phase::Uninitialized => false,
        }
    }

    /// The input events accumulated since the last frame step, in arrival
    /// order.
    pub fn pending_events(&self) -> (v: &Vec<GuiEvent>)
        ensures
            v@ == self@.input.events,
    {
        &self.raw_input.events
    }

    /// The live modifier snapshot.
    pub fn modifier_snapshot(&self) -> (m: Modifiers)
        ensures
            m == self@.input.modifiers,
    {
        self.raw_input.modifiers
    }

    /// The window-focus flag as of the last lifecycle event.
    pub fn window_focused(&self) -> (b: bool)
        ensures
            b == self@.input.has_focus,
    {
        self.raw_input.has_focus
    }

    /// Whether a frame has produced output already.
    pub fn has_output(&self) -> (b: bool)
        ensures
            b == (self@.latest_output is Some),
    {
        match &self.latest_output {
            Some(_) => true,
            None => false,
        }
    }

    /// The GUI context, for the host to drive the frame through. Only a
    /// Ready controller holds one.
    pub fn context(&self) -> &egui::Context
        requires
            self.wf(),
            self@.phase == Phase::Ready,
    {
        match &self.context {
            Some(c) => c,
            None => vstd::pervasive::unreached(),
        }
    }
}

/// Start the controller: Uninitialized to Ready. Allocates a fresh GUI
/// context, an empty input buffer and an empty output slot, and stores the
/// configuration. A second call without an intervening `shutdown` is a
/// lifecycle violation and changes nothing.
pub fn begin(state: &mut State, desc: &Desc) -> (r: Result<(), LifecycleError>)
    requires
        old(state).wf(),
    ensures
        final(state).wf(),
        old(state)@.phase == Phase::Ready ==> r == Result::<(), LifecycleError>::Err(
            LifecycleError::AlreadyInitialized,
        ) && final(state)@ == old(state)@,
        old(state)@.phase == Phase::Uninitialized ==> r == Result::<(), LifecycleError>::Ok(())
            && final(state)@ == spec_begun_state(*desc),
{
    match state.phase {
        Phase::Ready => Err(LifecycleError::AlreadyInitialized),
        Phase::Uninitialized => {
            state.phase = Phase::Ready;
            state.context = Some(gui_context_new());
            state.raw_input = RawInput {
                events: Vec::new(),
                modifiers: Modifiers::default(),
                has_focus: true,
            };
            state.latest_output = None;
            state.desc = *desc;
            proof {
                assert(state@ =~~= spec_begun_state(*desc));
            }
            Ok(())
        },
    }
}

/// Tear the controller down: Ready to Uninitialized. Releases the GUI
/// context and every lifecycle resource; afterwards the accumulated input
/// and the stored output are gone. Calling it on a controller that was
/// never started is a lifecycle violation and changes nothing.
pub fn shutdown(state: &mut State) -> (r: Result<(), LifecycleError>)
    requires
        old(state).wf(),
    ensures
        final(state).wf(),
        old(state)@.phase == Phase::Uninitialized ==> r == Result::<(), LifecycleError>::Err(
            LifecycleError::NotInitialized,
        ) && final(state)@ == old(state)@,
        old(state)@.phase == Phase::Ready ==> r == Result::<(), LifecycleError>::Ok(()) && final(state)@
            == spec_initial_state(),
{
    match state.phase {
        Phase::Uninitialized => Err(LifecycleError::NotInitialized),
        Phase::Ready => {
            state.phase = Phase::Uninitialized;
            state.context = None;
            state.raw_input = RawInput {
                events: Vec::new(),
                modifiers: Modifiers::default(),
                has_focus: true,
            };
            state.latest_output = None;
            state.desc = Desc::new();
            proof {
                assert(state@ =~~= spec_initial_state());
            }
            Ok(())
        },
    }
}

/// Take in one platform event, with the GUI library's keyboard and pointer
/// wishes given explicitly. Updates the modifier snapshot and focus flag,
/// appends the translated events to the buffer in arrival order, and
/// reports whether the event was consumed. Before `begin` this is a
/// lifecycle violation and changes nothing.
pub fn event_with_signals(
    state: &mut State,
    ev: &Event,
    wants_keyboard: bool,
    wants_pointer: bool,
) -> (r: Result<bool, LifecycleError>)
    requires
        old(state).wf(),
    ensures
        final(state).wf(),
        old(state)@.phase == Phase::Uninitialized ==> r == Result::<bool, LifecycleError>::Err(
            LifecycleError::NotInitialized,
        ) && final(state)@ == old(state)@,
        old(state)@.phase == Phase::Ready ==> ({
            let translate_pointer = !old(state)@.gate_pointer_input || wants_pointer;
            &&& final(state)@ == spec_event_applied(old(state)@, *ev, wants_keyboard, translate_pointer)
            &&& r == Result::<bool, LifecycleError>::Ok(
                spec_consumed(*ev, wants_keyboard, translate_pointer),
            )
        }),
{
    match state.phase {
        Phase::Uninitialized => Err(LifecycleError::NotInitialized),
        Phase::Ready => {
            let translate_pointer = !state.desc.gate_pointer_input || wants_pointer;
            let consumed = translate_event(
                &mut state.raw_input.events,
                &mut state.raw_input.modifiers,
                &mut state.raw_input.has_focus,
                ev,
                wants_keyboard,
                translate_pointer,
            );
            proof {
                assert(state@ =~~= spec_event_applied(
                    old(state)@,
                    *ev,
                    wants_keyboard,
                    !old(state)@.gate_pointer_input || wants_pointer,
                ));
            }
            Ok(consumed)
        },
    }
}

/// Take in one platform event, reading the keyboard and pointer wishes from
/// the GUI context. The wishes depend on the context's internal state, so
/// the contract promises the outcome for some pair of wishes, with pointer
/// translation forced on while gating is off. Before `begin` this is a
/// lifecycle violation and changes nothing.
pub fn event(state: &mut State, ev: &Event) -> (r: Result<bool, LifecycleError>)
    requires
        old(state).wf(),
    ensures
        final(state).wf(),
        old(state)@.phase == Phase::Uninitialized ==> r == Result::<bool, LifecycleError>::Err(
            LifecycleError::NotInitialized,
        ) && final(state)@ == old(state)@,
        old(state)@.phase == Phase::Ready ==> exists|wants_keyboard: bool, translate_pointer: bool|
            {
                &&& !old(state)@.gate_pointer_input ==> translate_pointer
                &&& final(state)@ == #[trigger] spec_event_applied(
                    old(state)@,
                    *ev,
                    wants_keyboard,
                    translate_pointer,
                )
                &&& r == Result::<bool, LifecycleError>::Ok(
                    spec_consumed(*ev, wants_keyboard, translate_pointer),
                )
            },
{
    if !state.is_ready() {
        return Err(LifecycleError::NotInitialized);
    }
    let wants_keyboard = gui_wants_keyboard_input(state.context());
    let wants_pointer = gui_wants_pointer_input(state.context());
    let r = event_with_signals(state, ev, wants_keyboard, wants_pointer);
    proof {
        let translate_pointer = !old(state)@.gate_pointer_input || wants_pointer;
        assert(state@ == spec_event_applied(
            old(state)@,
            *ev,
            wants_keyboard,
            translate_pointer,
        ));
    }
    r
}

/// The frame step's intake half: build the snapshot to hand to the GUI
/// library from the geometry of the moment and the full accumulated input,
/// and clear the buffer, exactly once. The modifier snapshot, focus flag
/// and stored output survive the step. Before `begin` this is a lifecycle
/// violation and changes nothing.
pub fn frame(state: &mut State, geometry: FrameGeometry) -> (r: Result<
    FrameSnapshot,
    LifecycleError,
>)
    requires
        old(state).wf(),
    ensures
        final(state).wf(),
        old(state)@.phase == Phase::Uninitialized ==> (r matches Err(e) && e
            == LifecycleError::NotInitialized && final(state)@ == old(state)@),
        old(state)@.phase == Phase::Ready ==> ({
            &&& r matches Ok(snap) && snap@ == spec_frame_snapshot(old(state)@, geometry)
            &&& final(state)@ == spec_frame_cleared(old(state)@)
        }),
{
    match state.phase {
        Phase::Uninitialized => Err(LifecycleError::NotInitialized),
        Phase::Ready => {
            let mut events: Vec<GuiEvent> = Vec::new();
            core::mem::swap(&mut events, &mut state.raw_input.events);
            let snapshot = FrameSnapshot {
                geometry,
                events,
                modifiers: state.raw_input.modifiers,
                has_focus: state.raw_input.has_focus,
            };
            proof {
                assert(state@ =~~= spec_frame_cleared(old(state)@));
                assert(snapshot@ =~~= spec_frame_snapshot(old(state)@, geometry));
            }
            Ok(snapshot)
        },
    }
}

/// The frame step's output half: store the GUI library's end-of-frame
/// output, fully replacing the previous one, and say which platform-side
/// actions it calls for, the mapped cursor among them every frame. Before
/// `begin` this is a lifecycle violation and changes nothing.
pub fn frame_end(state: &mut State, output: FullOutput) -> (r: Result<
    FrameActions,
    LifecycleError,
>)
    requires
        old(state).wf(),
    ensures
        final(state).wf(),
        old(state)@.phase == Phase::Uninitialized ==> (r matches Err(e) && e
            == LifecycleError::NotInitialized && final(state)@ == old(state)@),
        old(state)@.phase == Phase::Ready ==> ({
            &&& r matches Ok(actions) && actions@ == spec_frame_actions(output@)
            &&& final(state)@ == spec_output_stored(old(state)@, output@)
        }),
{
    match state.phase {
        Phase::Uninitialized => Err(LifecycleError::NotInitialized),
        Phase::Ready => {
            let cursor = egui_cursor_to_sapp_cursor(output.cursor_icon);
            let text = output.copied_text.clone();
            let copy_text = if text.as_str().is_empty() {
                None
            } else {
                Some(text)
            };
            let open_url = match &output.open_url {
                Some(u) => Some(u.clone()),
                None => None,
            };
            state.latest_output = Some(output);
            let actions = FrameActions { cursor, copy_text, open_url };
            proof {
                assert(state@ =~~= spec_output_stored(old(state)@, output@));
                assert(actions@ =~~= spec_frame_actions(output@));
            }
            Ok(actions)
        },
    }
}

/// Hand out the renderer-side work of the stored output: the texture
/// uploads in output order, the texture releases, and the advisory repaint
/// delay. Before any frame step has produced output this is a no-op that
/// dispatches nothing, not an error. Before `begin` it is a lifecycle
/// violation.
pub fn draw(state: &State) -> (r: Result<DrawActions, LifecycleError>)
    requires
        state.wf(),
    ensures
        state@.phase == Phase::Uninitialized ==> (r matches Err(e) && e
            == LifecycleError::NotInitialized),
        state@.phase == Phase::Ready && state@.latest_output is None ==> (r matches Ok(a)
            && a.uploads@ == Seq::<TextureDelta>::empty() && a.frees@ == Seq::<
            TextureId,
        >::empty() && a.repaint_after_nanos == 0),
        state@.phase == Phase::Ready ==> (state@.latest_output matches Some(out) ==> (r matches Ok(
            a,
        ) && a.uploads@ == out.textures_set && a.frees@ == out.textures_free
            && a.repaint_after_nanos == out.repaint_after_nanos)),
{
    match state.phase {
        Phase::Uninitialized => Err(LifecycleError::NotInitialized),
        Phase::Ready => {
            match &state.latest_output {
                None => Ok(
                    DrawActions { uploads: Vec::new(), frees: Vec::new(), repaint_after_nanos: 0 },
                ),
                Some(output) => {
                    let mut uploads: Vec<TextureDelta> = Vec::new();
                    let mut i: usize = 0;
                    while i < output.textures_set.len()
                        invariant
                            i <= output.textures_set.len(),
                            uploads@ == output.textures_set@.take(i as int),
                        decreases output.textures_set.len() - i,
                    {
                        uploads.push(output.textures_set[i]);
                        proof {
                            assert(uploads@ =~= output.textures_set@.take(i + 1));
                        }
                        i = i + 1;
                    }
                    let mut frees: Vec<TextureId> = Vec::new();
                    let mut j: usize = 0;
                    while j < output.textures_free.len()
                        invariant
                            j <= output.textures_free.len(),
                            frees@ == output.textures_free@.take(j as int),
                        decreases output.textures_free.len() - j,
                    {
                        frees.push(output.textures_free[j]);
                        proof {
                            assert(frees@ =~= output.textures_free@.take(j + 1));
                        }
                        j = j + 1;
                    }
                    proof {
                        assert(uploads@ =~= output.textures_set@);
                        assert(frees@ =~= output.textures_free@);
                    }
                    Ok(
                        DrawActions {
                            uploads,
                            frees,
                            repaint_after_nanos: output.repaint_after_nanos,
                        },
                    )
                },
            }
        },
    }
}

/// Translated events accumulate in arrival order, and the frame snapshot
/// hands them to the GUI library in that same order: after two intakes the
/// snapshot holds what was already buffered, then everything the first
/// event emitted, then everything the second one did.
pub proof fn lemma_events_arrive_in_order(
    s: StateModel,
    e1: Event,
    e2: Event,
    wk1: bool,
    tp1: bool,
    wk2: bool,
    tp2: bool,
    geometry: FrameGeometry,
)
    ensures
        ({
            let s1 = spec_event_applied(s, e1, wk1, tp1);
            let s2 = spec_event_applied(s1, e2, wk2, tp2);
            spec_frame_snapshot(s2, geometry).events == s.input.events + spec_emitted(
                e1,
                s1.input.modifiers,
                wk1,
                tp1,
            ) + spec_emitted(e2, s2.input.modifiers, wk2, tp2)
        }),
{
    let s1 = spec_event_applied(s, e1, wk1, tp1);
    let s2 = spec_event_applied(s1, e2, wk2, tp2);
    assert(spec_frame_snapshot(s2, geometry).events =~= s.input.events + spec_emitted(
        e1,
        s1.input.modifiers,
        wk1,
        tp1,
    ) + spec_emitted(e2, s2.input.modifiers, wk2, tp2));
}

/// Running the frame step twice with no intervening input leaves nothing
/// for the second step: the buffer is cleared exactly once per frame and
/// never accumulates across frames, and a second clear changes nothing.
pub proof fn lemma_frame_step_idempotent(s: StateModel, geometry: FrameGeometry)
    requires
        s.phase == Phase::Ready,
    ensures
        spec_frame_snapshot(spec_frame_cleared(s), geometry).events.len() == 0,
        spec_frame_cleared(spec_frame_cleared(s)) == spec_frame_cleared(s),
{
    assert(spec_frame_cleared(spec_frame_cleared(s)) =~~= spec_frame_cleared(s));
}

} // verus!
