//! The controller: owner of the model and the drawing surface, and the
//! decision core of the session loop.
//!
//! The live loop around it is thin: read the next key event from the input
//! channel and hand it to [`Controller::handle_event`], which applies the
//! page-scoped dispatch, re-renders the canvas for every accepted press,
//! and says whether the session ends.  [`Controller::run`] drives the same
//! core over a finished sequence of events, in order, and counts the
//! renders; [`session_spec`] is the mathematical statement both follow.

use vstd::prelude::*;

use crate::canvas::{frame_of, Canvas};
use crate::keys::{KeyCode, KeyEvent, KeyEventKind};
use crate::model::{home_lines, next_index, prev_index, HomeEntryState, Model, Page, PagesState};
use crate::view::{lines_of, RootViewNode, ViewNode};

verus! {

/// Width, in cells, of the drawing surface a controller owns.
pub const CANVAS_WIDTH: usize = 60;

/// Height, in cells, of the drawing surface a controller owns.
pub const CANVAS_HEIGHT: usize = 20;

/// What one key event made the session loop do.
#[derive(Clone, Copy, Debug, PartialEq, Eq, Structural)]
pub enum Step {
    /// The exit condition was met: the session ends.
    Exit,
    /// The event was accepted: dispatch ran and the canvas holds a fresh
    /// frame.
    Rendered,
    /// The event was inert: nothing changed and nothing was drawn.
    Ignored,
}

/// The exit condition: an Escape-coded event while the home page is
/// current ends the session, whatever the event's kind.  On any other
/// page the same code does not exit.
pub open spec fn is_exit_event(ev: KeyEvent, page: Page) -> bool {
    ev.code is Esc && page is HomeEntry
}

/// An accepted press: a press-kind event that does not meet the exit
/// condition.  Exactly these events drive dispatch and a render.
pub open spec fn is_accepted_press(ev: KeyEvent, page: Page) -> bool {
    !is_exit_event(ev, page) && ev.kind is Press
}

/// The home page's handler: "move up" selects the previous entry, "move
/// down" the next, both clamping at the list's ends; any other code is a
/// no-op.
pub open spec fn home_after(s: HomeEntryState, code: KeyCode) -> HomeEntryState {
    match code {
        KeyCode::Up => HomeEntryState {
            selected: prev_index(s.selected as nat) as usize,
            ..s
        },
        KeyCode::Down => HomeEntryState {
            selected: next_index(s.selected as nat, s.items@.len()) as usize,
            ..s
        },
        _ => s,
    }
}

/// Page-scoped dispatch of an accepted press: the current page's handler
/// runs on the key code; pages without a handler change nothing.  No
/// handler moves to another page today, so the current page is preserved.
pub open spec fn model_after_dispatch(m: Model, code: KeyCode) -> Model {
    match m.current_page {
        Page::HomeEntry => Model {
            state: PagesState { home_entry_state: home_after(m.state.home_entry_state, code) },
            ..m
        },
        Page::SettingsEntry => m,
    }
}

/// The model after one key event: dispatched if the event is an accepted
/// press, untouched otherwise.
pub open spec fn model_after_event(m: Model, ev: KeyEvent) -> Model {
    if is_accepted_press(ev, m.current_page) {
        model_after_dispatch(m, ev.code)
    } else {
        m
    }
}

/// What one event makes the loop do, given the current model.
pub open spec fn step_of(m: Model, ev: KeyEvent) -> Step {
    if is_exit_event(ev, m.current_page) {
        Step::Exit
    } else if ev.kind is Press {
        Step::Rendered
    } else {
        Step::Ignored
    }
}

/// The lines the current page renders to.
pub open spec fn page_lines(m: Model) -> Seq<Seq<char>> {
    match m.current_page {
        Page::HomeEntry => home_lines(m.state.home_entry_state),
        Page::SettingsEntry => Seq::empty(),
    }
}

/// The session loop over a finished event sequence: the final model, the
/// number of renders, and whether the exit condition ended the loop.
/// Events are consumed strictly in order; the loop stops at the first
/// event that meets the exit condition, or when the sequence is
/// exhausted.
pub open spec fn session_spec(m: Model, evs: Seq<KeyEvent>) -> (Model, nat, bool)
    decreases evs.len(),
{
    if evs.len() == 0 {
        (m, 0nat, false)
    } else {
        let ev = evs[0];
        if is_exit_event(ev, m.current_page) {
            (m, 0nat, true)
        } else if ev.kind is Press {
            let rest = session_spec(model_after_dispatch(m, ev.code), evs.drop_first());
            (rest.0, (rest.1 + 1) as nat, rest.2)
        } else {
            session_spec(m, evs.drop_first())
        }
    }
}

/// What a finished [`Controller::run`] reports: how many frames it drew
/// and whether the exit condition (rather than the end of the input)
/// stopped it.
#[derive(Clone, Copy, Debug, PartialEq, Eq, Structural)]
pub struct SessionOutcome {
    pub renders: usize,
    pub exited: bool,
}

/// The session core: exclusive owner of the model and of the drawing
/// surface.
pub struct Controller {
    pub canvas: Canvas,
    pub model: Model,
}

impl Controller {
    /// The model and the canvas are well formed.
    pub open spec fn wf(self) -> bool {
        &&& self.model.wf()
        &&& self.canvas.wf()
    }

    /// The canvas holds exactly the frame the current model renders to:
    /// true from the initial render on, and preserved by every step of
    /// the loop.
    pub open spec fn synced(self) -> bool {
        self.canvas.frame() == frame_of(
            page_lines(self.model),
            self.canvas.width as nat,
            self.canvas.height as nat,
        )
    }

    /// A controller over the default model and a blank canvas.
    pub fn new() -> (controller: Controller)
        ensures
            controller.wf(),
            controller.model.current_page == Page::HomeEntry,
            controller.model.state.home_entry_state.selected == 0,
            controller.model.state.home_entry_state.items@.len() == 0,
            controller.canvas.width == CANVAS_WIDTH,
            controller.canvas.height == CANVAS_HEIGHT,
    {
        Controller { canvas: Canvas::new(CANVAS_WIDTH, CANVAS_HEIGHT), model: Model::new() }
    }

    /// A controller over the given model, for sessions that do not start
    /// from the default state.
    pub fn with_model(model: Model) -> (controller: Controller)
        requires
            model.wf(),
        ensures
            controller.wf(),
            controller.model == model,
            controller.canvas.width == CANVAS_WIDTH,
            controller.canvas.height == CANVAS_HEIGHT,
    {
        Controller { canvas: Canvas::new(CANVAS_WIDTH, CANVAS_HEIGHT), model }
    }

    /// Decides well-formedness at run time, for callers outside the
    /// proof: true exactly when the model and the canvas are well formed.
    /// Every constructor establishes well-formedness and every method
    /// preserves it, so this only ever rejects a controller whose fields
    /// were overwritten by hand.
    #[verifier::loop_isolation(false)]
    pub fn is_well_formed(&self) -> (b: bool)
        ensures
            b == self.wf(),
    {
        let home = &self.model.state.home_entry_state;
        let model_ok = if home.items.len() == 0 {
            home.selected == 0
        } else {
            home.selected < home.items.len()
        };
        if !model_ok {
            return false;
        }
        proof {
            assert(self.canvas.frame().len() == self.canvas.rows@.len());
        }
        if self.canvas.rows.len() != self.canvas.height {
            return false;
        }
        let mut r: usize = 0;
        while r < self.canvas.rows.len()
            invariant
                r <= self.canvas.rows@.len(),
                forall|k: int| 0 <= k < r ==> (#[trigger] self.canvas.frame()[k]).len()
                    == self.canvas.width,
            decreases self.canvas.rows@.len() - r,
        {
            if self.canvas.rows[r].len() != self.canvas.width {
                proof {
                    assert(self.canvas.frame()[r as int].len() == self.canvas.rows@[r as int]@.len());
                }
                return false;
            }
            r = r + 1;
        }
        true
    }

    /// Draws the first visible frame from the model's current state,
    /// before any input is processed.
    pub fn init(&mut self)
        requires
            old(self).wf(),
        ensures
            final(self).wf(),
            final(self).model == old(self).model,
            final(self).canvas.width == old(self).canvas.width,
            final(self).canvas.height == old(self).canvas.height,
            final(self).synced(),
    {
        self.render();
    }

    /// Produces one consistent frame from the current model state: the
    /// current page's view-tree, wrapped in a root node, realized on the
    /// canvas.  The frame is a function of the model and the canvas
    /// dimensions alone, so rendering twice without a model mutation in
    /// between yields identical frames.
    pub fn render(&mut self)
        requires
            old(self).wf(),
        ensures
            final(self).wf(),
            final(self).model == old(self).model,
            final(self).canvas.width == old(self).canvas.width,
            final(self).canvas.height == old(self).canvas.height,
            final(self).synced(),
    {
        let view_node = match self.model.current_page {
            Page::HomeEntry => self.model.state.home_entry_state.render(),
            Page::SettingsEntry => ViewNode::Column(Vec::new()),
        };
        proof {
            if self.model.current_page is SettingsEntry {
                assert(lines_of(view_node) =~= page_lines(self.model));
            }
        }
        let root_view_node = RootViewNode(view_node);
        self.canvas.render_view_node_tree(&root_view_node);
    }

    /// The home page's key handler; see [`home_after`] for the policy.
    fn control_home_page(&mut self, key_code: KeyCode)
        requires
            old(self).wf(),
        ensures
            final(self).wf(),
            final(self).canvas == old(self).canvas,
            final(self).model.current_page == old(self).model.current_page,
            final(self).model.state.home_entry_state == home_after(
                old(self).model.state.home_entry_state,
                key_code,
            ),
    {
        let home_state = &mut self.model.state.home_entry_state;
        match key_code {
            KeyCode::Up => {
                home_state.to_previous_item();
            },
            KeyCode::Down => {
                home_state.to_next_item();
            },
            _ => {},
        }
    }

    /// One turn of the session loop.  The exit check comes first and is
    /// independent of the event's kind; then press-kind events are
    /// dispatched to the current page's handler and a full render follows
    /// unconditionally; every other event is inert.
    pub fn handle_event(&mut self, event: KeyEvent) -> (step: Step)
        requires
            old(self).wf(),
        ensures
            final(self).wf(),
            step == step_of(old(self).model, event),
            final(self).model == model_after_event(old(self).model, event),
            final(self).canvas.width == old(self).canvas.width,
            final(self).canvas.height == old(self).canvas.height,
            step is Rendered ==> final(self).synced(),
            !(step is Rendered) ==> *final(self) == *old(self),
    {
        if matches!(event.code, KeyCode::Esc) && matches!(self.model.current_page, Page::HomeEntry) {
            return Step::Exit;
        }
        match event.kind {
            KeyEventKind::Press => {
                match self.model.current_page {
                    Page::HomeEntry => self.control_home_page(event.code),
                    Page::SettingsEntry => {},
                }
                self.render();
                Step::Rendered
            },
            _ => Step::Ignored,
        }
    }

    /// The session loop over a finished, ordered sequence of events: each
    /// event is handled in order until one meets the exit condition or
    /// the input is exhausted.  Both endings are clean, and exhaustion
    /// triggers no further render.
    #[verifier::loop_isolation(false)]
    pub fn run(&mut self, events: &Vec<KeyEvent>) -> (outcome: SessionOutcome)
        requires
            old(self).wf(),
        ensures
            final(self).wf(),
            final(self).model == session_spec(old(self).model, events@).0,
            outcome.renders == session_spec(old(self).model, events@).1,
            outcome.exited == session_spec(old(self).model, events@).2,
            final(self).canvas.width == old(self).canvas.width,
            final(self).canvas.height == old(self).canvas.height,
            outcome.renders > 0 ==> final(self).synced(),
            outcome.renders == 0 ==> final(self).canvas == old(self).canvas,
    {
        let ghost m0 = self.model;
        let ghost evs = events@;
        let mut renders: usize = 0;
        let mut i: usize = 0;
        proof {
            assert(evs.skip(0) =~= evs);
        }
        while i < events.len()
            invariant
                i <= evs.len(),
                renders <= i,
                self.wf(),
                self.canvas.width == old(self).canvas.width,
                self.canvas.height == old(self).canvas.height,
                session_spec(m0, evs).0 == session_spec(self.model, evs.skip(i as int)).0,
                session_spec(m0, evs).1 == renders + session_spec(self.model, evs.skip(i as int)).1,
                session_spec(m0, evs).2 == session_spec(self.model, evs.skip(i as int)).2,
                renders > 0 ==> self.synced(),
                renders == 0 ==> self.canvas == old(self).canvas,
            decreases evs.len() - i,
        {
            let ghost suffix = evs.skip(i as int);
            proof {
                assert(suffix[0] == evs[i as int]);
                assert(suffix.drop_first() =~= evs.skip(i as int + 1));
            }
            let step = self.handle_event(events[i]);
            match step {
                Step::Exit => {
                    return SessionOutcome { renders, exited: true };
                },
                Step::Rendered => {
                    renders = renders + 1;
                },
                Step::Ignored => {},
            }
            i = i + 1;
        }
        proof {
            assert(evs.skip(evs.len() as int) =~= Seq::empty());
        }
        SessionOutcome { renders, exited: false }
    }
}

} // verus!
