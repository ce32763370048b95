//! The state stack and the mode, driven by one input at a time.
//!
//! The controller owns the mode and the frames. The active frame is the top
//! of the stack; it alone sees inputs. A frame that is pushed is entered at
//! once, and the frame beneath it stays suspended. Nothing ever pops: the
//! only way out is the exit signal.

use crate::frames::{Frame, FrameView, MenuState, MenuView, Step, StepView, Trans, TransView};
use crate::input::InputEvent;
use crate::mode::{CurrentState, Game};
use crate::scene::{Command, Endpoint, Entity};
use vstd::prelude::*;

verus! {

/// One thing that happens to the game.
#[derive(Clone, Copy, Debug, PartialEq, Eq, Structural)]
pub enum Input {
    /// The window reported an event.
    Event(InputEvent),
    /// A frame tick: so many microseconds have passed since the last one.
    Tick(u64),
    /// The engine has carried out a `SpawnText` and made this entity.
    TextSpawned(Entity),
    /// The engine has carried out a `Bind` and holds this socket.
    Bound(Endpoint),
    /// The engine could not carry out this command. The host has logged it.
    Failed(Command),
}

/// The controller's answer to one input.
#[derive(Debug, PartialEq, Eq)]
pub struct Reaction {
    /// What the engine is asked to do, in order.
    pub commands: Vec<Command>,
    /// Whether the application is to end.
    pub exit: bool,
}

/// The controller's answer to one input, as contracts see it.
pub struct ReactionView {
    pub commands: Seq<Command>,
    pub exit: bool,
}

impl View for Reaction {
    type V = ReactionView;

    open spec fn view(&self) -> ReactionView {
        ReactionView { commands: self.commands@, exit: self.exit }
    }
}

/// The mode and the state stack, as contracts see them.
pub struct ControllerView {
    pub mode: CurrentState,
    /// The suspended frames, oldest first.
    pub suspended: Seq<FrameView>,
    /// The top of the stack.
    pub active: FrameView,
}

impl ControllerView {
    /// Where every game begins: the mode is `Menu` and the menu is the only frame.
    pub open spec fn initial() -> ControllerView {
        ControllerView {
            mode: CurrentState::Menu,
            suspended: Seq::empty(),
            active: FrameView::Menu(MenuView { text: None }),
        }
    }

    /// The whole stack, oldest frame first, the active frame last.
    pub open spec fn stack(self) -> Seq<FrameView> {
        self.suspended.push(self.active)
    }

    /// What the active frame answers to an input. A command that failed
    /// is answered by nothing; a failed bind is told to the frame, which
    /// then enters nothing.
    pub open spec fn asked(self, input: Input) -> StepView {
        match input {
            Input::Event(event) => self.active.on_event(event),
            Input::Tick(elapsed) => self.active.on_tick(self.mode, elapsed as nat),
            Input::TextSpawned(_) => StepView { commands: Seq::empty(), trans: TransView::Stay },
            Input::Bound(socket) => StepView {
                commands: Seq::empty(),
                trans: self.active.on_bind(Some(socket)),
            },
            Input::Failed(Command::Bind(_)) => StepView {
                commands: Seq::empty(),
                trans: self.active.on_bind(None),
            },
            Input::Failed(_) => StepView { commands: Seq::empty(), trans: TransView::Stay },
        }
    }

    /// The active frame after it has seen an input.
    pub open spec fn active_after(self, input: Input) -> FrameView {
        match input {
            Input::Tick(elapsed) => self.active.after_tick(elapsed as nat),
            Input::TextSpawned(entity) => self.active.with_text(entity),
            _ => self.active,
        }
    }

    /// The mode after the active frame has seen an input.
    pub open spec fn mode_after(self, input: Input) -> CurrentState {
        match input {
            Input::Event(event) => self.active.mode_after_event(self.mode, event),
            Input::Bound(socket) => self.active.mode_after_bind(self.mode, Some(socket)),
            Input::Failed(Command::Bind(_)) => self.active.mode_after_bind(self.mode, None),
            _ => self.mode,
        }
    }

    /// The stack after a request: a pushed frame is entered on top of the
    /// frame that was active; any other request leaves the stack alone.
    pub open spec fn apply(self, trans: TransView) -> ControllerView {
        match trans {
            TransView::Push(frame) => ControllerView {
                mode: self.mode,
                suspended: self.suspended.push(self.active),
                active: frame.started(),
            },
            _ => self,
        }
    }

    /// The controller after one input: the active frame sees the input,
    /// then its request is applied to the stack.
    pub open spec fn step(self, input: Input) -> ControllerView {
        ControllerView {
            mode: self.mode_after(input),
            suspended: self.suspended,
            active: self.active_after(input),
        }.apply(self.asked(input).trans)
    }

    /// The answer to one input: what the active frame asks of the engine,
    /// then what entering a pushed frame asks; and the exit signal if the
    /// frame asks to quit.
    pub open spec fn react(self, input: Input) -> ReactionView {
        let asked = self.asked(input);
        ReactionView {
            commands: asked.commands + (match asked.trans {
                TransView::Push(frame) => frame.start_commands(),
                _ => Seq::empty(),
            }),
            exit: asked.trans is Quit,
        }
    }

    /// The controller after the inputs, in order.
    pub open spec fn run(self, inputs: Seq<Input>) -> ControllerView
        decreases inputs.len(),
    {
        if inputs.len() == 0 {
            self
        } else {
            self.run(inputs.drop_last()).step(inputs.last())
        }
    }

    /// The states a game can be in: either the menu alone under mode `Menu`,
    /// or a well-formed gameplay frame on top of the menu under mode
    /// `Gameplay`.
    pub open spec fn reachable(self) -> bool {
        ||| {
            &&& self.mode == CurrentState::Menu
            &&& self.suspended.len() == 0
            &&& self.active is Menu
        }
        ||| {
            &&& self.mode == CurrentState::Gameplay
            &&& self.suspended.len() == 1
            &&& self.suspended[0] is Menu
            &&& self.active.is_gameplay()
            &&& self.active.wf()
        }
    }
}

/// The mode and the state stack.
#[derive(Debug)]
pub struct ModeController {
    game: Game,
    suspended: Vec<Frame>,
    active: Frame,
}

impl View for ModeController {
    type V = ControllerView;

    closed spec fn view(&self) -> ControllerView {
        ControllerView {
            mode: self.game.current_state,
            suspended: self.suspended@.map_values(|frame: Frame| frame@),
            active: self.active@,
        }
    }
}

impl ModeController {
    /// A game at its beginning, and what the engine must do to show it:
    /// the menu is entered at once.
    pub fn new() -> (begun: (Self, Vec<Command>))
        ensures
            begun.0@ == ControllerView::initial(),
            begun.1@ == ControllerView::initial().active.start_commands(),
            begun.0@.reachable(),
    {
        let mut menu = MenuState::default();
        let commands = menu.on_start();
        let controller = ModeController {
            game: Game::default(),
            suspended: Vec::new(),
            active: Frame::Menu(menu),
        };
        assert(controller@.suspended =~= Seq::empty());
        (controller, commands)
    }

    /// Feeds one input to the game and says what the host is to do.
    pub fn step(&mut self, input: Input) -> (reaction: Reaction)
        ensures
            final(self)@ == old(self)@.step(input),
            reaction@ == old(self)@.react(input),
            old(self)@.reachable() ==> final(self)@.reachable(),
    {
        let ghost before = self@;
        let step = match input {
            Input::Event(event) => self.active.handle_event(&mut self.game, event),
            Input::Tick(elapsed) => self.active.update(&self.game, elapsed),
            Input::TextSpawned(entity) => {
                self.active.text_spawned(entity);
                Step { commands: Vec::new(), trans: Trans::Stay }
            },
            Input::Bound(socket) => {
                let trans = self.active.bind_completed(&mut self.game, Some(socket));
                Step { commands: Vec::new(), trans }
            },
            Input::Failed(Command::Bind(_)) => {
                let trans = self.active.bind_completed(&mut self.game, None);
                Step { commands: Vec::new(), trans }
            },
            // Any other failure is the host's to log; the game goes on.
            Input::Failed(_) => Step { commands: Vec::new(), trans: Trans::Stay },
        };
        let Step { commands, trans } = step;
        let mut commands = commands;
        match trans {
            Trans::Push(frame) => {
                let mut frame = frame;
                let mut entering = frame.on_start();
                commands.append(&mut entering);
                self.suspended.push(self.active);
                self.active = frame;
                assert(self@.suspended =~= before.suspended.push(before.active_after(input)));
                Reaction { commands, exit: false }
            },
            Trans::Quit => Reaction { commands, exit: true },
            Trans::Stay => {
                Reaction { commands, exit: false }
            },
        }
    }

    /// The current mode.
    pub fn mode(&self) -> (mode: CurrentState)
        ensures
            mode == self@.mode,
    {
        self.game.current_state
    }

    /// How many frames are suspended beneath the active one.
    pub fn suspended(&self) -> (count: usize)
        ensures
            count == self@.suspended.len(),
    {
        self.suspended.len()
    }

    /// The active frame.
    pub fn active(&self) -> (frame: Frame)
        ensures
            frame@ == self@.active,
    {
        self.active
    }
}

} // verus!
