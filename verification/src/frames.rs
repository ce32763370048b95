//! The frames of the state stack: menu, the two gameplay variants, and the
//! lose screen.
//!
//! A frame reacts to three things: being entered, an input event, and a
//! tick. Each reaction is a list of [`Command`]s for the engine and, for
//! events and ticks, a [`Trans`] for the state stack. The reactions are
//! defined once, as functions on the frames' views; the methods compute
//! exactly those.

use crate::input::{InputEvent, Key};
use crate::mode::{CurrentState, Game};
use crate::scene::{
    bind_address, init_camera, init_crab, init_platform, init_text, ping_destination,
    spec_bind_address, spec_ping_destination, Command, Component, Crab, Endpoint, Entity,
    Platform, Position, Sprite, ARENA_HEIGHT, ARENA_WIDTH,
};
use crate::timer::{expires, remaining_after, SpawnTimer, SPAWN_DELAY_MICROS};
use vstd::prelude::*;

verus! {

/// What a menu frame holds: the entity of its text, once the engine has made it.
pub struct MenuView {
    pub text: Option<Entity>,
}

/// What a single-player frame holds: its countdown and the crab's sprite.
pub struct CrabbyView {
    pub timer: Option<nat>,
    pub sprite: Option<Sprite>,
}

/// What a multiplayer frame holds: countdown, crab's sprite, and its socket.
pub struct MultiplayerView {
    pub timer: Option<nat>,
    pub sprite: Option<Sprite>,
    pub socket: Endpoint,
}

/// A frame of the state stack, as contracts see it.
pub enum FrameView {
    Menu(MenuView),
    SinglePlayer(CrabbyView),
    Multiplayer(MultiplayerView),
    Lose,
}

/// A request to the state stack, as contracts see it.
pub enum TransView {
    /// Carry on with the active frame.
    Stay,
    /// End the application.
    Quit,
    /// Suspend the active frame and enter this one on top of it.
    Push(FrameView),
}

/// A frame's reaction to an event or a tick, as contracts see it.
pub struct StepView {
    pub commands: Seq<Command>,
    pub trans: TransView,
}

/// What entering a gameplay frame asks of the engine: the camera, the two
/// sprites with their component types, and the four platforms, which stand
/// at the bottom centre and a quarter, a half and three quarters of the way
/// up and across the arena.
pub open spec fn gameplay_start_commands() -> Seq<Command> {
    seq![
        Command::SpawnCamera,
        Command::LoadSprite(Sprite::Ferris),
        Command::Register(Component::Crab),
        Command::LoadSprite(Sprite::PlatformBlue),
        Command::Register(Component::Platform),
        platform_at(ARENA_WIDTH as int / 2, 0),
        platform_at(ARENA_WIDTH as int / 4, ARENA_HEIGHT as int / 4),
        platform_at(ARENA_WIDTH as int / 2, ARENA_HEIGHT as int / 2),
        platform_at(3 * ARENA_WIDTH as int / 4, 3 * ARENA_HEIGHT as int / 4),
    ]
}

/// The request for a blue platform of the standard size at (`x`, `y`).
pub open spec fn platform_at(x: int, y: int) -> Command {
    Command::SpawnPlatform {
        sprite: Sprite::PlatformBlue,
        at: Position { x: x as u32, y: y as u32, z: 0 },
        platform: Platform::standard(),
    }
}

/// What entering a text screen asks of the engine: the camera, the sprite,
/// and the line of text at the top middle of the arena.
pub open spec fn text_start_commands(sprite: Sprite) -> Seq<Command> {
    seq![
        Command::SpawnCamera,
        Command::LoadSprite(sprite),
        Command::SpawnText { sprite, at: Position { x: 400, y: 540, z: 0 } },
    ]
}

/// What a gameplay frame asks for when its countdown runs out on this tick:
/// the crab, drawn with the frame's sprite. Nothing on any other tick. (A
/// countdown never runs without a sprite, see [`CrabbyView::wf`]; were there
/// none, there would be nothing to draw the crab with.)
pub open spec fn spawn_commands(
    timer: Option<nat>,
    sprite: Option<Sprite>,
    elapsed: nat,
) -> Seq<Command> {
    if expires(timer, elapsed) && sprite is Some {
        seq![
            Command::SpawnCrab {
                sprite: sprite->0,
                at: Position { x: 400, y: 60, z: 0 },
                crab: Crab::standard(0),
            },
        ]
    } else {
        Seq::empty()
    }
}

/// What a gameplay frame asks of the state stack at the end of a tick: the
/// lose screen on top if the mode reads `Menu`, else nothing.
pub open spec fn tick_trans(mode: CurrentState) -> TransView {
    if mode == CurrentState::Menu {
        TransView::Push(FrameView::Lose)
    } else {
        TransView::Stay
    }
}

/// What every frame but the menu asks of the state stack on an event: the
/// end of the application if the event asks for it, else nothing.
pub open spec fn exit_trans(event: InputEvent) -> TransView {
    if event.asks_exit() {
        TransView::Quit
    } else {
        TransView::Stay
    }
}

impl MenuView {
    /// The request to remove the menu's text, if the engine has made it.
    pub open spec fn delete_text(self) -> Seq<Command> {
        match self.text {
            Some(entity) => seq![Command::DeleteEntity(entity)],
            None => Seq::empty(),
        }
    }

    /// The menu's reaction to an event.
    ///
    /// - An event that asks to exit ends the application.
    /// - Option 1 removes the text and enters single-player gameplay.
    /// - Option 2 removes the text and asks for the socket; what follows is
    ///   decided when the outcome is known, see [`MenuView::on_bind`].
    /// - Anything else is ignored.
    pub open spec fn on_event(self, event: InputEvent) -> StepView {
        if event.asks_exit() {
            StepView { commands: Seq::empty(), trans: TransView::Quit }
        } else if event == InputEvent::KeyDown(Key::Key1) {
            StepView {
                commands: self.delete_text(),
                trans: TransView::Push(FrameView::SinglePlayer(CrabbyView::fresh())),
            }
        } else if event == InputEvent::KeyDown(Key::Key2) {
            StepView {
                commands: self.delete_text().push(Command::Bind(spec_bind_address())),
                trans: TransView::Stay,
            }
        } else {
            StepView { commands: Seq::empty(), trans: TransView::Stay }
        }
    }

    /// The mode after the menu has seen an event: `Gameplay` once option 1
    /// is chosen, else what it was.
    pub open spec fn mode_after_event(mode: CurrentState, event: InputEvent) -> CurrentState {
        if event == InputEvent::KeyDown(Key::Key1) {
            CurrentState::Gameplay
        } else {
            mode
        }
    }

    /// What the menu asks of the state stack once the outcome of the bind
    /// is known: multiplayer gameplay around the socket, or nothing if there
    /// is no socket.
    pub open spec fn on_bind(bound: Option<Endpoint>) -> TransView {
        match bound {
            Some(socket) => TransView::Push(
                FrameView::Multiplayer(MultiplayerView::fresh(socket)),
            ),
            None => TransView::Stay,
        }
    }

    /// The mode once the outcome of the bind is known: `Gameplay` if there
    /// is a socket, else what it was.
    pub open spec fn mode_after_bind(mode: CurrentState, bound: Option<Endpoint>) -> CurrentState {
        if bound is Some {
            CurrentState::Gameplay
        } else {
            mode
        }
    }
}

impl CrabbyView {
    /// A frame that has not been entered yet.
    pub open spec fn fresh() -> CrabbyView {
        CrabbyView { timer: None, sprite: None }
    }

    /// The frame after it has been entered: the countdown runs, the sprite is chosen.
    pub open spec fn started() -> CrabbyView {
        CrabbyView { timer: Some(SPAWN_DELAY_MICROS as nat), sprite: Some(Sprite::Ferris) }
    }

    /// A running countdown has a sprite to spawn with.
    pub open spec fn wf(self) -> bool {
        self.timer is Some ==> self.sprite is Some
    }

    /// The frame after a tick of `elapsed` microseconds.
    pub open spec fn after_tick(self, elapsed: nat) -> CrabbyView {
        CrabbyView { timer: remaining_after(self.timer, elapsed), sprite: self.sprite }
    }

    /// The frame's reaction to a tick of `elapsed` microseconds under `mode`.
    pub open spec fn on_tick(self, mode: CurrentState, elapsed: nat) -> StepView {
        StepView {
            commands: spawn_commands(self.timer, self.sprite, elapsed),
            trans: tick_trans(mode),
        }
    }
}

impl MultiplayerView {
    /// A frame around `socket` that has not been entered yet.
    pub open spec fn fresh(socket: Endpoint) -> MultiplayerView {
        MultiplayerView { timer: None, sprite: None, socket }
    }

    /// The frame after it has been entered: the countdown runs, the sprite is chosen.
    pub open spec fn started(self) -> MultiplayerView {
        MultiplayerView {
            timer: Some(SPAWN_DELAY_MICROS as nat),
            sprite: Some(Sprite::Ferris),
            socket: self.socket,
        }
    }

    /// A running countdown has a sprite to spawn with.
    pub open spec fn wf(self) -> bool {
        self.timer is Some ==> self.sprite is Some
    }

    /// The frame after a tick of `elapsed` microseconds.
    pub open spec fn after_tick(self, elapsed: nat) -> MultiplayerView {
        MultiplayerView {
            timer: remaining_after(self.timer, elapsed),
            sprite: self.sprite,
            socket: self.socket,
        }
    }

    /// The frame's reaction to a tick of `elapsed` microseconds under
    /// `mode`: the crab if the countdown runs out, then one ping, whatever
    /// became of the pings before it.
    pub open spec fn on_tick(self, mode: CurrentState, elapsed: nat) -> StepView {
        StepView {
            commands: spawn_commands(self.timer, self.sprite, elapsed).push(
                Command::SendPing(spec_ping_destination()),
            ),
            trans: tick_trans(mode),
        }
    }
}

impl FrameView {
    /// A gameplay frame with a running countdown has a sprite to spawn with.
    pub open spec fn wf(self) -> bool {
        match self {
            FrameView::SinglePlayer(crabby) => crabby.wf(),
            FrameView::Multiplayer(multiplayer) => multiplayer.wf(),
            _ => true,
        }
    }

    /// Whether this is one of the two gameplay frames.
    pub open spec fn is_gameplay(self) -> bool {
        self is SinglePlayer || self is Multiplayer
    }

    /// The frame's countdown; a frame without one counts as idle.
    pub open spec fn timer(self) -> Option<nat> {
        match self {
            FrameView::SinglePlayer(crabby) => crabby.timer,
            FrameView::Multiplayer(multiplayer) => multiplayer.timer,
            _ => None,
        }
    }

    /// The sprite the frame spawns the crab with, if it has chosen one.
    pub open spec fn sprite(self) -> Option<Sprite> {
        match self {
            FrameView::SinglePlayer(crabby) => crabby.sprite,
            FrameView::Multiplayer(multiplayer) => multiplayer.sprite,
            _ => None,
        }
    }

    /// The frame with its countdown set to `timer`; a frame without one is left alone.
    pub open spec fn with_timer(self, timer: Option<nat>) -> FrameView {
        match self {
            FrameView::SinglePlayer(crabby) => FrameView::SinglePlayer(
                CrabbyView { timer, ..crabby },
            ),
            FrameView::Multiplayer(multiplayer) => FrameView::Multiplayer(
                MultiplayerView { timer, ..multiplayer },
            ),
            _ => self,
        }
    }

    /// What entering the frame asks of the engine.
    pub open spec fn start_commands(self) -> Seq<Command> {
        match self {
            FrameView::Menu(_) => text_start_commands(Sprite::Text),
            FrameView::SinglePlayer(_) => gameplay_start_commands(),
            FrameView::Multiplayer(_) => gameplay_start_commands(),
            FrameView::Lose => text_start_commands(Sprite::Lose),
        }
    }

    /// The frame after it has been entered.
    pub open spec fn started(self) -> FrameView {
        match self {
            FrameView::Menu(menu) => FrameView::Menu(menu),
            FrameView::SinglePlayer(_) => FrameView::SinglePlayer(CrabbyView::started()),
            FrameView::Multiplayer(multiplayer) => FrameView::Multiplayer(multiplayer.started()),
            FrameView::Lose => FrameView::Lose,
        }
    }

    /// The frame's reaction to an event. No event changes the frame itself.
    pub open spec fn on_event(self, event: InputEvent) -> StepView {
        match self {
            FrameView::Menu(menu) => menu.on_event(event),
            _ => StepView { commands: Seq::empty(), trans: exit_trans(event) },
        }
    }

    /// The mode after the frame has seen an event: only the menu changes it.
    pub open spec fn mode_after_event(self, mode: CurrentState, event: InputEvent) -> CurrentState {
        match self {
            FrameView::Menu(_) => MenuView::mode_after_event(mode, event),
            _ => mode,
        }
    }

    /// The frame after a tick of `elapsed` microseconds: only countdowns move.
    pub open spec fn after_tick(self, elapsed: nat) -> FrameView {
        match self {
            FrameView::SinglePlayer(crabby) => FrameView::SinglePlayer(crabby.after_tick(elapsed)),
            FrameView::Multiplayer(multiplayer) => FrameView::Multiplayer(
                multiplayer.after_tick(elapsed),
            ),
            _ => self,
        }
    }

    /// The frame's reaction to a tick of `elapsed` microseconds under
    /// `mode`. The menu and the lose screen do nothing on a tick.
    pub open spec fn on_tick(self, mode: CurrentState, elapsed: nat) -> StepView {
        match self {
            FrameView::SinglePlayer(crabby) => crabby.on_tick(mode, elapsed),
            FrameView::Multiplayer(multiplayer) => multiplayer.on_tick(mode, elapsed),
            _ => StepView { commands: Seq::empty(), trans: TransView::Stay },
        }
    }

    /// The frame once the engine has made its text: the menu keeps the
    /// entity, every other frame lets it go.
    pub open spec fn with_text(self, entity: Entity) -> FrameView {
        match self {
            FrameView::Menu(_) => FrameView::Menu(MenuView { text: Some(entity) }),
            _ => self,
        }
    }

    /// What the frame asks of the state stack once the outcome of a bind is
    /// known: only the menu has asked for one.
    pub open spec fn on_bind(self, bound: Option<Endpoint>) -> TransView {
        match self {
            FrameView::Menu(_) => MenuView::on_bind(bound),
            _ => TransView::Stay,
        }
    }

    /// The mode once the outcome of a bind is known: only the menu changes it.
    pub open spec fn mode_after_bind(
        self,
        mode: CurrentState,
        bound: Option<Endpoint>,
    ) -> CurrentState {
        match self {
            FrameView::Menu(_) => MenuView::mode_after_bind(mode, bound),
            _ => mode,
        }
    }
}

/// The menu.
#[derive(Clone, Copy, Debug, PartialEq, Eq)]
pub struct MenuState {
    text_handler: Option<Entity>,
}

/// Single-player gameplay.
#[derive(Clone, Copy, Debug, PartialEq, Eq)]
pub struct Crabby {
    crab_spawn_timer: SpawnTimer,
    sprite_sheet_handle: Option<Sprite>,
}

/// The lose screen.
#[derive(Clone, Copy, Debug, PartialEq, Eq)]
pub struct LoseState;

/// Multiplayer gameplay: single-player gameplay plus a ping on every tick.
#[derive(Clone, Copy, Debug, PartialEq, Eq)]
pub struct MultiplayerState {
    crab_spawn_timer: SpawnTimer,
    sprite_sheet_handle: Option<Sprite>,
    socket: Endpoint,
}

/// A frame of the state stack.
#[derive(Clone, Copy, Debug, PartialEq, Eq)]
pub enum Frame {
    Menu(MenuState),
    SinglePlayer(Crabby),
    Multiplayer(MultiplayerState),
    Lose(LoseState),
}

/// A request to the state stack.
#[derive(Clone, Copy, Debug, PartialEq, Eq)]
pub enum Trans {
    /// Carry on with the active frame.
    Stay,
    /// End the application.
    Quit,
    /// Suspend the active frame and enter this one on top of it.
    Push(Frame),
}

/// A frame's reaction to an event or a tick.
#[derive(Debug, PartialEq, Eq)]
pub struct Step {
    /// What the engine is asked to do, in order.
    pub commands: Vec<Command>,
    /// What the state stack is asked to do afterwards.
    pub trans: Trans,
}

impl View for MenuState {
    type V = MenuView;

    closed spec fn view(&self) -> MenuView {
        MenuView { text: self.text_handler }
    }
}

impl View for Crabby {
    type V = CrabbyView;

    closed spec fn view(&self) -> CrabbyView {
        CrabbyView { timer: self.crab_spawn_timer@, sprite: self.sprite_sheet_handle }
    }
}

impl View for MultiplayerState {
    type V = MultiplayerView;

    closed spec fn view(&self) -> MultiplayerView {
        MultiplayerView {
            timer: self.crab_spawn_timer@,
            sprite: self.sprite_sheet_handle,
            socket: self.socket,
        }
    }
}

impl View for Frame {
    type V = FrameView;

    open spec fn view(&self) -> FrameView {
        match self {
            Frame::Menu(menu) => FrameView::Menu(menu@),
            Frame::SinglePlayer(crabby) => FrameView::SinglePlayer(crabby@),
            Frame::Multiplayer(multiplayer) => FrameView::Multiplayer(multiplayer@),
            Frame::Lose(_) => FrameView::Lose,
        }
    }
}

impl View for Trans {
    type V = TransView;

    open spec fn view(&self) -> TransView {
        match self {
            Trans::Stay => TransView::Stay,
            Trans::Quit => TransView::Quit,
            Trans::Push(frame) => TransView::Push(frame@),
        }
    }
}

impl View for Step {
    type V = StepView;

    open spec fn view(&self) -> StepView {
        StepView { commands: self.commands@, trans: self.trans@ }
    }
}

impl Default for MenuState {
    /// A menu whose text has not been made yet.
    fn default() -> (menu: Self)
        ensures
            menu@ == (MenuView { text: None }),
    {
        MenuState { text_handler: None }
    }
}

impl MenuState {
    /// Enters the menu: asks for the camera, the text's sprite and the text.
    /// The menu itself does not change; the text's entity arrives through
    /// [`MenuState::text_spawned`].
    pub fn on_start(&mut self) -> (commands: Vec<Command>)
        ensures
            final(self)@ == old(self)@,
            commands@ == text_start_commands(Sprite::Text),
    {
        let mut commands: Vec<Command> = Vec::new();
        commands.push(init_camera());
        commands.push(Command::LoadSprite(Sprite::Text));
        commands.push(init_text(Sprite::Text));
        commands
    }

    /// Records the entity that the engine made of the menu's text.
    pub fn text_spawned(&mut self, entity: Entity)
        ensures
            final(self)@ == (MenuView { text: Some(entity) }),
    {
        self.text_handler = Some(entity);
    }

    /// The entity of the menu's text, once the engine has made it.
    pub fn text_handler(&self) -> (text: Option<Entity>)
        ensures
            text == self@.text,
    {
        self.text_handler
    }

    /// Reacts to an event as [`MenuView::on_event`] says, and sets the mode
    /// to `Gameplay` where option 1 was chosen. The menu itself does not
    /// change.
    pub fn handle_event(&mut self, game: &mut Game, event: InputEvent) -> (step: Step)
        ensures
            final(self)@ == old(self)@,
            step@ == old(self)@.on_event(event),
            final(game).current_state == MenuView::mode_after_event(
                old(game).current_state,
                event,
            ),
    {
        let mut commands: Vec<Command> = Vec::new();
        // Closing comes first, whatever else the event may be.
        if event.is_exit() {
            return Step { commands, trans: Trans::Quit };
        }
        match event {
            InputEvent::KeyDown(Key::Key1) => {
                if let Some(entity) = self.text_handler {
                    commands.push(Command::DeleteEntity(entity));
                }
                game.current_state = CurrentState::Gameplay;
                Step { commands, trans: Trans::Push(Frame::SinglePlayer(Crabby::default())) }
            },
            InputEvent::KeyDown(Key::Key2) => {
                if let Some(entity) = self.text_handler {
                    commands.push(Command::DeleteEntity(entity));
                }
                commands.push(Command::Bind(bind_address()));
                Step { commands, trans: Trans::Stay }
            },
            _ => Step { commands, trans: Trans::Stay },
        }
    }

    /// Finishes option 2 once the outcome of the bind is known. With a
    /// socket, the mode becomes `Gameplay` and multiplayer gameplay is
    /// entered around the socket. Without one, nothing changes and nothing
    /// is entered. The menu itself does not change.
    pub fn bind_completed(&mut self, game: &mut Game, bound: Option<Endpoint>) -> (trans: Trans)
        ensures
            final(self)@ == old(self)@,
            trans@ == MenuView::on_bind(bound),
            final(game).current_state == MenuView::mode_after_bind(old(game).current_state, bound),
    {
        match bound {
            Some(socket) => {
                game.current_state = CurrentState::Gameplay;
                Trans::Push(Frame::Multiplayer(MultiplayerState::new(socket)))
            },
            None => Trans::Stay,
        }
    }
}

/// The requests of [`gameplay_start_commands`].
fn start_gameplay() -> (commands: Vec<Command>)
    ensures
        commands@ == gameplay_start_commands(),
{
    let mut commands: Vec<Command> = Vec::new();
    commands.push(init_camera());
    commands.push(Command::LoadSprite(Sprite::Ferris));
    commands.push(Command::Register(Component::Crab));
    commands.push(Command::LoadSprite(Sprite::PlatformBlue));
    commands.push(Command::Register(Component::Platform));
    commands.push(init_platform(Sprite::PlatformBlue, ARENA_WIDTH / 2, 0));
    commands.push(init_platform(Sprite::PlatformBlue, ARENA_WIDTH / 4, ARENA_HEIGHT / 4));
    commands.push(init_platform(Sprite::PlatformBlue, ARENA_WIDTH / 2, ARENA_HEIGHT / 2));
    commands.push(init_platform(Sprite::PlatformBlue, 3 * ARENA_WIDTH / 4, 3 * ARENA_HEIGHT / 4));
    commands
}

impl Default for Crabby {
    /// A frame that has not been entered yet.
    fn default() -> (crabby: Self)
        ensures
            crabby@ == CrabbyView::fresh(),
    {
        Crabby { crab_spawn_timer: SpawnTimer::idle(), sprite_sheet_handle: None }
    }
}

impl Crabby {
    #[verifier::type_invariant]
    spec fn inv(self) -> bool {
        self@.wf()
    }

    /// Enters the frame: arms the countdown with the spawn delay, chooses
    /// the crab's sprite, and asks for the camera, the sprites and the
    /// platforms.
    pub fn on_start(&mut self) -> (commands: Vec<Command>)
        ensures
            final(self)@ == CrabbyView::started(),
            commands@ == gameplay_start_commands(),
    {
        let mut timer = SpawnTimer::idle();
        timer.start(SPAWN_DELAY_MICROS);
        *self = Crabby { crab_spawn_timer: timer, sprite_sheet_handle: Some(Sprite::Ferris) };
        start_gameplay()
    }

    /// Reacts to an event: ends the application if the event asks for it.
    pub fn handle_event(&self, event: InputEvent) -> (trans: Trans)
        ensures
            trans@ == exit_trans(event),
    {
        if event.is_exit() {
            return Trans::Quit;
        }
        Trans::Stay
    }

    /// Lets `elapsed` microseconds pass. The countdown advances; on the
    /// tick that uses it up the crab is asked for, once. Then the mode is
    /// read: if it is `Menu`, the lose screen is pushed.
    pub fn update(&mut self, game: &Game, elapsed: u64) -> (step: Step)
        ensures
            final(self)@ == old(self)@.after_tick(elapsed as nat),
            step@ == old(self)@.on_tick(game.current_state, elapsed as nat),
            final(self)@.wf(),
    {
        proof {
            use_type_invariant(&*self);
        }
        let mut commands: Vec<Command> = Vec::new();
        let mut timer = self.crab_spawn_timer;
        if timer.tick(elapsed).is_some() {
            // The invariant gives the sprite: the countdown was running.
            commands.push(init_crab(self.sprite_sheet_handle.unwrap()));
        }
        self.crab_spawn_timer = timer;
        let trans = match game.current_state {
            CurrentState::Menu => Trans::Push(Frame::Lose(LoseState)),
            _ => Trans::Stay,
        };
        Step { commands, trans }
    }

    /// The microseconds left on the countdown, if it is running.
    pub fn crab_spawn_timer(&self) -> (left: Option<u64>)
        ensures
            self@.timer == (match left {
                Some(r) => Some(r as nat),
                None => None,
            }),
    {
        self.crab_spawn_timer.remaining()
    }

    /// The crab's sprite, once the frame has been entered.
    pub fn sprite_sheet_handle(&self) -> (sprite: Option<Sprite>)
        ensures
            sprite == self@.sprite,
    {
        self.sprite_sheet_handle
    }
}

impl MultiplayerState {
    #[verifier::type_invariant]
    spec fn inv(self) -> bool {
        self@.wf()
    }

    /// A frame around `socket` that has not been entered yet.
    pub fn new(socket: Endpoint) -> (multiplayer: Self)
        ensures
            multiplayer@ == MultiplayerView::fresh(socket),
    {
        MultiplayerState {
            crab_spawn_timer: SpawnTimer::idle(),
            sprite_sheet_handle: None,
            socket,
        }
    }

    /// Enters the frame: arms the countdown with the spawn delay, chooses
    /// the crab's sprite, and asks for the camera, the sprites and the
    /// platforms. The socket stays.
    pub fn on_start(&mut self) -> (commands: Vec<Command>)
        ensures
            final(self)@ == old(self)@.started(),
            commands@ == gameplay_start_commands(),
    {
        let mut timer = SpawnTimer::idle();
        timer.start(SPAWN_DELAY_MICROS);
        *self = MultiplayerState {
            crab_spawn_timer: timer,
            sprite_sheet_handle: Some(Sprite::Ferris),
            socket: self.socket,
        };
        start_gameplay()
    }

    /// Reacts to an event: ends the application if the event asks for it.
    pub fn handle_event(&self, event: InputEvent) -> (trans: Trans)
        ensures
            trans@ == exit_trans(event),
    {
        if event.is_exit() {
            return Trans::Quit;
        }
        Trans::Stay
    }

    /// Lets `elapsed` microseconds pass. The countdown advances; on the
    /// tick that uses it up the crab is asked for, once. One ping is asked
    /// for on every tick. Then the mode is read: if it is `Menu`, the lose
    /// screen is pushed. A ping that fails is the host's to log: nothing here
    /// depends on what became of it.
    pub fn update(&mut self, game: &Game, elapsed: u64) -> (step: Step)
        ensures
            final(self)@ == old(self)@.after_tick(elapsed as nat),
            step@ == old(self)@.on_tick(game.current_state, elapsed as nat),
            final(self)@.wf(),
    {
        proof {
            use_type_invariant(&*self);
        }
        let mut commands: Vec<Command> = Vec::new();
        let mut timer = self.crab_spawn_timer;
        if timer.tick(elapsed).is_some() {
            // The invariant gives the sprite: the countdown was running.
            commands.push(init_crab(self.sprite_sheet_handle.unwrap()));
        }
        self.crab_spawn_timer = timer;
        commands.push(Command::SendPing(ping_destination()));
        let trans = match game.current_state {
            CurrentState::Menu => Trans::Push(Frame::Lose(LoseState)),
            _ => Trans::Stay,
        };
        Step { commands, trans }
    }

    /// The microseconds left on the countdown, if it is running.
    pub fn crab_spawn_timer(&self) -> (left: Option<u64>)
        ensures
            self@.timer == (match left {
                Some(r) => Some(r as nat),
                None => None,
            }),
    {
        self.crab_spawn_timer.remaining()
    }

    /// The crab's sprite, once the frame has been entered.
    pub fn sprite_sheet_handle(&self) -> (sprite: Option<Sprite>)
        ensures
            sprite == self@.sprite,
    {
        self.sprite_sheet_handle
    }

    /// The socket the frame was made around.
    pub fn socket(&self) -> (socket: Endpoint)
        ensures
            socket == self@.socket,
    {
        self.socket
    }
}

impl LoseState {
    /// Enters the lose screen: asks for the camera, the text's sprite and the text.
    pub fn on_start(&mut self) -> (commands: Vec<Command>)
        ensures
            commands@ == text_start_commands(Sprite::Lose),
    {
        let mut commands: Vec<Command> = Vec::new();
        commands.push(init_camera());
        commands.push(Command::LoadSprite(Sprite::Lose));
        commands.push(init_text(Sprite::Lose));
        commands
    }

    /// Reacts to an event: ends the application if the event asks for it.
    pub fn handle_event(&self, event: InputEvent) -> (trans: Trans)
        ensures
            trans@ == exit_trans(event),
    {
        if event.is_exit() {
            return Trans::Quit;
        }
        Trans::Stay
    }
}

impl Frame {
    /// Enters the frame, whichever it is.
    pub fn on_start(&mut self) -> (commands: Vec<Command>)
        ensures
            final(self)@ == old(self)@.started(),
            commands@ == old(self)@.start_commands(),
            final(self)@.wf(),
    {
        match *self {
            Frame::Menu(mut menu) => {
                let commands = menu.on_start();
                *self = Frame::Menu(menu);
                commands
            },
            Frame::SinglePlayer(mut crabby) => {
                let commands = crabby.on_start();
                *self = Frame::SinglePlayer(crabby);
                commands
            },
            Frame::Multiplayer(mut multiplayer) => {
                let commands = multiplayer.on_start();
                *self = Frame::Multiplayer(multiplayer);
                commands
            },
            Frame::Lose(mut lose) => {
                let commands = lose.on_start();
                *self = Frame::Lose(lose);
                commands
            },
        }
    }

    /// Hands an event to the frame, whichever it is. The frame does not
    /// change; the menu may change the mode.
    pub fn handle_event(&mut self, game: &mut Game, event: InputEvent) -> (step: Step)
        ensures
            final(self)@ == old(self)@,
            step@ == old(self)@.on_event(event),
            final(game).current_state == old(self)@.mode_after_event(
                old(game).current_state,
                event,
            ),
            final(self)@.wf(),
    {
        match *self {
            Frame::Menu(mut menu) => {
                let step = menu.handle_event(game, event);
                *self = Frame::Menu(menu);
                step
            },
            Frame::SinglePlayer(crabby) => {
                proof {
                    use_type_invariant(&crabby);
                }
                Step { commands: Vec::new(), trans: crabby.handle_event(event) }
            },
            Frame::Multiplayer(multiplayer) => {
                proof {
                    use_type_invariant(&multiplayer);
                }
                Step { commands: Vec::new(), trans: multiplayer.handle_event(event) }
            },
            Frame::Lose(lose) => Step { commands: Vec::new(), trans: lose.handle_event(event) },
        }
    }

    /// Lets `elapsed` microseconds pass in the frame, whichever it is.
    pub fn update(&mut self, game: &Game, elapsed: u64) -> (step: Step)
        ensures
            final(self)@ == old(self)@.after_tick(elapsed as nat),
            step@ == old(self)@.on_tick(game.current_state, elapsed as nat),
            final(self)@.wf(),
    {
        match *self {
            Frame::SinglePlayer(mut crabby) => {
                let step = crabby.update(game, elapsed);
                *self = Frame::SinglePlayer(crabby);
                step
            },
            Frame::Multiplayer(mut multiplayer) => {
                let step = multiplayer.update(game, elapsed);
                *self = Frame::Multiplayer(multiplayer);
                step
            },
            _ => Step { commands: Vec::new(), trans: Trans::Stay },
        }
    }

    /// Tells the frame which entity the engine made of its text.
    pub fn text_spawned(&mut self, entity: Entity)
        ensures
            final(self)@ == old(self)@.with_text(entity),
            final(self)@.wf(),
    {
        match *self {
            Frame::Menu(mut menu) => {
                menu.text_spawned(entity);
                *self = Frame::Menu(menu);
            },
            Frame::SinglePlayer(crabby) => {
                proof {
                    use_type_invariant(&crabby);
                }
            },
            Frame::Multiplayer(multiplayer) => {
                proof {
                    use_type_invariant(&multiplayer);
                }
            },
            Frame::Lose(_) => {},
        }
    }

    /// Tells the frame the outcome of a bind. The frame does not change;
    /// the menu may change the mode.
    pub fn bind_completed(&mut self, game: &mut Game, bound: Option<Endpoint>) -> (trans: Trans)
        ensures
            final(self)@ == old(self)@,
            trans@ == old(self)@.on_bind(bound),
            final(game).current_state == old(self)@.mode_after_bind(
                old(game).current_state,
                bound,
            ),
            final(self)@.wf(),
    {
        match *self {
            Frame::Menu(mut menu) => {
                let trans = menu.bind_completed(game, bound);
                *self = Frame::Menu(menu);
                trans
            },
            Frame::SinglePlayer(crabby) => {
                proof {
                    use_type_invariant(&crabby);
                }
                Trans::Stay
            },
            Frame::Multiplayer(multiplayer) => {
                proof {
                    use_type_invariant(&multiplayer);
                }
                Trans::Stay
            },
            Frame::Lose(_) => Trans::Stay,
        }
    }
}

} // verus!
