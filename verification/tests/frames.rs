use crabby::frames::{Crabby, Frame, LoseState, MenuState, MultiplayerState, Step, Trans};
use crabby::input::{InputEvent, Key};
use crabby::mode::{CurrentState, Game};
use crabby::scene::{
    Address, Command, Component, Crab, Endpoint, Entity, Platform, Position, Sprite,
};

fn platform(x: u32, y: u32) -> Command {
    Command::SpawnPlatform {
        sprite: Sprite::PlatformBlue,
        at: Position { x, y, z: 0 },
        platform: Platform { width: 262, height: 40 },
    }
}

fn gameplay_start() -> Vec<Command> {
    vec![
        Command::SpawnCamera,
        Command::LoadSprite(Sprite::Ferris),
        Command::Register(Component::Crab),
        Command::LoadSprite(Sprite::PlatformBlue),
        Command::Register(Component::Platform),
        platform(400, 0),
        platform(200, 150),
        platform(400, 300),
        platform(600, 450),
    ]
}

fn crab() -> Command {
    Command::SpawnCrab {
        sprite: Sprite::Ferris,
        at: Position { x: 400, y: 60, z: 0 },
        crab: Crab { velocity: 2_500, jump_start_time: 0, width: 117, height: 60 },
    }
}

fn ping() -> Command {
    Command::SendPing(Address { a: 192, b: 168, c: 0, d: 149, port: 34254 })
}

fn socket() -> Endpoint {
    Endpoint { local: Address { a: 192, b: 168, c: 0, d: 127, port: 34255 } }
}

fn playing() -> Game {
    Game { current_state: CurrentState::Gameplay }
}

const EXITS: [InputEvent; 2] = [InputEvent::CloseRequested, InputEvent::KeyDown(Key::Escape)];

const OTHERS: [InputEvent; 4] = [
    InputEvent::Other,
    InputEvent::KeyDown(Key::Other),
    InputEvent::KeyDown(Key::Key1),
    InputEvent::KeyDown(Key::Key2),
];

#[test]
fn mode_starts_at_menu() {
    assert_eq!(CurrentState::default(), CurrentState::Menu);
    assert_eq!(Game::default().current_state, CurrentState::Menu);
}

#[test]
fn exit_events() {
    assert!(InputEvent::CloseRequested.is_exit());
    assert!(InputEvent::KeyDown(Key::Escape).is_exit());
    assert!(!InputEvent::KeyDown(Key::Key1).is_exit());
    assert!(!InputEvent::KeyDown(Key::Key2).is_exit());
    assert!(!InputEvent::KeyDown(Key::Other).is_exit());
    assert!(!InputEvent::Other.is_exit());
}

#[test]
fn menu_start_asks_for_camera_sprite_and_text() {
    let mut menu = MenuState::default();
    assert_eq!(menu.text_handler(), None);
    let commands = menu.on_start();
    assert_eq!(
        commands,
        vec![
            Command::SpawnCamera,
            Command::LoadSprite(Sprite::Text),
            Command::SpawnText { sprite: Sprite::Text, at: Position { x: 400, y: 540, z: 0 } },
        ]
    );
    assert_eq!(menu, MenuState::default());
}

#[test]
fn menu_keeps_the_entity_of_its_text() {
    let mut menu = MenuState::default();
    let text = Entity { index: 3, generation: 1 };
    menu.text_spawned(text);
    assert_eq!(menu.text_handler(), Some(text));
}

#[test]
fn menu_option_one_enters_single_player() {
    let mut menu = MenuState::default();
    let text = Entity { index: 3, generation: 1 };
    menu.text_spawned(text);
    let mut game = Game::default();
    let step = menu.handle_event(&mut game, InputEvent::KeyDown(Key::Key1));
    assert_eq!(
        step,
        Step {
            commands: vec![Command::DeleteEntity(text)],
            trans: Trans::Push(Frame::SinglePlayer(Crabby::default())),
        }
    );
    assert_eq!(game.current_state, CurrentState::Gameplay);
    assert_eq!(menu.text_handler(), Some(text));
}

#[test]
fn menu_option_one_without_text_deletes_nothing() {
    let mut menu = MenuState::default();
    let mut game = Game::default();
    let step = menu.handle_event(&mut game, InputEvent::KeyDown(Key::Key1));
    assert_eq!(
        step,
        Step { commands: vec![], trans: Trans::Push(Frame::SinglePlayer(Crabby::default())) }
    );
    assert_eq!(game.current_state, CurrentState::Gameplay);
}

#[test]
fn menu_option_two_asks_for_the_socket_and_waits() {
    let mut menu = MenuState::default();
    let text = Entity { index: 7, generation: 2 };
    menu.text_spawned(text);
    let mut game = Game::default();
    let step = menu.handle_event(&mut game, InputEvent::KeyDown(Key::Key2));
    assert_eq!(
        step,
        Step {
            commands: vec![
                Command::DeleteEntity(text),
                Command::Bind(Address { a: 192, b: 168, c: 0, d: 127, port: 34255 }),
            ],
            trans: Trans::Stay,
        }
    );
    assert_eq!(game.current_state, CurrentState::Menu);
}

#[test]
fn menu_bind_success_enters_multiplayer() {
    let mut menu = MenuState::default();
    let mut game = Game::default();
    let trans = menu.bind_completed(&mut game, Some(socket()));
    assert_eq!(trans, Trans::Push(Frame::Multiplayer(MultiplayerState::new(socket()))));
    assert_eq!(game.current_state, CurrentState::Gameplay);
}

#[test]
fn menu_bind_failure_changes_nothing() {
    let mut menu = MenuState::default();
    let mut game = Game::default();
    let trans = menu.bind_completed(&mut game, None);
    assert_eq!(trans, Trans::Stay);
    assert_eq!(game.current_state, CurrentState::Menu);
    assert_eq!(menu, MenuState::default());
}

#[test]
fn menu_quits_on_exit_events_and_ignores_the_rest() {
    for event in EXITS {
        let mut menu = MenuState::default();
        menu.text_spawned(Entity { index: 1, generation: 1 });
        let mut game = Game::default();
        let step = menu.handle_event(&mut game, event);
        assert_eq!(step, Step { commands: vec![], trans: Trans::Quit });
        assert_eq!(game.current_state, CurrentState::Menu);
    }
    for event in [InputEvent::Other, InputEvent::KeyDown(Key::Other)] {
        let mut menu = MenuState::default();
        let mut game = Game::default();
        let step = menu.handle_event(&mut game, event);
        assert_eq!(step, Step { commands: vec![], trans: Trans::Stay });
        assert_eq!(game.current_state, CurrentState::Menu);
    }
}

#[test]
fn every_frame_quits_on_exit_events_under_every_mode() {
    let modes = [CurrentState::Menu, CurrentState::Gameplay, CurrentState::Lose];
    let frames = [
        Frame::Menu(MenuState::default()),
        Frame::SinglePlayer(Crabby::default()),
        Frame::Multiplayer(MultiplayerState::new(socket())),
        Frame::Lose(LoseState),
    ];
    for mode in modes {
        for frame in frames {
            for event in EXITS {
                let mut frame = frame;
                let mut game = Game { current_state: mode };
                let step = frame.handle_event(&mut game, event);
                assert_eq!(step, Step { commands: vec![], trans: Trans::Quit });
                assert_eq!(game.current_state, mode);
            }
        }
    }
}

#[test]
fn gameplay_and_lose_frames_ignore_other_events() {
    for event in OTHERS {
        assert_eq!(Crabby::default().handle_event(event), Trans::Stay);
        assert_eq!(MultiplayerState::new(socket()).handle_event(event), Trans::Stay);
        assert_eq!(LoseState.handle_event(event), Trans::Stay);
    }
    for event in EXITS {
        assert_eq!(Crabby::default().handle_event(event), Trans::Quit);
        assert_eq!(MultiplayerState::new(socket()).handle_event(event), Trans::Quit);
        assert_eq!(LoseState.handle_event(event), Trans::Quit);
    }
}

#[test]
fn single_player_start_arms_the_timer_and_places_four_platforms() {
    let mut crabby = Crabby::default();
    assert_eq!(crabby.crab_spawn_timer(), None);
    assert_eq!(crabby.sprite_sheet_handle(), None);
    let commands = crabby.on_start();
    assert_eq!(commands, gameplay_start());
    assert_eq!(crabby.crab_spawn_timer(), Some(2_000_000));
    assert_eq!(crabby.sprite_sheet_handle(), Some(Sprite::Ferris));
}

#[test]
fn single_player_spawns_the_crab_when_the_timer_runs_out() {
    let mut crabby = Crabby::default();
    crabby.on_start();
    let game = playing();
    for _ in 0..3 {
        let step = crabby.update(&game, 500_000);
        assert_eq!(step, Step { commands: vec![], trans: Trans::Stay });
    }
    assert_eq!(crabby.crab_spawn_timer(), Some(500_000));
    let step = crabby.update(&game, 600_000);
    assert_eq!(step, Step { commands: vec![crab()], trans: Trans::Stay });
    assert_eq!(crabby.crab_spawn_timer(), None);
    let step = crabby.update(&game, 600_000);
    assert_eq!(step, Step { commands: vec![], trans: Trans::Stay });
}

#[test]
fn single_player_before_start_does_nothing_on_a_tick() {
    let mut crabby = Crabby::default();
    let step = crabby.update(&playing(), 5_000_000);
    assert_eq!(step, Step { commands: vec![], trans: Trans::Stay });
    assert_eq!(crabby, Crabby::default());
}

#[test]
fn gameplay_pushes_lose_when_the_mode_reads_menu() {
    let menu = Game { current_state: CurrentState::Menu };
    let mut crabby = Crabby::default();
    crabby.on_start();
    let step = crabby.update(&menu, 100_000);
    assert_eq!(step, Step { commands: vec![], trans: Trans::Push(Frame::Lose(LoseState)) });
    let mut multiplayer = MultiplayerState::new(socket());
    multiplayer.on_start();
    let step = multiplayer.update(&menu, 100_000);
    assert_eq!(step, Step { commands: vec![ping()], trans: Trans::Push(Frame::Lose(LoseState)) });
}

#[test]
fn gameplay_stays_when_the_mode_reads_lose() {
    let lost = Game { current_state: CurrentState::Lose };
    let mut crabby = Crabby::default();
    crabby.on_start();
    assert_eq!(crabby.update(&lost, 1).trans, Trans::Stay);
}

#[test]
fn the_crab_still_spawns_on_the_tick_that_pushes_lose() {
    let menu = Game { current_state: CurrentState::Menu };
    let mut crabby = Crabby::default();
    crabby.on_start();
    let step = crabby.update(&menu, 2_000_000);
    assert_eq!(step, Step { commands: vec![crab()], trans: Trans::Push(Frame::Lose(LoseState)) });
}

#[test]
fn multiplayer_start_keeps_the_socket() {
    let mut multiplayer = MultiplayerState::new(socket());
    assert_eq!(multiplayer.crab_spawn_timer(), None);
    assert_eq!(multiplayer.sprite_sheet_handle(), None);
    assert_eq!(multiplayer.socket(), socket());
    let commands = multiplayer.on_start();
    assert_eq!(commands, gameplay_start());
    assert_eq!(multiplayer.crab_spawn_timer(), Some(2_000_000));
    assert_eq!(multiplayer.sprite_sheet_handle(), Some(Sprite::Ferris));
    assert_eq!(multiplayer.socket(), socket());
}

#[test]
fn multiplayer_pings_on_every_tick() {
    let mut multiplayer = MultiplayerState::new(socket());
    multiplayer.on_start();
    let game = playing();
    let step = multiplayer.update(&game, 1_500_000);
    assert_eq!(step, Step { commands: vec![ping()], trans: Trans::Stay });
    let step = multiplayer.update(&game, 500_000);
    assert_eq!(step, Step { commands: vec![crab(), ping()], trans: Trans::Stay });
    let step = multiplayer.update(&game, 500_000);
    assert_eq!(step, Step { commands: vec![ping()], trans: Trans::Stay });
}

#[test]
fn lose_start_asks_for_camera_sprite_and_text() {
    let mut lose = LoseState;
    assert_eq!(
        lose.on_start(),
        vec![
            Command::SpawnCamera,
            Command::LoadSprite(Sprite::Lose),
            Command::SpawnText { sprite: Sprite::Lose, at: Position { x: 400, y: 540, z: 0 } },
        ]
    );
}

#[test]
fn frame_dispatch_matches_the_frames() {
    let mut frame = Frame::SinglePlayer(Crabby::default());
    assert_eq!(frame.on_start(), gameplay_start());
    let step = frame.update(&playing(), 2_000_000);
    assert_eq!(step, Step { commands: vec![crab()], trans: Trans::Stay });

    let mut frame = Frame::Multiplayer(MultiplayerState::new(socket()));
    assert_eq!(frame.on_start(), gameplay_start());
    let step = frame.update(&playing(), 1);
    assert_eq!(step, Step { commands: vec![ping()], trans: Trans::Stay });

    let mut frame = Frame::Lose(LoseState);
    assert_eq!(frame.on_start().len(), 3);
    assert_eq!(
        frame.update(&Game::default(), 9_000_000),
        Step { commands: vec![], trans: Trans::Stay }
    );

    let mut frame = Frame::Menu(MenuState::default());
    assert_eq!(frame.on_start().len(), 3);
    assert_eq!(
        frame.update(&Game::default(), 9_000_000),
        Step { commands: vec![], trans: Trans::Stay }
    );
    let text = Entity { index: 0, generation: 1 };
    frame.text_spawned(text);
    let mut menu = MenuState::default();
    menu.text_spawned(text);
    assert_eq!(frame, Frame::Menu(menu));
}

#[test]
fn only_the_menu_reacts_to_a_bind_or_keeps_a_text() {
    let frames = [
        Frame::SinglePlayer(Crabby::default()),
        Frame::Multiplayer(MultiplayerState::new(socket())),
        Frame::Lose(LoseState),
    ];
    for frame in frames {
        let mut seen = frame;
        let mut game = Game::default();
        assert_eq!(seen.bind_completed(&mut game, Some(socket())), Trans::Stay);
        assert_eq!(game.current_state, CurrentState::Menu);
        seen.text_spawned(Entity { index: 1, generation: 1 });
        assert_eq!(seen, frame);
    }
}
