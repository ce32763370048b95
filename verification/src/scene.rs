//! What the game asks of the engine, and where things stand in the arena.
//!
//! Lengths and coordinates are whole pixels. The arena's origin is its
//! lower left corner.

use vstd::prelude::*;
use vstd::string::*;

verus! {

/// Height of the arena.
pub const ARENA_HEIGHT: u32 = 600;

/// Width of the arena.
pub const ARENA_WIDTH: u32 = 800;

/// Height of the crab.
pub const CRAB_HEIGHT: u32 = 60;

/// Width of the crab.
pub const CRAB_WIDTH: u32 = 117;

/// Upward speed of a jumping crab, in thousandths of a pixel per step (2.5 pixels).
pub const CRAB_VELOCITY_Y: u32 = 2_500;

/// Height of a platform.
pub const PLATFORM_HEIGHT: u32 = 40;

/// Width of a platform.
pub const PLATFORM_WIDTH: u32 = 262;

/// The crab's component.
#[derive(Clone, Copy, Debug, PartialEq, Eq, Structural)]
pub struct Crab {
    /// Upward speed, in thousandths of a pixel per step.
    pub velocity: u32,
    /// When the current jump began, in microseconds.
    pub jump_start_time: u64,
    pub width: u32,
    pub height: u32,
}

impl Crab {
    /// A crab of the standard size and speed whose jump clock reads `time`.
    pub open spec fn standard(time: u64) -> Crab {
        Crab {
            velocity: CRAB_VELOCITY_Y,
            jump_start_time: time,
            width: CRAB_WIDTH,
            height: CRAB_HEIGHT,
        }
    }

    /// A crab of the standard size and speed whose jump clock reads `time`.
    pub fn new(time: u64) -> (crab: Crab)
        ensures
            crab == Crab::standard(time),
    {
        Crab {
            velocity: CRAB_VELOCITY_Y,
            jump_start_time: time,
            width: CRAB_WIDTH,
            height: CRAB_HEIGHT,
        }
    }
}

/// A platform's component.
#[derive(Clone, Copy, Debug, PartialEq, Eq, Structural)]
pub struct Platform {
    pub width: u32,
    pub height: u32,
}

impl Platform {
    /// A platform of the standard size.
    pub open spec fn standard() -> Platform {
        Platform { width: PLATFORM_WIDTH, height: PLATFORM_HEIGHT }
    }

    /// A platform of the standard size.
    pub fn new() -> (platform: Platform)
        ensures
            platform == Platform::standard(),
    {
        Platform { width: PLATFORM_WIDTH, height: PLATFORM_HEIGHT }
    }
}

/// A place in the arena; `z` orders what overlaps.
#[derive(Clone, Copy, Debug, PartialEq, Eq, Structural)]
pub struct Position {
    pub x: u32,
    pub y: u32,
    pub z: u32,
}

/// The drawings the game uses, by what they show.
#[derive(Clone, Copy, Debug, PartialEq, Eq, Structural)]
pub enum Sprite {
    Ferris,
    PlatformBlue,
    Text,
    Lose,
}

impl Sprite {
    /// The name under which the asset pipeline knows this drawing.
    pub open spec fn spec_name(self) -> Seq<char> {
        match self {
            Sprite::Ferris => "Ferris"@,
            Sprite::PlatformBlue => "platform_blue"@,
            Sprite::Text => "text"@,
            Sprite::Lose => "lose"@,
        }
    }

    /// The name under which the asset pipeline knows this drawing.
    pub fn name(self) -> (name: &'static str)
        ensures
            name@ == self.spec_name(),
    {
        match self {
            Sprite::Ferris => "Ferris",
            Sprite::PlatformBlue => "platform_blue",
            Sprite::Text => "text",
            Sprite::Lose => "lose",
        }
    }
}

/// Where the two files of a sprite are found, and which cell of the sheet to draw.
#[derive(Debug, PartialEq, Eq)]
pub struct SpriteSource {
    /// Path of the image.
    pub texture: String,
    /// Path of the sheet that cuts the image into cells.
    pub sheet: String,
    /// The cell to draw.
    pub sprite_number: usize,
}

/// The path of sprite `name`'s file with the given suffix.
pub open spec fn sprite_path(name: Seq<char>, suffix: Seq<char>) -> Seq<char> {
    "sprites/"@ + name + suffix
}

/// Says where sprite `sprite` is loaded from: its image is
/// `sprites/<name>.png`, its sheet `sprites/<name>.ron`, and the first cell
/// of the sheet is drawn.
pub fn load_sprite(sprite: &str) -> (source: SpriteSource)
    ensures
        source.texture@ == sprite_path(sprite@, ".png"@),
        source.sheet@ == sprite_path(sprite@, ".ron"@),
        source.sprite_number == 0,
{
    let mut texture = "sprites/".to_owned();
    texture.append(sprite);
    texture.append(".png");
    let mut sheet = "sprites/".to_owned();
    sheet.append(sprite);
    sheet.append(".ron");
    SpriteSource { texture, sheet, sprite_number: 0 }
}

/// The engine's handle of an entity: its slot and the slot's generation.
#[derive(Clone, Copy, Debug, PartialEq, Eq, Structural)]
pub struct Entity {
    pub index: u32,
    pub generation: i32,
}

/// An IPv4 socket address.
#[derive(Clone, Copy, Debug, PartialEq, Eq, Structural)]
pub struct Address {
    pub a: u8,
    pub b: u8,
    pub c: u8,
    pub d: u8,
    pub port: u16,
}

/// A bound datagram socket, known by the address it is bound to.
#[derive(Clone, Copy, Debug, PartialEq, Eq, Structural)]
pub struct Endpoint {
    pub local: Address,
}

/// The component types that the engine must know before it can store them.
#[derive(Clone, Copy, Debug, PartialEq, Eq, Structural)]
pub enum Component {
    Crab,
    Platform,
}

/// One request to the engine. The host carries requests out in the order
/// given. No request is ever retried: one that fails is logged by the host,
/// and the game goes on.
#[derive(Clone, Copy, Debug, PartialEq, Eq, Structural)]
pub enum Command {
    /// Create a 2D camera that covers the whole screen, centred on it, at depth 1.
    SpawnCamera,
    /// Load the two files of a sprite, see [`load_sprite`].
    LoadSprite(Sprite),
    /// Make a component type known to the engine.
    Register(Component),
    /// Create a line of text. The new entity is reported back.
    SpawnText { sprite: Sprite, at: Position },
    /// Create the crab.
    SpawnCrab { sprite: Sprite, at: Position, crab: Crab },
    /// Create a platform.
    SpawnPlatform { sprite: Sprite, at: Position, platform: Platform },
    /// Remove an entity.
    DeleteEntity(Entity),
    /// Bind a datagram socket to this address and report whether that worked.
    Bind(Address),
    /// Send the bytes of [`ping_payload`] to this address, unacknowledged.
    SendPing(Address),
}

/// The address the multiplayer frame binds its socket to: 192.168.0.127:34255.
pub open spec fn spec_bind_address() -> Address {
    Address { a: 192, b: 168, c: 0, d: 127, port: 34255 }
}

/// The address the multiplayer frame binds its socket to: 192.168.0.127:34255.
pub fn bind_address() -> (address: Address)
    ensures
        address == spec_bind_address(),
{
    Address { a: 192, b: 168, c: 0, d: 127, port: 34255 }
}

/// Where the ping goes: 192.168.0.149:34254.
pub open spec fn spec_ping_destination() -> Address {
    Address { a: 192, b: 168, c: 0, d: 149, port: 34254 }
}

/// Where the ping goes: 192.168.0.149:34254.
pub fn ping_destination() -> (address: Address)
    ensures
        address == spec_ping_destination(),
{
    Address { a: 192, b: 168, c: 0, d: 149, port: 34254 }
}

/// The bytes of a ping: the ASCII text `hello`.
pub fn ping_payload() -> (payload: [u8; 5])
    ensures
        payload@ == seq![0x68u8, 0x65u8, 0x6cu8, 0x6cu8, 0x6fu8],
{
    [0x68, 0x65, 0x6c, 0x6c, 0x6f]
}

/// The request that puts a line of text at the top middle of the arena:
/// centred, nine tenths of the way up.
pub fn init_text(sprite: Sprite) -> (command: Command)
    ensures
        command == (Command::SpawnText { sprite, at: Position { x: 400, y: 540, z: 0 } }),
{
    let at = Position { x: ARENA_WIDTH / 2, y: ARENA_HEIGHT / 10 * 9, z: 0 };
    Command::SpawnText { sprite, at }
}

/// The request that puts the crab in the middle of the arena, one crab's
/// height above the ground. Its jump clock starts at zero.
pub fn init_crab(sprite: Sprite) -> (command: Command)
    ensures
        command == (Command::SpawnCrab {
            sprite,
            at: Position { x: 400, y: 60, z: 0 },
            crab: Crab::standard(0),
        }),
{
    let at = Position { x: ARENA_WIDTH / 2, y: CRAB_HEIGHT, z: 0 };
    Command::SpawnCrab { sprite, at, crab: Crab::new(0) }
}

/// The request that puts a platform of the standard size at (`x`, `y`).
pub fn init_platform(sprite: Sprite, x: u32, y: u32) -> (command: Command)
    ensures
        command == (Command::SpawnPlatform {
            sprite,
            at: Position { x, y, z: 0 },
            platform: Platform::standard(),
        }),
{
    Command::SpawnPlatform { sprite, at: Position { x, y, z: 0 }, platform: Platform::new() }
}

/// The request that sets up the camera.
pub fn init_camera() -> (command: Command)
    ensures
        command == Command::SpawnCamera,
{
    Command::SpawnCamera
}

} // verus!
