//! The resolved level document: rooms, tiles and object tiles whose raw
//! category tags have been resolved into closed enumerations.
use vstd::prelude::*;

use crate::error::LoadError;
use crate::level_specification;

verus! {

/// A parsed level: an id, a name and its rooms, immutable once built.
#[derive(Clone, Debug, PartialEq, Eq)]
pub struct Level {
    pub id: i32,
    pub name: String,
    pub rooms: Vec<Room>,
}

/// A room of a level: header attributes and the four tile layers, with all
/// tile coordinates in the room's local tile grid.
#[derive(Clone, Debug, PartialEq, Eq)]
pub struct Room {
    pub id: i32,
    pub index: u32,
    pub name: String,
    pub tileset: String,
    pub width: u32,
    pub height: u32,
    pub background_wipe_color: String,
    pub bottom_tiles: Vec<Tile>,
    pub middle_tiles: Vec<Tile>,
    pub top_tiles: Vec<Tile>,
    pub object_tiles: Vec<ObjectTile>,
}

/// The minimal visual unit: sprite id, local tile coordinates and flip flags.
#[derive(Clone, Copy, Debug, Default, PartialEq, Eq, Structural)]
pub struct Tile {
    pub id: i32,
    pub x: i32,
    pub y: i32,
    pub flip_x: bool,
    pub flip_y: bool,
}

impl From<ObjectTile> for Tile {
    /// Projects an object tile onto its visual part: id, position and flip
    /// flags are kept exactly; category and argument are dropped.
    fn from(value: ObjectTile) -> (r: Tile) {
        Tile { id: value.id, x: value.x, y: value.y, flip_x: value.flip_x, flip_y: value.flip_y }
    }
}

impl vstd::std_specs::convert::FromSpecImpl<ObjectTile> for Tile {
    open spec fn obeys_from_spec() -> bool {
        true
    }

    open spec fn from_spec(v: ObjectTile) -> Tile {
        Tile { id: v.id, x: v.x, y: v.y, flip_x: v.flip_x, flip_y: v.flip_y }
    }
}

impl Tile {
    /// The index this tile draws with in an atlas's expanded frame list of
    /// `frame_count` rectangles. Ids of 512 and above are reserved for
    /// special non-sprite behaviour and have no visual representation; a
    /// negative or out-of-bounds id yields nothing rather than an invalid
    /// index.
    pub fn sprite_index(&self, frame_count: usize) -> (r: Option<usize>)
        ensures
            r matches Some(k) ==> 0 <= self.id < 512 && self.id == k && k < frame_count,
            r is None <==> self.id < 0 || self.id >= 512 || self.id >= frame_count,
    {
        if self.id < 0 || self.id >= 512 {
            return None;
        }
        let k = self.id as usize;
        if k < frame_count {
            Some(k)
        } else {
            None
        }
    }
}

/// A tile that additionally carries gameplay semantics: a resolved category
/// and an optional category-specific argument.
#[derive(Clone, Copy, Debug, PartialEq, Eq, Structural)]
pub struct ObjectTile {
    pub id: i32,
    pub x: i32,
    pub y: i32,
    pub flip_x: bool,
    pub flip_y: bool,
    pub category: Category,
    pub argument: Option<i32>,
}

/// The resolved gameplay category of an object tile.
#[derive(Clone, Copy, Debug, PartialEq, Eq, Structural)]
pub enum Category {
    /// No gameplay semantics (the raw tag literal `None`).
    Nothing,
    Event(Event),
    Enemy(Enemy),
    Item(Item),
}

/// The closed, densely numbered event enumeration: ordinal values are the
/// authoritative wire encoding and must never be renumbered.
#[derive(Clone, Copy, Debug, PartialEq, Eq, Structural)]
pub enum Event {
    Checkpoint,
    PlayerStart,
    WestTeleport,
    NorthTeleport,
    EastTeleport,
    SouthTeleport,
    BossDoor,
    DummyUIEvent,
    JournalEntry,
    MovingPlatform,
    BlastDoor,
    CirclePlatform,
    MiniBossDoor,
    TransitionWarpEvent,
    ConveyorBelt,
    PetrifiedVine,
    WaterFillerNW,
    WaterFillerSE,
    Elevator,
    DonutTile,
    BreakableWall,
    JunkCrusher,
    MerchantCrow,
    Selen,
    TheTimespinner,
    OrbPedestal,
    TimeGate,
    TreasureChest,
    Doorway,
    KeycardDoor,
    Transition,
    Lantern,
    ForestNPCs,
    CurtainDrawbridge,
    TimespinnerWheelItem,
    LevelEffect,
    EnvironmentPrefab,
    AreaTitleBlocker,
    MapTerminal,
    BackerPortrait,
    Cutscene,
    MusicFader,
    MusicPlayer,
    GyrePortal,
    GyreSpawner,
    LostItem,
    Tutorial,
    RareEnemySpawner,
    EscortMissionManager,
}

/// The wire ordinal of each event kind.
pub open spec fn event_ordinal(e: Event) -> int {
    match e {
        Event::Checkpoint => 0,
        Event::PlayerStart => 1,
        Event::WestTeleport => 2,
        Event::NorthTeleport => 3,
        Event::EastTeleport => 4,
        Event::SouthTeleport => 5,
        Event::BossDoor => 6,
        Event::DummyUIEvent => 7,
        Event::JournalEntry => 8,
        Event::MovingPlatform => 9,
        Event::BlastDoor => 10,
        Event::CirclePlatform => 11,
        Event::MiniBossDoor => 12,
        Event::TransitionWarpEvent => 13,
        Event::ConveyorBelt => 14,
        Event::PetrifiedVine => 15,
        Event::WaterFillerNW => 16,
        Event::WaterFillerSE => 17,
        Event::Elevator => 18,
        Event::DonutTile => 19,
        Event::BreakableWall => 20,
        Event::JunkCrusher => 21,
        Event::MerchantCrow => 22,
        Event::Selen => 23,
        Event::TheTimespinner => 24,
        Event::OrbPedestal => 25,
        Event::TimeGate => 26,
        Event::TreasureChest => 27,
        Event::Doorway => 28,
        Event::KeycardDoor => 29,
        Event::Transition => 30,
        Event::Lantern => 31,
        Event::ForestNPCs => 32,
        Event::CurtainDrawbridge => 33,
        Event::TimespinnerWheelItem => 34,
        Event::LevelEffect => 35,
        Event::EnvironmentPrefab => 36,
        Event::AreaTitleBlocker => 37,
        Event::MapTerminal => 38,
        Event::BackerPortrait => 39,
        Event::Cutscene => 40,
        Event::MusicFader => 41,
        Event::MusicPlayer => 42,
        Event::GyrePortal => 43,
        Event::GyreSpawner => 44,
        Event::LostItem => 45,
        Event::Tutorial => 46,
        Event::RareEnemySpawner => 47,
        Event::EscortMissionManager => 48,
    }
}

/// Resolves a numeric object-id into the event enumeration: defined exactly
/// for ordinals below 49.
pub fn event_from_ordinal(k: u8) -> (r: Option<Event>)
    ensures
        r is Some <==> k < 49,
        r matches Some(e) ==> event_ordinal(e) == k && e == event_of_ordinal(k as int),
{
    match k {
        0 => Some(Event::Checkpoint),
        1 => Some(Event::PlayerStart),
        2 => Some(Event::WestTeleport),
        3 => Some(Event::NorthTeleport),
        4 => Some(Event::EastTeleport),
        5 => Some(Event::SouthTeleport),
        6 => Some(Event::BossDoor),
        7 => Some(Event::DummyUIEvent),
        8 => Some(Event::JournalEntry),
        9 => Some(Event::MovingPlatform),
        10 => Some(Event::BlastDoor),
        11 => Some(Event::CirclePlatform),
        12 => Some(Event::MiniBossDoor),
        13 => Some(Event::TransitionWarpEvent),
        14 => Some(Event::ConveyorBelt),
        15 => Some(Event::PetrifiedVine),
        16 => Some(Event::WaterFillerNW),
        17 => Some(Event::WaterFillerSE),
        18 => Some(Event::Elevator),
        19 => Some(Event::DonutTile),
        20 => Some(Event::BreakableWall),
        21 => Some(Event::JunkCrusher),
        22 => Some(Event::MerchantCrow),
        23 => Some(Event::Selen),
        24 => Some(Event::TheTimespinner),
        25 => Some(Event::OrbPedestal),
        26 => Some(Event::TimeGate),
        27 => Some(Event::TreasureChest),
        28 => Some(Event::Doorway),
        29 => Some(Event::KeycardDoor),
        30 => Some(Event::Transition),
        31 => Some(Event::Lantern),
        32 => Some(Event::ForestNPCs),
        33 => Some(Event::CurtainDrawbridge),
        34 => Some(Event::TimespinnerWheelItem),
        35 => Some(Event::LevelEffect),
        36 => Some(Event::EnvironmentPrefab),
        37 => Some(Event::AreaTitleBlocker),
        38 => Some(Event::MapTerminal),
        39 => Some(Event::BackerPortrait),
        40 => Some(Event::Cutscene),
        41 => Some(Event::MusicFader),
        42 => Some(Event::MusicPlayer),
        43 => Some(Event::GyrePortal),
        44 => Some(Event::GyreSpawner),
        45 => Some(Event::LostItem),
        46 => Some(Event::Tutorial),
        47 => Some(Event::RareEnemySpawner),
        48 => Some(Event::EscortMissionManager),
        _ => None,
    }
}

/// The closed, densely numbered enemy enumeration: ordinal values are the
/// authoritative wire encoding and must never be renumbered.
#[derive(Clone, Copy, Debug, PartialEq, Eq, Structural)]
pub enum Enemy {
    CheveuxTank,
    BlueCheveux,
    RedCheveux,
    FlyingCheveux,
    KickstarterFoe,
    TempleFoe,
    CursedAnemone,
    CavesSlime,
    FortressEngineer,
    JunkSpawner,
    CavesCopperWyvern,
    CavesSiren,
    KeepDemon,
    CastleShieldKnight,
    CastleArcher,
    WormFlower,
    WormFlowerWalker,
    CeilingStar,
    FleshSpider,
    DiscStatue,
    CitySecurityGuard,
    CheveuxTower,
    ForestBabyCheveux,
    ForestMoth,
    ForestPlantBat,
    ForestRodent,
    ForestWormFlower,
    CavesMushroomTower,
    CavesSporeVine,
    CavesSnail,
    CastleLargeSoldier,
    CastleEngineer,
    KeepWarCheveux,
    KeepLanceKnight,
    KeepAristocrat,
    TowerPlasmaPod,
    TowerRoyalGuard,
    LakeBirdEgg,
    LakeAnemone,
    LakeCheveux,
    LakeEel,
    LakeFly,
    FortressKnight,
    FortressGunner,
    LabTurret,
    LabChild,
    LabAdult,
    FortressLargeSoldier,
    BirdBoss,
    RoboKittyBoss,
    VarndagrothBoss,
    AelanaBoss,
    IncubusBoss,
    MawBoss,
    ShapeshiftBoss,
    EmperorBoss,
    SandmanBoss,
    NightmareBoss,
    RavenBoss,
    XarionBoss,
    ZelBoss,
    CantoranBoss,
}

/// The wire ordinal of each enemy kind.
pub open spec fn enemy_ordinal(e: Enemy) -> int {
    match e {
        Enemy::CheveuxTank => 0,
        Enemy::BlueCheveux => 1,
        Enemy::RedCheveux => 2,
        Enemy::FlyingCheveux => 3,
        Enemy::KickstarterFoe => 4,
        Enemy::TempleFoe => 5,
        Enemy::CursedAnemone => 6,
        Enemy::CavesSlime => 7,
        Enemy::FortressEngineer => 8,
        Enemy::JunkSpawner => 9,
        Enemy::CavesCopperWyvern => 10,
        Enemy::CavesSiren => 11,
        Enemy::KeepDemon => 12,
        Enemy::CastleShieldKnight => 13,
        Enemy::CastleArcher => 14,
        Enemy::WormFlower => 15,
        Enemy::WormFlowerWalker => 16,
        Enemy::CeilingStar => 17,
        Enemy::FleshSpider => 18,
        Enemy::DiscStatue => 19,
        Enemy::CitySecurityGuard => 20,
        Enemy::CheveuxTower => 21,
        Enemy::ForestBabyCheveux => 22,
        Enemy::ForestMoth => 23,
        Enemy::ForestPlantBat => 24,
        Enemy::ForestRodent => 25,
        Enemy::ForestWormFlower => 26,
        Enemy::CavesMushroomTower => 27,
        Enemy::CavesSporeVine => 28,
        Enemy::CavesSnail => 29,
        Enemy::CastleLargeSoldier => 30,
        Enemy::CastleEngineer => 31,
        Enemy::KeepWarCheveux => 32,
        Enemy::KeepLanceKnight => 33,
        Enemy::KeepAristocrat => 34,
        Enemy::TowerPlasmaPod => 35,
        Enemy::TowerRoyalGuard => 36,
        Enemy::LakeBirdEgg => 37,
        Enemy::LakeAnemone => 38,
        Enemy::LakeCheveux => 39,
        Enemy::LakeEel => 40,
        Enemy::LakeFly => 41,
        Enemy::FortressKnight => 42,
        Enemy::FortressGunner => 43,
        Enemy::LabTurret => 44,
        Enemy::LabChild => 45,
        Enemy::LabAdult => 46,
        Enemy::FortressLargeSoldier => 47,
        Enemy::BirdBoss => 48,
        Enemy::RoboKittyBoss => 49,
        Enemy::VarndagrothBoss => 50,
        Enemy::AelanaBoss => 51,
        Enemy::IncubusBoss => 52,
        Enemy::MawBoss => 53,
        Enemy::ShapeshiftBoss => 54,
        Enemy::EmperorBoss => 55,
        Enemy::SandmanBoss => 56,
        Enemy::NightmareBoss => 57,
        Enemy::RavenBoss => 58,
        Enemy::XarionBoss => 59,
        Enemy::ZelBoss => 60,
        Enemy::CantoranBoss => 61,
    }
}

/// Resolves a numeric object-id into the enemy enumeration: defined exactly
/// for ordinals below 62.
pub fn enemy_from_ordinal(k: u8) -> (r: Option<Enemy>)
    ensures
        r is Some <==> k < 62,
        r matches Some(e) ==> enemy_ordinal(e) == k && e == enemy_of_ordinal(k as int),
{
    match k {
        0 => Some(Enemy::CheveuxTank),
        1 => Some(Enemy::BlueCheveux),
        2 => Some(Enemy::RedCheveux),
        3 => Some(Enemy::FlyingCheveux),
        4 => Some(Enemy::KickstarterFoe),
        5 => Some(Enemy::TempleFoe),
        6 => Some(Enemy::CursedAnemone),
        7 => Some(Enemy::CavesSlime),
        8 => Some(Enemy::FortressEngineer),
        9 => Some(Enemy::JunkSpawner),
        10 => Some(Enemy::CavesCopperWyvern),
        11 => Some(Enemy::CavesSiren),
        12 => Some(Enemy::KeepDemon),
        13 => Some(Enemy::CastleShieldKnight),
        14 => Some(Enemy::CastleArcher),
        15 => Some(Enemy::WormFlower),
        16 => Some(Enemy::WormFlowerWalker),
        17 => Some(Enemy::CeilingStar),
        18 => Some(Enemy::FleshSpider),
        19 => Some(Enemy::DiscStatue),
        20 => Some(Enemy::CitySecurityGuard),
        21 => Some(Enemy::CheveuxTower),
        22 => Some(Enemy::ForestBabyCheveux),
        23 => Some(Enemy::ForestMoth),
        24 => Some(Enemy::ForestPlantBat),
        25 => Some(Enemy::ForestRodent),
        26 => Some(Enemy::ForestWormFlower),
        27 => Some(Enemy::CavesMushroomTower),
        28 => Some(Enemy::CavesSporeVine),
        29 => Some(Enemy::CavesSnail),
        30 => Some(Enemy::CastleLargeSoldier),
        31 => Some(Enemy::CastleEngineer),
        32 => Some(Enemy::KeepWarCheveux),
        33 => Some(Enemy::KeepLanceKnight),
        34 => Some(Enemy::KeepAristocrat),
        35 => Some(Enemy::TowerPlasmaPod),
        36 => Some(Enemy::TowerRoyalGuard),
        37 => Some(Enemy::LakeBirdEgg),
        38 => Some(Enemy::LakeAnemone),
        39 => Some(Enemy::LakeCheveux),
        40 => Some(Enemy::LakeEel),
        41 => Some(Enemy::LakeFly),
        42 => Some(Enemy::FortressKnight),
        43 => Some(Enemy::FortressGunner),
        44 => Some(Enemy::LabTurret),
        45 => Some(Enemy::LabChild),
        46 => Some(Enemy::LabAdult),
        47 => Some(Enemy::FortressLargeSoldier),
        48 => Some(Enemy::BirdBoss),
        49 => Some(Enemy::RoboKittyBoss),
        50 => Some(Enemy::VarndagrothBoss),
        51 => Some(Enemy::AelanaBoss),
        52 => Some(Enemy::IncubusBoss),
        53 => Some(Enemy::MawBoss),
        54 => Some(Enemy::ShapeshiftBoss),
        55 => Some(Enemy::EmperorBoss),
        56 => Some(Enemy::SandmanBoss),
        57 => Some(Enemy::NightmareBoss),
        58 => Some(Enemy::RavenBoss),
        59 => Some(Enemy::XarionBoss),
        60 => Some(Enemy::ZelBoss),
        61 => Some(Enemy::CantoranBoss),
        _ => None,
    }
}

/// The closed, densely numbered item enumeration: ordinal values are the
/// authoritative wire encoding and must never be renumbered.
#[derive(Clone, Copy, Debug, PartialEq, Eq, Structural)]
pub enum Item {
    MaxHP,
    MaxMP,
    Orb1,
    DoubleJump,
    Dash,
    WhiteSheep,
    BlackSheep,
    GemChest,
}

/// The wire ordinal of each item kind.
pub open spec fn item_ordinal(e: Item) -> int {
    match e {
        Item::MaxHP => 0,
        Item::MaxMP => 1,
        Item::Orb1 => 2,
        Item::DoubleJump => 3,
        Item::Dash => 4,
        Item::WhiteSheep => 5,
        Item::BlackSheep => 6,
        Item::GemChest => 7,
    }
}

/// Resolves a numeric object-id into the item enumeration: defined exactly
/// for ordinals below 8.
pub fn item_from_ordinal(k: u8) -> (r: Option<Item>)
    ensures
        r is Some <==> k < 8,
        r matches Some(e) ==> item_ordinal(e) == k && e == item_of_ordinal(k as int),
{
    match k {
        0 => Some(Item::MaxHP),
        1 => Some(Item::MaxMP),
        2 => Some(Item::Orb1),
        3 => Some(Item::DoubleJump),
        4 => Some(Item::Dash),
        5 => Some(Item::WhiteSheep),
        6 => Some(Item::BlackSheep),
        7 => Some(Item::GemChest),
        _ => None,
    }
}
/// The member count of the enumeration a raw category tag names, and zero
/// for the tag that resolves without a lookup.
pub open spec fn category_member_count(tag: level_specification::Category) -> int {
    match tag {
        level_specification::Category::Nothing => 0,
        level_specification::Category::Event => 49,
        level_specification::Category::Enemy => 62,
        level_specification::Category::Item => 8,
    }
}

/// True when resolving `object_id` under `tag` succeeds: the tag either
/// needs no lookup or the id lies inside its enumeration.
pub open spec fn resolves(tag: level_specification::Category, object_id: u8) -> bool {
    tag is Nothing || object_id < category_member_count(tag)
}

/// Object category resolution: a `None` tag resolves to `Category::Nothing`
/// whatever the object-id says; any other tag reads the id as an ordinal of
/// its enumeration and fails, naming the tag and the id, when the id is out
/// of range.
pub fn resolve_category(tag: level_specification::Category, object_id: u8) -> (r: Result<
    Category,
    LoadError,
>)
    ensures
        tag is Nothing ==> r == Ok::<Category, LoadError>(Category::Nothing),
        r is Ok <==> resolves(tag, object_id),
        r matches Ok(c) ==> resolve_category_spec_holds(tag, object_id, c),
        r matches Err(e) ==> e == (LoadError::Resolve { category: tag, object_id }),
        r == spec_resolve_category(tag, object_id),
{
    match tag {
        level_specification::Category::Nothing => Ok(Category::Nothing),
        level_specification::Category::Event => match event_from_ordinal(object_id) {
            Some(e) => Ok(Category::Event(e)),
            None => Err(LoadError::Resolve { category: tag, object_id }),
        },
        level_specification::Category::Enemy => match enemy_from_ordinal(object_id) {
            Some(e) => Ok(Category::Enemy(e)),
            None => Err(LoadError::Resolve { category: tag, object_id }),
        },
        level_specification::Category::Item => match item_from_ordinal(object_id) {
            Some(e) => Ok(Category::Item(e)),
            None => Err(LoadError::Resolve { category: tag, object_id }),
        },
    }
}

impl ObjectTile {
    /// Resolves a raw object tile into a typed one: the visual fields and
    /// the argument carry over exactly; the (tag, object-id) pair becomes a
    /// resolved category or the whole conversion fails with its error.
    pub fn from_raw(raw: level_specification::ObjectTile) -> (r: Result<ObjectTile, LoadError>)
        ensures
            r is Ok <==> resolves(raw.category, raw.object_id),
            r matches Ok(t) ==> t.id == raw.id && t.x == raw.x && t.y == raw.y && t.flip_x
                == raw.flip_x && t.flip_y == raw.flip_y && t.argument == raw.argument
                && resolve_category_spec_holds(raw.category, raw.object_id, t.category)
                && spec_resolve_category(raw.category, raw.object_id) == Ok::<
                Category,
                LoadError,
            >(t.category),
            r matches Err(e) ==> e == (LoadError::Resolve {
                category: raw.category,
                object_id: raw.object_id,
            }),
    {
        match resolve_category(raw.category, raw.object_id) {
            Ok(category) => Ok(
                ObjectTile {
                    id: raw.id,
                    x: raw.x,
                    y: raw.y,
                    flip_x: raw.flip_x,
                    flip_y: raw.flip_y,
                    category,
                    argument: raw.argument,
                },
            ),
            Err(e) => Err(e),
        }
    }
}

/// What a correctly resolved category looks like for a raw (tag, id) pair.
pub open spec fn resolve_category_spec_holds(
    tag: level_specification::Category,
    object_id: u8,
    c: Category,
) -> bool {
    match c {
        Category::Nothing => tag is Nothing,
        Category::Event(e) => tag is Event && event_ordinal(e) == object_id,
        Category::Enemy(e) => tag is Enemy && enemy_ordinal(e) == object_id,
        Category::Item(e) => tag is Item && item_ordinal(e) == object_id,
    }
}

/// The event kind at a given wire ordinal (meaningful below 49).
pub open spec fn event_of_ordinal(k: int) -> Event {
    if k == 0 {
        Event::Checkpoint
    } else if k == 1 {
        Event::PlayerStart
    } else if k == 2 {
        Event::WestTeleport
    } else if k == 3 {
        Event::NorthTeleport
    } else if k == 4 {
        Event::EastTeleport
    } else if k == 5 {
        Event::SouthTeleport
    } else if k == 6 {
        Event::BossDoor
    } else if k == 7 {
        Event::DummyUIEvent
    } else if k == 8 {
        Event::JournalEntry
    } else if k == 9 {
        Event::MovingPlatform
    } else if k == 10 {
        Event::BlastDoor
    } else if k == 11 {
        Event::CirclePlatform
    } else if k == 12 {
        Event::MiniBossDoor
    } else if k == 13 {
        Event::TransitionWarpEvent
    } else if k == 14 {
        Event::ConveyorBelt
    } else if k == 15 {
        Event::PetrifiedVine
    } else if k == 16 {
        Event::WaterFillerNW
    } else if k == 17 {
        Event::WaterFillerSE
    } else if k == 18 {
        Event::Elevator
    } else if k == 19 {
        Event::DonutTile
    } else if k == 20 {
        Event::BreakableWall
    } else if k == 21 {
        Event::JunkCrusher
    } else if k == 22 {
        Event::MerchantCrow
    } else if k == 23 {
        Event::Selen
    } else if k == 24 {
        Event::TheTimespinner
    } else if k == 25 {
        Event::OrbPedestal
    } else if k == 26 {
        Event::TimeGate
    } else if k == 27 {
        Event::TreasureChest
    } else if k == 28 {
        Event::Doorway
    } else if k == 29 {
        Event::KeycardDoor
    } else if k == 30 {
        Event::Transition
    } else if k == 31 {
        Event::Lantern
    } else if k == 32 {
        Event::ForestNPCs
    } else if k == 33 {
        Event::CurtainDrawbridge
    } else if k == 34 {
        Event::TimespinnerWheelItem
    } else if k == 35 {
        Event::LevelEffect
    } else if k == 36 {
        Event::EnvironmentPrefab
    } else if k == 37 {
        Event::AreaTitleBlocker
    } else if k == 38 {
        Event::MapTerminal
    } else if k == 39 {
        Event::BackerPortrait
    } else if k == 40 {
        Event::Cutscene
    } else if k == 41 {
        Event::MusicFader
    } else if k == 42 {
        Event::MusicPlayer
    } else if k == 43 {
        Event::GyrePortal
    } else if k == 44 {
        Event::GyreSpawner
    } else if k == 45 {
        Event::LostItem
    } else if k == 46 {
        Event::Tutorial
    } else if k == 47 {
        Event::RareEnemySpawner
    } else {
        Event::EscortMissionManager
    }
}

/// The enemy kind at a given wire ordinal (meaningful below 62).
pub open spec fn enemy_of_ordinal(k: int) -> Enemy {
    if k == 0 {
        Enemy::CheveuxTank
    } else if k == 1 {
        Enemy::BlueCheveux
    } else if k == 2 {
        Enemy::RedCheveux
    } else if k == 3 {
        Enemy::FlyingCheveux
    } else if k == 4 {
        Enemy::KickstarterFoe
    } else if k == 5 {
        Enemy::TempleFoe
    } else if k == 6 {
        Enemy::CursedAnemone
    } else if k == 7 {
        Enemy::CavesSlime
    } else if k == 8 {
        Enemy::FortressEngineer
    } else if k == 9 {
        Enemy::JunkSpawner
    } else if k == 10 {
        Enemy::CavesCopperWyvern
    } else if k == 11 {
        Enemy::CavesSiren
    } else if k == 12 {
        Enemy::KeepDemon
    } else if k == 13 {
        Enemy::CastleShieldKnight
    } else if k == 14 {
        Enemy::CastleArcher
    } else if k == 15 {
        Enemy::WormFlower
    } else if k == 16 {
        Enemy::WormFlowerWalker
    } else if k == 17 {
        Enemy::CeilingStar
    } else if k == 18 {
        Enemy::FleshSpider
    } else if k == 19 {
        Enemy::DiscStatue
    } else if k == 20 {
        Enemy::CitySecurityGuard
    } else if k == 21 {
        Enemy::CheveuxTower
    } else if k == 22 {
        Enemy::ForestBabyCheveux
    } else if k == 23 {
        Enemy::ForestMoth
    } else if k == 24 {
        Enemy::ForestPlantBat
    } else if k == 25 {
        Enemy::ForestRodent
    } else if k == 26 {
        Enemy::ForestWormFlower
    } else if k == 27 {
        Enemy::CavesMushroomTower
    } else if k == 28 {
        Enemy::CavesSporeVine
    } else if k == 29 {
        Enemy::CavesSnail
    } else if k == 30 {
        Enemy::CastleLargeSoldier
    } else if k == 31 {
        Enemy::CastleEngineer
    } else if k == 32 {
        Enemy::KeepWarCheveux
    } else if k == 33 {
        Enemy::KeepLanceKnight
    } else if k == 34 {
        Enemy::KeepAristocrat
    } else if k == 35 {
        Enemy::TowerPlasmaPod
    } else if k == 36 {
        Enemy::TowerRoyalGuard
    } else if k == 37 {
        Enemy::LakeBirdEgg
    } else if k == 38 {
        Enemy::LakeAnemone
    } else if k == 39 {
        Enemy::LakeCheveux
    } else if k == 40 {
        Enemy::LakeEel
    } else if k == 41 {
        Enemy::LakeFly
    } else if k == 42 {
        Enemy::FortressKnight
    } else if k == 43 {
        Enemy::FortressGunner
    } else if k == 44 {
        Enemy::LabTurret
    } else if k == 45 {
        Enemy::LabChild
    } else if k == 46 {
        Enemy::LabAdult
    } else if k == 47 {
        Enemy::FortressLargeSoldier
    } else if k == 48 {
        Enemy::BirdBoss
    } else if k == 49 {
        Enemy::RoboKittyBoss
    } else if k == 50 {
        Enemy::VarndagrothBoss
    } else if k == 51 {
        Enemy::AelanaBoss
    } else if k == 52 {
        Enemy::IncubusBoss
    } else if k == 53 {
        Enemy::MawBoss
    } else if k == 54 {
        Enemy::ShapeshiftBoss
    } else if k == 55 {
        Enemy::EmperorBoss
    } else if k == 56 {
        Enemy::SandmanBoss
    } else if k == 57 {
        Enemy::NightmareBoss
    } else if k == 58 {
        Enemy::RavenBoss
    } else if k == 59 {
        Enemy::XarionBoss
    } else if k == 60 {
        Enemy::ZelBoss
    } else {
        Enemy::CantoranBoss
    }
}

/// The item kind at a given wire ordinal (meaningful below 8).
pub open spec fn item_of_ordinal(k: int) -> Item {
    if k == 0 {
        Item::MaxHP
    } else if k == 1 {
        Item::MaxMP
    } else if k == 2 {
        Item::Orb1
    } else if k == 3 {
        Item::DoubleJump
    } else if k == 4 {
        Item::Dash
    } else if k == 5 {
        Item::WhiteSheep
    } else if k == 6 {
        Item::BlackSheep
    } else {
        Item::GemChest
    }
}

/// Category resolution as a function of the raw pair alone.
pub open spec fn spec_resolve_category(tag: level_specification::Category, object_id: u8) -> Result<
    Category,
    LoadError,
> {
    if resolves(tag, object_id) {
        Ok(
            match tag {
                level_specification::Category::Nothing => Category::Nothing,
                level_specification::Category::Event => Category::Event(
                    event_of_ordinal(object_id as int),
                ),
                level_specification::Category::Enemy => Category::Enemy(
                    enemy_of_ordinal(object_id as int),
                ),
                level_specification::Category::Item => Category::Item(
                    item_of_ordinal(object_id as int),
                ),
            },
        )
    } else {
        Err(LoadError::Resolve { category: tag, object_id })
    }
}


/// The ghost shape of a room.
pub struct RoomModel {
    pub id: i32,
    pub index: u32,
    pub name: Seq<char>,
    pub tileset: Seq<char>,
    pub width: u32,
    pub height: u32,
    pub background_wipe_color: Seq<char>,
    pub bottom_tiles: Seq<Tile>,
    pub middle_tiles: Seq<Tile>,
    pub top_tiles: Seq<Tile>,
    pub object_tiles: Seq<ObjectTile>,
}

impl View for Room {
    type V = RoomModel;

    open spec fn view(&self) -> RoomModel {
        RoomModel {
            id: self.id,
            index: self.index,
            name: self.name@,
            tileset: self.tileset@,
            width: self.width,
            height: self.height,
            background_wipe_color: self.background_wipe_color@,
            bottom_tiles: self.bottom_tiles@,
            middle_tiles: self.middle_tiles@,
            top_tiles: self.top_tiles@,
            object_tiles: self.object_tiles@,
        }
    }
}

impl DeepView for Room {
    type V = RoomModel;

    open spec fn deep_view(&self) -> RoomModel {
        self@
    }
}

/// The ghost shape of a level.
pub struct LevelModel {
    pub id: i32,
    pub name: Seq<char>,
    pub rooms: Seq<RoomModel>,
}

impl View for Level {
    type V = LevelModel;

    open spec fn view(&self) -> LevelModel {
        LevelModel { id: self.id, name: self.name@, rooms: self.rooms.deep_view() }
    }
}

impl DeepView for Level {
    type V = LevelModel;

    open spec fn deep_view(&self) -> LevelModel {
        self@
    }
}

} // verus!
