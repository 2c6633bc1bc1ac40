//! Object-category resolution and the tile projection.
use timespinner_map::error::LoadError;
use timespinner_map::level::resolve_category;
use timespinner_map::level::Category;
use timespinner_map::level::Enemy;
use timespinner_map::level::Event;
use timespinner_map::level::Item;
use timespinner_map::level::ObjectTile;
use timespinner_map::level::Tile;
use timespinner_map::level_specification;

#[test]
fn none_category_ignores_the_object_id() {
    assert_eq!(
        resolve_category(level_specification::Category::Nothing, 0),
        Ok(Category::Nothing)
    );
    assert_eq!(
        resolve_category(level_specification::Category::Nothing, 200),
        Ok(Category::Nothing)
    );
    assert_eq!(
        resolve_category(level_specification::Category::Nothing, 255),
        Ok(Category::Nothing)
    );
}

#[test]
fn resolution_succeeds_exactly_inside_each_enumeration() {
    assert_eq!(
        resolve_category(level_specification::Category::Event, 0),
        Ok(Category::Event(Event::Checkpoint))
    );
    assert_eq!(
        resolve_category(level_specification::Category::Event, 48),
        Ok(Category::Event(Event::EscortMissionManager))
    );
    assert_eq!(
        resolve_category(level_specification::Category::Event, 49),
        Err(LoadError::Resolve {
            category: level_specification::Category::Event,
            object_id: 49
        })
    );

    assert_eq!(
        resolve_category(level_specification::Category::Enemy, 0),
        Ok(Category::Enemy(Enemy::CheveuxTank))
    );
    assert_eq!(
        resolve_category(level_specification::Category::Enemy, 61),
        Ok(Category::Enemy(Enemy::CantoranBoss))
    );
    assert_eq!(
        resolve_category(level_specification::Category::Enemy, 62),
        Err(LoadError::Resolve {
            category: level_specification::Category::Enemy,
            object_id: 62
        })
    );

    assert_eq!(
        resolve_category(level_specification::Category::Item, 7),
        Ok(Category::Item(Item::GemChest))
    );
    assert_eq!(
        resolve_category(level_specification::Category::Item, 8),
        Err(LoadError::Resolve {
            category: level_specification::Category::Item,
            object_id: 8
        })
    );
}

#[test]
fn out_of_range_enemy_id_names_the_tag_and_the_id() {
    let err = resolve_category(level_specification::Category::Enemy, 200).unwrap_err();
    assert_eq!(
        err,
        LoadError::Resolve {
            category: level_specification::Category::Enemy,
            object_id: 200
        }
    );
}

#[test]
fn tile_projection_keeps_the_visual_fields_and_drops_the_rest() {
    let object = ObjectTile {
        id: 42,
        x: -3,
        y: 17,
        flip_x: true,
        flip_y: false,
        category: Category::Item(Item::DoubleJump),
        argument: Some(-9),
    };
    let tile = Tile::from(object);
    assert_eq!(tile.id, 42);
    assert_eq!(tile.x, -3);
    assert_eq!(tile.y, 17);
    assert!(tile.flip_x);
    assert!(!tile.flip_y);
}

#[test]
fn raw_object_tiles_resolve_or_fail_as_a_whole() {
    let raw = level_specification::ObjectTile {
        id: 1,
        x: 2,
        y: 3,
        flip_x: false,
        flip_y: true,
        category: level_specification::Category::Event,
        object_id: 1,
        argument: None,
    };
    let resolved = ObjectTile::from_raw(raw).unwrap();
    assert_eq!(resolved.category, Category::Event(Event::PlayerStart));
    assert_eq!(resolved.id, 1);
    assert_eq!(resolved.argument, None);

    let bad = level_specification::ObjectTile {
        object_id: 100,
        ..raw
    };
    assert_eq!(
        ObjectTile::from_raw(bad),
        Err(LoadError::Resolve {
            category: level_specification::Category::Event,
            object_id: 100
        })
    );
}
