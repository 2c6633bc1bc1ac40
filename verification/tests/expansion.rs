//! The frame-expansion algorithm.
use timespinner_map::texture_atlas::expand_frames;
use timespinner_map::texture_atlas::Atlas;
use timespinner_map::texture_atlas::AtlasFrame;
use timespinner_map::level::Tile;
use timespinner_map::texture_atlas::Rectangle;
use timespinner_map::Position;

fn atlas_of(frames: Vec<AtlasFrame>) -> Atlas {
    Atlas {
        file_name: String::from("a"),
        content_path: String::from("p"),
        width: 256,
        height: 256,
        frame_count: 0,
        frames,
    }
}

fn rect(x: i64, y: i64, width: i64, height: i64) -> Rectangle {
    Rectangle { x, y, width, height }
}

#[test]
fn four_frames_in_two_rows_expand_exactly() {
    let atlas = atlas_of(vec![AtlasFrame {
        does_new_row_use_start_x: true,
        count: 4,
        row_width: 2,
        start_index: 0,
        frame_size: Position { x: 16, y: 16 },
        start_coordinates: Position { x: 0, y: 0 },
    }]);
    let rects = expand_frames(&atlas);
    assert_eq!(
        rects,
        vec![
            rect(0, 0, 16, 16),
            rect(16, 0, 16, 16),
            rect(0, 16, 16, 16),
            rect(16, 16, 16, 16),
        ]
    );
}

#[test]
fn expansion_is_length_additive_over_descriptors() {
    let first = AtlasFrame {
        does_new_row_use_start_x: true,
        count: 3,
        row_width: 2,
        start_index: 0,
        frame_size: Position { x: 8, y: 8 },
        start_coordinates: Position { x: 0, y: 0 },
    };
    let second = AtlasFrame {
        does_new_row_use_start_x: false,
        count: 2,
        row_width: 5,
        start_index: 3,
        frame_size: Position { x: 4, y: 4 },
        start_coordinates: Position { x: 100, y: 50 },
    };
    let rects = expand_frames(&atlas_of(vec![first, second]));
    assert_eq!(rects.len(), 5);
    let alone_first = expand_frames(&atlas_of(vec![first]));
    let alone_second = expand_frames(&atlas_of(vec![second]));
    assert_eq!(&rects[..3], &alone_first[..]);
    assert_eq!(&rects[3..], &alone_second[..]);
}

#[test]
fn row_wrap_without_start_x_resets_to_zero() {
    let atlas = atlas_of(vec![AtlasFrame {
        does_new_row_use_start_x: false,
        count: 3,
        row_width: 2,
        start_index: 0,
        frame_size: Position { x: 8, y: 8 },
        start_coordinates: Position { x: 32, y: 8 },
    }]);
    let rects = expand_frames(&atlas);
    assert_eq!(
        rects,
        vec![rect(32, 8, 8, 8), rect(40, 8, 8, 8), rect(0, 16, 8, 8)]
    );
}

#[test]
fn non_positive_row_width_never_wraps() {
    let atlas = atlas_of(vec![AtlasFrame {
        does_new_row_use_start_x: true,
        count: 3,
        row_width: 0,
        start_index: 0,
        frame_size: Position { x: 10, y: 12 },
        start_coordinates: Position { x: 5, y: 7 },
    }]);
    let rects = expand_frames(&atlas);
    assert_eq!(
        rects,
        vec![rect(5, 7, 10, 12), rect(15, 7, 10, 12), rect(25, 7, 10, 12)]
    );
}

#[test]
fn non_positive_count_expands_to_nothing() {
    let atlas = atlas_of(vec![AtlasFrame {
        does_new_row_use_start_x: true,
        count: -2,
        row_width: 2,
        start_index: 0,
        frame_size: Position { x: 16, y: 16 },
        start_coordinates: Position { x: 0, y: 0 },
    }]);
    assert!(expand_frames(&atlas).is_empty());
}

#[test]
fn expansion_is_deterministic() {
    let atlas = atlas_of(vec![AtlasFrame {
        does_new_row_use_start_x: false,
        count: 9,
        row_width: 4,
        start_index: 2,
        frame_size: Position { x: 3, y: 5 },
        start_coordinates: Position { x: 11, y: 13 },
    }]);
    assert_eq!(expand_frames(&atlas), expand_frames(&atlas));
}

#[test]
fn reserved_and_out_of_range_tile_ids_have_no_sprite() {
    let tile = |id: i32| Tile { id, x: 0, y: 0, flip_x: false, flip_y: false };
    assert_eq!(tile(0).sprite_index(4), Some(0));
    assert_eq!(tile(3).sprite_index(4), Some(3));
    assert_eq!(tile(4).sprite_index(4), None);
    assert_eq!(tile(511).sprite_index(1000), Some(511));
    assert_eq!(tile(512).sprite_index(1000), None);
    assert_eq!(tile(600).sprite_index(1000), None);
    assert_eq!(tile(-1).sprite_index(4), None);
}
