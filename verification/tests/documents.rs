//! Whole-document loads through the real zlib and XML layers.
use timespinner_map::error::LoadError;
use timespinner_map::level::Category;
use timespinner_map::level::Enemy;
use timespinner_map::load_map_from_bytes;
use timespinner_map::minimap::Minimap;
use timespinner_map::texture_atlas::TextureDatabase;
use timespinner_map::Position;

fn compress(text: &str) -> Vec<u8> {
    let mut encoder =
        flate2::write::ZlibEncoder::new(Vec::new(), flate2::Compression::default());
    std::io::Write::write_all(&mut encoder, text.as_bytes()).unwrap();
    encoder.finish().unwrap()
}

const LEVEL_XML: &str = "<?xml version=\"1.0\"?>\
<Level ID=\"3\" Name=\"Lake Desolation\">\
  <Rooms>\
    <Room ID=\"1\" Index=\"0\" Name=\"start &amp; end\" Tileset=\"LakeTiles\" \
          Width=\"25\" Height=\"20\" BackgroundWipeColor=\"#FF001122\">\
      <BottomTiles>\
        <Tile ID=\"5\" X=\"1\" Y=\"2\"/>\
        <Tile ID=\"6\" X=\"2\" Y=\"2\" FlipX=\"True\" FlipY=\"False\"/>\
      </BottomTiles>\
      <MiddleTiles/>\
      <ObjectTiles>\
        <Tile ID=\"7\" X=\"3\" Y=\"4\" Category=\"Enemy\" ObjectID=\"2\" Argument=\"9\"/>\
        <Tile ID=\"8\" X=\"0\" Y=\"0\" Category=\"None\" ObjectID=\"0\"/>\
      </ObjectTiles>\
    </Room>\
  </Rooms>\
</Level>";

#[test]
fn level_document_loads_whole() {
    let level = load_map_from_bytes(&compress(LEVEL_XML)).unwrap();
    assert_eq!(level.id, 3);
    assert_eq!(level.name, "Lake Desolation");
    assert_eq!(level.rooms.len(), 1);

    let room = &level.rooms[0];
    assert_eq!(room.id, 1);
    assert_eq!(room.index, 0);
    assert_eq!(room.name, "start & end");
    assert_eq!(room.tileset, "LakeTiles");
    assert_eq!(room.width, 25);
    assert_eq!(room.height, 20);
    assert_eq!(room.background_wipe_color, "#FF001122");

    assert_eq!(room.bottom_tiles.len(), 2);
    assert_eq!(room.bottom_tiles[0].id, 5);
    assert_eq!(room.bottom_tiles[0].x, 1);
    assert_eq!(room.bottom_tiles[0].y, 2);
    assert!(!room.bottom_tiles[0].flip_x);
    assert!(room.bottom_tiles[1].flip_x);
    assert!(!room.bottom_tiles[1].flip_y);

    // the absent TopTiles list and the self-closed MiddleTiles are empty
    assert!(room.middle_tiles.is_empty());
    assert!(room.top_tiles.is_empty());

    assert_eq!(room.object_tiles.len(), 2);
    assert_eq!(room.object_tiles[0].id, 7);
    assert_eq!(
        room.object_tiles[0].category,
        Category::Enemy(Enemy::RedCheveux)
    );
    assert_eq!(room.object_tiles[0].argument, Some(9));
    assert_eq!(room.object_tiles[1].category, Category::Nothing);
    assert_eq!(room.object_tiles[1].argument, None);
}

#[test]
fn tile_missing_y_is_a_schema_error_not_a_default() {
    let xml = "<Level ID=\"1\" Name=\"n\"><Rooms>\
        <Room ID=\"1\" Index=\"0\" Name=\"r\" Tileset=\"t\" Width=\"1\" Height=\"1\" \
              BackgroundWipeColor=\"c\">\
        <BottomTiles><Tile ID=\"5\" X=\"1\"/></BottomTiles>\
        </Room></Rooms></Level>";
    assert_eq!(load_map_from_bytes(&compress(xml)), Err(LoadError::Schema));
}

#[test]
fn out_of_range_object_id_is_a_resolution_error() {
    let xml = "<Level ID=\"1\" Name=\"n\"><Rooms>\
        <Room ID=\"1\" Index=\"0\" Name=\"r\" Tileset=\"t\" Width=\"1\" Height=\"1\" \
              BackgroundWipeColor=\"c\">\
        <ObjectTiles>\
          <Tile ID=\"1\" X=\"0\" Y=\"0\" Category=\"Enemy\" ObjectID=\"200\"/>\
        </ObjectTiles>\
        </Room></Rooms></Level>";
    assert_eq!(
        load_map_from_bytes(&compress(xml)),
        Err(LoadError::Resolve {
            category: timespinner_map::level_specification::Category::Enemy,
            object_id: 200
        })
    );
}

#[test]
fn missing_required_room_attribute_is_a_schema_error() {
    // no Width
    let xml = "<Level ID=\"1\" Name=\"n\"><Rooms>\
        <Room ID=\"1\" Index=\"0\" Name=\"r\" Tileset=\"t\" Height=\"1\" \
              BackgroundWipeColor=\"c\"/></Rooms></Level>";
    assert_eq!(load_map_from_bytes(&compress(xml)), Err(LoadError::Schema));
}

#[test]
fn malformed_flip_flag_is_a_schema_error() {
    let xml = "<Level ID=\"1\" Name=\"n\"><Rooms>\
        <Room ID=\"1\" Index=\"0\" Name=\"r\" Tileset=\"t\" Width=\"1\" Height=\"1\" \
              BackgroundWipeColor=\"c\">\
        <BottomTiles><Tile ID=\"5\" X=\"1\" Y=\"1\" FlipX=\"true\"/></BottomTiles>\
        </Room></Rooms></Level>";
    assert_eq!(load_map_from_bytes(&compress(xml)), Err(LoadError::Schema));
}

#[test]
fn uncompressed_input_is_a_decompression_error_not_a_schema_error() {
    let plain = LEVEL_XML.as_bytes().to_vec();
    assert_eq!(load_map_from_bytes(&plain), Err(LoadError::Decompress));
    assert_eq!(
        Minimap::from_bytes(&plain).unwrap_err(),
        LoadError::Decompress
    );
    assert_eq!(
        TextureDatabase::from_bytes(&plain).unwrap_err(),
        LoadError::Decompress
    );
    let garbage = vec![0u8, 1, 2, 3, 4, 5];
    assert_eq!(load_map_from_bytes(&garbage), Err(LoadError::Decompress));
}

#[test]
fn compressed_non_xml_is_a_schema_error() {
    assert_eq!(
        load_map_from_bytes(&compress("this is << not xml")),
        Err(LoadError::Schema)
    );
}

#[test]
fn minimap_document_loads_whole() {
    let xml = "<Minimap>\
        <Areas>\
          <Area ID=\"17\">\
            <Rooms>\
              <Room ID=\"1\" Width=\"2\" Height=\"3\" Position=\"{X:4 Y:5}\"/>\
              <Room ID=\"2\" Width=\"1\" Height=\"1\" Position=\"{X:0 Y:0}\"/>\
            </Rooms>\
          </Area>\
          <Area ID=\"18\"><Rooms/></Area>\
        </Areas>\
      </Minimap>";
    let minimap = Minimap::from_bytes(&compress(xml)).unwrap();
    assert_eq!(minimap.area_list.areas.len(), 2);
    let area = &minimap.area_list.areas[0];
    assert_eq!(area.id, 17);
    assert_eq!(area.room_list.rooms.len(), 2);
    assert_eq!(area.room_list.rooms[0].id, 1);
    assert_eq!(area.room_list.rooms[0].width, 2);
    assert_eq!(area.room_list.rooms[0].height, 3);
    assert_eq!(area.room_list.rooms[0].position, Position { x: 4, y: 5 });
    assert!(minimap.area_list.areas[1].room_list.rooms.is_empty());
}

#[test]
fn minimap_malformed_position_is_a_schema_error() {
    let xml = "<Minimap><Areas><Area ID=\"1\"><Rooms>\
        <Room ID=\"1\" Width=\"2\" Height=\"3\" Position=\"{X:4 Y:-5}\"/>\
        </Rooms></Area></Areas></Minimap>";
    assert_eq!(
        Minimap::from_bytes(&compress(xml)),
        Err(LoadError::Schema)
    );
}

#[test]
fn texture_database_loads_whole() {
    let xml = "<TextureDatabase>\
        <Atlas FileName=\"tiles\" ContentPath=\"Tiles/lake\" Width=\"256\" Height=\"128\" \
               FrameCount=\"4\">\
          <AtlasFrame DoesNewRowUseStartX=\"True\" Count=\"4\" RowWidth=\"2\" \
                      StartIndex=\"0\" FrameSize=\"{X:16 Y:16}\" \
                      StartCoordinates=\"{X:0 Y:0}\"/>\
        </Atlas>\
      </TextureDatabase>";
    let db = TextureDatabase::from_bytes(&compress(xml)).unwrap();
    assert_eq!(db.atlases.len(), 1);
    let atlas = &db.atlases[0];
    assert_eq!(atlas.file_name, "tiles");
    assert_eq!(atlas.content_path, "Tiles/lake");
    assert_eq!(atlas.width, 256);
    assert_eq!(atlas.height, 128);
    assert_eq!(atlas.frame_count, 4);
    assert_eq!(atlas.frames.len(), 1);
    let frame = &atlas.frames[0];
    assert!(frame.does_new_row_use_start_x);
    assert_eq!(frame.count, 4);
    assert_eq!(frame.row_width, 2);
    assert_eq!(frame.start_index, 0);
    assert_eq!(frame.frame_size, Position { x: 16, y: 16 });
    assert_eq!(frame.start_coordinates, Position { x: 0, y: 0 });
}

#[test]
fn atlas_without_frames_is_a_schema_error() {
    let xml = "<TextureDatabase>\
        <Atlas FileName=\"t\" ContentPath=\"p\" Width=\"1\" Height=\"1\" FrameCount=\"0\">\
        </Atlas></TextureDatabase>";
    assert_eq!(
        TextureDatabase::from_bytes(&compress(xml)),
        Err(LoadError::Schema)
    );
}

#[test]
fn duplicate_tile_list_is_a_schema_error() {
    let xml = "<Level ID=\"1\" Name=\"n\"><Rooms>\
        <Room ID=\"1\" Index=\"0\" Name=\"r\" Tileset=\"t\" Width=\"1\" Height=\"1\" \
              BackgroundWipeColor=\"c\">\
        <BottomTiles/><BottomTiles/>\
        </Room></Rooms></Level>";
    assert_eq!(load_map_from_bytes(&compress(xml)), Err(LoadError::Schema));
}

#[test]
fn unknown_elements_are_skipped() {
    let xml = "<Level ID=\"2\" Name=\"n\">\
        <Backgrounds><Layer Depth=\"3\"><Oddity/></Layer></Backgrounds>\
        <Rooms>\
        <Room ID=\"1\" Index=\"0\" Name=\"r\" Tileset=\"t\" Width=\"1\" Height=\"1\" \
              BackgroundWipeColor=\"c\">\
        <TileSwath Mode=\"7\"/>\
        <BottomTiles><Decoration/><Tile ID=\"1\" X=\"0\" Y=\"0\"/></BottomTiles>\
        </Room></Rooms></Level>";
    let level = load_map_from_bytes(&compress(xml)).unwrap();
    assert_eq!(level.id, 2);
    assert_eq!(level.rooms.len(), 1);
    assert_eq!(level.rooms[0].bottom_tiles.len(), 1);
    assert_eq!(level.rooms[0].bottom_tiles[0].id, 1);
}

#[test]
fn missing_rooms_container_is_a_schema_error() {
    let xml = "<Level ID=\"1\" Name=\"n\"></Level>";
    assert_eq!(load_map_from_bytes(&compress(xml)), Err(LoadError::Schema));
}
