use cyberengine::config::{GameConfig, GraphicsSettings};
use cyberengine::scene::{Component, Scene};
use cyberengine::texture::{
    default_quad_indices, final_dimensions, Builder, MeshChoice, Texture, TextureSource,
};
use cyberengine::tilemap::{path_join, path_parent, Layer, LayerData, Tilemap, Tileset};

fn tileset(source: Option<&str>, firstgid_raw: Option<i32>, name_raw: Option<&str>) -> Tileset {
    Tileset {
        root: String::new(),
        source: source.map(|s| s.to_string()),
        firstgid: 0,
        _firstgid: firstgid_raw,
        image: Some("tiles.png".to_string()),
        name: String::new(),
        _name: name_raw.map(|s| s.to_string()),
        tilewidth: Some(64),
        tileheight: Some(64),
        imagewidth: None,
        imageheight: None,
        margin: None,
        spacing: None,
        columns: None,
        tilecount: None,
        _texture: None,
    }
}

#[test]
fn paths_join_and_parent() {
    assert_eq!(path_join("maps", "tiles.png"), "maps/tiles.png".to_string());
    assert_eq!(path_join("", "tiles.png"), "tiles.png".to_string());
    assert_eq!(path_parent("maps/offices.json"), "maps".to_string());
    assert_eq!(path_parent("offices.json"), "".to_string());
    assert_eq!(path_parent("a/b/c.json"), "a/b".to_string());
}

#[test]
fn tile_lookup_is_row_major() {
    let layer = Layer {
        height: 2,
        width: 3,
        name: "ground".to_string(),
        layertype: "tilelayer".to_string(),
        visible: true,
        x: 0,
        y: 0,
        data: LayerData::TileData(vec![1, 2, 3, 4, 5, 6]),
        opacity_bits: 0,
    };
    assert!(layer.is_tile_layer());
    assert_eq!(layer.get_tile(0, 0), 1);
    assert_eq!(layer.get_tile(2, 0), 3);
    assert_eq!(layer.get_tile(1, 1), 5);
    assert_eq!(layer.get_tile(2, 1), 6);
}

#[test]
fn object_layer_is_not_a_tile_layer() {
    let layer = Layer {
        height: 0,
        width: 0,
        name: "things".to_string(),
        layertype: "objectgroup".to_string(),
        visible: true,
        x: 0,
        y: 0,
        data: LayerData::ObjectData(Vec::new()),
        opacity_bits: 0,
    };
    assert!(!layer.is_tile_layer());
}

#[test]
fn tileset_texture_must_be_loaded_first() {
    let mut ts = tileset(None, Some(1), Some("town"));
    match ts.get_texture() {
        Ok(_) => panic!("no texture was loaded"),
        Err(e) => assert_eq!(e, "Texture needs to be loaded first!".to_string()),
    }
    ts.root = "maps".to_string();
    assert_eq!(ts.image_path(), "maps/tiles.png".to_string());
    ts.set_texture(Texture::assemble((64, 64), 3, 4, 5));
    let t = ts.get_texture().unwrap();
    assert_eq!(t.view, 3);
}

#[test]
fn empty_tilemap() {
    let m = Tilemap::new();
    assert_eq!(m.filename, "".to_string());
    assert_eq!(m.width, 0);
    assert_eq!(m.height, 0);
    assert_eq!(m.layers.len(), 0);
    assert_eq!(m.tilesets.len(), 0);
}

#[test]
fn tileset_resolution() {
    let mut m = Tilemap::new();
    m.filename = "maps/town.json".to_string();
    // One inline entry, one reference to a tile-set file.
    m.tilesets.push(tileset(None, Some(7), Some("inline")));
    m.tilesets.push(tileset(Some("../sets/town.json"), None, None));

    let paths = m.external_tileset_paths();
    assert_eq!(paths.len(), 2);
    assert!(paths[0].is_none());
    assert_eq!(paths[1], Some("maps/../sets/town.json".to_string()));

    let loaded = vec![None, Some(tileset(None, Some(1), Some("town")))];
    m.resolve_tilesets(&loaded);

    assert_eq!(m.tilesets[0].firstgid, 7);
    assert_eq!(m.tilesets[0].name, "inline".to_string());
    assert_eq!(m.tilesets[0].root, "maps".to_string());

    // The referencing entry's own (unresolved) first gid carries over.
    assert_eq!(m.tilesets[1].firstgid, 0);
    assert_eq!(m.tilesets[1].name, "town".to_string());
    assert_eq!(m.tilesets[1].root, "maps/../sets".to_string());
}

#[test]
fn texture_builder_plans_file_source() {
    let plan = Builder::new().from_file("a.png".to_string()).build_plan();
    assert_eq!(plan.source, TextureSource::File("a.png".to_string()));
    assert_eq!(plan.dimensions, (0, 0));
    assert_eq!(plan.mesh, MeshChoice::DefaultQuad);
    assert!(!plan.flip_y);
    assert_eq!(final_dimensions(&plan, Some((32, 64))), (32, 64));
}

#[test]
fn texture_builder_view_wins_over_file() {
    let plan = Builder::new()
        .from_file("a.png".to_string())
        .with_view(9)
        .with_dimensions(128, 256)
        .with_flipped_y()
        .build_plan();
    assert_eq!(plan.source, TextureSource::View(9));
    assert_eq!(plan.dimensions, (128, 256));
    assert!(plan.flip_y);
    assert_eq!(final_dimensions(&plan, None), (128, 256));
}

#[test]
fn texture_builder_keeps_supplied_mesh() {
    let plan = Builder::new()
        .with_view(1)
        .with_vertex_data_and_indices(77, vec![0, 2, 1])
        .build_plan();
    assert_eq!(plan.mesh, MeshChoice::Supplied(77, vec![0, 2, 1]));
}

#[test]
fn default_quad_has_two_triangles() {
    assert_eq!(default_quad_indices(), vec![0, 1, 2, 2, 3, 0]);
}

#[test]
fn scene_collects_components() {
    let mut scene = Scene { root: Vec::new() };
    scene.add_component(Component::Tilemap(Tilemap::new()));
    scene.add_component(Component::Group(Vec::new()));
    assert_eq!(scene.root.len(), 2);
    assert!(matches!(scene.root[0], Component::Tilemap(_)));
    assert!(matches!(scene.root[1], Component::Group(_)));
}

#[test]
fn config_carries_graphics_settings() {
    let config = GameConfig {
        graphics: GraphicsSettings {
            window_width: 1280,
            window_height: 720,
            vsync: true,
            multisampling: 4,
            title: "cyberpunk".to_string(),
        },
    };
    assert_eq!(config.graphics.window_width, 1280);
    assert_eq!(config.graphics.window_height, 720);
    assert!(config.graphics.vsync);
    assert_eq!(config.graphics.multisampling, 4);
    assert_eq!(config.graphics.title, "cyberpunk".to_string());
}
