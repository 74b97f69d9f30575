use cyberengine::graphics::{RenderOp, Renderer};
use cyberengine::resource::Identifier;
use cyberengine::screen::Screen;
use cyberengine::state::{
    splash_state, GameState, Manager, RenderSystem, SpriteDespawner, SpriteDuration,
    SpriteSpawner, UpdateSystem,
};
use cyberengine::systems::sprite::{Position, Sprite, SpriteLoader, SpriteRenderer, SpriteSpawn};
use cyberengine::texture::Texture;
use cyberengine::window;
use cyberengine::window::WindowEvent;
use cyberengine::world::{Entity, World};

#[test]
fn it_works() {}

fn tex(view: u64) -> Texture {
    Texture::assemble((16, 16), view, view + 100, view + 200)
}

fn spawn_entity(id: u64, name: &str) -> Entity {
    Entity {
        id,
        position: Some(Position { x_bits: 1, y_bits: 2 }),
        sprite: None,
        spawn: Some(SpriteSpawn { texture_identifier: Identifier::Image(name.to_string()) }),
        duration: None,
        dead: false,
    }
}

#[test]
fn world_create_and_maintain() {
    let mut w = World::new();
    assert_eq!(w.next_id, 0);
    let a = w.create();
    let b = w.create();
    assert_eq!(a, 0);
    assert_eq!(b, 1);
    assert_eq!(w.entities.len(), 2);
    w.delete(a);
    assert!(w.entities[0].dead);
    assert!(!w.entities[1].dead);
    w.maintain();
    assert_eq!(w.entities.len(), 1);
    assert_eq!(w.entities[0].id, 1);
}

#[test]
fn world_counts_sprites() {
    let mut w = World::new();
    w.create();
    w.create();
    w.entities[1].sprite = Some(Sprite { texture: tex(1) });
    assert_eq!(w.sprite_count(), 1);
}

#[test]
fn loader_cache_round_trip() {
    let mut loader = SpriteLoader::new();
    assert!(!loader.cached(&"test.jpg".to_string()));
    loader.install_texture("test.jpg".to_string(), tex(7));
    assert!(loader.cached(&"test.jpg".to_string()));
    let got = loader.get_cached(&"test.jpg".to_string()).unwrap();
    assert_eq!(got.view, 7);
    assert!(loader.get_cached(&"other.png".to_string()).is_none());
}

#[test]
fn loader_cache_later_entry_wins() {
    let mut loader = SpriteLoader::new();
    loader.install_texture("a.png".to_string(), tex(1));
    loader.install_texture("a.png".to_string(), tex(2));
    let got = loader.get_cached(&"a.png".to_string()).unwrap();
    assert_eq!(got.view, 2);
}

#[test]
fn loader_missing_textures_dedups() {
    let mut loader = SpriteLoader::new();
    loader.install_texture("cached.png".to_string(), tex(1));
    let mut w = World::new();
    w.entities.push(spawn_entity(0, "a.png"));
    w.entities.push(spawn_entity(1, "cached.png"));
    w.entities.push(spawn_entity(2, "a.png"));
    w.entities.push(spawn_entity(3, "b.png"));
    let missing = loader.missing_textures(&w);
    assert_eq!(missing, vec!["a.png".to_string(), "b.png".to_string()]);
}

#[test]
fn loader_attaches_cached_sprites() {
    let mut loader = SpriteLoader::new();
    loader.install_texture("a.png".to_string(), tex(9));
    let mut w = World::new();
    w.entities.push(spawn_entity(0, "a.png"));
    assert!(loader.is_ready_for(&w));
    let r = Renderer::new(tex(0));
    let r = loader.render_world(&mut w, r);
    assert_eq!(r.ops.len(), 0);
    assert!(w.entities[0].spawn.is_none());
    assert_eq!(w.entities[0].sprite.as_ref().unwrap().texture.view, 9);
    assert!(loader.renderer.is_none());
}

#[test]
fn loader_not_ready_without_texture() {
    let loader = SpriteLoader::new();
    let mut w = World::new();
    w.entities.push(spawn_entity(0, "a.png"));
    assert!(!loader.is_ready_for(&w));
}

#[test]
fn sprite_renderer_draws_positioned_sprites() {
    let mut w = World::new();
    let mut e = spawn_entity(0, "a.png");
    e.spawn = None;
    e.sprite = Some(Sprite { texture: tex(5) });
    w.entities.push(e);
    // No position, no draw.
    w.entities.push(Entity {
        id: 1,
        position: None,
        sprite: Some(Sprite { texture: tex(6) }),
        spawn: None,
        duration: None,
        dead: false,
    });
    let mut sys = SpriteRenderer { renderer: None };
    let r = sys.render_world(&mut w, Renderer::new(tex(0)));
    assert_eq!(r.ops, vec![RenderOp::DrawTexture { view: 5, x_bits: 1, y_bits: 2 }]);
}

#[test]
fn renderer_records_commands_in_order() {
    let mut r = Renderer::new(tex(0));
    r.clear();
    r.draw_texture(&tex(3), (10, 20));
    r.flush();
    r.cleanup();
    assert_eq!(
        r.ops,
        vec![
            RenderOp::Clear,
            RenderOp::DrawTexture { view: 3, x_bits: 10, y_bits: 20 },
            RenderOp::Flush,
            RenderOp::Cleanup,
        ]
    );
}

#[test]
fn spawner_adds_one_entity() {
    let w0 = World::new();
    let mut w = w0;
    let sys = SpriteSpawner {};
    sys.run(&mut w, Position { x_bits: 11, y_bits: 22 });
    assert_eq!(w.entities.len(), 1);
    assert_eq!(w.next_id, 1);
    let e = &w.entities[0];
    assert_eq!(e.id, 0);
    assert_eq!(e.position, Some(Position { x_bits: 11, y_bits: 22 }));
    match &e.spawn {
        Some(s) => assert_eq!(s.texture_identifier, Identifier::Image("test.jpg".to_string())),
        None => panic!("spawner did not request a sprite"),
    }
    assert_eq!(e.duration.unwrap().0, 0);
    assert!(!e.dead);
}

#[test]
fn spawner_respects_sprite_limit() {
    let mut w = World::new();
    for _ in 0..100 {
        let id = w.create();
        let i = id as usize;
        w.entities[i].sprite = Some(Sprite { texture: tex(1) });
    }
    let sys = SpriteSpawner {};
    sys.run(&mut w, Position { x_bits: 0, y_bits: 0 });
    assert_eq!(w.entities.len(), 100);
    assert_eq!(w.next_id, 100);
}

#[test]
fn despawner_ages_and_marks() {
    let mut w = World::new();
    w.delta = cyberengine::systems::DeltaTime(200_000_000);
    w.create();
    w.entities[0].duration = Some(SpriteDuration(0));
    w.create();
    w.entities[1].duration = Some(SpriteDuration(400_000_000));
    let sys = SpriteDespawner {};
    sys.run(&mut w);
    assert_eq!(w.entities[0].duration.unwrap().0, 200_000_000);
    assert!(!w.entities[0].dead);
    assert_eq!(w.entities[1].duration.unwrap().0, 600_000_000);
    assert!(w.entities[1].dead);
}

#[test]
fn game_state_update_runs_splash_systems() {
    let mut gs = splash_state();
    gs.update(1_000_000, Position { x_bits: 4, y_bits: 8 });
    // The spawner created one entity; the despawner aged it; nothing
    // timed out, so maintain kept it.
    assert_eq!(gs.world.entities.len(), 1);
    assert_eq!(gs.world.entities[0].duration.unwrap().0, 1_000_000);
    assert_eq!(gs.world.delta.0, 1_000_000);
}

#[test]
fn game_state_update_despawns_old_sprites() {
    let mut gs = splash_state();
    gs.update(1_000_000, Position { x_bits: 0, y_bits: 0 });
    assert_eq!(gs.world.entities.len(), 1);
    // The next frame is far longer than the sprite timeout: the first
    // entity's sprite ages out; a second one was spawned this frame and
    // itself aged out at once.
    gs.update(600_000_000, Position { x_bits: 0, y_bits: 0 });
    assert_eq!(gs.world.entities.len(), 0);
}

#[test]
fn game_state_render_loads_and_draws() {
    let mut gs = splash_state();
    gs.update(1_000_000, Position { x_bits: 4, y_bits: 8 });
    assert!(!gs.render_ready());
    match &mut gs.rendering_systems[0] {
        RenderSystem::Loader(l) => l.install_texture("test.jpg".to_string(), tex(42)),
        RenderSystem::Sprites(_) => panic!("splash state should lead with its loader"),
    }
    assert!(gs.render_ready());
    let r = gs.render(Renderer::new(tex(0)));
    assert_eq!(r.ops, vec![RenderOp::DrawTexture { view: 42, x_bits: 4, y_bits: 8 }]);
    assert!(gs.world.entities[0].spawn.is_none());
    assert_eq!(gs.world.entities[0].sprite.as_ref().unwrap().texture.view, 42);
}

#[test]
fn manager_starts_on_splash() {
    let m = Manager::new();
    assert_eq!(m.current_state, "splash".to_string());
    assert!(m.next_state.is_none());
    assert_eq!(m.states.len(), 1);
    assert_eq!(m.states[0].name, "splash".to_string());
    assert!(!m.states[0].loaded);
}

#[test]
fn manager_switches_after_update() {
    let mut m = Manager::new();
    let other = GameState::new("menu".to_string(), World::new(), Vec::new(), Vec::new());
    m.add_state(other);
    assert_eq!(m.states.len(), 2);
    assert!(m.has_state(&"menu".to_string()));
    m.switch_state("menu".to_string());
    assert_eq!(m.current_state, "splash".to_string());
    m.update(1_000_000, Position { x_bits: 0, y_bits: 0 });
    assert_eq!(m.current_state, "menu".to_string());
    // The request is kept as it stands; only an update carries it out.
    assert_eq!(m.next_state, Some("menu".to_string()));
}

#[test]
fn manager_add_state_replaces_by_name() {
    let mut m = Manager::new();
    m.add_state(GameState::new("menu".to_string(), World::new(), Vec::new(), Vec::new()));
    let mut replacement = GameState::new("menu".to_string(), World::new(), Vec::new(), Vec::new());
    replacement.loaded = true;
    m.add_state(replacement);
    assert_eq!(m.states.len(), 2);
    assert!(m.states[1].loaded);
}

#[test]
fn screen_frame_records_clear_draws_flush() {
    let mut screen = Screen::new(Renderer::new(tex(0)));
    screen.update(1_000_000, Position { x_bits: 3, y_bits: 9 });
    match &mut screen.statemanager.states[0].rendering_systems[0] {
        RenderSystem::Loader(l) => l.install_texture("test.jpg".to_string(), tex(8)),
        RenderSystem::Sprites(_) => panic!("splash state should lead with its loader"),
    }
    let mut screen = screen.render();
    assert_eq!(
        screen.renderer.ops,
        vec![
            RenderOp::Clear,
            RenderOp::DrawTexture { view: 8, x_bits: 3, y_bits: 9 },
            RenderOp::Flush,
        ]
    );
    screen.cleanup();
    assert_eq!(screen.renderer.ops.len(), 4);
    assert_eq!(screen.renderer.ops[3], RenderOp::Cleanup);
}

#[test]
fn window_builder_defaults() {
    let s = window::Builder::new().build_settings();
    assert_eq!(s.dimensions, (1280, 720));
    assert_eq!(s.title, "Default Window".to_string());
    assert!(!s.vsync);
    assert_eq!(s.multisampling, 0);
    assert!(s.fullscreen.is_none());
}

#[test]
fn window_builder_applies_choices() {
    let s = window::Builder::new()
        .with_title("Game".to_string())
        .with_dimensions(800, 600)
        .with_vsync(true)
        .with_multisampling(4)
        .with_fullscreen(1)
        .build_settings();
    assert_eq!(s.dimensions, (800, 600));
    assert_eq!(s.title, "Game".to_string());
    assert!(s.vsync);
    assert_eq!(s.multisampling, 4);
    assert_eq!(s.fullscreen, Some(1));
}

#[test]
fn window_events_decide_running() {
    assert!(window::keeps_running(&Vec::new()));
    assert!(window::keeps_running(&vec![
        WindowEvent::KeyboardInput,
        WindowEvent::MouseMoved { x_bits: 0, y_bits: 0 },
        WindowEvent::Other,
    ]));
    assert!(!window::keeps_running(&vec![WindowEvent::Other, WindowEvent::Closed]));
}

#[test]
fn splash_state_shape() {
    let gs = splash_state();
    assert_eq!(gs.name, "splash".to_string());
    assert!(!gs.loaded);
    assert_eq!(gs.world.entities.len(), 0);
    assert_eq!(gs.dispatcher.len(), 2);
    assert!(matches!(gs.dispatcher[0], UpdateSystem::Spawner(_)));
    assert!(matches!(gs.dispatcher[1], UpdateSystem::Despawner(_)));
    assert_eq!(gs.rendering_systems.len(), 2);
    assert!(matches!(gs.rendering_systems[0], RenderSystem::Loader(_)));
    assert!(matches!(gs.rendering_systems[1], RenderSystem::Sprites(_)));
}
