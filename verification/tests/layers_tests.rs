use game_animation::layers::{AudioLayer, PhysicsLayer};

#[test]
fn physics_layers_are_distinct() {
    let layers = [
        PhysicsLayer::World,
        PhysicsLayer::Player,
        PhysicsLayer::PlayerDamageReceive,
        PhysicsLayer::PlayerDamageSend,
        PhysicsLayer::Projectile,
        PhysicsLayer::EnemyDamageReceive,
        PhysicsLayer::EnemyDamageSend,
    ];
    for (i, a) in layers.iter().enumerate() {
        for (j, b) in layers.iter().enumerate() {
            assert_eq!(a == b, i == j);
        }
    }
}

#[test]
fn audio_layers_are_distinct() {
    let layers = [AudioLayer::Music, AudioLayer::Player, AudioLayer::Enemy];
    for (i, a) in layers.iter().enumerate() {
        for (j, b) in layers.iter().enumerate() {
            assert_eq!(a == b, i == j);
        }
    }
}

#[test]
fn main_types_are_at_the_crate_root() {
    let def = game_animation::AnimationDefinition {
        start: 0,
        end: 1,
        fps: 2,
        repeat: true,
        repeat_from: None,
        random_start: false,
    };
    let mut set = game_animation::AnimationSet::new();
    assert!(set.insert(game_animation::AudioLayer::Music, def));
    let req = game_animation::RequestedAnimation::new(game_animation::AudioLayer::Music);
    let playing = game_animation::PlayingAnimation::begin(set.get(req.key()).unwrap(), 0);
    assert_eq!(playing.timer, game_animation::FrameTimer::repeating(500_000_000).unwrap());
    let mut sprite = game_animation::AnimatedSprite::new(game_animation::PhysicsLayer::World, 3);
    let other: game_animation::AnimationSet<game_animation::PhysicsLayer> =
        game_animation::AnimationSet::new();
    assert_eq!(sprite.tick(&other, 1), game_animation::Resolution::UnknownKey);
}
