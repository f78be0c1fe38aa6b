use deathball::animals::Variant as AnimalVariant;
use deathball::buildings::Variant as BuildingVariant;
use deathball::enemies::Variant as EnemyVariant;

#[test]
fn building_variant_stats() {
    let garage = BuildingVariant::Garage.to_data();
    assert_eq!(garage.health, 10);
    assert_eq!(garage.spawn_count, 2);
    assert_eq!(garage.guaranteed_spawns, [Some(AnimalVariant::Snake), None, None]);
    let wall = BuildingVariant::ConcreteWallV.to_data();
    assert_eq!(wall.health, 0);
    assert_eq!(wall.spawn_count, 0);
    let barn = BuildingVariant::Barn.to_data();
    assert_eq!(barn.health, 200);
    assert_eq!(barn.guaranteed_spawns, [Some(AnimalVariant::Horse), Some(AnimalVariant::Cat), None]);
}

#[test]
fn enemy_variant_stats() {
    assert_eq!(EnemyVariant::Demon.health(), 200);
    assert_eq!(EnemyVariant::DemonBoss.health(), 400);
    assert_eq!(EnemyVariant::Soldier.attack_cooldown(), 9000);
    assert_eq!(EnemyVariant::Snowman.attack_cooldown(), 7000);
}

#[test]
fn animal_variant_order() {
    let all: Vec<AnimalVariant> = (0..13).map(AnimalVariant::from_index).collect();
    assert_eq!(all[3], AnimalVariant::Horse);
    assert_eq!(all[9], AnimalVariant::RubberDucky);
    assert_eq!(all.iter().map(|v| v.damage() as u32).sum::<u32>(), 3 + 3 + 2 + 1 + 4 + 5 + 2 + 0 + 1 + 50 + 1 + 3 + 2);
}
