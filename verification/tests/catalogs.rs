use ic_carnage_backend::catalog::{get_available_cars, greet, Car, RaceLog, RaceResult};
use ic_carnage_backend::identity::AccountIdentifier;

#[test]
fn greeting_names_the_player() {
    assert_eq!(greet("Ann"), "Hello, Ann! Welcome to IC Carnage!");
    assert_eq!(greet(""), "Hello, ! Welcome to IC Carnage!");
}

#[test]
fn four_cars_are_on_offer() {
    let cars = get_available_cars();
    assert_eq!(cars.len(), 4);
    assert_eq!(
        cars[0],
        Car {
            id: 0,
            name: "Bolt".to_string(),
            acceleration: 9,
            top_speed: 10,
            handling: 6,
            armor: 3,
        }
    );
    assert_eq!(
        cars[1],
        Car {
            id: 1,
            name: "Tank".to_string(),
            acceleration: 3,
            top_speed: 6,
            handling: 5,
            armor: 10,
        }
    );
    assert_eq!(
        cars[2],
        Car {
            id: 2,
            name: "Stinger".to_string(),
            acceleration: 7,
            top_speed: 9,
            handling: 7,
            armor: 5,
        }
    );
    assert_eq!(
        cars[3],
        Car {
            id: 3,
            name: "Slick".to_string(),
            acceleration: 6,
            top_speed: 7,
            handling: 9,
            armor: 4,
        }
    );
}

#[test]
fn race_results_are_kept_in_order() {
    let mut log = RaceLog::new();
    assert!(log.results().is_empty());
    let ann = AccountIdentifier::from_bytes(vec![1]).unwrap();
    let bob = AccountIdentifier::from_bytes(vec![2]).unwrap();
    log.record_race_result(ann.clone(), 0, 1);
    log.record_race_result(bob.clone(), 3, 2);
    log.record_race_result(ann.clone(), 2, 4);
    assert_eq!(
        log.results(),
        &vec![
            RaceResult { player: ann.clone(), car_id: 0, place: 1 },
            RaceResult { player: bob, car_id: 3, place: 2 },
            RaceResult { player: ann, car_id: 2, place: 4 },
        ]
    );
}
