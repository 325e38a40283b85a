//! The cars on offer, the log of race results and the greeting.

use vstd::prelude::*;
use vstd::string::*;
use crate::identity::AccountIdentifier;

verus! {

/// A car and its ratings.
#[derive(Clone, Debug, PartialEq, Eq)]
pub struct Car {
    pub id: u8,
    pub name: String,
    pub acceleration: u8,
    pub top_speed: u8,
    pub handling: u8,
    pub armor: u8,
}

/// Whether `car` has the given id, name and ratings.
pub open spec fn car_is(
    car: Car,
    id: u8,
    name: Seq<char>,
    acceleration: u8,
    top_speed: u8,
    handling: u8,
    armor: u8,
) -> bool {
    &&& car.id == id
    &&& car.name@ == name
    &&& car.acceleration == acceleration
    &&& car.top_speed == top_speed
    &&& car.handling == handling
    &&& car.armor == armor
}

/// Whether `cars` is the list of cars on offer.
pub open spec fn is_car_list(cars: Seq<Car>) -> bool {
    &&& cars.len() == 4
    &&& car_is(cars[0], 0, "Bolt"@, 9, 10, 6, 3)
    &&& car_is(cars[1], 1, "Tank"@, 3, 6, 5, 10)
    &&& car_is(cars[2], 2, "Stinger"@, 7, 9, 7, 5)
    &&& car_is(cars[3], 3, "Slick"@, 6, 7, 9, 4)
}

/// The greeting for `name`.
pub open spec fn greeting(name: Seq<char>) -> Seq<char> {
    "Hello, "@ + name + "! Welcome to IC Carnage!"@
}

/// Greets a player by name.
pub fn greet(name: &str) -> (text: String)
    ensures
        text@ == greeting(name@),
{
    let mut text = String::from_str("Hello, ");
    text.append(name);
    text.append("! Welcome to IC Carnage!");
    text
}

/// The cars on offer, in the order of their ids.
pub fn get_available_cars() -> (cars: Vec<Car>)
    ensures
        is_car_list(cars@),
{
    let mut cars: Vec<Car> = Vec::new();
    cars.push(
        Car {
            id: 0,
            name: String::from_str("Bolt"),
            acceleration: 9,
            top_speed: 10,
            handling: 6,
            armor: 3,
        },
    );
    cars.push(
        Car {
            id: 1,
            name: String::from_str("Tank"),
            acceleration: 3,
            top_speed: 6,
            handling: 5,
            armor: 10,
        },
    );
    cars.push(
        Car {
            id: 2,
            name: String::from_str("Stinger"),
            acceleration: 7,
            top_speed: 9,
            handling: 7,
            armor: 5,
        },
    );
    cars.push(
        Car {
            id: 3,
            name: String::from_str("Slick"),
            acceleration: 6,
            top_speed: 7,
            handling: 9,
            armor: 4,
        },
    );
    cars
}

/// How one player finished one race.
#[derive(Clone, Debug, PartialEq, Eq)]
pub struct RaceResult {
    pub player: AccountIdentifier,
    pub car_id: u8,
    pub place: u8,
}

/// The race results, in the order in which they were recorded.
pub struct RaceLog {
    results: Vec<RaceResult>,
}

impl View for RaceLog {
    type V = Seq<RaceResult>;

    closed spec fn view(&self) -> Seq<RaceResult> {
        self.results@
    }
}

impl RaceLog {
    /// A log without results.
    pub fn new() -> (log: RaceLog)
        ensures
            log@ == Seq::<RaceResult>::empty(),
    {
        RaceLog { results: Vec::new() }
    }

    /// Appends a result to the log.
    pub fn record_race_result(&mut self, player_id: AccountIdentifier, car_id: u8, place: u8)
        ensures
            final(self)@ == old(self)@.push(RaceResult { player: player_id, car_id, place }),
    {
        self.results.push(RaceResult { player: player_id, car_id, place });
    }

    /// The results recorded so far.
    pub fn results(&self) -> (results: &Vec<RaceResult>)
        ensures
            results@ == self@,
    {
        &self.results
    }
}

} // verus!
