use train_yard::car::TrainCar;
use train_yard::engine::{describe_personality, EngineType, FuelLevel, TrainError};
use train_yard::text::{push_decimal, push_joined_ids};
use train_yard::train::Train;

fn car(id: u32, cargo: Option<&str>, passenger: Option<&str>, contraband: Option<&str>) -> TrainCar {
    TrainCar {
        id,
        cargo: cargo.map(String::from),
        passenger: passenger.map(String::from),
        contraband: contraband.map(String::from),
    }
}

fn train(engine: EngineType, fuel_level: FuelLevel, cars: Vec<TrainCar>) -> Train {
    Train { id: 1, cars, engine, fuel_level }
}

#[test]
fn freight_fails_without_cargo_or_passenger() {
    assert_eq!(car(1, None, None, None).check_freight(), Err(TrainError::NoCargoOrPassengers));
    assert_eq!(car(1, None, None, Some("gold")).check_freight(), Err(TrainError::NoCargoOrPassengers));
}

#[test]
fn freight_passes_with_cargo_or_passenger() {
    assert_eq!(car(1, Some("coal"), None, None).check_freight(), Ok(String::from("Cargo on board: coal")));
    assert_eq!(car(1, None, Some("Ann"), None).check_freight(), Ok(String::from("Passenger aboard: Ann")));
    assert_eq!(
        car(1, Some("coal"), Some("Ann"), Some("gold")).check_freight(),
        Ok(String::from("Cargo on board: coal. Passenger aboard: Ann"))
    );
}

#[test]
fn contraband_fails_whatever_else_is_aboard() {
    for (c, p) in [(None, None), (Some("coal"), None), (None, Some("Ann")), (Some("coal"), Some("Ann"))] {
        assert_eq!(car(1, c, p, Some("cash")).check_contraband(), Err(TrainError::ContrabandOnBoard));
    }
    assert_eq!(
        car(1, None, None, None).check_contraband(),
        Ok(String::from("No contraband aboard this car!"))
    );
}

#[test]
fn freight_is_checked_before_contraband() {
    assert_eq!(car(1, None, None, Some("cash")).prepare_for_departure(), Err(TrainError::NoCargoOrPassengers));
    assert_eq!(car(1, Some("coal"), None, Some("cash")).prepare_for_departure(), Err(TrainError::ContrabandOnBoard));
}

#[test]
fn car_departure_message() {
    assert_eq!(
        car(12, None, Some("Ann"), None).prepare_for_departure(),
        Ok(String::from(
            "Preparing Car 12 for departure. Freight Status: Passenger aboard: Ann. Contraband Status: No contraband aboard this car!"
        ))
    );
}

#[test]
fn passenger_and_cargo_reports() {
    assert_eq!(car(1, None, Some("Ann"), None).check_passenger(), "Ann is aboard!");
    assert_eq!(car(1, None, None, None).check_passenger(), "Ain't nobody on this train car!");
    assert_eq!(car(1, Some("coal"), None, None).check_cargo(), "Cargo on board: coal");
    assert_eq!(car(1, None, None, None).check_cargo(), "Ain't no cargo on this #@$! train car!");
}

#[test]
fn rehabilitate_twice_is_rehabilitate_once() {
    let mut t = train(EngineType::Diesel, FuelLevel::Half, vec![car(7, Some("coal"), None, None)]);
    t.rehabilitate();
    assert_eq!(t.engine, EngineType::Thomas);
    t.rehabilitate();
    assert_eq!(t.engine, EngineType::Thomas);
    assert_eq!(t.fuel_level, FuelLevel::Half);
    assert_eq!(t.cars.len(), 1);
}

#[test]
fn refuel_twice_is_refuel_once() {
    let mut t = train(EngineType::Percy, FuelLevel::Low, vec![]);
    t.refuel();
    assert_eq!(t.fuel_level, FuelLevel::Full);
    t.refuel();
    assert_eq!(t.fuel_level, FuelLevel::Full);
    assert_eq!(t.engine, EngineType::Percy);
}

#[test]
fn train_gates() {
    let t = train(EngineType::Diesel, FuelLevel::Full, vec![]);
    assert_eq!(t.start_engine(), Err(TrainError::DieselInTheStation));
    assert_eq!(t.check_fuel(), Ok(String::from("Fuel level is sufficient!")));
    let t = train(EngineType::Gordon, FuelLevel::Low, vec![]);
    assert_eq!(t.start_engine(), Ok(String::from("The engine starts successfully!")));
    assert_eq!(t.check_fuel(), Err(TrainError::LowFuel));
    assert_eq!(t.prepare_for_departure(), Err(TrainError::LowFuel));
    let t = train(EngineType::Diesel, FuelLevel::Low, vec![]);
    assert_eq!(t.prepare_for_departure(), Err(TrainError::DieselInTheStation));
    let t = train(EngineType::Thomas, FuelLevel::Half, vec![]);
    assert_eq!(
        t.prepare_for_departure(),
        Ok(String::from(
            "Departure Status: The engine starts successfully!, Fuel Status: \"Fuel level is sufficient!\""
        ))
    );
}

#[test]
fn diesel_vetoes_dispatch_whatever_the_roster() {
    let rosters = || {
        vec![
            vec![],
            vec![car(1, Some("coal"), None, None)],
            vec![car(1, None, None, None), car(2, None, None, Some("cash"))],
        ]
    };
    for fuel in [FuelLevel::Full, FuelLevel::Half, FuelLevel::Low] {
        for cars in rosters() {
            let t = train(EngineType::Diesel, fuel, cars);
            assert_eq!(t.dispatch(), Err(TrainError::DieselInTheStation));
            assert_eq!(t.departure_log(), Err(TrainError::DieselInTheStation));
        }
    }
}

#[test]
fn ready_roster_keeps_passing_cars_in_order() {
    let t = train(
        EngineType::Thomas,
        FuelLevel::Full,
        vec![
            car(1, None, None, None),
            car(2, None, Some("Ann"), None),
            car(3, Some("coal"), None, None),
            car(4, None, None, Some("cash")),
        ],
    );
    assert_eq!(t.ready_roster(), vec![2, 3]);
    let msg = t.dispatch().unwrap();
    assert!(msg.ends_with("Train 1 has 2 cars ready for departure! Car(s): [2, 3]"));
}

#[test]
fn end_to_end_scenario() {
    let mut t = train(
        EngineType::Diesel,
        FuelLevel::Low,
        vec![
            car(1, None, Some("Lemon"), Some("cash")),
            car(2, None, Some("Ladybug"), None),
            car(3, None, None, None),
            car(4, Some("bananas"), Some("Tangerine"), None),
        ],
    );
    assert_eq!(t.dispatch(), Err(TrainError::DieselInTheStation));
    t.rehabilitate();
    assert_eq!(t.dispatch(), Err(TrainError::LowFuel));
    t.refuel();
    assert_eq!(t.cars[0].prepare_for_departure(), Err(TrainError::ContrabandOnBoard));
    assert!(t.cars[1].prepare_for_departure().is_ok());
    assert_eq!(t.cars[2].prepare_for_departure(), Err(TrainError::NoCargoOrPassengers));
    assert!(t.cars[3].prepare_for_departure().is_ok());
    assert_eq!(t.ready_roster(), vec![2, 4]);
    assert_eq!(
        t.dispatch(),
        Ok(String::from(
            "Train 1 is ready for departure!: Departure Status: The engine starts successfully!, Fuel Status: \"Fuel level is sufficient!\":::::::::Train 1 has 2 cars ready for departure! Car(s): [2, 4]"
        ))
    );
}

#[test]
fn departure_log_reports_every_car() {
    let t = train(
        EngineType::Thomas,
        FuelLevel::Full,
        vec![car(5, None, None, None), car(6, Some("coal"), None, None)],
    );
    let log = t.departure_log().unwrap();
    assert_eq!(
        log,
        vec![
            String::from("Train 1 has 2 cars to prepare for departure!"),
            String::from("Train Car 5: Error preparing for departure: NoCargoOrPassengers"),
            String::from("--- Dispatcher: Skipping car 5 and moving to next... ---"),
            String::from(
                "Train Car 6: Preparing Car 6 for departure. Freight Status: Cargo on board: coal. Contraband Status: No contraband aboard this car!"
            ),
        ]
    );
    assert_eq!(train(EngineType::Thomas, FuelLevel::Low, vec![]).departure_log(), Err(TrainError::LowFuel));
}

#[test]
fn dispatch_with_no_cars() {
    let t = Train { id: 4294967295, cars: vec![], engine: EngineType::Gordon, fuel_level: FuelLevel::Half };
    assert_eq!(
        t.dispatch(),
        Ok(String::from(
            "Train 4294967295 is ready for departure!: Departure Status: The engine starts successfully!, Fuel Status: \"Fuel level is sufficient!\":::::::::Train 4294967295 has 0 cars ready for departure! Car(s): []"
        ))
    );
    assert_eq!(t.ready_roster(), Vec::<u32>::new());
}

#[test]
fn decimal_rendering() {
    for (n, text) in [(0u64, "0"), (7, "7"), (10, "10"), (1905, "1905"), (u64::MAX, "18446744073709551615")] {
        let mut s = String::from("#");
        push_decimal(&mut s, n);
        assert_eq!(s, format!("#{}", text));
    }
    let mut s = String::new();
    push_joined_ids(&mut s, &vec![]);
    assert_eq!(s, "");
    push_joined_ids(&mut s, &vec![0, 30, 402]);
    assert_eq!(s, "0, 30, 402");
}

#[test]
fn personalities_and_error_names() {
    assert!(describe_personality(&EngineType::Thomas).starts_with("Thomas is a friendly"));
    assert!(describe_personality(&EngineType::Percy).starts_with("Percy is a brave"));
    assert!(describe_personality(&EngineType::Gordon).ends_with("he's the strongest."));
    assert_eq!(
        describe_personality(&EngineType::Diesel),
        "Diesel is a troublemaker, always causing mischief and chaos on the tracks."
    );
    assert_eq!(TrainError::EngineOverheat.name(), "EngineOverheat");
    assert_eq!(TrainError::DieselInTheStation.name(), "DieselInTheStation");
    assert_eq!(TrainError::LowFuel.name(), "LowFuel");
    assert_eq!(TrainError::ContrabandOnBoard.name(), "ContrabandOnBoard");
    assert_eq!(TrainError::NoCargoOrPassengers.name(), "NoCargoOrPassengers");
}
