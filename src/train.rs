//! A train: its own gates, the two operations that clear them, and the
//! dispatch pass over its cars.

use vstd::prelude::*;
use crate::car::TrainCar;
use crate::engine::{EngineType, FuelLevel, TrainError, outcome};
use crate::text::{decimal, joined_ids, push_decimal, push_joined_ids};

verus! {

/// A train: an engine, its fuel, and its cars in dispatch order.
pub struct Train {
    pub id: u32,
    pub cars: Vec<TrainCar>,
    pub engine: EngineType,
    pub fuel_level: FuelLevel,
}

/// The cars that pass every car-level gate, in their original order.
pub open spec fn ready_cars(cars: Seq<TrainCar>) -> Seq<TrainCar> {
    cars.filter(|c: TrainCar| c.is_ready())
}

/// The ids of the ready cars, in their original order.
pub open spec fn ready_ids(cars: Seq<TrainCar>) -> Seq<u32> {
    ready_cars(cars).map_values(|c: TrainCar| c.id)
}

/// The text of each line.
pub open spec fn lines(v: Seq<String>) -> Seq<Seq<char>> {
    v.map_values(|s: String| s@)
}

/// What the dispatch report says of one car.
pub open spec fn car_log(car: TrainCar) -> Seq<Seq<char>> {
    match car.departure_outcome() {
        Ok(m) => seq!["Train Car "@ + decimal(car.id as nat) + ": "@ + m],
        Err(e) => seq![
            "Train Car "@ + decimal(car.id as nat) + ": Error preparing for departure: "@ + e.spec_name(),
            "--- Dispatcher: Skipping car "@ + decimal(car.id as nat) + " and moving to next... ---"@,
        ],
    }
}

/// What the dispatch report says of the cars, one after the other.
pub open spec fn cars_log(cars: Seq<TrainCar>) -> Seq<Seq<char>>
    decreases cars.len(),
{
    if cars.len() == 0 {
        Seq::empty()
    } else {
        cars_log(cars.drop_last()) + car_log(cars.last())
    }
}

impl Train {
    /// The engine gate: a Diesel never leaves the station.
    pub open spec fn engine_outcome(self) -> Result<Seq<char>, TrainError> {
        if self.engine == EngineType::Diesel {
            Err(TrainError::DieselInTheStation)
        } else {
            Ok("The engine starts successfully!"@)
        }
    }

    /// The fuel gate: a train low on fuel does not leave.
    pub open spec fn fuel_outcome(self) -> Result<Seq<char>, TrainError> {
        if self.fuel_level == FuelLevel::Low {
            Err(TrainError::LowFuel)
        } else {
            Ok("Fuel level is sufficient!"@)
        }
    }

    /// The engine gate, then the fuel gate; the first failure wins.
    pub open spec fn departure_outcome(self) -> Result<Seq<char>, TrainError> {
        match self.engine_outcome() {
            Err(e) => Err(e),
            Ok(engine) => match self.fuel_outcome() {
                Err(e) => Err(e),
                Ok(fuel) => Ok(
                    "Departure Status: "@ + engine + ", Fuel Status: \""@ + fuel + "\""@,
                ),
            },
        }
    }

    /// The train-level gates, then the summary of the ready cars.
    pub open spec fn dispatch_outcome(self) -> Result<Seq<char>, TrainError> {
        match self.departure_outcome() {
            Err(e) => Err(e),
            Ok(m) => {
                let ids = ready_ids(self.cars@);
                Ok(
                    "Train "@ + decimal(self.id as nat) + " is ready for departure!: "@ + m
                        + ":::::::::Train "@ + decimal(self.id as nat) + " has "@ + decimal(
                        ids.len(),
                    ) + " cars ready for departure! Car(s): ["@ + joined_ids(ids) + "]"@,
                )
            },
        }
    }

    /// The train-level gates, then the report on every car.
    pub open spec fn log_outcome(self) -> Result<Seq<Seq<char>>, TrainError> {
        match self.departure_outcome() {
            Err(e) => Err(e),
            Ok(_) => Ok(
                seq![
                    "Train "@ + decimal(self.id as nat) + " has "@ + decimal(self.cars@.len())
                        + " cars to prepare for departure!"@,
                ] + cars_log(self.cars@),
            ),
        }
    }

    /// The same train with a Thomas for an engine.
    pub open spec fn rehabilitated(self) -> Train {
        Train { engine: EngineType::Thomas, ..self }
    }

    /// The same train with a full tank.
    pub open spec fn refueled(self) -> Train {
        Train { fuel_level: FuelLevel::Full, ..self }
    }

    /// Fails with `DieselInTheStation` exactly when the engine is a Diesel.
    pub fn start_engine(&self) -> (r: Result<String, TrainError>)
        ensures
            outcome(r) == self.engine_outcome(),
            r is Err <==> self.engine == EngineType::Diesel,
    {
        match self.engine {
            EngineType::Diesel => Err(TrainError::DieselInTheStation),
            _ => Ok(String::from_str("The engine starts successfully!")),
        }
    }

    /// Fails with `LowFuel` exactly when the fuel level is low.
    pub fn check_fuel(&self) -> (r: Result<String, TrainError>)
        ensures
            outcome(r) == self.fuel_outcome(),
            r is Err <==> self.fuel_level == FuelLevel::Low,
    {
        match self.fuel_level {
            FuelLevel::Low => Err(TrainError::LowFuel),
            _ => Ok(String::from_str("Fuel level is sufficient!")),
        }
    }

    /// Replaces the engine with a Thomas; nothing else changes.
    pub fn rehabilitate(&mut self)
        ensures
            *final(self) == old(self).rehabilitated(),
    {
        self.engine = EngineType::Thomas;
    }

    /// Fills the tank; nothing else changes.
    pub fn refuel(&mut self)
        ensures
            *final(self) == old(self).refueled(),
    {
        self.fuel_level = FuelLevel::Full;
    }

    /// Runs the engine gate, then the fuel gate, and stops at the first
    /// failure; on success the message gives both results.
    pub fn prepare_for_departure(&self) -> (r: Result<String, TrainError>)
        ensures
            outcome(r) == self.departure_outcome(),
    {
        let engine_status = self.start_engine()?;
        let fuel_status = self.check_fuel()?;
        let mut msg = String::from_str("Departure Status: ");
        msg.append(engine_status.as_str());
        msg.append(", Fuel Status: \"");
        msg.append(fuel_status.as_str());
        msg.append("\"");
        Ok(msg)
    }

    /// Returns the ids of the cars that pass every car-level gate, in their
    /// original order.
    pub fn ready_roster(&self) -> (r: Vec<u32>)
        ensures
            r@ == ready_ids(self.cars@),
    {
        let mut ids: Vec<u32> = Vec::new();
        let mut i: usize = 0;
        while i < self.cars.len()
            invariant
                i <= self.cars@.len(),
                ids@ == ready_ids(self.cars@.subrange(0, i as int)),
            decreases self.cars@.len() - i,
        {
            let car = &self.cars[i];
            let ready = car.prepare_for_departure().is_ok();
            proof {
                let prev = self.cars@.subrange(0, i as int);
                let next = self.cars@.subrange(0, i + 1);
                assert(next.drop_last() =~= prev);
                reveal_with_fuel(Seq::filter, 1);
                assert(ready_cars(next) == if car.is_ready() {
                    ready_cars(prev).push(*car)
                } else {
                    ready_cars(prev)
                });
            }
            if ready {
                ids.push(car.id);
            }
            proof {
                let next = self.cars@.subrange(0, i + 1);
                assert(ids@ =~= ready_ids(next));
            }
            i = i + 1;
        }
        assert(self.cars@.subrange(0, self.cars@.len() as int) =~= self.cars@);
        ids
    }

    /// Fails with the train-level failure when the train cannot leave, before
    /// any car is looked at. Otherwise succeeds with a summary that names the
    /// train, how many of its cars are ready, and their ids in order; a car
    /// that fails its own gates is left out and never fails the dispatch.
    pub fn dispatch(&self) -> (r: Result<String, TrainError>)
        ensures
            outcome(r) == self.dispatch_outcome(),
            r is Err <==> self.departure_outcome() is Err,
    {
        let status = self.prepare_for_departure()?;
        let ids = self.ready_roster();
        let mut msg = String::from_str("Train ");
        push_decimal(&mut msg, self.id as u64);
        msg.append(" is ready for departure!: ");
        msg.append(status.as_str());
        msg.append(":::::::::Train ");
        push_decimal(&mut msg, self.id as u64);
        msg.append(" has ");
        push_decimal(&mut msg, ids.len() as u64);
        msg.append(" cars ready for departure! Car(s): [");
        push_joined_ids(&mut msg, &ids);
        msg.append("]");
        Ok(msg)
    }

    /// Fails as `dispatch` does when the train cannot leave. Otherwise returns
    /// the report lines of a dispatch: a header with the number of cars, then
    /// for each car in order either its success message, or its failure and a
    /// note that it is skipped.
    pub fn departure_log(&self) -> (r: Result<Vec<String>, TrainError>)
        ensures
            match r {
                Ok(v) => self.log_outcome() == Ok::<Seq<Seq<char>>, TrainError>(lines(v@)),
                Err(e) => self.log_outcome() == Err::<Seq<Seq<char>>, TrainError>(e),
            },
    {
        let _status = self.prepare_for_departure()?;
        let mut out: Vec<String> = Vec::new();
        let mut header = String::from_str("Train ");
        push_decimal(&mut header, self.id as u64);
        header.append(" has ");
        push_decimal(&mut header, self.cars.len() as u64);
        header.append(" cars to prepare for departure!");
        let ghost head = header@;
        out.push(header);
        let ghost first = out@;
        assert(lines(first) =~= seq![head]);
        let mut i: usize = 0;
        while i < self.cars.len()
            invariant
                i <= self.cars@.len(),
                lines(first) == seq![head],
                lines(out@) == lines(first) + cars_log(self.cars@.subrange(0, i as int)),
            decreases self.cars@.len() - i,
        {
            let ghost before = out@;
            let car = &self.cars[i];
            let mut line = String::from_str("Train Car ");
            push_decimal(&mut line, car.id as u64);
            match car.prepare_for_departure() {
                Ok(m) => {
                    line.append(": ");
                    line.append(m.as_str());
                    out.push(line);
                },
                Err(e) => {
                    line.append(": Error preparing for departure: ");
                    line.append(e.name().as_str());
                    out.push(line);
                    let mut note = String::from_str("--- Dispatcher: Skipping car ");
                    push_decimal(&mut note, car.id as u64);
                    note.append(" and moving to next... ---");
                    out.push(note);
                },
            }
            proof {
                let prev = self.cars@.subrange(0, i as int);
                let next = self.cars@.subrange(0, i + 1);
                assert(next.drop_last() =~= prev);
                assert(next.last() == *car);
                assert(lines(out@) =~= lines(before) + car_log(*car));
                assert(lines(out@) =~= lines(first) + cars_log(next));
            }
            i = i + 1;
        }
        assert(self.cars@.subrange(0, self.cars@.len() as int) =~= self.cars@);
        Ok(out)
    }
}

/// Rehabilitating twice leaves the train as rehabilitating once does, with a
/// Thomas for an engine.
pub proof fn lemma_rehabilitate_idempotent(t: Train)
    ensures
        t.rehabilitated().rehabilitated() == t.rehabilitated(),
        t.rehabilitated().engine == EngineType::Thomas,
{
}

/// Refueling twice leaves the train as refueling once does, with a full tank.
pub proof fn lemma_refuel_idempotent(t: Train)
    ensures
        t.refueled().refueled() == t.refueled(),
        t.refueled().fuel_level == FuelLevel::Full,
{
}

/// A train pulled by a Diesel fails dispatch with `DieselInTheStation`,
/// whatever its fuel and its cars, and no car is reported on.
pub proof fn lemma_diesel_vetoes_dispatch(t: Train)
    requires
        t.engine == EngineType::Diesel,
    ensures
        t.dispatch_outcome() == Err::<Seq<char>, TrainError>(TrainError::DieselInTheStation),
        t.log_outcome() == Err::<Seq<Seq<char>>, TrainError>(TrainError::DieselInTheStation),
{
}

/// Once rehabilitated and refueled, in either order, a train passes dispatch,
/// whatever its cars.
pub proof fn lemma_cleared_train_dispatches(t: Train)
    ensures
        t.rehabilitated().refueled().dispatch_outcome() is Ok,
        t.refueled().rehabilitated().dispatch_outcome() is Ok,
{
}

} // verus!
