//! A train car and the checks that decide whether it may leave.

use vstd::prelude::*;
use crate::engine::{TrainError, outcome};
use crate::text::{decimal, push_decimal};

verus! {

/// A car of a train: what it carries, and whom.
pub struct TrainCar {
    pub id: u32,
    pub cargo: Option<String>,
    pub passenger: Option<String>,
    pub contraband: Option<String>,
}

impl TrainCar {
    /// What an inspection of the passenger seat reports.
    pub open spec fn passenger_report(self) -> Seq<char> {
        match self.passenger {
            Some(name) => name@ + " is aboard!"@,
            None => "Ain't nobody on this train car!"@,
        }
    }

    /// What an inspection of the cargo hold reports.
    pub open spec fn cargo_report(self) -> Seq<char> {
        match self.cargo {
            Some(item) => "Cargo on board: "@ + item@,
            None => "Ain't no cargo on this #@$! train car!"@,
        }
    }

    /// The freight gate: the car must carry cargo or a passenger.
    pub open spec fn freight_outcome(self) -> Result<Seq<char>, TrainError> {
        match (self.cargo, self.passenger) {
            (None, None) => Err(TrainError::NoCargoOrPassengers),
            (Some(c), None) => Ok("Cargo on board: "@ + c@),
            (None, Some(p)) => Ok("Passenger aboard: "@ + p@),
            (Some(c), Some(p)) => Ok("Cargo on board: "@ + c@ + ". Passenger aboard: "@ + p@),
        }
    }

    /// The contraband gate: the car must carry no contraband.
    pub open spec fn contraband_outcome(self) -> Result<Seq<char>, TrainError> {
        match self.contraband {
            Some(_) => Err(TrainError::ContrabandOnBoard),
            None => Ok("No contraband aboard this car!"@),
        }
    }

    /// The freight gate, then the contraband gate; the first failure wins.
    pub open spec fn departure_outcome(self) -> Result<Seq<char>, TrainError> {
        match self.freight_outcome() {
            Err(e) => Err(e),
            Ok(freight) => match self.contraband_outcome() {
                Err(e) => Err(e),
                Ok(contraband) => Ok(
                    "Preparing Car "@ + decimal(self.id as nat) + " for departure. Freight Status: "@
                        + freight + ". Contraband Status: "@ + contraband,
                ),
            },
        }
    }

    /// Whether the car passes every car-level gate.
    pub open spec fn is_ready(self) -> bool {
        self.departure_outcome() is Ok
    }

    /// Reports who, if anyone, rides in the car. Never fails.
    pub fn check_passenger(&self) -> (r: String)
        ensures
            r@ == self.passenger_report(),
    {
        match &self.passenger {
            Some(name) => name.clone().concat(" is aboard!"),
            None => String::from_str("Ain't nobody on this train car!"),
        }
    }

    /// Reports what cargo, if any, the car holds. Never fails.
    pub fn check_cargo(&self) -> (r: String)
        ensures
            r@ == self.cargo_report(),
    {
        match &self.cargo {
            Some(item) => String::from_str("Cargo on board: ").concat(item.as_str()),
            None => String::from_str("Ain't no cargo on this #@$! train car!"),
        }
    }

    /// Fails with `NoCargoOrPassengers` exactly when the car carries neither
    /// cargo nor a passenger; otherwise describes what it carries.
    pub fn check_freight(&self) -> (r: Result<String, TrainError>)
        ensures
            outcome(r) == self.freight_outcome(),
            r is Err <==> (self.cargo is None && self.passenger is None),
            r is Err ==> r == Err::<String, TrainError>(TrainError::NoCargoOrPassengers),
    {
        match (&self.cargo, &self.passenger) {
            (None, None) => Err(TrainError::NoCargoOrPassengers),
            (Some(cargo), None) => Ok(String::from_str("Cargo on board: ").concat(cargo.as_str())),
            (None, Some(passenger)) => Ok(
                String::from_str("Passenger aboard: ").concat(passenger.as_str()),
            ),
            (Some(cargo), Some(passenger)) => Ok(
                String::from_str("Cargo on board: ").concat(cargo.as_str()).concat(
                    ". Passenger aboard: ",
                ).concat(passenger.as_str()),
            ),
        }
    }

    /// Fails with `ContrabandOnBoard` exactly when the car carries contraband,
    /// whatever else it carries.
    pub fn check_contraband(&self) -> (r: Result<String, TrainError>)
        ensures
            outcome(r) == self.contraband_outcome(),
            r is Err <==> self.contraband is Some,
            r is Err ==> r == Err::<String, TrainError>(TrainError::ContrabandOnBoard),
    {
        match &self.contraband {
            Some(_) => Err(TrainError::ContrabandOnBoard),
            None => Ok(String::from_str("No contraband aboard this car!")),
        }
    }

    /// Runs the freight gate, then the contraband gate, and stops at the first
    /// failure; on success the message names the car and both results.
    pub fn prepare_for_departure(&self) -> (r: Result<String, TrainError>)
        ensures
            outcome(r) == self.departure_outcome(),
    {
        let freight_status = self.check_freight()?;
        let contraband_status = self.check_contraband()?;
        let mut msg = String::from_str("Preparing Car ");
        push_decimal(&mut msg, self.id as u64);
        msg.append(" for departure. Freight Status: ");
        msg.append(freight_status.as_str());
        msg.append(". Contraband Status: ");
        msg.append(contraband_status.as_str());
        Ok(msg)
    }
}

/// A car with contraband never passes; the freight gate is checked first,
/// so an empty car with contraband fails for being empty, and any other car
/// with contraband fails for the contraband.
pub proof fn lemma_contraband_after_freight(car: TrainCar)
    requires
        car.contraband is Some,
    ensures
        car.departure_outcome() == Err::<Seq<char>, TrainError>(
            if car.cargo is None && car.passenger is None {
                TrainError::NoCargoOrPassengers
            } else {
                TrainError::ContrabandOnBoard
            },
        ),
        !car.is_ready(),
{
}

} // verus!
