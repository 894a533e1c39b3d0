//! Engine personalities, fuel levels and the reasons a check can fail.

use vstd::prelude::*;

verus! {

/// Which engine pulls a train.
#[derive(Clone, Copy, Debug, PartialEq, Eq, Structural)]
pub enum EngineType {
    Diesel,
    Thomas,
    Percy,
    Gordon,
}

/// How much fuel a train carries.
#[derive(Clone, Copy, Debug, PartialEq, Eq, Structural)]
pub enum FuelLevel {
    Full,
    Half,
    Low,
}

/// Why a train or a car is not ready to leave.
///
/// `EngineOverheat` is kept for rules that may come later: no current check
/// produces it.
#[derive(Clone, Copy, Debug, PartialEq, Eq, Structural)]
pub enum TrainError {
    EngineOverheat,
    DieselInTheStation,
    LowFuel,
    ContrabandOnBoard,
    NoCargoOrPassengers,
}

/// The outcome of a check, with a success message seen as its characters.
pub open spec fn outcome(r: Result<String, TrainError>) -> Result<Seq<char>, TrainError> {
    match r {
        Ok(m) => Ok(m@),
        Err(e) => Err(e),
    }
}

/// The sentence that describes an engine's personality.
pub open spec fn personality_text(engine: EngineType) -> Seq<char> {
    match engine {
        EngineType::Thomas => "Thomas is a friendly and helpful engine, always ready to lend a hand and make friends. Thomas is the best."@,
        EngineType::Percy => "Percy is a brave and intuitive little engine that doesn't always think things through, but always does his best."@,
        EngineType::Gordon => "Gordon is proud and doesn't like to admit when he's wrong, but he cares deeply about his friends, and he's the strongest."@,
        EngineType::Diesel => "Diesel is a troublemaker, always causing mischief and chaos on the tracks."@,
    }
}

/// Returns the sentence that describes `engine`'s personality.
pub fn describe_personality(engine: &EngineType) -> (r: String)
    ensures
        r@ == personality_text(*engine),
{
    match engine {
        EngineType::Thomas => String::from_str("Thomas is a friendly and helpful engine, always ready to lend a hand and make friends. Thomas is the best."),
        EngineType::Percy => String::from_str("Percy is a brave and intuitive little engine that doesn't always think things through, but always does his best."),
        EngineType::Gordon => String::from_str("Gordon is proud and doesn't like to admit when he's wrong, but he cares deeply about his friends, and he's the strongest."),
        EngineType::Diesel => String::from_str("Diesel is a troublemaker, always causing mischief and chaos on the tracks."),
    }
}

impl TrainError {
    /// The variant's name as it appears in reports.
    pub open spec fn spec_name(self) -> Seq<char> {
        match self {
            TrainError::EngineOverheat => "EngineOverheat"@,
            TrainError::DieselInTheStation => "DieselInTheStation"@,
            TrainError::LowFuel => "LowFuel"@,
            TrainError::ContrabandOnBoard => "ContrabandOnBoard"@,
            TrainError::NoCargoOrPassengers => "NoCargoOrPassengers"@,
        }
    }

    /// Returns the variant's name as it appears in reports.
    pub fn name(&self) -> (r: String)
        ensures
            r@ == self.spec_name(),
    {
        match self {
            TrainError::EngineOverheat => String::from_str("EngineOverheat"),
            TrainError::DieselInTheStation => String::from_str("DieselInTheStation"),
            TrainError::LowFuel => String::from_str("LowFuel"),
            TrainError::ContrabandOnBoard => String::from_str("ContrabandOnBoard"),
            TrainError::NoCargoOrPassengers => String::from_str("NoCargoOrPassengers"),
        }
    }
}

} // verus!
