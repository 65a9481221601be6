//! The servant records the protected CRUD endpoints manage.
//!
//! The repository behind them is plain storage round trips and lives in
//! the surrounding program; only the data model is of interest here.

use vstd::prelude::*;

verus! {

/// A stored servant record.
#[derive(Debug)]
pub struct Servant {
    pub id: i32,
    pub name: String,
    pub class_name: String,
}

/// What a registration supplies.
pub struct RegistrationDataset {
    pub name: String,
    pub class_name: String,
}

/// The classes a servant may belong to.
#[derive(Clone, Copy, Debug, PartialEq, Eq, Structural)]
pub enum ServantClass {
    Saber,
    Archer,
    Lancer,
    Rider,
    Caster,
    Assassin,
    Berserker,
    Ruler,
    Avenger,
    Mooncancer,
    Alterego,
    Foreigner,
    Pretender,
    Shielder,
}

} // verus!
