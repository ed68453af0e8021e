//! The catalogue of charges.

use crate::decimal::Decimal;
use vstd::prelude::*;

verus! {

/// An amount that a customer owes.
#[derive(Debug)]
pub struct Charge {
    /// The number of the charge.
    pub id: u64,
    /// The invoice the charge belongs to.
    pub invoice_id: String,
    /// The amount owed, in euros.
    pub eur_amount: Decimal,
    /// The address the bitcoin is to be sent to.
    pub btc_address: String,
}

/// The first index at or after `from` whose charge has the number `id`.
pub open spec fn first_with_id(charges: Seq<Charge>, id: u64, from: int) -> Option<int>
    decreases charges.len() - from,
{
    if from < 0 || from >= charges.len() {
        None
    } else if charges[from].id == id {
        Some(from)
    } else {
        first_with_id(charges, id, from + 1)
    }
}

/// The charges, in the order in which they were configured.
pub struct Database {
    charges: Vec<Charge>,
}

impl View for Database {
    type V = Seq<Charge>;

    closed spec fn view(&self) -> Seq<Charge> {
        self.charges@
    }
}

impl Database {
    /// A catalogue of the given charges.
    pub fn new(charges: Vec<Charge>) -> (db: Self)
        ensures
            db@ == charges@,
    {
        Database { charges }
    }

    /// The first charge with the number `charge_id`, if there is one.
    pub fn get_charge_by_id(&self, charge_id: u64) -> (r: Option<&Charge>)
        ensures
            match first_with_id(self@, charge_id, 0) {
                Some(at) => r == Some(&self@[at]),
                None => r is None,
            },
    {
        let mut i: usize = 0;
        while i < self.charges.len()
            invariant
                i <= self.charges.len(),
                first_with_id(self@, charge_id, 0) == first_with_id(self@, charge_id, i as int),
            decreases self.charges.len() - i,
        {
            if self.charges[i].id == charge_id {
                return Some(&self.charges[i]);
            }
            i = i + 1;
        }
        None
    }

    /// All charges.
    pub fn charges(&self) -> (all: &[Charge])
        ensures
            all@ == self@,
    {
        self.charges.as_slice()
    }
}

/// What [`first_with_id`] finds has the number asked for, and no charge before
/// it has.
pub proof fn lemma_first_with_id(charges: Seq<Charge>, id: u64, from: int)
    requires
        0 <= from,
    ensures
        match first_with_id(charges, id, from) {
            Some(at) => from <= at < charges.len() && charges[at].id == id && forall|j: int|
                from <= j < at ==> charges[j].id != id,
            None => forall|j: int| from <= j < charges.len() ==> charges[j].id != id,
        },
    decreases charges.len() - from,
{
    if from < charges.len() && charges[from].id != id {
        lemma_first_with_id(charges, id, from + 1);
    }
}

} // verus!
