use vstd::prelude::*;

verus! {

/// A job position. Its name is its only identity.
#[derive(Debug, Clone, PartialEq, Eq)]
pub struct Jabatan {
    pub nama: String,
    /// The allowance in hundredths of the currency unit: the store keeps two
    /// decimal places.
    pub tunjangan_sen: i64,
}

/// The fields of a position, as an insert or an update writes them.
#[derive(Debug, Clone, PartialEq, Eq)]
pub struct NewJabatan {
    pub nama: String,
    /// The allowance in hundredths of the currency unit.
    pub tunjangan_sen: i64,
}

} // verus!
