use vstd::prelude::*;

verus! {

/// An employee as the store holds one.
#[derive(Debug, Clone, PartialEq, Eq)]
pub struct Employee {
    /// The key that the store assigned.
    pub id: i64,
    /// The business identifier, unique among all employees.
    pub nik: String,
    pub name: String,
    pub department: String,
    pub position: String,
    pub base_salary: i64,
    /// Set on insert; the remote store keeps no such column, and a row read
    /// from it counts as active.
    pub is_active: bool,
}

/// An employee that the store has not seen yet, and so without a key.
#[derive(Debug, Clone, PartialEq, Eq)]
pub struct NewEmployee {
    pub nik: String,
    pub name: String,
    pub department: String,
    pub position: String,
    pub base_salary: i64,
}

/// The fields that an update of `employee` writes: all but the key and the
/// active flag.
pub open spec fn fields_of(employee: Employee) -> NewEmployee {
    NewEmployee {
        nik: employee.nik,
        name: employee.name,
        department: employee.department,
        position: employee.position,
        base_salary: employee.base_salary,
    }
}

impl Employee {
    /// The fields that an update writes: all but the key and the active flag.
    pub fn into_fields(self) -> (r: NewEmployee)
        ensures
            r == fields_of(self),
    {
        NewEmployee {
            nik: self.nik,
            name: self.name,
            department: self.department,
            position: self.position,
            base_salary: self.base_salary,
        }
    }
}

} // verus!
