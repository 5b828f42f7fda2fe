use vstd::prelude::*;

verus! {

/// A tenant: one school account.
#[derive(Debug)]
pub struct School {
    pub id: u128,
    pub name: String,
    pub username: String,
    /// One-way hash of the password; never handed outward.
    pub password_hash: String,
}

pub struct RegisterSchoolRequest {
    pub name: String,
    pub username: String,
    pub password: String,
}

pub struct LoginSchoolRequest {
    pub username: String,
    pub password: String,
}

#[derive(Debug, Clone, Copy, PartialEq, Eq, Structural)]
pub enum PaymentStatus {
    Paid,
    Pending,
}

/// A student record, owned by exactly one school.
#[derive(Debug)]
pub struct Student {
    pub id: u128,
    /// The owning tenant; fixed at creation.
    pub school_id: u128,
    pub school_name: String,
    pub first_name: String,
    pub last_name: String,
    pub email: String,
    pub status: PaymentStatus,
    pub department: String,
    pub payment_reference: Option<String>,
}

pub struct CreateStudentRequest {
    pub first_name: String,
    pub last_name: String,
    pub email: String,
    pub department: String,
}

/// Whether the student carries exactly this payment reference.
pub open spec fn has_reference(s: Student, reference: Seq<char>) -> bool {
    match s.payment_reference {
        Some(r) => r@ == reference,
        None => false,
    }
}

/// The student with its status set to `Paid`, all else kept.
pub open spec fn paid(s: Student) -> Student {
    Student { status: PaymentStatus::Paid, ..s }
}

/// The student with its payment reference replaced.
pub open spec fn with_reference(s: Student, reference: String) -> Student {
    Student { payment_reference: Some(reference), ..s }
}

fn copy_opt_string(o: &Option<String>) -> (r: Option<String>)
    ensures
        r == *o,
{
    match o {
        Some(s) => Some(s.clone()),
        None => None,
    }
}

impl School {
    /// A field-by-field copy.
    pub fn duplicate(&self) -> (r: School)
        ensures
            r == *self,
    {
        School {
            id: self.id,
            name: self.name.clone(),
            username: self.username.clone(),
            password_hash: self.password_hash.clone(),
        }
    }
}

impl Student {
    /// A field-by-field copy.
    pub fn duplicate(&self) -> (r: Student)
        ensures
            r == *self,
    {
        Student {
            id: self.id,
            school_id: self.school_id,
            school_name: self.school_name.clone(),
            first_name: self.first_name.clone(),
            last_name: self.last_name.clone(),
            email: self.email.clone(),
            status: self.status,
            department: self.department.clone(),
            payment_reference: copy_opt_string(&self.payment_reference),
        }
    }
}

} // verus!
