use vstd::prelude::*;

use crate::credentials::{bcrypt_accepts, check_password, hash_password};
use crate::errors::AppError;
use crate::ids::new_uuid;
use crate::models::{
    has_reference, paid, with_reference, CreateStudentRequest, LoginSchoolRequest, PaymentStatus,
    RegisterSchoolRequest, School, Student,
};

verus! {

/// Whether some school has this username.
pub open spec fn username_taken(schools: Seq<School>, username: Seq<char>) -> bool {
    exists|i: int| 0 <= i < schools.len() && (#[trigger] schools[i]).username@ == username
}

/// Whether some school has this identifier.
pub open spec fn school_id_taken(schools: Seq<School>, id: u128) -> bool {
    exists|i: int| 0 <= i < schools.len() && (#[trigger] schools[i]).id == id
}

/// Whether some student has this identifier, whoever owns it.
pub open spec fn student_id_taken(students: Seq<Student>, id: u128) -> bool {
    exists|i: int| 0 <= i < students.len() && (#[trigger] students[i]).id == id
}

/// Whether the school `school_id` owns a student with identifier `id`.
pub open spec fn owns(students: Seq<Student>, school_id: u128, id: u128) -> bool {
    exists|i: int|
        0 <= i < students.len() && (#[trigger] students[i]).id == id && students[i].school_id
            == school_id
}

/// Whether some student carries this payment reference.
pub open spec fn reference_bound(students: Seq<Student>, reference: Seq<char>) -> bool {
    exists|i: int| 0 <= i < students.len() && has_reference(#[trigger] students[i], reference)
}

/// `i` is the first student that carries this payment reference.
pub open spec fn first_with_reference(students: Seq<Student>, reference: Seq<char>, i: int) -> bool {
    &&& 0 <= i < students.len()
    &&& has_reference(students[i], reference)
    &&& forall|j: int| 0 <= j < i ==> !has_reference(#[trigger] students[j], reference)
}

/// The students owned by `school_id`, in the order they are stored.
pub open spec fn students_of(students: Seq<Student>, school_id: u128) -> Seq<Student>
    decreases students.len(),
{
    if students.len() == 0 {
        Seq::empty()
    } else {
        let rest = students_of(students.drop_last(), school_id);
        if students.last().school_id == school_id {
            rest.push(students.last())
        } else {
            rest
        }
    }
}

/// Whether `name`, `username`, `password` registered as `school` turns
/// `old` into `new`: the school is appended, and its stored hash accepts the
/// password.
pub open spec fn registration_applied(
    old: Seq<School>,
    new: Seq<School>,
    name: Seq<char>,
    username: Seq<char>,
    password: Seq<char>,
    school: School,
) -> bool {
    &&& school.name@ == name
    &&& school.username@ == username
    &&& bcrypt_accepts(password, school.password_hash@)
    &&& !school_id_taken(old, school.id)
    &&& new == old.push(school)
}

/// Whether the login `username`/`password` is accepted, with `school` as the tenant.
pub open spec fn login_accepted(
    schools: Seq<School>,
    username: Seq<char>,
    password: Seq<char>,
    school: School,
) -> bool {
    exists|i: int|
        0 <= i < schools.len() && #[trigger] schools[i] == school && school.username@ == username
            && bcrypt_accepts(password, school.password_hash@)
}

/// Whether any school accepts the login `username`/`password`.
pub open spec fn login_possible(schools: Seq<School>, username: Seq<char>, password: Seq<char>) -> bool {
    exists|i: int|
        0 <= i < schools.len() && (#[trigger] schools[i]).username@ == username && bcrypt_accepts(
            password,
            schools[i].password_hash@,
        )
}

/// The record that creating a student stores.
pub open spec fn new_student(
    id: u128,
    school_id: u128,
    school_name: String,
    req: CreateStudentRequest,
) -> Student {
    Student {
        id,
        school_id,
        school_name,
        first_name: req.first_name,
        last_name: req.last_name,
        email: req.email,
        status: PaymentStatus::Pending,
        department: req.department,
        payment_reference: None,
    }
}

/// Whether marking by `reference` turns `old` into `new`: the first student
/// with that reference is set to `Paid`, nothing else changes.
pub open spec fn paid_by_reference(old: Seq<Student>, new: Seq<Student>, reference: Seq<char>) -> bool {
    exists|i: int| first_with_reference(old, reference, i) && new == old.update(i, paid(old[i]))
}

/// All schools and all students. Usernames and identifiers are unique.
pub struct AppStore {
    pub schools: Vec<School>,
    pub students: Vec<Student>,
}

impl AppStore {
    /// Usernames are unique among schools; identifiers are unique among
    /// schools and among students.
    pub open spec fn wf(&self) -> bool {
        &&& forall|i: int, j: int|
            0 <= i < j < self.schools@.len() ==> (#[trigger] self.schools@[i]).username@
                != (#[trigger] self.schools@[j]).username@ && self.schools@[i].id
                != self.schools@[j].id
        &&& forall|i: int, j: int|
            0 <= i < j < self.students@.len() ==> (#[trigger] self.students@[i]).id
                != (#[trigger] self.students@[j]).id
    }

    pub fn new() -> (r: AppStore)
        ensures
            r.wf(),
            r.schools@.len() == 0,
            r.students@.len() == 0,
    {
        AppStore { schools: Vec::new(), students: Vec::new() }
    }

    /// The position of the school with this username.
    fn school_position(&self, username: &str) -> (r: Option<usize>)
        ensures
            match r {
                Some(i) => i < self.schools@.len() && self.schools@[i as int].username@
                    == username@,
                None => !username_taken(self.schools@, username@),
            },
    {
        let target = username.to_owned();
        let mut i: usize = 0;
        while i < self.schools.len()
            invariant
                i <= self.schools@.len(),
                target@ == username@,
                forall|j: int| 0 <= j < i ==> (#[trigger] self.schools@[j]).username@ != username@,
            decreases self.schools@.len() - i,
        {
            if self.schools[i].username == target {
                return Some(i);
            }
            i += 1;
        }
        None
    }

    fn school_id_position(&self, id: u128) -> (r: Option<usize>)
        ensures
            match r {
                Some(i) => i < self.schools@.len() && self.schools@[i as int].id == id,
                None => !school_id_taken(self.schools@, id),
            },
    {
        let mut i: usize = 0;
        while i < self.schools.len()
            invariant
                i <= self.schools@.len(),
                forall|j: int| 0 <= j < i ==> (#[trigger] self.schools@[j]).id != id,
            decreases self.schools@.len() - i,
        {
            if self.schools[i].id == id {
                return Some(i);
            }
            i += 1;
        }
        None
    }

    /// Stores a school whose identifier and password hash are already made.
    /// Fails with `Conflict` exactly when the username is taken, else with
    /// `InternalServerError` when the identifier is in use.
    pub fn add_school(&mut self, id: u128, name: String, username: String, password_hash: String) -> (r:
        Result<School, AppError>)
        requires
            old(self).wf(),
        ensures
            final(self).wf(),
            final(self).students@ == old(self).students@,
            username_taken(old(self).schools@, username@) ==> (r matches Err(AppError::Conflict(m))
                && m@ == "Username already taken"@),
            !username_taken(old(self).schools@, username@) && school_id_taken(old(self).schools@, id)
                ==> r matches Err(AppError::InternalServerError(_)),
            r is Err ==> final(self).schools@ == old(self).schools@,
            !username_taken(old(self).schools@, username@) && !school_id_taken(old(self).schools@, id)
                ==> r == Ok::<School, AppError>(
                School { id, name, username, password_hash },
            ) && final(self).schools@ == old(self).schools@.push(
                School { id, name, username, password_hash },
            ),
    {
        if self.school_position(username.as_str()).is_some() {
            return Err(AppError::Conflict("Username already taken".to_string()));
        }
        if self.school_id_position(id).is_some() {
            return Err(AppError::InternalServerError("identifier collision".to_string()));
        }
        let school = School { id, name, username, password_hash };
        let stored = school.duplicate();
        self.schools.push(stored);
        assert(self.schools@.last() == school);
        Ok(school)
    }

    /// Registers a school. Fails with `Conflict` exactly when the username is
    /// taken; otherwise stores the school with a hash of the password (never
    /// the password itself), unless hashing fails.
    pub fn register_school(&mut self, req: RegisterSchoolRequest) -> (r: Result<School, AppError>)
        requires
            old(self).wf(),
        ensures
            final(self).wf(),
            final(self).students@ == old(self).students@,
            username_taken(old(self).schools@, req.username@) <==> (r matches Err(
                AppError::Conflict(_),
            )),
            r matches Err(AppError::Conflict(m)) ==> m@ == "Username already taken"@,
            r is Err ==> final(self).schools@ == old(self).schools@,
            r matches Ok(s) ==> registration_applied(
                old(self).schools@,
                final(self).schools@,
                req.name@,
                req.username@,
                req.password@,
                s,
            ),
    {
        if self.school_position(req.username.as_str()).is_some() {
            return Err(AppError::Conflict("Username already taken".to_string()));
        }
        let password_hash = match hash_password(req.password.as_str()) {
            Ok(h) => h,
            Err(_) => {
                return Err(AppError::InternalServerError("password hashing failed".to_string()));
            },
        };
        let id = new_uuid();
        self.add_school(id, req.name, req.username, password_hash)
    }

    /// The school with this username.
    pub fn find_school_by_username(&self, username: &str) -> (r: Result<School, AppError>)
        requires
            self.wf(),
        ensures
            match r {
                Ok(s) => self.schools@.contains(s) && s.username@ == username@,
                Err(e) => e == AppError::NotFound && !username_taken(self.schools@, username@),
            },
    {
        match self.school_position(username) {
            Some(i) => Ok(self.schools[i].duplicate()),
            None => Err(AppError::NotFound),
        }
    }

    /// Checks a login. Succeeds with the school exactly when a school has the
    /// username and its stored hash accepts the password; a hashing error
    /// counts as a mismatch. Nothing is changed either way.
    pub fn verify_credentials(&self, req: &LoginSchoolRequest) -> (r: Result<School, AppError>)
        requires
            self.wf(),
        ensures
            r is Ok <==> login_possible(self.schools@, req.username@, req.password@),
            r matches Ok(s) ==> login_accepted(self.schools@, req.username@, req.password@, s),
            r matches Err(e) ==> (e matches AppError::Unauthorized(m) && m@
                == "Invalid username or password"@),
    {
        let i = match self.school_position(req.username.as_str()) {
            Some(i) => i,
            None => {
                return Err(AppError::Unauthorized("Invalid username or password".to_string()));
            },
        };
        let valid = match check_password(req.password.as_str(), self.schools[i].password_hash.as_str()) {
            Ok(b) => b,
            Err(_) => false,
        };
        if !valid {
            return Err(AppError::Unauthorized("Invalid username or password".to_string()));
        }
        let s = self.schools[i].duplicate();
        assert(self.schools@[i as int] == s);
        Ok(s)
    }
}

impl AppStore {
    fn student_position(&self, school_id: u128, id: u128) -> (r: Option<usize>)
        ensures
            match r {
                Some(i) => i < self.students@.len() && self.students@[i as int].id == id
                    && self.students@[i as int].school_id == school_id,
                None => !owns(self.students@, school_id, id),
            },
    {
        let mut i: usize = 0;
        while i < self.students.len()
            invariant
                i <= self.students@.len(),
                forall|j: int|
                    0 <= j < i ==> !((#[trigger] self.students@[j]).id == id
                        && self.students@[j].school_id == school_id),
            decreases self.students@.len() - i,
        {
            if self.students[i].id == id && self.students[i].school_id == school_id {
                return Some(i);
            }
            i += 1;
        }
        None
    }

    fn student_id_position(&self, id: u128) -> (r: Option<usize>)
        ensures
            match r {
                Some(i) => i < self.students@.len() && self.students@[i as int].id == id,
                None => !student_id_taken(self.students@, id),
            },
    {
        let mut i: usize = 0;
        while i < self.students.len()
            invariant
                i <= self.students@.len(),
                forall|j: int| 0 <= j < i ==> (#[trigger] self.students@[j]).id != id,
            decreases self.students@.len() - i,
        {
            if self.students[i].id == id {
                return Some(i);
            }
            i += 1;
        }
        None
    }

    /// Stores a new student under identifier `id`, owned by `school_id`,
    /// `Pending` and without a payment reference. Fails with
    /// `InternalServerError` exactly when `id` is already in use.
    pub fn insert_student(
        &mut self,
        id: u128,
        school_id: u128,
        school_name: String,
        req: CreateStudentRequest,
    ) -> (r: Result<(), AppError>)
        requires
            old(self).wf(),
        ensures
            final(self).wf(),
            final(self).schools@ == old(self).schools@,
            r is Ok <==> !student_id_taken(old(self).students@, id),
            r is Ok ==> final(self).students@ == old(self).students@.push(
                new_student(id, school_id, school_name, req),
            ),
            r matches Err(e) ==> e is InternalServerError && final(self).students@ == old(
                self,
            ).students@,
    {
        if self.student_id_position(id).is_some() {
            return Err(AppError::InternalServerError("identifier collision".to_string()));
        }
        let student = Student {
            id,
            school_id,
            school_name,
            first_name: req.first_name,
            last_name: req.last_name,
            email: req.email,
            status: PaymentStatus::Pending,
            department: req.department,
            payment_reference: None,
        };
        self.students.push(student);
        Ok(())
    }

    /// Creates a student owned by `school_id` under a fresh random identifier.
    /// On success exactly one record is appended, `Pending` and without a
    /// payment reference; on failure (the drawn identifier is in use) nothing
    /// changes.
    pub fn create_student(&mut self, school_id: u128, school_name: String, req: CreateStudentRequest) -> (r:
        Result<(), AppError>)
        requires
            old(self).wf(),
        ensures
            final(self).wf(),
            final(self).schools@ == old(self).schools@,
            r is Ok ==> exists|id: u128|
                !student_id_taken(old(self).students@, id) && final(self).students@ == old(
                    self,
                ).students@.push(#[trigger] new_student(id, school_id, school_name, req)),
            r is Err ==> final(self).students@ == old(self).students@,
    {
        let id = new_uuid();
        self.insert_student(id, school_id, school_name, req)
    }

    /// All students owned by `school_id`, and no others.
    pub fn get_all_students(&self, school_id: u128) -> (r: Result<Vec<Student>, AppError>)
        ensures
            r matches Ok(v) && v@ == students_of(self.students@, school_id),
    {
        let mut out: Vec<Student> = Vec::new();
        let mut i: usize = 0;
        while i < self.students.len()
            invariant
                i <= self.students@.len(),
                out@ == students_of(self.students@.subrange(0, i as int), school_id),
            decreases self.students@.len() - i,
        {
            assert(self.students@.subrange(0, i + 1).drop_last() == self.students@.subrange(
                0,
                i as int,
            ));
            if self.students[i].school_id == school_id {
                out.push(self.students[i].duplicate());
            }
            i += 1;
        }
        assert(self.students@.subrange(0, i as int) == self.students@);
        Ok(out)
    }

    /// The student `id` if `school_id` owns it; `NotFound` otherwise, also
    /// when another school owns it.
    pub fn get_student(&self, school_id: u128, id: u128) -> (r: Result<Student, AppError>)
        requires
            self.wf(),
        ensures
            r is Ok <==> owns(self.students@, school_id, id),
            r matches Ok(s) ==> self.students@.contains(s) && s.id == id && s.school_id
                == school_id,
            r matches Err(e) ==> e == AppError::NotFound,
    {
        match self.student_position(school_id, id) {
            Some(i) => {
                let s = self.students[i].duplicate();
                assert(self.students@[i as int] == s);
                Ok(s)
            },
            None => Err(AppError::NotFound),
        }
    }

    /// Removes student `id` if `school_id` owns it; `NotFound`, with nothing
    /// changed, otherwise.
    pub fn delete_student(&mut self, school_id: u128, id: u128) -> (r: Result<(), AppError>)
        requires
            old(self).wf(),
        ensures
            final(self).wf(),
            final(self).schools@ == old(self).schools@,
            r is Ok <==> owns(old(self).students@, school_id, id),
            r is Ok ==> exists|i: int|
                0 <= i < old(self).students@.len() && (#[trigger] old(self).students@[i]).id == id
                    && old(self).students@[i].school_id == school_id && final(self).students@
                    == old(self).students@.remove(i),
            r matches Err(e) ==> e == AppError::NotFound && final(self).students@ == old(
                self,
            ).students@,
    {
        match self.student_position(school_id, id) {
            Some(i) => {
                self.students.remove(i);
                assert(forall|a: int, b: int|
                    0 <= a < b < self.students@.len() ==> #[trigger] self.students@[a]
                        == old(self).students@[if a < i { a } else { a + 1 }]
                        && #[trigger] self.students@[b] == old(self).students@[if b < i { b } else { b + 1 }]);
                Ok(())
            },
            None => Err(AppError::NotFound),
        }
    }

    /// Sets the payment reference of student `id`, owned by `school_id`,
    /// replacing any earlier one; `NotFound`, with nothing changed, otherwise.
    pub fn set_payment_reference(&mut self, school_id: u128, id: u128, reference: String) -> (r:
        Result<(), AppError>)
        requires
            old(self).wf(),
        ensures
            final(self).wf(),
            final(self).schools@ == old(self).schools@,
            r is Ok <==> owns(old(self).students@, school_id, id),
            r is Ok ==> exists|i: int|
                0 <= i < old(self).students@.len() && (#[trigger] old(self).students@[i]).id == id
                    && old(self).students@[i].school_id == school_id && final(self).students@
                    == old(self).students@.update(i, with_reference(old(self).students@[i], reference)),
            r matches Err(e) ==> e == AppError::NotFound && final(self).students@ == old(
                self,
            ).students@,
    {
        match self.student_position(school_id, id) {
            Some(i) => {
                let mut s = self.students[i].duplicate();
                s.payment_reference = Some(reference);
                self.students.set(i, s);
                assert(self.students@[i as int] == with_reference(old(self).students@[i as int], reference));
                Ok(())
            },
            None => Err(AppError::NotFound),
        }
    }

    /// Marks as `Paid` the first student, of any school, that carries this
    /// payment reference; one already `Paid` stays so, and the call still
    /// succeeds. `NotFound`, with nothing changed, when no student carries it.
    pub fn mark_student_paid_by_reference(&mut self, reference: &str) -> (r: Result<(), AppError>)
        requires
            old(self).wf(),
        ensures
            final(self).wf(),
            final(self).schools@ == old(self).schools@,
            r is Ok <==> reference_bound(old(self).students@, reference@),
            r is Ok ==> paid_by_reference(old(self).students@, final(self).students@, reference@),
            r matches Err(e) ==> e == AppError::NotFound && final(self).students@ == old(
                self,
            ).students@,
    {
        let target = reference.to_owned();
        let mut i: usize = 0;
        while i < self.students.len()
            invariant
                i <= self.students@.len(),
                old(self).wf(),
                self.students@ == old(self).students@,
                self.schools@ == old(self).schools@,
                target@ == reference@,
                forall|j: int| 0 <= j < i ==> !has_reference(#[trigger] self.students@[j], reference@),
            decreases self.students@.len() - i,
        {
            let hit = match &self.students[i].payment_reference {
                Some(r) => *r == target,
                None => false,
            };
            if hit {
                let mut s = self.students[i].duplicate();
                s.status = PaymentStatus::Paid;
                self.students.set(i, s);
                assert(forall|k: int|
                    0 <= k < self.students@.len() ==> (#[trigger] self.students@[k]).id == old(
                        self,
                    ).students@[k].id);
                assert(first_with_reference(old(self).students@, reference@, i as int));
                assert(self.students@ == old(self).students@.update(i as int, paid(old(self).students@[i as int])));
                return Ok(());
            }
            i += 1;
        }
        Err(AppError::NotFound)
    }
}

} // verus!
