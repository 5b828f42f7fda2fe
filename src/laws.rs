use vstd::prelude::*;

use crate::credentials::bcrypt_accepts;
use crate::models::{has_reference, paid, with_reference, CreateStudentRequest, PaymentStatus, School, Student};
use crate::store::{
    login_accepted, login_possible, new_student, owns, reference_bound,
    registration_applied, students_of, username_taken, AppStore,
};
use crate::webhook::{charge_success, event_applied};

verus! {

/// Once a registration has stored a school, its username is taken, so a
/// second registration with that username fails with `Conflict` and leaves
/// the store as it is; and the first school's login still succeeds, with
/// that school as the tenant.
pub proof fn lemma_second_registration_conflicts(
    before: AppStore,
    after: AppStore,
    name: Seq<char>,
    username: Seq<char>,
    password: Seq<char>,
    school: School,
)
    requires
        before.wf(),
        registration_applied(before.schools@, after.schools@, name, username, password, school),
    ensures
        username_taken(after.schools@, username),
        login_accepted(after.schools@, username, password, school),
        login_possible(after.schools@, username, password),
{
    let i = before.schools@.len() as int;
    assert(after.schools@[i] == school);
}

/// A login with a password that the stored hash accepts succeeds with that
/// school and no other; one with a password it rejects fails. The check
/// changes nothing, so this holds in any order and on any repetition.
pub proof fn lemma_credentials_decide_login(
    store: AppStore,
    i: int,
    password: Seq<char>,
    wrong: Seq<char>,
)
    requires
        store.wf(),
        0 <= i < store.schools@.len(),
        bcrypt_accepts(password, store.schools@[i].password_hash@),
        !bcrypt_accepts(wrong, store.schools@[i].password_hash@),
    ensures
        login_possible(store.schools@, store.schools@[i].username@, password),
        login_accepted(store.schools@, store.schools@[i].username@, password, store.schools@[i]),
        forall|s: School|
            login_accepted(store.schools@, store.schools@[i].username@, password, s) ==> s
                == store.schools@[i],
        !login_possible(store.schools@, store.schools@[i].username@, wrong),
{
    let schools = store.schools@;
    assert forall|s: School|
        login_accepted(schools, schools[i].username@, password, s) implies s == schools[i] by {
        let k = choose|k: int|
            0 <= k < schools.len() && #[trigger] schools[k] == s && s.username@ == schools[i].username@
                && bcrypt_accepts(password, s.password_hash@);
        if k != i {
            if k < i {
                assert(schools[k].username@ != schools[i].username@);
            } else {
                assert(schools[i].username@ != schools[k].username@);
            }
        }
    }
    if login_possible(schools, schools[i].username@, wrong) {
        let k = choose|k: int|
            0 <= k < schools.len() && (#[trigger] schools[k]).username@ == schools[i].username@
                && bcrypt_accepts(wrong, schools[k].password_hash@);
        if k < i {
            assert(schools[k].username@ != schools[i].username@);
        } else if k > i {
            assert(schools[i].username@ != schools[k].username@);
        }
    }
}

/// A school never reaches a student that another school owns: for it the
/// student does not exist, so `get_student` and `delete_student` answer
/// `NotFound`.
pub proof fn lemma_foreign_student_hidden(store: AppStore, school_id: u128, i: int)
    requires
        store.wf(),
        0 <= i < store.students@.len(),
        store.students@[i].school_id != school_id,
    ensures
        !owns(store.students@, school_id, store.students@[i].id),
{
    let students = store.students@;
    if owns(students, school_id, students[i].id) {
        let k = choose|k: int|
            0 <= k < students.len() && (#[trigger] students[k]).id == students[i].id
                && students[k].school_id == school_id;
        if k < i {
            assert(students[k].id != students[i].id);
        } else {
            assert(students[i].id != students[k].id);
        }
    }
}

/// Creating the first student of a school and then listing the school's
/// students gives exactly one record, `Pending` and without a reference.
pub proof fn lemma_create_then_list(
    before: Seq<Student>,
    after: Seq<Student>,
    id: u128,
    school_id: u128,
    school_name: String,
    req: CreateStudentRequest,
)
    requires
        students_of(before, school_id).len() == 0,
        after == before.push(new_student(id, school_id, school_name, req)),
    ensures
        students_of(after, school_id).len() == 1,
        students_of(after, school_id)[0].status == PaymentStatus::Pending,
        students_of(after, school_id)[0].payment_reference is None,
{
    assert(after.drop_last() == before);
}

/// Storing a non-empty reference that no other student carries, then a
/// successful-charge event with that reference, leaves the student `Paid`;
/// a second identical event finds the reference again and changes nothing.
pub proof fn lemma_pay_then_reconcile(
    before: Seq<Student>,
    i: int,
    reference: String,
    first: Seq<Student>,
    second: Seq<Student>,
)
    requires
        0 <= i < before.len(),
        reference@.len() > 0,
        forall|j: int| 0 <= j < before.len() && j != i ==> !has_reference(#[trigger] before[j], reference@),
        event_applied(
            before.update(i, with_reference(before[i], reference)),
            first,
            Some(charge_success()),
            Some(reference@),
        ),
        event_applied(first, second, Some(charge_success()), Some(reference@)),
    ensures
        reference_bound(before.update(i, with_reference(before[i], reference)), reference@),
        first[i].status == PaymentStatus::Paid,
        first[i].payment_reference == Some(reference),
        reference_bound(first, reference@),
        second == first,
{
    let linked = before.update(i, with_reference(before[i], reference));
    assert(has_reference(linked[i], reference@));
    assert(reference_bound(linked, reference@));
    let k = choose|k: int|
        crate::store::first_with_reference(linked, reference@, k) && first == linked.update(
            k,
            paid(linked[k]),
        );
    if k != i {
        assert(linked[k] == before[k]);
    }
    assert(has_reference(first[i], reference@));
    assert(reference_bound(first, reference@));
    let k2 = choose|k2: int|
        crate::store::first_with_reference(first, reference@, k2) && second == first.update(
            k2,
            paid(first[k2]),
        );
    if k2 != i {
        assert(first[k2] == before[k2]);
    }
    assert(second =~= first);
}

} // verus!
