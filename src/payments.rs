use vstd::prelude::*;
use vstd::string::StringExecFns;

use crate::errors::AppError;
use crate::ids::{new_uuid, uuid_text, uuid_text_of};
use crate::models::with_reference;
use crate::store::{owns, AppStore};

verus! {

/// The fixed charge for a student, in the currency's minor unit.
pub const PAYMENT_AMOUNT_KOBO: u64 = 500000;

/// What the payment gateway is asked to open.
pub struct PaymentRequest {
    pub email: String,
    pub amount: u64,
    pub reference: String,
}

/// What the payment gateway answers for an opened transaction.
pub struct PaystackInitData {
    pub authorization_url: String,
    pub reference: String,
}

/// What a locally issued payment reference begins with.
pub open spec fn reference_prefix() -> Seq<char> {
    seq!['s', 'c', 'h', '-']
}

/// The payment reference built from a unique token.
pub fn payment_reference(token: &str) -> (r: String)
    ensures
        r@ == reference_prefix() + token@,
{
    let prefix = "sch-".to_owned();
    proof {
        reveal_strlit("sch-");
        assert("sch-"@ == reference_prefix());
    }
    prefix.concat(token)
}

/// Reads the gateway's answer: a transaction it did not accept is an
/// `InternalServerError`.
pub fn gateway_outcome(status: bool, data: PaystackInitData) -> (r: Result<
    PaystackInitData,
    AppError,
>)
    ensures
        status ==> r == Ok::<PaystackInitData, AppError>(data),
        !status ==> (r matches Err(AppError::InternalServerError(m)) && m@
            == "Paystack rejected the transaction"@),
{
    if !status {
        return Err(AppError::InternalServerError("Paystack rejected the transaction".to_string()));
    }
    Ok(data)
}

impl AppStore {
    /// The first step of opening a payment for student `id` of `school_id`:
    /// what to ask the gateway for, with a fresh reference. `NotFound` when
    /// the school owns no such student.
    pub fn prepare_payment(&self, school_id: u128, id: u128) -> (r: Result<PaymentRequest, AppError>)
        requires
            self.wf(),
        ensures
            r is Ok <==> owns(self.students@, school_id, id),
            r matches Err(e) ==> e == AppError::NotFound,
            r matches Ok(p) ==> p.amount == PAYMENT_AMOUNT_KOBO && (exists|i: int|
                0 <= i < self.students@.len() && (#[trigger] self.students@[i]).id == id
                    && self.students@[i].school_id == school_id && self.students@[i].email
                    == p.email) && (exists|u: u128|
                p.reference@ == reference_prefix() + #[trigger] uuid_text_of(u)),
    {
        let student = match self.get_student(school_id, id) {
            Ok(s) => s,
            Err(e) => {
                return Err(e);
            },
        };
        let u = new_uuid();
        let token = uuid_text(u);
        let reference = payment_reference(token.as_str());
        assert(reference@ == reference_prefix() + uuid_text_of(u));
        Ok(PaymentRequest { email: student.email, amount: PAYMENT_AMOUNT_KOBO, reference })
    }

    /// The last step of opening a payment: on the gateway's success, the
    /// reference it returned (which is authoritative) is stored on the
    /// student, and its answer is handed back even where the student has
    /// gone meanwhile. A gateway failure is handed back unchanged, with
    /// nothing stored.
    pub fn record_payment(
        &mut self,
        school_id: u128,
        id: u128,
        outcome: Result<PaystackInitData, AppError>,
    ) -> (r: Result<PaystackInitData, AppError>)
        requires
            old(self).wf(),
        ensures
            final(self).wf(),
            final(self).schools@ == old(self).schools@,
            r == outcome,
            outcome is Err || !owns(old(self).students@, school_id, id) ==> final(self).students@
                == old(self).students@,
            outcome is Ok && owns(old(self).students@, school_id, id) ==> exists|i: int|
                0 <= i < old(self).students@.len() && (#[trigger] old(self).students@[i]).id == id
                    && old(self).students@[i].school_id == school_id && final(self).students@
                    == old(self).students@.update(i, with_reference(
                    old(self).students@[i],
                    outcome->Ok_0.reference,
                )),
    {
        match outcome {
            Ok(data) => {
                // A student removed since the first step is a lost update, not a failure.
                let _ = self.set_payment_reference(school_id, id, data.reference.clone());
                Ok(data)
            },
            Err(e) => Err(e),
        }
    }
}

} // verus!
