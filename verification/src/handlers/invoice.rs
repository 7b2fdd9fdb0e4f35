//! Invoice answers and the ownership rule of the invoice endpoints.
use vstd::prelude::*;
use crate::clock::{rfc3339, rfc3339_text};
use crate::error::ApiError;
use crate::ids::{uuid_string, uuid_text};
use crate::models::invoice::Invoice;

verus! {

/// Query of the invoice list: page size and start.
#[derive(Debug, Clone, Copy, PartialEq, Eq)]
pub struct ListInvoicesQuery {
    pub limit: Option<i64>,
    pub offset: Option<i64>,
}

/// Query of the invoices of one customer.
#[derive(Debug, Clone, Copy, PartialEq, Eq)]
pub struct ListByCustomerQuery {
    pub customer_id: u128,
}

/// An invoice as sent to the client: ids in UUID text, instants in RFC 3339,
/// the cost by its bit pattern.
#[derive(Debug, Clone, PartialEq, Eq)]
pub struct InvoiceResponse {
    pub id: String,
    pub user_id: String,
    pub customer_id: String,
    pub cost_bits: u64,
    pub created_at: String,
    pub updated_at: String,
}

/// A page of invoices and the number of invoices of the user.
#[derive(Debug, Clone, PartialEq, Eq)]
pub struct InvoiceListResponse {
    pub invoices: Vec<InvoiceResponse>,
    pub total: i64,
}

impl InvoiceResponse {
    /// This answer shows `inv`.
    pub open spec fn shows(&self, inv: Invoice) -> bool {
        &&& self.id@ == uuid_text(inv.id)
        &&& self.user_id@ == uuid_text(inv.user_id)
        &&& self.customer_id@ == uuid_text(inv.customer_id)
        &&& self.cost_bits == inv.cost_bits
        &&& self.created_at@ == rfc3339_text(inv.created_at)
        &&& self.updated_at@ == rfc3339_text(inv.updated_at)
    }

    pub fn from_invoice(invoice: &Invoice) -> (r: InvoiceResponse)
        requires
            invoice.wf(),
        ensures
            r.shows(*invoice),
    {
        InvoiceResponse {
            id: uuid_string(invoice.id),
            user_id: uuid_string(invoice.user_id),
            customer_id: uuid_string(invoice.customer_id),
            cost_bits: invoice.cost_bits,
            created_at: rfc3339(invoice.created_at),
            updated_at: rfc3339(invoice.updated_at),
        }
    }
}

impl InvoiceListResponse {
    /// The answer for a page of invoices, in the page's order, and the total.
    pub fn from_invoices(invoices: &Vec<Invoice>, total: i64) -> (r: InvoiceListResponse)
        requires
            forall|i: int| 0 <= i < invoices@.len() ==> (#[trigger] invoices@[i]).wf(),
        ensures
            r.total == total,
            r.invoices@.len() == invoices@.len(),
            forall|i: int| 0 <= i < invoices@.len() ==> (#[trigger] r.invoices@[i]).shows(invoices@[i]),
    {
        let mut out: Vec<InvoiceResponse> = Vec::new();
        let mut i: usize = 0;
        while i < invoices.len()
            invariant
                i <= invoices@.len(),
                out@.len() == i,
                forall|j: int| 0 <= j < invoices@.len() ==> (#[trigger] invoices@[j]).wf(),
                forall|j: int| 0 <= j < i ==> (#[trigger] out@[j]).shows(invoices@[j]),
            decreases invoices@.len() - i,
        {
            let r = InvoiceResponse::from_invoice(&invoices[i]);
            out.push(r);
            i = i + 1;
        }
        InvoiceListResponse { invoices: out, total }
    }
}

/// The invoice a user may see: an absent invoice and another user's invoice
/// are both answered `InvoiceNotFound`.
pub open spec fn spec_owned_invoice(found: Option<Invoice>, user_id: u128) -> Result<Invoice, ApiError> {
    match found {
        Some(inv) => if inv.user_id == user_id {
            Ok(inv)
        } else {
            Err(ApiError::InvoiceNotFound)
        },
        None => Err(ApiError::InvoiceNotFound),
    }
}

/// The rule of the read, update and delete endpoints: the invoice as read,
/// if it belongs to `user_id`.
pub fn owned_invoice(found: Option<Invoice>, user_id: u128) -> (r: Result<Invoice, ApiError>)
    ensures
        r == spec_owned_invoice(found, user_id),
{
    match found {
        Some(inv) => if inv.user_id == user_id {
            Ok(inv)
        } else {
            Err(ApiError::InvoiceNotFound)
        },
        None => Err(ApiError::InvoiceNotFound),
    }
}

} // verus!
