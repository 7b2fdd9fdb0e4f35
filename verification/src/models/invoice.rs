//! Invoices. The cost is a floating-point amount that the logic never
//! computes with; it is held by its IEEE-754 bit pattern (`f64::to_bits`).
use vstd::prelude::*;
use crate::clock::in_utc_range;

verus! {

/// Number of invoices in a page when the request names none.
pub const DEFAULT_PAGE_LIMIT: i64 = 50i64;

#[derive(Debug, Clone, Copy, PartialEq, Eq)]
pub struct Invoice {
    pub id: u128,
    pub user_id: u128,
    pub customer_id: u128,
    pub cost_bits: u64,
    pub created_at: i64,
    pub updated_at: i64,
}

/// Body of a request to create an invoice.
#[derive(Debug, Clone, Copy, PartialEq, Eq)]
pub struct CreateInvoice {
    pub customer_id: u128,
    pub cost_bits: u64,
}

/// Body of a request to change an invoice: the fields to set, if any.
#[derive(Debug, Clone, Copy, PartialEq, Eq)]
pub struct UpdateInvoice {
    pub customer_id: Option<u128>,
    pub cost_bits: Option<u64>,
}

/// What an update does once the current row has been read.
#[derive(Debug, Clone, Copy, PartialEq, Eq)]
pub enum InvoiceUpdate {
    /// Nothing to write: answer with the row as read (absent or unchanged).
    ReturnCurrent(Option<Invoice>),
    /// Write these values to the row `id` and answer with the row written.
    Write { id: u128, customer_id: u128, cost_bits: u64 },
}

/// A given field wins over the current one.
pub open spec fn merge_field<T>(current: T, given: Option<T>) -> T {
    match given {
        Some(v) => v,
        None => current,
    }
}

/// The update plan for invoice `id`, given the row as read and the fields to set.
pub open spec fn spec_plan_update(
    id: u128,
    current: Option<Invoice>,
    customer_id: Option<u128>,
    cost_bits: Option<u64>,
) -> InvoiceUpdate {
    if customer_id is None && cost_bits is None {
        InvoiceUpdate::ReturnCurrent(current)
    } else {
        match current {
            None => InvoiceUpdate::ReturnCurrent(None),
            Some(c) => InvoiceUpdate::Write {
                id,
                customer_id: merge_field(c.customer_id, customer_id),
                cost_bits: merge_field(c.cost_bits, cost_bits),
            },
        }
    }
}

impl Invoice {
    /// Both instants lie in the range chrono represents (true of every row read).
    pub open spec fn wf(&self) -> bool {
        in_utc_range(self.created_at as int) && in_utc_range(self.updated_at as int)
    }

    /// Limit and offset of a page: 50 and 0 unless the request names them.
    pub fn page_bounds(limit: Option<i64>, offset: Option<i64>) -> (r: (i64, i64))
        ensures
            r.0 == merge_field(DEFAULT_PAGE_LIMIT, limit),
            r.1 == merge_field(0i64, offset),
    {
        let l = match limit {
            Some(l) => l,
            None => DEFAULT_PAGE_LIMIT,
        };
        let o = match offset {
            Some(o) => o,
            None => 0,
        };
        (l, o)
    }

    /// Decides an update of invoice `id` from the row as read: without fields
    /// to set, the row is returned as read; with fields, an absent row stays
    /// absent and a present one is written with the given fields in place of
    /// its own.
    pub fn plan_update(id: u128, current: Option<Invoice>, customer_id: Option<u128>, cost_bits: Option<u64>) -> (r: InvoiceUpdate)
        ensures
            r == spec_plan_update(id, current, customer_id, cost_bits),
    {
        if customer_id.is_none() && cost_bits.is_none() {
            return InvoiceUpdate::ReturnCurrent(current);
        }
        match current {
            None => InvoiceUpdate::ReturnCurrent(None),
            Some(c) => {
                let new_customer_id = match customer_id {
                    Some(v) => v,
                    None => c.customer_id,
                };
                let new_cost_bits = match cost_bits {
                    Some(v) => v,
                    None => c.cost_bits,
                };
                InvoiceUpdate::Write { id, customer_id: new_customer_id, cost_bits: new_cost_bits }
            },
        }
    }
}

} // verus!
