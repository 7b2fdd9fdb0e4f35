use backend::error::ApiError;
use backend::handlers::invoice::{owned_invoice, InvoiceListResponse, InvoiceResponse, ListInvoicesQuery};
use backend::models::invoice::{Invoice, InvoiceUpdate};

fn invoice(user_id: u128) -> Invoice {
    Invoice {
        id: 0x0123_4567_89ab_cdef_0123_4567_89ab_cdef,
        user_id,
        customer_id: 5,
        cost_bits: 12.5f64.to_bits(),
        created_at: 0,
        updated_at: 1_500_000,
    }
}

#[test]
fn owner_sees_invoice_others_see_nothing() {
    let inv = invoice(1);
    assert_eq!(owned_invoice(Some(inv), 1), Ok(inv));
    assert_eq!(owned_invoice(Some(inv), 2), Err(ApiError::InvoiceNotFound));
    assert_eq!(owned_invoice(None, 1), Err(ApiError::InvoiceNotFound));
}

#[test]
fn update_plan() {
    let inv = invoice(1);
    assert_eq!(Invoice::plan_update(inv.id, Some(inv), None, None), InvoiceUpdate::ReturnCurrent(Some(inv)));
    assert_eq!(Invoice::plan_update(inv.id, None, Some(9), None), InvoiceUpdate::ReturnCurrent(None));
    assert_eq!(
        Invoice::plan_update(inv.id, Some(inv), Some(9), None),
        InvoiceUpdate::Write { id: inv.id, customer_id: 9, cost_bits: inv.cost_bits }
    );
    let cost = 99.0f64.to_bits();
    assert_eq!(
        Invoice::plan_update(inv.id, Some(inv), None, Some(cost)),
        InvoiceUpdate::Write { id: inv.id, customer_id: 5, cost_bits: cost }
    );
}

#[test]
fn page_defaults() {
    let q = ListInvoicesQuery { limit: None, offset: None };
    assert_eq!(Invoice::page_bounds(q.limit, q.offset), (50, 0));
    assert_eq!(Invoice::page_bounds(Some(10), Some(20)), (10, 20));
}

#[test]
fn invoice_response_texts() {
    let r = InvoiceResponse::from_invoice(&invoice(0xff));
    assert_eq!(r.id, "01234567-89ab-cdef-0123-456789abcdef");
    assert_eq!(r.user_id, "00000000-0000-0000-0000-0000000000ff");
    assert_eq!(r.customer_id, "00000000-0000-0000-0000-000000000005");
    assert_eq!(f64::from_bits(r.cost_bits), 12.5);
    assert_eq!(r.created_at, "1970-01-01T00:00:00+00:00");
    assert_eq!(r.updated_at, "1970-01-01T00:00:01.500+00:00");
}

#[test]
fn invoice_list_keeps_order_and_total() {
    let a = invoice(1);
    let mut b = invoice(1);
    b.customer_id = 6;
    let list = InvoiceListResponse::from_invoices(&vec![a, b], 17);
    assert_eq!(list.total, 17);
    assert_eq!(list.invoices.len(), 2);
    assert_eq!(list.invoices[0].customer_id, "00000000-0000-0000-0000-000000000005");
    assert_eq!(list.invoices[1].customer_id, "00000000-0000-0000-0000-000000000006");
}

#[test]
fn invoice_response_at_the_ends_of_time() {
    let mut inv = invoice(1);
    inv.created_at = backend::clock::MIN_UTC_MICROS;
    inv.updated_at = backend::clock::MAX_UTC_MICROS;
    let r = InvoiceResponse::from_invoice(&inv);
    assert_eq!(r.created_at, "-262143-01-01T00:00:00+00:00");
    assert_eq!(r.updated_at, "+262142-12-31T23:59:59.999999+00:00");
}
