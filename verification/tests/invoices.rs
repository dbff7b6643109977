use lako::decimal::Decimal;
use lako::error::AppError;
use lako::kinds::{BillingReason, InvoiceStatus};
use lako::models::{ChangeInvoice, CreateInvoiceRequest, Invoice, NewInvoiceItem};
use lako::store::Store;

const NOW: i64 = 1_600_000_000;
const YEAR: i32 = 2020;

fn dec(mantissa: i64, scale: u32) -> Decimal {
    Decimal::new(mantissa, scale).unwrap()
}

fn item(name: &str, amount: Decimal, quantity: Decimal) -> NewInvoiceItem {
    NewInvoiceItem {
        name: name.to_string(),
        description: String::new(),
        amount,
        quantity,
    }
}

fn request(client_id: i32, items: Vec<NewInvoiceItem>) -> CreateInvoiceRequest {
    CreateInvoiceRequest {
        client_id,
        company_id: 1,
        invoice_number: None,
        description: "work".to_string(),
        currency: "EUR".to_string(),
        due_date: None,
        invoice_date: None,
        balance: None,
        discount: None,
        tax: None,
        items,
    }
}

fn no_changes() -> ChangeInvoice {
    ChangeInvoice {
        client_id: None,
        company_id: None,
        invoice_number: None,
        description: None,
        currency: None,
        status: None,
        billing_reason: None,
        due_date: None,
        invoice_date: None,
        amount: None,
        balance: None,
        discount: None,
        tax: None,
    }
}

#[test]
fn amount_is_exact_sum_of_items() {
    let mut store = Store::new();
    let items = vec![
        item("consulting", dec(1010, 2), dec(3, 0)),
        item("hosting", dec(500, 2), dec(2, 0)),
    ];
    let (invoice, rows) = store.create_invoice(7, request(1, items), YEAR, NOW).unwrap();
    assert!(invoice.amount.eq_value(&dec(4030, 2)));
    assert_eq!(rows.len(), 2);
    assert_eq!(rows[0].invoice_id, invoice.id);
    assert_eq!(invoice.status, InvoiceStatus::Draft);
    assert_eq!(invoice.billing_reason, BillingReason::Manual);
}

#[test]
fn auto_numbers_start_at_one_and_increase() {
    let mut store = Store::new();
    let (first, _) = store.create_invoice(7, request(1, Vec::new()), YEAR, NOW).unwrap();
    let (second, _) = store.create_invoice(7, request(1, Vec::new()), YEAR, NOW).unwrap();
    assert_eq!(first.invoice_number, "2020/001");
    assert_eq!(second.invoice_number, "2020/002");

    // Another client of the same user runs its own sequence.
    let (other, _) = store.create_invoice(7, request(2, Vec::new()), YEAR, NOW).unwrap();
    assert_eq!(other.invoice_number, "2020/001");

    // So does another year for the same client.
    let (next_year, _) = store.create_invoice(7, request(1, Vec::new()), YEAR + 1, NOW).unwrap();
    assert_eq!(next_year.invoice_number, "2021/001");
}

#[test]
fn duplicate_number_is_a_conflict() {
    let mut store = Store::new();
    let mut req = request(1, Vec::new());
    req.invoice_number = Some("2020/001".to_string());
    store.create_invoice(7, req, YEAR, NOW).unwrap();

    // The same explicit number for the same user, client and year is
    // refused as a conflict, not silently allowed.
    let mut again = request(1, Vec::new());
    again.invoice_number = Some("2020/001".to_string());
    let err = store.create_invoice(7, again, YEAR, NOW).unwrap_err();
    assert_eq!(err, AppError::DuplicateInvoiceNumber);

    // The auto path counts the existing invoice and moves on to the
    // next free number.
    let (next, _) = store.create_invoice(7, request(1, Vec::new()), YEAR, NOW).unwrap();
    assert_eq!(next.invoice_number, "2020/002");
}

#[test]
fn deletion_can_make_the_next_auto_number_collide() {
    let mut store = Store::new();
    let (first, _) = store.create_invoice(7, request(1, Vec::new()), YEAR, NOW).unwrap();
    let (_second, _) = store.create_invoice(7, request(1, Vec::new()), YEAR, NOW).unwrap();
    assert_eq!(Invoice::delete(&mut store, first.id, 7), 1);

    // One invoice remains ("2020/002"), so the count proposes 002
    // again; the store refuses the duplicate rather than writing it.
    let err = store.create_invoice(7, request(1, Vec::new()), YEAR, NOW).unwrap_err();
    assert_eq!(err, AppError::DuplicateInvoiceNumber);
}

#[test]
fn invalid_items_reject_the_whole_invoice() {
    let mut store = Store::new();
    let items = vec![item("bad", dec(-1, 0), dec(1, 0))];
    let err = store.create_invoice(7, request(1, items), YEAR, NOW).unwrap_err();
    assert_eq!(err, AppError::ValidationFailed);
    // Nothing was written: the next creation still gets number 001.
    let (invoice, _) = store.create_invoice(7, request(1, Vec::new()), YEAR, NOW).unwrap();
    assert_eq!(invoice.invoice_number, "2020/001");
}

#[test]
fn zero_items_then_add_and_recalculate() {
    // An invoice may start with no items at amount zero; items added
    // later count once the amount is recalculated.
    let mut store = Store::new();
    let (invoice, rows) = store.create_invoice(7, request(1, Vec::new()), YEAR, NOW).unwrap();
    assert!(rows.is_empty());
    assert!(invoice.amount.eq_value(&Decimal::zero()));

    store.add_invoice_item(invoice.id, item("a", dec(1010, 2), dec(3, 0))).unwrap();
    store.add_invoice_item(invoice.id, item("b", dec(500, 2), dec(2, 0))).unwrap();

    let total = Invoice::recalculate_amount(&mut store, invoice.id).unwrap();
    assert!(total.eq_value(&dec(4030, 2)));
    let stored = store.invoices.iter().find(|i| i.id == invoice.id).unwrap();
    assert!(stored.amount.eq_value(&dec(4030, 2)));
}

#[test]
fn recalculate_missing_invoice_is_not_found() {
    let mut store = Store::new();
    assert_eq!(Invoice::recalculate_amount(&mut store, 9).unwrap_err(), AppError::NotFound);
}

#[test]
fn add_item_validates_and_checks_the_invoice() {
    let mut store = Store::new();
    let (invoice, _) = store.create_invoice(7, request(1, Vec::new()), YEAR, NOW).unwrap();
    let err = store.add_invoice_item(invoice.id, item("bad", dec(-1, 0), dec(1, 0))).unwrap_err();
    assert_eq!(err, AppError::ValidationFailed);
    let err = store.add_invoice_item(999, item("ok", dec(1, 0), dec(1, 0))).unwrap_err();
    assert_eq!(err, AppError::NotFound);
}

#[test]
fn invoice_ownership_isolation() {
    let mut store = Store::new();
    let (invoice, _) = store.create_invoice(7, request(1, Vec::new()), YEAR, NOW).unwrap();

    // Another user, supplying the exact id, gets "not found".
    let mut changes = no_changes();
    changes.status = Some(InvoiceStatus::Void);
    let err = Invoice::update(&mut store, invoice.id, 8, changes, NOW).unwrap_err();
    assert_eq!(err, AppError::NotFound);
    assert_eq!(Invoice::delete(&mut store, invoice.id, 8), 0);

    // The owner can do both.
    let mut changes = no_changes();
    changes.status = Some(InvoiceStatus::Open);
    let updated = Invoice::update(&mut store, invoice.id, 7, changes, NOW + 1).unwrap();
    assert_eq!(updated.status, InvoiceStatus::Open);
    assert_eq!(Invoice::delete(&mut store, invoice.id, 7), 1);
}

#[test]
fn update_keeps_unmentioned_fields() {
    let mut store = Store::new();
    let items = vec![item("a", dec(100, 2), dec(1, 0))];
    let (invoice, _) = store.create_invoice(7, request(1, items), YEAR, NOW).unwrap();
    let mut changes = no_changes();
    changes.description = Some("revised".to_string());
    let updated = Invoice::update(&mut store, invoice.id, 7, changes, NOW + 2).unwrap();
    assert_eq!(updated.description, "revised");
    assert_eq!(updated.currency, "EUR");
    assert!(updated.amount.eq_value(&dec(100, 2)));
    assert_eq!(updated.invoice_number, "2020/001");
    assert_eq!(updated.updated_at, NOW + 2);
}

#[test]
fn update_refuses_a_colliding_number() {
    let mut store = Store::new();
    store.create_invoice(7, request(1, Vec::new()), YEAR, NOW).unwrap();
    let (second, _) = store.create_invoice(7, request(1, Vec::new()), YEAR, NOW).unwrap();
    let mut changes = no_changes();
    changes.invoice_number = Some("2020/001".to_string());
    let err = Invoice::update(&mut store, second.id, 7, changes, NOW).unwrap_err();
    assert_eq!(err, AppError::DuplicateInvoiceNumber);
}
