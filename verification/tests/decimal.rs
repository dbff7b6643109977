use lako::decimal::Decimal;
use lako::invoicing::calculate_invoice_items_total;
use lako::kinds::{BillingReason, InvoiceStatus, Role};
use lako::models::NewInvoiceItem;
use lako::text::format_invoice_number;

fn dec(mantissa: i64, scale: u32) -> Decimal {
    Decimal::new(mantissa, scale).unwrap()
}

fn item(name: &str, amount: Decimal, quantity: Decimal) -> NewInvoiceItem {
    NewInvoiceItem {
        name: name.to_string(),
        description: String::new(),
        amount,
        quantity,
    }
}

#[test]
fn exact_decimal_total() {
    // 10.10 x 3 + 5.00 x 2 = 40.30, exactly.
    let items = vec![
        item("consulting", dec(1010, 2), dec(3, 0)),
        item("hosting", dec(500, 2), dec(2, 0)),
    ];
    let total = calculate_invoice_items_total(&items).unwrap();
    assert!(total.eq_value(&dec(4030, 2)));
    assert!(!total.eq_value(&dec(4031, 2)));
}

#[test]
fn fractional_quantities_stay_exact() {
    // 0.1 x 0.1 = 0.01: exact, no binary-float rounding.
    let items = vec![item("tenth", dec(1, 1), dec(1, 1))];
    let total = calculate_invoice_items_total(&items).unwrap();
    assert!(total.eq_value(&dec(1, 2)));
}

#[test]
fn empty_item_list_totals_zero() {
    let total = calculate_invoice_items_total(&Vec::new()).unwrap();
    assert!(total.eq_value(&Decimal::zero()));
}

#[test]
fn negative_amount_rejected() {
    let items = vec![item("bad", dec(-100, 2), dec(1, 0))];
    assert!(calculate_invoice_items_total(&items).is_err());
}

#[test]
fn out_of_range_scale_rejected() {
    let bad = Decimal { mantissa: 1, scale: 10 };
    let items = vec![item("bad", bad, dec(1, 0))];
    assert!(calculate_invoice_items_total(&items).is_err());
}

#[test]
fn overflowing_product_rejected() {
    let items = vec![item("big", dec(i64::MAX, 0), dec(2, 0))];
    assert!(calculate_invoice_items_total(&items).is_err());
}

#[test]
fn checked_add_is_exact_across_scales() {
    let a = dec(105, 1);  // 10.5
    let b = dec(25, 2);  // 0.25
    let s = a.checked_add(&b).unwrap();
    assert!(s.eq_value(&dec(1075, 2)));
}

#[test]
fn checked_mul_is_exact() {
    let a = dec(1010, 2);
    let b = dec(3, 0);
    let p = a.checked_mul(&b).unwrap();
    assert!(p.eq_value(&dec(3030, 2)));
}

#[test]
fn checked_mul_refuses_overflow() {
    let a = dec(i64::MAX, 0);
    let b = dec(2, 0);
    assert!(a.checked_mul(&b).is_none());
}

#[test]
fn value_equality_ignores_trailing_zeros() {
    assert!(dec(10, 1).eq_value(&dec(100, 2)));
    assert!(dec(1, 0).eq_value(&dec(1000000000, 9)));
    assert!(!dec(10, 1).eq_value(&dec(101, 2)));
}

#[test]
fn invoice_number_formatting() {
    assert_eq!(format_invoice_number(2020, 1), "2020/001");
    assert_eq!(format_invoice_number(2020, 12), "2020/012");
    assert_eq!(format_invoice_number(2020, 123), "2020/123");
    assert_eq!(format_invoice_number(2021, 1234), "2021/1234");
}

#[test]
fn role_codes_are_frozen() {
    assert_eq!(Role::Superuser.code(), 0);
    assert_eq!(Role::Staff.code(), 1);
    assert_eq!(Role::Customer.code(), 2);
    assert_eq!(Role::from_code(2), Some(Role::Customer));
    assert_eq!(Role::from_code(3), None);
}

#[test]
fn status_codes_are_frozen() {
    assert_eq!(InvoiceStatus::Draft.code(), 0);
    assert_eq!(InvoiceStatus::Open.code(), 1);
    assert_eq!(InvoiceStatus::Paid.code(), 2);
    assert_eq!(InvoiceStatus::Uncollectible.code(), 3);
    assert_eq!(InvoiceStatus::Void.code(), 4);
    for code in 0..=4 {
        assert_eq!(InvoiceStatus::from_code(code).unwrap().code(), code);
    }
    assert_eq!(InvoiceStatus::from_code(5), None);
}

#[test]
fn billing_reason_codes_are_frozen() {
    assert_eq!(BillingReason::Manual.code(), 0);
    assert_eq!(BillingReason::ContractCycle.code(), 1);
    assert_eq!(BillingReason::from_code(1), Some(BillingReason::ContractCycle));
    assert_eq!(BillingReason::from_code(2), None);
}
