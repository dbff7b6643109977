//! The invoice aggregate: creation with line items, auto-numbering,
//! partial updates, deletion and amount recalculation.
//!
//! An invoice's amount is the exact sum of `unit price x quantity`
//! over its line items, carried in exact decimal arithmetic: an
//! unrepresentable value is rejected, never rounded. Auto-generated
//! invoice numbers run `"{year}/{seq:03}"` with the sequence starting
//! at one per user, client and calendar year, and the store refuses a
//! duplicate number within such a group outright.

use vstd::prelude::*;

use crate::decimal::{product_fits, Decimal, MAX_SCALE};
use crate::error::AppError;
use crate::kinds::{BillingReason, InvoiceStatus};
use crate::models::{ChangeInvoice, CreateInvoiceRequest, Invoice, InvoiceItem, NewInvoiceItem};
use crate::store::{clients_same, companies_same, emails_same, users_same, verified_monotone, Store};
use crate::sys::fresh_uuid_u128;
use crate::text::{format_invoice_number, invoice_number_seq, str_eq};

verus! {

/// The exact value of one line, `unit price x quantity`, in units of
/// `10^-9`.
pub open spec fn line_units(amount: Decimal, quantity: Decimal) -> int {
    if amount.scale + quantity.scale <= MAX_SCALE {
        amount.mantissa * quantity.mantissa * crate::decimal::pow10(
            (MAX_SCALE - (amount.scale + quantity.scale)) as nat,
        )
    } else {
        0
    }
}

/// The exact total of a list of new line items, in units of `10^-9`.
pub open spec fn new_items_total(items: Seq<NewInvoiceItem>) -> int
    decreases items.len(),
{
    if items.len() == 0 {
        0
    } else {
        new_items_total(items.drop_last()) + line_units(
            items.last().amount,
            items.last().quantity,
        )
    }
}

/// The exact total of the stored line items of one invoice, in units
/// of `10^-9`.
pub open spec fn stored_items_total(items: Seq<InvoiceItem>, invoice_id: i32) -> int
    decreases items.len(),
{
    if items.len() == 0 {
        0
    } else {
        stored_items_total(items.drop_last(), invoice_id) + (if items.last().invoice_id
            == invoice_id {
            line_units(items.last().amount, items.last().quantity)
        } else {
            0
        })
    }
}

/// A line whose product is representable has a non-negative value.
pub proof fn lemma_line_units_nonneg(amount: Decimal, quantity: Decimal)
    requires
        product_fits(amount, quantity),
    ensures
        0 <= line_units(amount, quantity),
{
    let s = (MAX_SCALE - (amount.scale + quantity.scale)) as nat;
    crate::decimal::lemma_pow10_bounds(s);
    assert(0 <= amount.mantissa * quantity.mantissa) by (nonlinear_arith)
        requires
            amount.mantissa >= 0 && quantity.mantissa >= 0,
    ;
    assert(0 <= amount.mantissa * quantity.mantissa * crate::decimal::pow10(s)) by (
    nonlinear_arith)
        requires
            0 <= amount.mantissa * quantity.mantissa,
            crate::decimal::pow10(s) >= 1,
    ;
}

/// Every prefix total is at most the full total, once every line's
/// product is representable: the lines are non-negative.
pub proof fn lemma_new_items_total_mono(items: Seq<NewInvoiceItem>, k: int)
    requires
        0 <= k <= items.len(),
        forall|i: int|
            0 <= i < items.len() ==> product_fits(
                #[trigger] items[i].amount,
                items[i].quantity,
            ),
    ensures
        0 <= new_items_total(items.take(k)) <= new_items_total(items),
    decreases items.len(),
{
    if items.len() == 0 {
        assert(items.take(k) =~= items);
    } else if k == items.len() {
        assert(items.take(k) =~= items);
        lemma_new_items_total_mono(items.drop_last(), items.len() - 1);
        assert(items.drop_last().take(items.len() - 1) =~= items.drop_last());
        lemma_line_units_nonneg(items.last().amount, items.last().quantity);
    } else {
        assert(items.take(k) =~= items.drop_last().take(k));
        lemma_new_items_total_mono(items.drop_last(), k);
        lemma_line_units_nonneg(items.last().amount, items.last().quantity);
    }
}

/// Every prefix of the stored table contributes at most the whole
/// table's total for an invoice, once every line's product is
/// representable.
pub proof fn lemma_stored_items_total_mono(items: Seq<InvoiceItem>, invoice_id: i32, k: int)
    requires
        0 <= k <= items.len(),
        forall|i: int|
            0 <= i < items.len() ==> product_fits(
                #[trigger] items[i].amount,
                items[i].quantity,
            ),
    ensures
        0 <= stored_items_total(items.take(k), invoice_id) <= stored_items_total(
            items,
            invoice_id,
        ),
    decreases items.len(),
{
    if items.len() == 0 {
        assert(items.take(k) =~= items);
    } else if k == items.len() {
        assert(items.take(k) =~= items);
        lemma_stored_items_total_mono(items.drop_last(), invoice_id, items.len() - 1);
        assert(items.drop_last().take(items.len() - 1) =~= items.drop_last());
        lemma_line_units_nonneg(items.last().amount, items.last().quantity);
    } else {
        assert(items.take(k) =~= items.drop_last().take(k));
        lemma_stored_items_total_mono(items.drop_last(), invoice_id, k);
        lemma_line_units_nonneg(items.last().amount, items.last().quantity);
    }
}

/// Whether every line is well formed: non-negative unit price and
/// quantity with an exactly representable product.
pub open spec fn all_items_fit(items: Seq<NewInvoiceItem>) -> bool {
    forall|i: int| 0 <= i < items.len() ==> product_fits(#[trigger] items[i].amount, items[i].quantity)
}

/// Computes the exact total of a list of line items: the sum of
/// `unit price x quantity` in exact decimal arithmetic. Rejects a
/// line with a negative or malformed price or quantity, or whose
/// exact value the arithmetic cannot carry, rather than round.
pub fn calculate_invoice_items_total(items: &Vec<NewInvoiceItem>) -> (r: Result<
    Decimal,
    AppError,
>)
    ensures
        r is Ok <==> all_items_fit(items@) && new_items_total(items@) <= i64::MAX,
        r is Err ==> r->Err_0 == AppError::ValidationFailed,
        r is Ok ==> ({
            let t = r->Ok_0;
            &&& t.inv()
            &&& t.units() == new_items_total(items@)
            &&& t.units() >= 0
        }),
{
    let mut total = Decimal::zero();
    let mut i: usize = 0;
    while i < items.len()
        invariant
            i <= items@.len(),
            total.inv(),
            total.units() == new_items_total(items@.take(i as int)),
            0 <= total.units() <= i64::MAX,
            forall|j: int|
                0 <= j < i ==> product_fits(#[trigger] items@[j].amount, items@[j].quantity),
        decreases items@.len() - i,
    {
        let it = &items[i];
        if it.amount.scale > MAX_SCALE || it.quantity.scale > MAX_SCALE {
            assert(!product_fits(items@[i as int].amount, items@[i as int].quantity));
            return Err(AppError::ValidationFailed);
        }
        if !it.amount.is_nonneg() || !it.quantity.is_nonneg() {
            assert(!product_fits(items@[i as int].amount, items@[i as int].quantity));
            return Err(AppError::ValidationFailed);
        }
        let line = match it.amount.checked_mul(&it.quantity) {
            Some(p) => p,
            None => {
                proof {
                    assert(it.amount.mantissa * it.quantity.mantissa >= 0) by (nonlinear_arith)
                        requires
                            it.amount.mantissa >= 0,
                            it.quantity.mantissa >= 0,
                    ;
                    assert(!product_fits(items@[i as int].amount, items@[i as int].quantity));
                }
                return Err(AppError::ValidationFailed);
            },
        };
        assert(product_fits(it.amount, it.quantity));
        proof {
            lemma_line_units_nonneg(it.amount, it.quantity);
        }
        assert(line.units() == line_units(it.amount, it.quantity));
        let next_total = match total.checked_add(&line) {
            Some(t) => t,
            None => {
                proof {
                    lemma_line_units_nonneg(it.amount, it.quantity);
                    assert(items@.take(i as int + 1).drop_last() =~= items@.take(i as int));
                    assert(new_items_total(items@.take(i as int + 1)) == total.units()
                        + line.units());
                    if all_items_fit(items@) && new_items_total(items@) <= i64::MAX {
                        lemma_new_items_total_mono(items@, i as int + 1);
                    }
                }
                return Err(AppError::ValidationFailed);
            },
        };
        total = next_total;
        assert(items@.take(i as int + 1).drop_last() =~= items@.take(i as int));
        i = i + 1;
    }
    assert(items@.take(items@.len() as int) =~= items@);
    Ok(total)
}

/// Whether a stored invoice belongs to the numbering group of one
/// user, client and calendar year.
pub open spec fn in_number_group(inv: Invoice, user_id: i32, client_id: i32, year: i32) -> bool {
    inv.user_id == user_id && inv.client_id == client_id && inv.created_year == year
}

/// How many stored invoices lie in the numbering group.
pub open spec fn count_in_group(
    invoices: Seq<Invoice>,
    user_id: i32,
    client_id: i32,
    year: i32,
) -> nat
    decreases invoices.len(),
{
    if invoices.len() == 0 {
        0
    } else {
        count_in_group(invoices.drop_last(), user_id, client_id, year) + (if in_number_group(
            invoices.last(),
            user_id,
            client_id,
            year,
        ) {
            1nat
        } else {
            0nat
        })
    }
}

/// Whether some invoice of the numbering group already carries this
/// number.
pub open spec fn number_taken(
    invoices: Seq<Invoice>,
    user_id: i32,
    client_id: i32,
    year: i32,
    number: Seq<char>,
) -> bool {
    exists|i: int|
        0 <= i < invoices.len() && in_number_group(
            #[trigger] invoices[i],
            user_id,
            client_id,
            year,
        ) && invoices[i].invoice_number@ == number
}

/// The group never holds more invoices than the table.
pub proof fn lemma_count_in_group_le_len(
    invoices: Seq<Invoice>,
    user_id: i32,
    client_id: i32,
    year: i32,
)
    ensures
        count_in_group(invoices, user_id, client_id, year) <= invoices.len(),
    decreases invoices.len(),
{
    if invoices.len() > 0 {
        lemma_count_in_group_le_len(invoices.drop_last(), user_id, client_id, year);
    }
}

impl Invoice {
    /// The next invoice number for the user and client in `year`:
    /// `"{year}/{seq:03}"`, where the sequence value is one more than
    /// the count of this year's invoices for the pair.
    pub fn get_next_invoice_number(store: &Store, user_id: i32, client_id: i32, year: i32) -> (r:
        String)
        requires
            0 <= year,
            store.invoices@.len() < u32::MAX,
        ensures
            r@ == invoice_number_seq(
                year as nat,
                count_in_group(store.invoices@, user_id, client_id, year) + 1,
            ),
    {
        let count = count_invoices_in_group(store, user_id, client_id, year);
        proof {
            lemma_count_in_group_le_len(store.invoices@, user_id, client_id, year);
        }
        format_invoice_number(year as u32, (count + 1) as u32)
    }
}

/// Counts the invoices of the numbering group.
fn count_invoices_in_group(store: &Store, user_id: i32, client_id: i32, year: i32) -> (r: usize)
    ensures
        r == count_in_group(store.invoices@, user_id, client_id, year),
{
    let mut count: usize = 0;
    let mut i: usize = 0;
    while i < store.invoices.len()
        invariant
            i <= store.invoices@.len(),
            count == count_in_group(store.invoices@.take(i as int), user_id, client_id, year),
            count <= i,
        decreases store.invoices@.len() - i,
    {
        let inv = &store.invoices[i];
        if inv.user_id == user_id && inv.client_id == client_id && inv.created_year == year {
            count = count + 1;
        }
        assert(store.invoices@.take(i as int + 1).drop_last() =~= store.invoices@.take(i as int));
        i = i + 1;
    }
    assert(store.invoices@.take(store.invoices@.len() as int) =~= store.invoices@);
    count
}

/// Whether the optional money fields of a creation request are well
/// formed.
pub open spec fn req_decimals_ok(req: &CreateInvoiceRequest) -> bool {
    &&& req.balance is Some ==> req.balance->0.inv()
    &&& req.discount is Some ==> req.discount->0.inv()
    &&& req.tax is Some ==> req.tax->0.inv()
}

/// Whether a creation request passes validation: well-formed money
/// fields and line items, with a representable total.
pub open spec fn create_request_valid(req: &CreateInvoiceRequest) -> bool {
    &&& req_decimals_ok(req)
    &&& all_items_fit(req.items@)
    &&& new_items_total(req.items@) <= i64::MAX
}

/// The invoice number a creation request ends up with: the caller's
/// own, or the next of the numbering group.
pub open spec fn chosen_number(
    invoices: Seq<Invoice>,
    user_id: i32,
    req: &CreateInvoiceRequest,
    year: i32,
) -> Seq<char> {
    if req.invoice_number is Some {
        req.invoice_number->0@
    } else {
        invoice_number_seq(
            year as nat,
            count_in_group(invoices, user_id, req.client_id, year) + 1,
        )
    }
}

impl Store {
    /// Creates an invoice with its line items, atomically: on any
    /// rejection nothing is written. The amount is the exact sum of
    /// `unit price x quantity` over the lines; a missing invoice
    /// number is auto-generated as `"{year}/{seq:03}"` with the
    /// sequence one past the count of the group's invoices; a number
    /// already present within the group is refused as a duplicate.
    pub fn create_invoice(
        &mut self,
        user_id: i32,
        req: CreateInvoiceRequest,
        year: i32,
        now: i64,
    ) -> (r: Result<(Invoice, Vec<InvoiceItem>), AppError>)
        requires
            old(self).inv(),
            0 <= year,
            old(self).invoices@.len() < u32::MAX,
        ensures
            final(self).inv(),
            r is Err ==> *final(self) == *old(self),
            r == Err::<(Invoice, Vec<InvoiceItem>), _>(AppError::ValidationFailed)
                <==> !create_request_valid(&req),
            r == Err::<(Invoice, Vec<InvoiceItem>), _>(AppError::DuplicateInvoiceNumber)
                <==> create_request_valid(&req) && number_taken(
                old(self).invoices@,
                user_id,
                req.client_id,
                year,
                chosen_number(old(self).invoices@, user_id, &req, year),
            ),
            r is Ok <==> create_request_valid(&req) && !number_taken(
                old(self).invoices@,
                user_id,
                req.client_id,
                year,
                chosen_number(old(self).invoices@, user_id, &req, year),
            ) && old(self).next_invoice_id < i32::MAX && old(self).next_item_id as int
                + req.items@.len() <= i32::MAX,
            r is Ok ==> ({
                let inv = r->Ok_0.0;
                let rows = r->Ok_0.1;
                &&& inv.id == old(self).next_invoice_id
                &&& inv.user_id == user_id
                &&& inv.client_id == req.client_id
                &&& inv.company_id == req.company_id
                &&& inv.invoice_number@ == chosen_number(old(self).invoices@, user_id, &req, year)
                &&& req.invoice_number is None ==> inv.invoice_number@ == invoice_number_seq(
                    year as nat,
                    count_in_group(old(self).invoices@, user_id, req.client_id, year) + 1,
                )
                &&& inv.description == req.description
                &&& inv.currency == req.currency
                &&& inv.status == InvoiceStatus::Draft
                &&& inv.billing_reason == BillingReason::Manual
                &&& inv.due_date == req.due_date
                &&& inv.invoice_date == req.invoice_date
                &&& inv.last_send_date is None
                &&& inv.amount.inv() && inv.amount.units() == new_items_total(req.items@)
                &&& (if req.balance is Some {
                    inv.balance == req.balance->0
                } else {
                    inv.balance.units() == 0
                })
                &&& (if req.discount is Some {
                    inv.discount == req.discount->0
                } else {
                    inv.discount.units() == 0
                })
                &&& (if req.tax is Some {
                    inv.tax == req.tax->0
                } else {
                    inv.tax.units() == 0
                })
                &&& inv.created_year == year
                &&& inv.created_at == now
                &&& inv.updated_at == now
                &&& final(self).invoices@ == old(self).invoices@.push(inv)
                &&& final(self).next_invoice_id == old(self).next_invoice_id + 1
                &&& count_in_group(final(self).invoices@, user_id, req.client_id, year)
                    == count_in_group(old(self).invoices@, user_id, req.client_id, year) + 1
                &&& rows@.len() == req.items@.len()
                &&& (forall|k: int|
                    0 <= k < req.items@.len() ==> rows@[k] == (InvoiceItem {
                        id: (old(self).next_item_id + k) as i32,
                        invoice_id: inv.id,
                        name: req.items@[k].name,
                        description: req.items@[k].description,
                        amount: req.items@[k].amount,
                        quantity: req.items@[k].quantity,
                    }))
                &&& final(self).invoice_items@ == old(self).invoice_items@ + rows@
                &&& final(self).next_item_id == old(self).next_item_id + req.items@.len()
                &&& users_same(old(self), final(self))
                &&& emails_same(old(self), final(self))
                &&& clients_same(old(self), final(self))
                &&& companies_same(old(self), final(self))
            }),
            verified_monotone(old(self), final(self)),
    {
        let ghost pre = *self;
        match &req.balance {
            Some(b) => {
                if b.scale > MAX_SCALE {
                    return Err(AppError::ValidationFailed);
                }
            },
            None => {},
        }
        match &req.discount {
            Some(d) => {
                if d.scale > MAX_SCALE {
                    return Err(AppError::ValidationFailed);
                }
            },
            None => {},
        }
        match &req.tax {
            Some(t) => {
                if t.scale > MAX_SCALE {
                    return Err(AppError::ValidationFailed);
                }
            },
            None => {},
        }
        let total = match calculate_invoice_items_total(&req.items) {
            Ok(t) => t,
            Err(_) => {
                return Err(AppError::ValidationFailed);
            },
        };
        let number = match &req.invoice_number {
            Some(n) => n.clone(),
            None => Invoice::get_next_invoice_number(self, user_id, req.client_id, year),
        };
        assert(number@ == chosen_number(pre.invoices@, user_id, &req, year));
        if number_taken_exec(self, user_id, req.client_id, year, number.as_str()) {
            return Err(AppError::DuplicateInvoiceNumber);
        }
        if self.next_invoice_id == i32::MAX {
            return Err(AppError::Internal);
        }
        if req.items.len() > (i32::MAX - self.next_item_id) as usize {
            return Err(AppError::Internal);
        }
        let balance = match req.balance {
            Some(b) => b,
            None => Decimal::zero(),
        };
        let discount = match req.discount {
            Some(d) => d,
            None => Decimal::zero(),
        };
        let tax = match req.tax {
            Some(t) => t,
            None => Decimal::zero(),
        };
        let invoice = Invoice {
            id: self.next_invoice_id,
            invoice_id: fresh_uuid_u128(),
            user_id,
            client_id: req.client_id,
            company_id: req.company_id,
            invoice_number: number,
            description: req.description,
            currency: req.currency,
            status: InvoiceStatus::Draft,
            billing_reason: BillingReason::Manual,
            due_date: req.due_date,
            invoice_date: req.invoice_date,
            last_send_date: None,
            amount: total,
            balance,
            discount,
            tax,
            created_year: year,
            created_at: now,
            updated_at: now,
        };
        let out = invoice.clone();
        self.invoices.push(invoice);
        self.next_invoice_id = self.next_invoice_id + 1;
        proof {
            assert(self.invoices@.drop_last() =~= pre.invoices@);
            assert forall|i: int, j: int|
                0 <= i < j < self.invoices@.len() && #[trigger] self.invoices@[i].user_id
                    == #[trigger] self.invoices@[j].user_id && self.invoices@[i].client_id
                    == self.invoices@[j].client_id && self.invoices@[i].created_year
                    == self.invoices@[j].created_year implies self.invoices@[i].invoice_number@
                != self.invoices@[j].invoice_number@ by {
                if j == self.invoices@.len() - 1 {
                    assert(!(in_number_group(pre.invoices@[i], user_id, req.client_id, year)
                        && pre.invoices@[i].invoice_number@ == number@));
                } else {
                    assert(pre.invoices_ok());
                }
            }
        }
        let ghost mid = *self;
        let mut rows: Vec<InvoiceItem> = Vec::new();
        let mut k: usize = 0;
        while k < req.items.len()
            invariant
                k <= req.items@.len(),
                mid.inv(),
                self.inv(),
                mid.next_item_id as int + req.items@.len() <= i32::MAX,
                all_items_fit(req.items@),
                rows@.len() == k,
                mid.invoices@.len() > 0,
                out == mid.invoices@.last(),
                forall|j: int|
                    0 <= j < k ==> rows@[j] == (InvoiceItem {
                        id: (mid.next_item_id + j) as i32,
                        invoice_id: mid.invoices@.last().id,
                        name: req.items@[j].name,
                        description: req.items@[j].description,
                        amount: req.items@[j].amount,
                        quantity: req.items@[j].quantity,
                    }),
                self.invoice_items@ == mid.invoice_items@ + rows@,
                self.next_item_id == mid.next_item_id + k,
                self.invoices@ == mid.invoices@,
                self.next_invoice_id == mid.next_invoice_id,
                users_same(&mid, self),
                emails_same(&mid, self),
                clients_same(&mid, self),
                companies_same(&mid, self),
            decreases req.items@.len() - k,
        {
            let it = req.items[k].clone();
            let row = InvoiceItem {
                id: self.next_item_id,
                invoice_id: out.id,
                name: it.name,
                description: it.description,
                amount: it.amount,
                quantity: it.quantity,
            };
            assert(row.id == (mid.next_item_id + k as int) as i32);
            assert(row.invoice_id == mid.invoices@.last().id);
            assert(row.name == req.items@[k as int].name);
            assert(row.description == req.items@[k as int].description);
            assert(row.amount == req.items@[k as int].amount);
            assert(row.quantity == req.items@[k as int].quantity);
            rows.push(row.clone());
            assert(rows@[k as int] == row);
            self.invoice_items.push(row);
            self.next_item_id = self.next_item_id + 1;
            assert(self.invoice_items@ =~= mid.invoice_items@ + rows@);
            k = k + 1;
        }
        proof {
            assert(count_in_group(self.invoices@, user_id, req.client_id, year)
                == count_in_group(pre.invoices@, user_id, req.client_id, year) + 1) by {
                assert(self.invoices@.drop_last() =~= pre.invoices@);
                assert(in_number_group(self.invoices@.last(), user_id, req.client_id, year));
            }
        }
        Ok((out, rows))
    }
}

/// The invoice row a request for `(primary_id, owner_id)` addresses.
pub open spec fn invoice_addressed(inv: Invoice, primary_id: i32, owner_id: i32) -> bool {
    inv.id == primary_id && inv.user_id == owner_id
}

/// Whether the optional money fields of a change set are well formed.
pub open spec fn change_decimals_ok(changes: &ChangeInvoice) -> bool {
    &&& changes.amount is Some ==> changes.amount->0.inv()
    &&& changes.balance is Some ==> changes.balance->0.inv()
    &&& changes.discount is Some ==> changes.discount->0.inv()
    &&& changes.tax is Some ==> changes.tax->0.inv()
}

impl ChangeInvoice {
    /// The invoice with these partial changes applied. The owner, the
    /// creation data and the send date are untouched.
    pub open spec fn applied(self, inv: Invoice, now: i64) -> Invoice {
        Invoice {
            client_id: if self.client_id is Some {
                self.client_id->0
            } else {
                inv.client_id
            },
            company_id: if self.company_id is Some {
                self.company_id->0
            } else {
                inv.company_id
            },
            invoice_number: if self.invoice_number is Some {
                self.invoice_number->0
            } else {
                inv.invoice_number
            },
            description: if self.description is Some {
                self.description->0
            } else {
                inv.description
            },
            currency: if self.currency is Some {
                self.currency->0
            } else {
                inv.currency
            },
            status: if self.status is Some {
                self.status->0
            } else {
                inv.status
            },
            billing_reason: if self.billing_reason is Some {
                self.billing_reason->0
            } else {
                inv.billing_reason
            },
            due_date: if self.due_date is Some {
                self.due_date
            } else {
                inv.due_date
            },
            invoice_date: if self.invoice_date is Some {
                self.invoice_date
            } else {
                inv.invoice_date
            },
            amount: if self.amount is Some {
                self.amount->0
            } else {
                inv.amount
            },
            balance: if self.balance is Some {
                self.balance->0
            } else {
                inv.balance
            },
            discount: if self.discount is Some {
                self.discount->0
            } else {
                inv.discount
            },
            tax: if self.tax is Some {
                self.tax->0
            } else {
                inv.tax
            },
            updated_at: now,
            ..inv
        }
    }
}

/// Whether applying `changes` to row `i` would leave its invoice
/// number colliding with another invoice of the same user, client and
/// year.
pub open spec fn update_number_conflict(
    invoices: Seq<Invoice>,
    i: int,
    changes: ChangeInvoice,
    now: i64,
    owner_id: i32,
) -> bool {
    exists|j: int|
        0 <= j < invoices.len() && j != i && in_number_group(
            #[trigger] invoices[j],
            owner_id,
            changes.applied(invoices[i], now).client_id,
            invoices[i].created_year,
        ) && invoices[j].invoice_number@ == changes.applied(invoices[i], now).invoice_number@
}

/// One invoice row with the partial changes applied.
fn apply_invoice_changes(inv: Invoice, changes: ChangeInvoice, now: i64) -> (r: Invoice)
    ensures
        r == changes.applied(inv, now),
{
    Invoice {
        id: inv.id,
        invoice_id: inv.invoice_id,
        user_id: inv.user_id,
        client_id: match changes.client_id {
            Some(v) => v,
            None => inv.client_id,
        },
        company_id: match changes.company_id {
            Some(v) => v,
            None => inv.company_id,
        },
        invoice_number: match changes.invoice_number {
            Some(v) => v,
            None => inv.invoice_number,
        },
        description: match changes.description {
            Some(v) => v,
            None => inv.description,
        },
        currency: match changes.currency {
            Some(v) => v,
            None => inv.currency,
        },
        status: match changes.status {
            Some(v) => v,
            None => inv.status,
        },
        billing_reason: match changes.billing_reason {
            Some(v) => v,
            None => inv.billing_reason,
        },
        due_date: match changes.due_date {
            Some(v) => Some(v),
            None => inv.due_date,
        },
        invoice_date: match changes.invoice_date {
            Some(v) => Some(v),
            None => inv.invoice_date,
        },
        last_send_date: inv.last_send_date,
        amount: match changes.amount {
            Some(v) => v,
            None => inv.amount,
        },
        balance: match changes.balance {
            Some(v) => v,
            None => inv.balance,
        },
        discount: match changes.discount {
            Some(v) => v,
            None => inv.discount,
        },
        tax: match changes.tax {
            Some(v) => v,
            None => inv.tax,
        },
        created_year: inv.created_year,
        created_at: inv.created_at,
        updated_at: now,
    }
}

/// Replacing one row preserves the invoice table's well-formedness,
/// provided the row keeps its id and year, its money fields stay well
/// formed, and its number does not collide within its group.
pub proof fn lemma_invoices_ok_after_row_update(pre: Store, post: Store, idx: int)
    requires
        pre.invoices_ok(),
        0 <= idx < pre.invoices@.len(),
        post.next_invoice_id == pre.next_invoice_id,
        post.invoices@.len() == pre.invoices@.len(),
        forall|j: int|
            0 <= j < pre.invoices@.len() && j != idx ==> post.invoices@[j] == pre.invoices@[j],
        post.invoices@[idx].id == pre.invoices@[idx].id,
        post.invoices@[idx].created_year == pre.invoices@[idx].created_year,
        post.invoices@[idx].amount.inv(),
        post.invoices@[idx].balance.inv(),
        post.invoices@[idx].discount.inv(),
        post.invoices@[idx].tax.inv(),
        forall|j: int|
            0 <= j < pre.invoices@.len() && j != idx ==> !(#[trigger] post.invoices@[j].user_id
                == post.invoices@[idx].user_id && post.invoices@[j].client_id
                == post.invoices@[idx].client_id && post.invoices@[j].created_year
                == post.invoices@[idx].created_year && post.invoices@[j].invoice_number@
                == post.invoices@[idx].invoice_number@),
    ensures
        post.invoices_ok(),
{
    assert forall|i: int| 0 <= i < post.invoices@.len() implies 0 < #[trigger] post.invoices@[i].id
        < post.next_invoice_id by {
        assert(0 < pre.invoices@[i].id < pre.next_invoice_id);
    }
    assert forall|i: int, j: int| 0 <= i < j < post.invoices@.len() implies #[trigger] post.invoices@[i].id != #[trigger] post.invoices@[j].id by {
        assert(pre.invoices@[i].id != pre.invoices@[j].id);
    }
    assert forall|i: int| 0 <= i < post.invoices@.len() implies 0
        <= #[trigger] post.invoices@[i].created_year by {
        assert(0 <= pre.invoices@[i].created_year);
    }
    assert forall|i: int| 0 <= i < post.invoices@.len() implies (
    #[trigger] post.invoices@[i].amount.inv() && post.invoices@[i].balance.inv()
        && post.invoices@[i].discount.inv() && post.invoices@[i].tax.inv()) by {
        if i != idx {
            assert(post.invoices@[i] == pre.invoices@[i]);
            assert(pre.invoices@[i].amount.inv() && pre.invoices@[i].balance.inv()
                && pre.invoices@[i].discount.inv() && pre.invoices@[i].tax.inv());
        }
    }
    assert forall|i: int, j: int|
        0 <= i < j < post.invoices@.len() && #[trigger] post.invoices@[i].user_id
            == #[trigger] post.invoices@[j].user_id && post.invoices@[i].client_id
            == post.invoices@[j].client_id && post.invoices@[i].created_year
            == post.invoices@[j].created_year implies post.invoices@[i].invoice_number@
        != post.invoices@[j].invoice_number@ by {
        if i == idx {
            assert(post.invoices@[j] == pre.invoices@[j]);
        } else if j == idx {
            assert(post.invoices@[i] == pre.invoices@[i]);
        } else {
            assert(post.invoices@[i] == pre.invoices@[i]);
            assert(post.invoices@[j] == pre.invoices@[j]);
            assert(pre.invoices@[i].user_id == pre.invoices@[j].user_id
                ==> pre.invoices@[i].client_id == pre.invoices@[j].client_id
                ==> pre.invoices@[i].created_year == pre.invoices@[j].created_year
                ==> pre.invoices@[i].invoice_number@ != pre.invoices@[j].invoice_number@);
        }
    }
}

/// The index of the invoice with this id, provided it belongs to
/// `owner_id`.
fn find_invoice_index(store: &Store, primary_id: i32, owner_id: i32) -> (r: Option<usize>)
    ensures
        r is Some <==> (exists|i: int|
            0 <= i < store.invoices@.len() && invoice_addressed(
                #[trigger] store.invoices@[i],
                primary_id,
                owner_id,
            )),
        r is Some ==> ({
            &&& 0 <= r->0 < store.invoices@.len()
            &&& invoice_addressed(store.invoices@[r->0 as int], primary_id, owner_id)
        }),
{
    let mut i: usize = 0;
    while i < store.invoices.len()
        invariant
            i <= store.invoices@.len(),
            forall|j: int|
                0 <= j < i ==> !invoice_addressed(
                    #[trigger] store.invoices@[j],
                    primary_id,
                    owner_id,
                ),
        decreases store.invoices@.len() - i,
    {
        if store.invoices[i].id == primary_id && store.invoices[i].user_id == owner_id {
            return Some(i);
        }
        i = i + 1;
    }
    None
}

impl Invoice {
    /// Applies partial changes to the invoice, provided it belongs to
    /// `owner_id`: another tenant's row, or a missing one, is "not
    /// found" and nothing is written. The owner is never changeable
    /// here, and a change that would leave the number colliding within
    /// its user, client and year group is refused as a duplicate.
    #[verifier::rlimit(100)]
    #[verifier::spinoff_prover]
    pub fn update(
        store: &mut Store,
        primary_id: i32,
        owner_id: i32,
        changes: ChangeInvoice,
        now: i64,
    ) -> (r: Result<Invoice, AppError>)
        requires
            old(store).inv(),
        ensures
            final(store).inv(),
            r is Err ==> *final(store) == *old(store),
            r == Err::<Invoice, _>(AppError::NotFound) <==> !(exists|i: int|
                0 <= i < old(store).invoices@.len() && invoice_addressed(
                    #[trigger] old(store).invoices@[i],
                    primary_id,
                    owner_id,
                )),
            r == Err::<Invoice, _>(AppError::ValidationFailed) <==> (exists|i: int|
                0 <= i < old(store).invoices@.len() && invoice_addressed(
                    #[trigger] old(store).invoices@[i],
                    primary_id,
                    owner_id,
                )) && !change_decimals_ok(&changes),
            r == Err::<Invoice, _>(AppError::DuplicateInvoiceNumber) <==> change_decimals_ok(
                &changes,
            ) && (exists|i: int|
                0 <= i < old(store).invoices@.len() && invoice_addressed(
                    #[trigger] old(store).invoices@[i],
                    primary_id,
                    owner_id,
                ) && update_number_conflict(old(store).invoices@, i, changes, now, owner_id)),
            forall|i: int|
                0 <= i < old(store).invoices@.len() && invoice_addressed(
                    #[trigger] old(store).invoices@[i],
                    primary_id,
                    owner_id,
                ) && change_decimals_ok(&changes) ==> (r is Ok <==> !update_number_conflict(
                    old(store).invoices@,
                    i,
                    changes,
                    now,
                    owner_id,
                )),
            r is Ok ==> final(store).invoices@.len() == old(store).invoices@.len(),
            r is Ok ==> (forall|j: int|
                0 <= j < old(store).invoices@.len() ==> final(store).invoices@[j] == (
                if invoice_addressed(#[trigger] old(store).invoices@[j], primary_id, owner_id) {
                    changes.applied(old(store).invoices@[j], now)
                } else {
                    old(store).invoices@[j]
                })),
            r is Ok ==> (forall|j: int|
                0 <= j < old(store).invoices@.len() && invoice_addressed(
                    #[trigger] old(store).invoices@[j],
                    primary_id,
                    owner_id,
                ) ==> r->Ok_0 == changes.applied(old(store).invoices@[j], now)),
            r is Ok ==> final(store).next_invoice_id == old(store).next_invoice_id && final(store).invoice_items@ == old(store).invoice_items@ && final(store).next_item_id == old(store).next_item_id && users_same(old(store), final(store)) && emails_same(
                old(store),
                final(store),
            ) && clients_same(old(store), final(store)) && companies_same(old(store), final(store)),
            verified_monotone(old(store), final(store)),
    {
        let ghost spec_changes = changes;
        let idx = match find_invoice_index(store, primary_id, owner_id) {
            Some(i) => i,
            None => {
                return Err(AppError::NotFound);
            },
        };
        let ghost pre = *store;
        proof {
            assert forall|j: int|
                0 <= j < pre.invoices@.len() && j != idx as int && invoice_addressed(
                    #[trigger] pre.invoices@[j],
                    primary_id,
                    owner_id,
                ) implies false by {
                assert(pre.invoices@[j].id != pre.invoices@[idx as int].id);
            }
        }
        match &changes.amount {
            Some(d) => {
                if d.scale > MAX_SCALE {
                    return Err(AppError::ValidationFailed);
                }
            },
            None => {},
        }
        match &changes.balance {
            Some(d) => {
                if d.scale > MAX_SCALE {
                    return Err(AppError::ValidationFailed);
                }
            },
            None => {},
        }
        match &changes.discount {
            Some(d) => {
                if d.scale > MAX_SCALE {
                    return Err(AppError::ValidationFailed);
                }
            },
            None => {},
        }
        match &changes.tax {
            Some(d) => {
                if d.scale > MAX_SCALE {
                    return Err(AppError::ValidationFailed);
                }
            },
            None => {},
        }
        let new_client_id = match &changes.client_id {
            Some(c) => *c,
            None => store.invoices[idx].client_id,
        };
        let new_number = match &changes.invoice_number {
            Some(n) => n.clone(),
            None => store.invoices[idx].invoice_number.clone(),
        };
        let year = store.invoices[idx].created_year;
        // A collision with any other invoice of the resulting group is
        // refused before anything is written.
        let mut j: usize = 0;
        while j < store.invoices.len()
            invariant
                j <= store.invoices@.len(),
                *store == pre,
                pre == *old(store),
                pre.inv(),
                0 <= idx < pre.invoices@.len(),
                invoice_addressed(pre.invoices@[idx as int], primary_id, owner_id),
                spec_changes == changes,
                change_decimals_ok(&spec_changes),
                new_client_id == spec_changes.applied(pre.invoices@[idx as int], now).client_id,
                new_number@ == spec_changes.applied(
                    pre.invoices@[idx as int],
                    now,
                ).invoice_number@,
                year == pre.invoices@[idx as int].created_year,
                forall|t: int|
                    0 <= t < j && t != idx as int ==> !(in_number_group(
                        #[trigger] pre.invoices@[t],
                        owner_id,
                        new_client_id,
                        year,
                    ) && pre.invoices@[t].invoice_number@ == new_number@),
            decreases store.invoices@.len() - j,
        {
            if j != idx {
                let other = &store.invoices[j];
                if other.user_id == owner_id && other.client_id == new_client_id
                    && other.created_year == year && str_eq(
                    other.invoice_number.as_str(),
                    new_number.as_str(),
                ) {
                    assert(update_number_conflict(
                        pre.invoices@,
                        idx as int,
                        spec_changes,
                        now,
                        owner_id,
                    ));
                    return Err(AppError::DuplicateInvoiceNumber);
                }
            }
            j = j + 1;
        }
        let current = store.invoices[idx].clone();
        let updated = apply_invoice_changes(current, changes, now);
        let out = updated.clone();
        let row = &mut store.invoices[idx];
        *row = updated;
        assert(out == spec_changes.applied(pre.invoices@[idx as int], now));
        assert(store.invoices@ =~= pre.invoices@.update(idx as int, out));
        proof {
            assert forall|j: int|
                0 <= j < pre.invoices@.len() && j != idx as int ==> !(
                #[trigger] store.invoices@[j].user_id == store.invoices@[idx as int].user_id
                    && store.invoices@[j].client_id == store.invoices@[idx as int].client_id
                    && store.invoices@[j].created_year == store.invoices@[idx as int].created_year
                    && store.invoices@[j].invoice_number@
                    == store.invoices@[idx as int].invoice_number@) by {
                if 0 <= j < pre.invoices@.len() && j != idx as int {
                    assert(store.invoices@[j] == pre.invoices@[j]);
                    assert(!(in_number_group(pre.invoices@[j], owner_id, new_client_id, year)
                        && pre.invoices@[j].invoice_number@ == new_number@));
                }
            }
            assert(pre.invoices_ok());
            assert((idx as int) < pre.invoices@.len());
            assert(pre.invoices@[idx as int].amount.inv());
            assert(pre.invoices@[idx as int].balance.inv());
            assert(pre.invoices@[idx as int].discount.inv());
            assert(pre.invoices@[idx as int].tax.inv());
            lemma_invoices_ok_after_row_update(pre, *store, idx as int);
        }
        Ok(out)
    }

    /// Deletes the invoice, provided it belongs to `owner_id`; the
    /// count of removed rows says whether anything was. Another
    /// tenant's row is left untouched and reported as zero. Line items
    /// of a deleted invoice stay in their table.
    pub fn delete(store: &mut Store, primary_id: i32, owner_id: i32) -> (r: usize)
        requires
            old(store).inv(),
        ensures
            final(store).inv(),
            r <= 1,
            r == 1 <==> (exists|i: int|
                0 <= i < old(store).invoices@.len() && invoice_addressed(
                    #[trigger] old(store).invoices@[i],
                    primary_id,
                    owner_id,
                )),
            r == 0 ==> *final(store) == *old(store),
            r == 1 ==> (exists|i: int|
                {
                    &&& 0 <= i < old(store).invoices@.len()
                    &&& invoice_addressed(old(store).invoices@[i], primary_id, owner_id)
                    &&& final(store).invoices@ == old(store).invoices@.remove(i)
                }),
            r == 1 ==> final(store).next_invoice_id == old(store).next_invoice_id && final(store).invoice_items@ == old(store).invoice_items@ && final(store).next_item_id == old(store).next_item_id && users_same(old(store), final(store)) && emails_same(
                old(store),
                final(store),
            ) && clients_same(old(store), final(store)) && companies_same(old(store), final(store)),
            verified_monotone(old(store), final(store)),
    {
        match find_invoice_index(store, primary_id, owner_id) {
            Some(i) => {
                let _ = store.invoices.remove(i);
                1
            },
            None => 0,
        }
    }

    /// Re-sums the invoice's current line items in exact decimal
    /// arithmetic and persists the new amount. Callers invoke this
    /// after any line mutation that bypasses `create_invoice`.
    #[verifier::rlimit(80)]
    pub fn recalculate_amount(store: &mut Store, invoice_id: i32) -> (r: Result<Decimal, AppError>)
        requires
            old(store).inv(),
        ensures
            final(store).inv(),
            r is Err ==> *final(store) == *old(store),
            r == Err::<Decimal, _>(AppError::NotFound) <==> !(exists|i: int|
                0 <= i < old(store).invoices@.len() && #[trigger] old(store).invoices@[i].id
                    == invoice_id),
            r is Ok <==> (exists|i: int|
                0 <= i < old(store).invoices@.len() && #[trigger] old(store).invoices@[i].id
                    == invoice_id) && stored_items_total(old(store).invoice_items@, invoice_id)
                <= i64::MAX,
            r is Ok ==> ({
                let t = r->Ok_0;
                &&& t.inv()
                &&& t.units() == stored_items_total(old(store).invoice_items@, invoice_id)
                &&& t.units() >= 0
            }),
            r is Ok ==> final(store).invoices@.len() == old(store).invoices@.len(),
            r is Ok ==> (forall|j: int|
                0 <= j < old(store).invoices@.len() ==> final(store).invoices@[j] == (
                if old(store).invoices@[j].id == invoice_id {
                    (Invoice { amount: r->Ok_0, ..#[trigger] old(store).invoices@[j] })
                } else {
                    old(store).invoices@[j]
                })),
            r is Ok ==> final(store).next_invoice_id == old(store).next_invoice_id && final(store).invoice_items@ == old(store).invoice_items@ && final(store).next_item_id == old(store).next_item_id && users_same(old(store), final(store)) && emails_same(
                old(store),
                final(store),
            ) && clients_same(old(store), final(store)) && companies_same(old(store), final(store)),
            verified_monotone(old(store), final(store)),
    {
        let ghost pre = *store;
        let mut found: Option<usize> = None;
        let mut i: usize = 0;
        while i < store.invoices.len()
            invariant
                i <= store.invoices@.len(),
                *store == pre,
                pre == *old(store),
                pre.inv(),
                found is Some ==> 0 <= found->0 < pre.invoices@.len()
                    && pre.invoices@[found->0 as int].id == invoice_id,
                found is None ==> (forall|j: int|
                    0 <= j < i ==> #[trigger] pre.invoices@[j].id != invoice_id),
            decreases store.invoices@.len() - i,
        {
            if store.invoices[i].id == invoice_id && found.is_none() {
                found = Some(i);
            }
            i = i + 1;
        }
        let idx = match found {
            Some(i) => i,
            None => {
                return Err(AppError::NotFound);
            },
        };
        let mut total = Decimal::zero();
        let mut k: usize = 0;
        while k < store.invoice_items.len()
            invariant
                k <= store.invoice_items@.len(),
                *store == pre,
                pre == *old(store),
                pre.inv(),
                0 <= idx < pre.invoices@.len(),
                pre.invoices@[idx as int].id == invoice_id,
                total.inv(),
                total.units() == stored_items_total(
                    pre.invoice_items@.take(k as int),
                    invoice_id,
                ),
                0 <= total.units() <= i64::MAX,
            decreases store.invoice_items@.len() - k,
        {
            let it = &store.invoice_items[k];
            if it.invoice_id == invoice_id {
                let line = match it.amount.checked_mul(&it.quantity) {
                    Some(p) => p,
                    None => {
                        return Err(AppError::Internal);
                    },
                };
                proof {
                    lemma_line_units_nonneg(it.amount, it.quantity);
                }
                let next_total = match total.checked_add(&line) {
                    Some(t) => t,
                    None => {
                        proof {
                            assert(pre.invoice_items@.take(k as int + 1).drop_last()
                                =~= pre.invoice_items@.take(k as int));
                            if stored_items_total(pre.invoice_items@, invoice_id) <= i64::MAX {
                                lemma_stored_items_total_mono(
                                    pre.invoice_items@,
                                    invoice_id,
                                    k as int + 1,
                                );
                            }
                        }
                        return Err(AppError::Internal);
                    },
                };
                total = next_total;
            }
            assert(pre.invoice_items@.take(k as int + 1).drop_last() =~= pre.invoice_items@.take(
                k as int,
            ));
            k = k + 1;
        }
        assert(pre.invoice_items@.take(pre.invoice_items@.len() as int) =~= pre.invoice_items@);
        let row = &mut store.invoices[idx];
        row.amount = total;
        proof {
            assert(store.invoices@ =~= pre.invoices@.update(
                idx as int,
                (Invoice { amount: total, ..pre.invoices@[idx as int] }),
            ));
            assert forall|j: int|
                0 <= j < pre.invoices@.len() && j != idx as int && #[trigger] pre.invoices@[j].id
                    == invoice_id implies false by {
                assert(pre.invoices@[j].id != pre.invoices@[idx as int].id);
            }
            assert forall|j: int|
                0 <= j < pre.invoices@.len() && j != idx as int ==> !(
                #[trigger] store.invoices@[j].user_id == store.invoices@[idx as int].user_id
                    && store.invoices@[j].client_id == store.invoices@[idx as int].client_id
                    && store.invoices@[j].created_year == store.invoices@[idx as int].created_year
                    && store.invoices@[j].invoice_number@
                    == store.invoices@[idx as int].invoice_number@) by {
                if 0 <= j < pre.invoices@.len() && j != idx as int {
                    assert(store.invoices@[j] == pre.invoices@[j]);
                    assert(store.invoices@[idx as int].user_id == pre.invoices@[idx as int].user_id
                        && store.invoices@[idx as int].client_id == pre.invoices@[
                        idx as int].client_id && store.invoices@[idx as int].created_year
                        == pre.invoices@[idx as int].created_year && store.invoices@[
                        idx as int].invoice_number@ == pre.invoices@[idx as int].invoice_number@);
                    assert(pre.invoices@[j].user_id == pre.invoices@[idx as int].user_id
                        && pre.invoices@[j].client_id == pre.invoices@[idx as int].client_id
                        && pre.invoices@[j].created_year == pre.invoices@[idx as int].created_year
                        ==> pre.invoices@[j].invoice_number@ != pre.invoices@[
                    idx as int].invoice_number@);
                }
            }
            assert(pre.invoices_ok());
            assert((idx as int) < pre.invoices@.len());
            assert(pre.invoices@[idx as int].amount.inv());
            assert(pre.invoices@[idx as int].balance.inv());
            assert(pre.invoices@[idx as int].discount.inv());
            assert(pre.invoices@[idx as int].tax.inv());
            lemma_invoices_ok_after_row_update(pre, *store, idx as int);
        }
        Ok(total)
    }
}

impl Store {
    /// Attaches one more line item to an existing invoice, without
    /// touching the invoice's amount: this is the bypass path, and the
    /// caller follows it with `Invoice::recalculate_amount`.
    pub fn add_invoice_item(&mut self, invoice_id: i32, item: NewInvoiceItem) -> (r: Result<
        InvoiceItem,
        AppError,
    >)
        requires
            old(self).inv(),
        ensures
            final(self).inv(),
            r is Err ==> *final(self) == *old(self),
            r == Err::<InvoiceItem, _>(AppError::ValidationFailed) <==> !product_fits(
                item.amount,
                item.quantity,
            ),
            r == Err::<InvoiceItem, _>(AppError::NotFound) <==> product_fits(
                item.amount,
                item.quantity,
            ) && !(exists|i: int|
                0 <= i < old(self).invoices@.len() && #[trigger] old(self).invoices@[i].id
                    == invoice_id),
            r is Ok <==> product_fits(item.amount, item.quantity) && (exists|i: int|
                0 <= i < old(self).invoices@.len() && #[trigger] old(self).invoices@[i].id
                    == invoice_id) && old(self).next_item_id < i32::MAX,
            r is Ok ==> ({
                let row = r->Ok_0;
                &&& row.id == old(self).next_item_id
                &&& row.invoice_id == invoice_id
                &&& row.name == item.name
                &&& row.description == item.description
                &&& row.amount == item.amount
                &&& row.quantity == item.quantity
                &&& final(self).invoice_items@ == old(self).invoice_items@.push(row)
                &&& final(self).next_item_id == old(self).next_item_id + 1
                &&& final(self).invoices@ == old(self).invoices@
                &&& final(self).next_invoice_id == old(self).next_invoice_id
                &&& users_same(old(self), final(self))
                &&& emails_same(old(self), final(self))
                &&& clients_same(old(self), final(self))
                &&& companies_same(old(self), final(self))
                &&& stored_items_total(final(self).invoice_items@, invoice_id)
                    == stored_items_total(old(self).invoice_items@, invoice_id) + line_units(
                    item.amount,
                    item.quantity,
                )
            }),
            verified_monotone(old(self), final(self)),
    {
        if item.amount.scale > MAX_SCALE || item.quantity.scale > MAX_SCALE {
            return Err(AppError::ValidationFailed);
        }
        if !item.amount.is_nonneg() || !item.quantity.is_nonneg() {
            return Err(AppError::ValidationFailed);
        }
        if item.amount.checked_mul(&item.quantity).is_none() {
            proof {
                assert(item.amount.mantissa * item.quantity.mantissa >= 0) by (nonlinear_arith)
                    requires
                        item.amount.mantissa >= 0,
                        item.quantity.mantissa >= 0,
                ;
            }
            return Err(AppError::ValidationFailed);
        }
        let mut has_invoice = false;
        let mut i: usize = 0;
        while i < self.invoices.len()
            invariant
                i <= self.invoices@.len(),
                has_invoice == (exists|j: int|
                    0 <= j < i && #[trigger] self.invoices@[j].id == invoice_id),
            decreases self.invoices@.len() - i,
        {
            if self.invoices[i].id == invoice_id {
                has_invoice = true;
            }
            i = i + 1;
        }
        if !has_invoice {
            return Err(AppError::NotFound);
        }
        if self.next_item_id == i32::MAX {
            return Err(AppError::Internal);
        }
        let ghost pre = *self;
        let row = InvoiceItem {
            id: self.next_item_id,
            invoice_id,
            name: item.name,
            description: item.description,
            amount: item.amount,
            quantity: item.quantity,
        };
        let out = row.clone();
        self.invoice_items.push(row);
        self.next_item_id = self.next_item_id + 1;
        proof {
            assert(self.invoice_items@.drop_last() =~= pre.invoice_items@);
        }
        Ok(out)
    }
}

/// Whether the number is already taken within the group.
fn number_taken_exec(
    store: &Store,
    user_id: i32,
    client_id: i32,
    year: i32,
    number: &str,
) -> (r: bool)
    ensures
        r == number_taken(store.invoices@, user_id, client_id, year, number@),
{
    let mut i: usize = 0;
    while i < store.invoices.len()
        invariant
            i <= store.invoices@.len(),
            forall|j: int|
                0 <= j < i ==> !(in_number_group(
                    #[trigger] store.invoices@[j],
                    user_id,
                    client_id,
                    year,
                ) && store.invoices@[j].invoice_number@ == number@),
        decreases store.invoices@.len() - i,
    {
        let inv = &store.invoices[i];
        if inv.user_id == user_id && inv.client_id == client_id && inv.created_year == year
            && str_eq(inv.invoice_number.as_str(), number) {
            assert(in_number_group(store.invoices@[i as int], user_id, client_id, year)
                && store.invoices@[i as int].invoice_number@ == number@);
            return true;
        }
        i = i + 1;
    }
    false
}

} // verus!
