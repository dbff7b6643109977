//! Laws of the library that span several operations, stated and
//! proved over the same spec functions the operations' contracts use.

use vstd::prelude::*;

use crate::invoicing::count_in_group;
use crate::store::{confirm_one, Store};
use crate::text::{
    dec_digits, digits_val, invoice_number_seq, lemma_invoice_numbers_distinct,
    lemma_pad3_val_round_trip, pad3_digits,
};

verus! {

/// The first auto-generated invoice number of a user, client and year
/// ends in the sequence value one: `"{year}/001"`.
pub proof fn law_first_auto_number_is_001(year: nat)
    ensures
        invoice_number_seq(year, 1) == dec_digits(year) + seq!['/', '0', '0', '1'],
{
    assert(invoice_number_seq(year, 1) =~= dec_digits(year) + seq!['/', '0', '0', '1']);
}

/// Auto-generated invoice numbers within one user, client and year
/// are strictly increasing: each creation's sequence value is one
/// past the group's count, the count grows by one per creation, and
/// rendering keeps distinct sequence values distinct. The three
/// stores are the states before the first creation, between the two,
/// and the numbers are what the two creations generate.
pub proof fn law_auto_numbers_strictly_increase(
    s0: Store,
    s1: Store,
    user_id: i32,
    client_id: i32,
    year: i32,
    n1: Seq<char>,
    n2: Seq<char>,
)
    requires
        0 <= year,
        n1 == invoice_number_seq(
            year as nat,
            count_in_group(s0.invoices@, user_id, client_id, year) + 1,
        ),
        count_in_group(s1.invoices@, user_id, client_id, year) == count_in_group(
            s0.invoices@,
            user_id,
            client_id,
            year,
        ) + 1,
        n2 == invoice_number_seq(
            year as nat,
            count_in_group(s1.invoices@, user_id, client_id, year) + 1,
        ),
    ensures
        n1 != n2,
        ({
            // The sequence value can be read back out of each rendered
            // number, and it strictly increases from one creation to
            // the next.
            let c0 = count_in_group(s0.invoices@, user_id, client_id, year);
            let head = dec_digits(year as nat).len() + 1;
            &&& digits_val(n1.subrange(head as int, n1.len() as int)) == c0 + 1
            &&& digits_val(n2.subrange(head as int, n2.len() as int)) == c0 + 2
            &&& digits_val(n1.subrange(head as int, n1.len() as int)) < digits_val(
                n2.subrange(head as int, n2.len() as int),
            )
        }),
{
    let c0 = count_in_group(s0.invoices@, user_id, client_id, year);
    lemma_invoice_numbers_distinct(year as nat, c0 + 1, c0 + 2);
    let head = dec_digits(year as nat).len() + 1;
    assert(n1.subrange(head as int, n1.len() as int) =~= pad3_digits(c0 + 1));
    assert(n2.subrange(head as int, n2.len() as int) =~= pad3_digits(c0 + 2));
    lemma_pad3_val_round_trip(c0 + 1);
    lemma_pad3_val_round_trip(c0 + 2);
}

/// Email confirmation is idempotent and monotone: a second
/// confirmation with the same token changes nothing further, a token
/// present before a confirmation is still present after it, and so a
/// token that confirmed once reports success again. The three stores
/// are the states before the first confirmation, between the two, and
/// after the second.
pub proof fn law_confirm_email_idempotent(pre: Store, mid: Store, post: Store, token: &str)
    requires
        mid.emails@.len() == pre.emails@.len(),
        forall|i: int|
            0 <= i < pre.emails@.len() ==> mid.emails@[i] == confirm_one(pre.emails@[i], token),
        post.emails@.len() == mid.emails@.len(),
        forall|i: int|
            0 <= i < mid.emails@.len() ==> post.emails@[i] == confirm_one(mid.emails@[i], token),
    ensures
        post.emails@ == mid.emails@,
        pre.has_email_token(token) ==> mid.has_email_token(token) && post.has_email_token(token),
        forall|i: int|
            0 <= i < pre.emails@.len() && pre.emails@[i].verified ==> mid.emails@[i].verified
                && post.emails@[i].verified,
{
    assert(post.emails@ =~= mid.emails@);
    if pre.has_email_token(token) {
        let w = choose|i: int|
            0 <= i < pre.emails@.len() && #[trigger] pre.emails@[i].token@ == token@;
        assert(mid.emails@[w] == confirm_one(pre.emails@[w], token));
        assert(mid.emails@[w].token@ == token@);
        assert(post.emails@[w].token@ == token@);
    }
}

} // verus!
