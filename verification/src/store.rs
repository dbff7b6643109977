//! The persistent store, modelled as in-memory tables.
//!
//! Every row of an owned table carries its owner's user id, and every
//! operation that reads or writes such a row filters by that id, so a
//! stray identifier can never reach another tenant's data. The store's
//! invariant keeps ids unique per table, usernames unique without
//! regard to ASCII case, and invoice numbers unique per user, client
//! and year.

use vstd::prelude::*;
use vstd::string::StringExecFns;
use vstd::string::StringSliceAdditionalSpecFns;
use vstd::utf8::encode_utf8;

use crate::credentials::{bcrypt_hash_wellformed, bcrypt_matches, hash_password, verify_password};
use crate::decimal::product_fits;
use crate::error::{AppError, AuthenticationError};
use crate::kinds::Role;
use crate::models::{
    Client, Company, Email, Invoice, InvoiceItem, User, UserChanges, UserWithPassword,
};
use crate::sys::fresh_token_string;
use crate::text::{bytes_ci_eq, str_ci_eq, str_eq};

verus! {

/// The store: one growable table per entity, with the next free id of
/// each.
pub struct Store {
    pub users: Vec<UserWithPassword>,
    pub emails: Vec<Email>,
    pub clients: Vec<Client>,
    pub companies: Vec<Company>,
    pub invoices: Vec<Invoice>,
    pub invoice_items: Vec<InvoiceItem>,
    pub next_user_id: i32,
    pub next_email_id: i32,
    pub next_client_id: i32,
    pub next_company_id: i32,
    pub next_invoice_id: i32,
    pub next_item_id: i32,
}

/// The user tables of `pre` and `post` agree.
pub open spec fn users_same(pre: &Store, post: &Store) -> bool {
    post.users@ == pre.users@ && post.next_user_id == pre.next_user_id
}

/// The email tables of `pre` and `post` agree.
pub open spec fn emails_same(pre: &Store, post: &Store) -> bool {
    post.emails@ == pre.emails@ && post.next_email_id == pre.next_email_id
}

/// The client tables of `pre` and `post` agree.
pub open spec fn clients_same(pre: &Store, post: &Store) -> bool {
    post.clients@ == pre.clients@ && post.next_client_id == pre.next_client_id
}

/// The company tables of `pre` and `post` agree.
pub open spec fn companies_same(pre: &Store, post: &Store) -> bool {
    post.companies@ == pre.companies@ && post.next_company_id == pre.next_company_id
}

/// The invoice and line-item tables of `pre` and `post` agree.
pub open spec fn invoices_same(pre: &Store, post: &Store) -> bool {
    post.invoices@ == pre.invoices@ && post.next_invoice_id == pre.next_invoice_id
        && post.invoice_items@ == pre.invoice_items@ && post.next_item_id == pre.next_item_id
}

/// Email verification never goes back: whatever was verified in `pre`
/// is verified in `post`.
pub open spec fn verified_monotone(pre: &Store, post: &Store) -> bool {
    forall|i: int|
        0 <= i < pre.emails@.len() && pre.emails@[i].verified ==> post.emails@.len()
            > i && post.emails@[i].verified
}

impl Store {
    /// Row `i` of the user table carries `username`, compared without
    /// regard to ASCII case.
    pub open spec fn user_ci_at(&self, i: int, username: &str) -> bool {
        0 <= i < self.users@.len() && bytes_ci_eq(
            encode_utf8(self.users@[i].user.username@),
            encode_utf8(username@),
        )
    }

    /// Some row of the user table carries `username`.
    pub open spec fn has_user_ci(&self, username: &str) -> bool {
        exists|i: int| self.user_ci_at(i, username)
    }

    /// Some row of the user table carries the id.
    pub open spec fn has_user_id(&self, id: i32) -> bool {
        exists|i: int| 0 <= i < self.users@.len() && self.users@[i].user.id == id
    }

    /// Some email row carries this verification token.
    pub open spec fn has_email_token(&self, token: &str) -> bool {
        exists|i: int| 0 <= i < self.emails@.len() && self.emails@[i].token@ == token@
    }

    /// Row `i` of the user table carries `username` together with a
    /// well-formed stored hash that `password` verifies against: the
    /// exact condition under which a sign-in succeeds.
    pub open spec fn credential_ok_at(&self, i: int, username: &str, password: &str) -> bool {
        &&& self.user_ci_at(i, username)
        &&& bcrypt_hash_wellformed(self.users@[i].password@)
        &&& bcrypt_matches(password@, self.users@[i].password@)
    }

    /// Well-formedness of the user table: ids unique and below the next
    /// free id, usernames unique without regard to ASCII case.
    pub open spec fn users_ok(&self) -> bool {
        &&& forall|i: int|
            0 <= i < self.users@.len() ==> 0 < #[trigger] self.users@[i].user.id
                < self.next_user_id
        &&& forall|i: int, j: int|
            0 <= i < j < self.users@.len() ==> #[trigger] self.users@[i].user.id
                != #[trigger] self.users@[j].user.id
        &&& forall|i: int, j: int|
            0 <= i < j < self.users@.len() ==> !bytes_ci_eq(
                encode_utf8(#[trigger] self.users@[i].user.username@),
                encode_utf8(#[trigger] self.users@[j].user.username@),
            )
    }

    /// Well-formedness of the email table: ids unique and below the
    /// next free id.
    pub open spec fn emails_ok(&self) -> bool {
        &&& forall|i: int|
            0 <= i < self.emails@.len() ==> 0 < #[trigger] self.emails@[i].id < self.next_email_id
        &&& forall|i: int, j: int|
            0 <= i < j < self.emails@.len() ==> #[trigger] self.emails@[i].id
                != #[trigger] self.emails@[j].id
    }

    /// Well-formedness of the client table.
    pub open spec fn clients_ok(&self) -> bool {
        &&& forall|i: int|
            0 <= i < self.clients@.len() ==> 0 < #[trigger] self.clients@[i].id
                < self.next_client_id
        &&& forall|i: int, j: int|
            0 <= i < j < self.clients@.len() ==> #[trigger] self.clients@[i].id
                != #[trigger] self.clients@[j].id
    }

    /// Well-formedness of the company table.
    pub open spec fn companies_ok(&self) -> bool {
        &&& forall|i: int|
            0 <= i < self.companies@.len() ==> 0 < #[trigger] self.companies@[i].id
                < self.next_company_id
        &&& forall|i: int, j: int|
            0 <= i < j < self.companies@.len() ==> #[trigger] self.companies@[i].id
                != #[trigger] self.companies@[j].id
    }

    /// Well-formedness of the invoice table: ids unique, years in
    /// range, money fields well formed, and the invoice number unique
    /// among the invoices of one user, client and year.
    pub open spec fn invoices_ok(&self) -> bool {
        &&& forall|i: int|
            0 <= i < self.invoices@.len() ==> 0 < #[trigger] self.invoices@[i].id
                < self.next_invoice_id
        &&& forall|i: int, j: int|
            0 <= i < j < self.invoices@.len() ==> #[trigger] self.invoices@[i].id
                != #[trigger] self.invoices@[j].id
        &&& forall|i: int|
            0 <= i < self.invoices@.len() ==> 0 <= #[trigger] self.invoices@[i].created_year
        &&& forall|i: int|
            0 <= i < self.invoices@.len() ==> (#[trigger] self.invoices@[i].amount.inv()
                && self.invoices@[i].balance.inv() && self.invoices@[i].discount.inv()
                && self.invoices@[i].tax.inv())
        &&& forall|i: int, j: int|
            0 <= i < j < self.invoices@.len() && #[trigger] self.invoices@[i].user_id
                == #[trigger] self.invoices@[j].user_id && self.invoices@[i].client_id
                == self.invoices@[j].client_id && self.invoices@[i].created_year
                == self.invoices@[j].created_year ==> self.invoices@[i].invoice_number@
                != self.invoices@[j].invoice_number@
    }

    /// Well-formedness of the line-item table: ids unique, and each
    /// item's unit price and quantity non-negative with an exactly
    /// representable product.
    pub open spec fn items_ok(&self) -> bool {
        &&& forall|i: int|
            0 <= i < self.invoice_items@.len() ==> 0 < #[trigger] self.invoice_items@[i].id
                < self.next_item_id
        &&& forall|i: int, j: int|
            0 <= i < j < self.invoice_items@.len() ==> #[trigger] self.invoice_items@[i].id
                != #[trigger] self.invoice_items@[j].id
        &&& forall|i: int|
            0 <= i < self.invoice_items@.len() ==> product_fits(
                #[trigger] self.invoice_items@[i].amount,
                self.invoice_items@[i].quantity,
            )
    }

    /// The store's invariant: every constructor establishes it and
    /// every operation preserves it.
    pub open spec fn inv(&self) -> bool {
        &&& self.next_user_id >= 1
        &&& self.next_email_id >= 1
        &&& self.next_client_id >= 1
        &&& self.next_company_id >= 1
        &&& self.next_invoice_id >= 1
        &&& self.next_item_id >= 1
        &&& self.users_ok()
        &&& self.emails_ok()
        &&& self.clients_ok()
        &&& self.companies_ok()
        &&& self.invoices_ok()
        &&& self.items_ok()
    }

    /// An empty store.
    pub fn new() -> (r: Store)
        ensures
            r.inv(),
            r.users@.len() == 0,
            r.emails@.len() == 0,
            r.clients@.len() == 0,
            r.companies@.len() == 0,
            r.invoices@.len() == 0,
            r.invoice_items@.len() == 0,
    {
        Store {
            users: Vec::new(),
            emails: Vec::new(),
            clients: Vec::new(),
            companies: Vec::new(),
            invoices: Vec::new(),
            invoice_items: Vec::new(),
            next_user_id: 1,
            next_email_id: 1,
            next_client_id: 1,
            next_company_id: 1,
            next_invoice_id: 1,
            next_item_id: 1,
        }
    }

    /// The row index carrying `username`, without regard to ASCII case.
    fn find_user_index_ci(&self, username: &str) -> (r: Option<usize>)
        ensures
            r is Some <==> self.has_user_ci(username),
            r is Some ==> self.user_ci_at(r->0 as int, username),
    {
        let mut i: usize = 0;
        while i < self.users.len()
            invariant
                i <= self.users@.len(),
                forall|j: int| 0 <= j < i ==> !self.user_ci_at(j, username),
            decreases self.users@.len() - i,
        {
            if str_ci_eq(self.users[i].user.username.as_str(), username) {
                assert(self.user_ci_at(i as int, username));
                return Some(i);
            }
            i = i + 1;
        }
        None
    }

    /// The row index carrying the user id.
    fn find_user_index_by_id(&self, id: i32) -> (r: Option<usize>)
        ensures
            r is Some <==> self.has_user_id(id),
            r is Some ==> 0 <= r->0 < self.users@.len() && self.users@[r->0 as int].user.id == id,
    {
        let mut i: usize = 0;
        while i < self.users.len()
            invariant
                i <= self.users@.len(),
                forall|j: int| 0 <= j < i ==> #[trigger] self.users@[j].user.id != id,
            decreases self.users@.len() - i,
        {
            if self.users[i].user.id == id {
                return Some(i);
            }
            i = i + 1;
        }
        None
    }

    /// Registers a user: stores the hashed credential and attaches an
    /// unverified email record with a fresh verification token. The
    /// returned token is handed to the mail worker; a failure to send
    /// mail never affects registration. Usernames are unique without
    /// regard to ASCII case.
    pub fn register_user(
        &mut self,
        username: &str,
        email_addr: &str,
        password: &str,
        role: Role,
        now: i64,
    ) -> (r: Result<(User, String), AuthenticationError>)
        requires
            old(self).inv(),
        ensures
            final(self).inv(),
            username@.len() == 0 ==> r == Err::<(User, String), _>(
                AuthenticationError::NoUsernameSet,
            ),
            username@.len() > 0 && password@.len() == 0 ==> r == Err::<(User, String), _>(
                AuthenticationError::NoPasswordSet,
            ),
            username@.len() > 0 && password@.len() > 0 && old(self).has_user_ci(username) ==> r
                == Err::<(User, String), _>(AuthenticationError::UsernameTaken),
            username@.len() > 0 && password@.len() > 0 && !old(self).has_user_ci(username) && old(
                self,
            ).next_user_id < i32::MAX && old(self).next_email_id < i32::MAX ==> r is Ok || r
                == Err::<(User, String), _>(AuthenticationError::Internal),
            r is Err ==> *final(self) == *old(self),
            r is Ok ==> ({
                let u = r->Ok_0.0;
                &&& username@.len() > 0 && password@.len() > 0
                &&& !old(self).has_user_ci(username)
                &&& u.id == old(self).next_user_id
                &&& u.role == role
                &&& u.username@ == username@
                &&& u.profile_name@ == Seq::<char>::empty()
                &&& u.profile_image@ == Seq::<char>::empty()
                &&& u.last_sign_in_at is None
                &&& u.joined_at == now
                &&& u.updated_at == now
                &&& final(self).users@ == old(self).users@.push(final(self).users@.last())
                &&& final(self).users@.last().user == u
                &&& bcrypt_hash_wellformed(final(self).users@.last().password@)
                &&& bcrypt_matches(password@, final(self).users@.last().password@)
                &&& final(self).next_user_id == old(self).next_user_id + 1
                &&& final(self).emails@ == old(self).emails@.push(final(self).emails@.last())
                &&& final(self).emails@.last().id == old(self).next_email_id
                &&& final(self).emails@.last().user_id == u.id
                &&& final(self).emails@.last().email@ == email_addr@
                &&& final(self).emails@.last().token@ == r->Ok_0.1@
                &&& !final(self).emails@.last().verified
                &&& final(self).emails@.last().token_generated_at == now
                &&& final(self).next_email_id == old(self).next_email_id + 1
                &&& clients_same(old(self), final(self))
                &&& companies_same(old(self), final(self))
                &&& invoices_same(old(self), final(self))
            }),
            verified_monotone(old(self), final(self)),
    {
        if username.is_empty() {
            return Err(AuthenticationError::NoUsernameSet);
        }
        if password.is_empty() {
            return Err(AuthenticationError::NoPasswordSet);
        }
        if self.find_user_index_ci(username).is_some() {
            return Err(AuthenticationError::UsernameTaken);
        }
        if self.next_user_id == i32::MAX || self.next_email_id == i32::MAX {
            return Err(AuthenticationError::Internal);
        }
        let hashed = match hash_password(password) {
            Ok(h) => h,
            Err(_) => {
                return Err(AuthenticationError::Internal);
            },
        };
        let user = User {
            id: self.next_user_id,
            role,
            username: username.to_owned(),
            profile_name: String::new(),
            profile_image: String::new(),
            last_sign_in_at: None,
            joined_at: now,
            updated_at: now,
        };
        let token = fresh_token_string();
        let email_row = Email {
            id: self.next_email_id,
            user_id: user.id,
            email: email_addr.to_owned(),
            token: token.clone(),
            verified: false,
            token_generated_at: now,
        };
        let out = user.clone();
        self.users.push(UserWithPassword { user, password: hashed });
        self.next_user_id = self.next_user_id + 1;
        self.emails.push(email_row);
        self.next_email_id = self.next_email_id + 1;
        proof {
            let pre = *old(self);
            assert forall|i: int, j: int| 0 <= i < j < self.users@.len() implies !bytes_ci_eq(
                encode_utf8(self.users@[i].user.username@),
                encode_utf8(self.users@[j].user.username@),
            ) by {
                if j == self.users@.len() - 1 {
                    assert(!pre.user_ci_at(i, username));
                    assert(self.users@[j].user.username@ == username@);
                } else {
                    assert(pre.users_ok());
                }
            }
        }
        Ok((out, token))
    }

    /// Checks a credential pair and, on success, records the sign-in
    /// time. An unknown username still pays for a hash computation, and
    /// comes back as the very error a wrong password does: the outcome
    /// does not betray whether the username exists.
    pub fn authenticate(&mut self, username: &str, password: &str, now: i64) -> (r: Result<
        User,
        AuthenticationError,
    >)
        requires
            old(self).inv(),
        ensures
            final(self).inv(),
            r is Err ==> r->Err_0 == AuthenticationError::IncorrectPassword && *final(self) == *old(
                self,
            ),
            !old(self).has_user_ci(username) ==> r is Err,
            r is Ok <==> (exists|i: int| old(self).credential_ok_at(i, username, password)),
            r is Ok ==> (exists|i: int|
                {
                    &&& old(self).credential_ok_at(i, username, password)
                    &&& r->Ok_0 == (User {
                        last_sign_in_at: Some(now),
                        ..old(self).users@[i].user
                    })
                    &&& final(self).users@ == old(self).users@.update(
                        i,
                        UserWithPassword { user: r->Ok_0, password: old(self).users@[i].password },
                    )
                }),
            r is Ok ==> final(self).next_user_id == old(self).next_user_id && emails_same(
                old(self),
                final(self),
            ) && clients_same(old(self), final(self)) && companies_same(old(self), final(self))
                && invoices_same(old(self), final(self)),
            verified_monotone(old(self), final(self)),
    {
        match self.find_user_index_ci(username) {
            None => {
                // Pay for a hash anyway, so latency does not reveal
                // whether the username exists.
                let _ = hash_password(password);
                proof {
                    assert forall|j: int|
                        old(self).credential_ok_at(j, username, password) implies false by {
                        assert(old(self).user_ci_at(j, username));
                    }
                }
                Err(AuthenticationError::IncorrectPassword)
            },
            Some(i) => {
                if verify_password(password, self.users[i].password.as_str()) {
                    assert(old(self).credential_ok_at(i as int, username, password));
                    let ghost pre = *self;
                    let row = &mut self.users[i];
                    row.user.last_sign_in_at = Some(now);
                    let u = row.user.clone();
                    assert(self.users@ =~= pre.users@.update(
                        i as int,
                        UserWithPassword { user: u, password: pre.users@[i as int].password },
                    ));
                    Ok(u)
                } else {
                    proof {
                        // The username names at most one row, so the
                        // rejected row was the only candidate.
                        assert forall|j: int|
                            old(self).credential_ok_at(j, username, password) implies false by {
                            if j < i as int {
                                crate::text::lemma_bytes_ci_eq_trans(
                                    encode_utf8(old(self).users@[j].user.username@),
                                    encode_utf8(old(self).users@[i as int].user.username@),
                                    encode_utf8(username@),
                                );
                            } else if j > i as int {
                                crate::text::lemma_bytes_ci_eq_trans(
                                    encode_utf8(old(self).users@[i as int].user.username@),
                                    encode_utf8(old(self).users@[j].user.username@),
                                    encode_utf8(username@),
                                );
                            }
                        }
                    }
                    Err(AuthenticationError::IncorrectPassword)
                }
            },
        }
    }

    /// Whether a registration submission is acceptable at the edge:
    /// the username at least five bytes, the password at least eight,
    /// and the confirmation equal to it.
    pub fn registration_input_ok(username: &str, password1: &str, password2: &str) -> (r: bool)
        ensures
            r <==> username.spec_bytes().len() >= 5 && password1.spec_bytes().len() >= 8
                && password1@ == password2@,
    {
        username.as_bytes().len() >= 5 && password1.as_bytes().len() >= 8 && str_eq(
            password1,
            password2,
        )
    }

    /// The user with this id, without the credential.
    pub fn find_user(&self, id: i32) -> (r: Option<User>)
        ensures
            r is Some <==> self.has_user_id(id),
            r is Some ==> (exists|i: int|
                0 <= i < self.users@.len() && #[trigger] self.users@[i].user.id == id
                    && r->0 == self.users@[i].user),
    {
        match self.find_user_index_by_id(id) {
            Some(i) => Some(self.users[i].user.clone()),
            None => None,
        }
    }

    /// Applies partial changes to a user's editable fields.
    pub fn update_user(&mut self, user_id: i32, changes: UserChanges, now: i64) -> (r: Result<
        User,
        AppError,
    >)
        requires
            old(self).inv(),
        ensures
            final(self).inv(),
            r is Ok <==> old(self).has_user_id(user_id),
            r is Err ==> r->Err_0 == AppError::NotFound && *final(self) == *old(self),
            r is Ok ==> (exists|i: int|
                {
                    &&& 0 <= i < old(self).users@.len()
                    &&& old(self).users@[i].user.id == user_id
                    &&& r->Ok_0 == apply_user_changes(old(self).users@[i].user, &changes, now)
                    &&& final(self).users@ == old(self).users@.update(
                        i,
                        UserWithPassword { user: r->Ok_0, password: old(self).users@[i].password },
                    )
                }),
            r is Ok ==> final(self).next_user_id == old(self).next_user_id && emails_same(
                old(self),
                final(self),
            ) && clients_same(old(self), final(self)) && companies_same(old(self), final(self))
                && invoices_same(old(self), final(self)),
            verified_monotone(old(self), final(self)),
    {
        match self.find_user_index_by_id(user_id) {
            None => Err(AppError::NotFound),
            Some(i) => {
                let ghost pre = *self;
                let ghost spec_changes = changes;
                let row = &mut self.users[i];
                match changes.role {
                    Some(role) => {
                        row.user.role = role;
                    },
                    None => {},
                }
                match changes.profile_name {
                    Some(name) => {
                        row.user.profile_name = name;
                    },
                    None => {},
                }
                match changes.profile_image {
                    Some(image) => {
                        row.user.profile_image = image;
                    },
                    None => {},
                }
                row.user.updated_at = now;
                let u = row.user.clone();
                assert(u == apply_user_changes(pre.users@[i as int].user, &spec_changes, now));
                assert(self.users@ =~= pre.users@.update(
                    i as int,
                    UserWithPassword { user: u, password: pre.users@[i as int].password },
                ));
                Ok(u)
            },
        }
    }

    /// Marks every email carrying this token as verified. Verification
    /// is monotone: nothing here or elsewhere ever clears the flag, and
    /// a second call with the same token finds the token still present
    /// and succeeds again.
    pub fn verify_email_with_token(&mut self, token: &str) -> (r: bool)
        requires
            old(self).inv(),
        ensures
            final(self).inv(),
            r == old(self).has_email_token(token),
            final(self).emails@.len() == old(self).emails@.len(),
            forall|i: int|
                0 <= i < old(self).emails@.len() ==> final(self).emails@[i] == confirm_one(
                    old(self).emails@[i],
                    token,
                ),
            final(self).next_email_id == old(self).next_email_id,
            users_same(old(self), final(self)),
            clients_same(old(self), final(self)),
            companies_same(old(self), final(self)),
            invoices_same(old(self), final(self)),
            verified_monotone(old(self), final(self)),
    {
        let mut found = false;
        let mut i: usize = 0;
        let ghost pre = *self;
        while i < self.emails.len()
            invariant
                pre.inv(),
                pre == *old(self),
                i <= self.emails@.len(),
                self.emails@.len() == pre.emails@.len(),
                found == (exists|j: int|
                    0 <= j < i && #[trigger] pre.emails@[j].token@ == token@),
                forall|j: int| 0 <= j < i ==> self.emails@[j] == confirm_one(pre.emails@[j], token),
                forall|j: int| i <= j < pre.emails@.len() ==> self.emails@[j] == pre.emails@[j],
                users_same(&pre, self),
                clients_same(&pre, self),
                companies_same(&pre, self),
                invoices_same(&pre, self),
                self.next_email_id == pre.next_email_id,
            decreases self.emails@.len() - i,
        {
            if str_eq(self.emails[i].token.as_str(), token) {
                found = true;
                assert(pre.emails@[i as int].token@ == token@);
                let row = &mut self.emails[i];
                row.verified = true;
            }
            i = i + 1;
        }
        found
    }

    /// The first email row of a user, if any.
    fn find_email_index_by_user(&self, user_id: i32) -> (r: Option<usize>)
        ensures
            r is Some <==> (exists|i: int|
                0 <= i < self.emails@.len() && #[trigger] self.emails@[i].user_id == user_id),
            r is Some ==> ({
                &&& 0 <= r->0 < self.emails@.len()
                &&& self.emails@[r->0 as int].user_id == user_id
                &&& forall|j: int| 0 <= j < r->0 ==> #[trigger] self.emails@[j].user_id != user_id
            }),
    {
        let mut i: usize = 0;
        while i < self.emails.len()
            invariant
                i <= self.emails@.len(),
                forall|j: int| 0 <= j < i ==> #[trigger] self.emails@[j].user_id != user_id,
            decreases self.emails@.len() - i,
        {
            if self.emails[i].user_id == user_id {
                return Some(i);
            }
            i = i + 1;
        }
        None
    }

    /// Replaces the verification token of the user's first email with a
    /// fresh one and hands back what the mail worker needs to resend
    /// the confirmation. Yields nothing when the user or the email row
    /// is missing. The verified flag is left untouched.
    pub fn regenerate_email_token_and_send(&mut self, user_id: i32, now: i64) -> (r: Option<
        (String, String, String),
    >)
        requires
            old(self).inv(),
        ensures
            final(self).inv(),
            r is Some <==> old(self).has_user_id(user_id) && (exists|i: int|
                0 <= i < old(self).emails@.len() && #[trigger] old(self).emails@[i].user_id
                    == user_id),
            r is None ==> *final(self) == *old(self),
            r is Some ==> (exists|i: int|
                {
                    &&& 0 <= i < old(self).emails@.len()
                    &&& old(self).emails@[i].user_id == user_id
                    &&& final(self).emails@ == old(self).emails@.update(
                        i,
                        final(self).emails@[i],
                    )
                    &&& final(self).emails@[i].id == old(self).emails@[i].id
                    &&& final(self).emails@[i].user_id == user_id
                    &&& final(self).emails@[i].email@ == old(self).emails@[i].email@
                    &&& final(self).emails@[i].verified == old(self).emails@[i].verified
                    &&& final(self).emails@[i].token_generated_at == now
                    &&& (r->0).0@ == old(self).emails@[i].email@
                    &&& (r->0).2@ == final(self).emails@[i].token@
                }),
            r is Some ==> users_same(old(self), final(self)) && clients_same(
                old(self),
                final(self),
            ) && companies_same(old(self), final(self)) && invoices_same(old(self), final(self))
                && final(self).next_email_id == old(self).next_email_id,
            r is Some ==> (exists|i: int|
                0 <= i < old(self).users@.len() && #[trigger] old(self).users@[i].user.id
                    == user_id && (r->0).1@ == old(self).users@[i].user.username@),
            verified_monotone(old(self), final(self)),
    {
        let user = match self.find_user_index_by_id(user_id) {
            Some(i) => self.users[i].user.clone(),
            None => {
                return None;
            },
        };
        match self.find_email_index_by_user(user_id) {
            None => None,
            Some(i) => {
                let ghost pre = *self;
                let token = fresh_token_string();
                let row = &mut self.emails[i];
                row.token = token.clone();
                row.token_generated_at = now;
                let recipient = row.email.clone();
                assert(self.emails@ =~= pre.emails@.update(i as int, self.emails@[i as int]));
                Some((recipient, user.username, token))
            },
        }
    }

    /// The first verified email address of a user, if any.
    pub fn user_verified_email(&self, user_id: i32) -> (r: Option<String>)
        ensures
            r is Some <==> (exists|i: int|
                0 <= i < self.emails@.len() && #[trigger] self.emails@[i].user_id == user_id
                    && self.emails@[i].verified),
            r is Some ==> (exists|i: int|
                {
                    &&& 0 <= i < self.emails@.len()
                    &&& #[trigger] self.emails@[i].user_id == user_id
                    &&& self.emails@[i].verified
                    &&& r->0@ == self.emails@[i].email@
                    &&& forall|j: int|
                        0 <= j < i ==> !(#[trigger] self.emails@[j].user_id == user_id
                            && self.emails@[j].verified)
                }),
    {
        let mut i: usize = 0;
        while i < self.emails.len()
            invariant
                i <= self.emails@.len(),
                forall|j: int|
                    0 <= j < i ==> !(#[trigger] self.emails@[j].user_id == user_id
                        && self.emails@[j].verified),
            decreases self.emails@.len() - i,
        {
            if self.emails[i].user_id == user_id && self.emails[i].verified {
                return Some(self.emails[i].email.clone());
            }
            i = i + 1;
        }
        None
    }

    /// The first email address of a user, verified or not, if any.
    pub fn user_email(&self, user_id: i32) -> (r: Option<String>)
        ensures
            r is Some <==> (exists|i: int|
                0 <= i < self.emails@.len() && #[trigger] self.emails@[i].user_id == user_id),
            r is Some ==> (exists|i: int|
                {
                    &&& 0 <= i < self.emails@.len()
                    &&& #[trigger] self.emails@[i].user_id == user_id
                    &&& r->0@ == self.emails@[i].email@
                    &&& forall|j: int| 0 <= j < i ==> #[trigger] self.emails@[j].user_id != user_id
                }),
    {
        match self.find_email_index_by_user(user_id) {
            Some(i) => Some(self.emails[i].email.clone()),
            None => None,
        }
    }
}

/// A user with partial changes applied; the sign-in time is untouched.
pub open spec fn apply_user_changes(u: User, changes: &UserChanges, now: i64) -> User {
    User {
        role: if changes.role is Some {
            changes.role->0
        } else {
            u.role
        },
        profile_name: if changes.profile_name is Some {
            changes.profile_name->0
        } else {
            u.profile_name
        },
        profile_image: if changes.profile_image is Some {
            changes.profile_image->0
        } else {
            u.profile_image
        },
        updated_at: now,
        ..u
    }
}

/// An email row after a confirmation attempt with `token`: the
/// verified flag is set where the token matches and never cleared.
pub open spec fn confirm_one(e: Email, token: &str) -> Email {
    Email { verified: e.verified || e.token@ == token@, ..e }
}

} // verus!
