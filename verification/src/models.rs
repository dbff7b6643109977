//! The persisted entities: users, emails, clients, companies, invoices
//! and invoice line items, with their insert- and change-sets.

use vstd::prelude::*;

use crate::decimal::Decimal;
use crate::kinds::{BillingReason, InvoiceStatus, Role};

verus! {

/// A user, as handed outward: the password hash is not part of it.
#[derive(Debug)]
pub struct User {
    pub id: i32,
    pub role: Role,
    pub username: String,
    pub profile_name: String,
    pub profile_image: String,
    pub last_sign_in_at: Option<i64>,
    pub joined_at: i64,
    pub updated_at: i64,
}

impl Clone for User {
    fn clone(&self) -> (r: Self)
        ensures
            r == *self,
    {
        User {
            id: self.id,
            role: self.role,
            username: self.username.clone(),
            profile_name: self.profile_name.clone(),
            profile_image: self.profile_image.clone(),
            last_sign_in_at: self.last_sign_in_at,
            joined_at: self.joined_at,
            updated_at: self.updated_at,
        }
    }
}

/// A user row together with its credential, as the store keeps it.
#[derive(Debug)]
pub struct UserWithPassword {
    pub user: User,
    pub password: String,
}

/// Partial changes to a user's editable fields.
#[derive(Debug)]
pub struct UserChanges {
    pub role: Option<Role>,
    pub profile_name: Option<String>,
    pub profile_image: Option<String>,
}

/// An email address attached to a user, with its verification state.
#[derive(Debug)]
pub struct Email {
    pub id: i32,
    pub user_id: i32,
    pub email: String,
    pub token: String,
    pub verified: bool,
    pub token_generated_at: i64,
}

impl Clone for Email {
    fn clone(&self) -> (r: Self)
        ensures
            r == *self,
    {
        Email {
            id: self.id,
            user_id: self.user_id,
            email: self.email.clone(),
            token: self.token.clone(),
            verified: self.verified,
            token_generated_at: self.token_generated_at,
        }
    }
}

/// An email record to be attached to a user.
#[derive(Debug)]
pub struct NewEmail {
    pub user_id: i32,
    pub email: String,
}

/// A client of a user: the party an invoice is billed to.
#[derive(Debug)]
pub struct Client {
    pub id: i32,
    pub user_id: i32,
    pub name: String,
    pub email: String,
    pub company_name: String,
    pub address_1: String,
    pub address_2: String,
    pub city: String,
    pub state: String,
    pub zip_code: String,
    pub country: String,
    pub website: String,
    pub notes: String,
    pub created_at: i64,
    pub updated_at: i64,
}

impl Clone for Client {
    fn clone(&self) -> (r: Self)
        ensures
            r == *self,
    {
        Client {
            id: self.id,
            user_id: self.user_id,
            name: self.name.clone(),
            email: self.email.clone(),
            company_name: self.company_name.clone(),
            address_1: self.address_1.clone(),
            address_2: self.address_2.clone(),
            city: self.city.clone(),
            state: self.state.clone(),
            zip_code: self.zip_code.clone(),
            country: self.country.clone(),
            website: self.website.clone(),
            notes: self.notes.clone(),
            created_at: self.created_at,
            updated_at: self.updated_at,
        }
    }
}

/// The fields of a client to be created.
#[derive(Debug)]
pub struct NewClient {
    pub user_id: i32,
    pub name: String,
    pub email: String,
    pub company_name: String,
    pub address_1: String,
    pub address_2: String,
    pub city: String,
    pub state: String,
    pub zip_code: String,
    pub country: String,
    pub website: String,
    pub notes: String,
}

/// Partial changes to a client. The owning user is not changeable.
#[derive(Debug)]
pub struct ChangeClient {
    pub name: Option<String>,
    pub email: Option<String>,
    pub company_name: Option<String>,
    pub address_1: Option<String>,
    pub address_2: Option<String>,
    pub city: Option<String>,
    pub state: Option<String>,
    pub zip_code: Option<String>,
    pub country: Option<String>,
    pub website: Option<String>,
    pub notes: Option<String>,
}

/// The short form of a client, as listings return it.
#[derive(Debug)]
pub struct CompactClient {
    pub id: i32,
    pub name: String,
    pub email: String,
    pub company_name: String,
    pub created_at: i64,
    pub updated_at: i64,
}

impl Clone for CompactClient {
    fn clone(&self) -> (r: Self)
        ensures
            r == *self,
    {
        CompactClient {
            id: self.id,
            name: self.name.clone(),
            email: self.email.clone(),
            company_name: self.company_name.clone(),
            created_at: self.created_at,
            updated_at: self.updated_at,
        }
    }
}

/// A company of a user: the party an invoice is billed from.
#[derive(Debug)]
pub struct Company {
    pub id: i32,
    pub user_id: i32,
    pub name: String,
    pub address_1: String,
    pub address_2: String,
    pub city: String,
    pub state: String,
    pub zip_code: String,
    pub country: String,
    pub created_at: i64,
    pub updated_at: i64,
}

impl Clone for Company {
    fn clone(&self) -> (r: Self)
        ensures
            r == *self,
    {
        Company {
            id: self.id,
            user_id: self.user_id,
            name: self.name.clone(),
            address_1: self.address_1.clone(),
            address_2: self.address_2.clone(),
            city: self.city.clone(),
            state: self.state.clone(),
            zip_code: self.zip_code.clone(),
            country: self.country.clone(),
            created_at: self.created_at,
            updated_at: self.updated_at,
        }
    }
}

/// The fields of a company to be created.
#[derive(Debug)]
pub struct NewCompany {
    pub user_id: i32,
    pub name: String,
    pub address_1: String,
    pub address_2: String,
    pub city: String,
    pub state: String,
    pub zip_code: String,
    pub country: String,
}

/// Partial changes to a company. The owning user is not changeable.
#[derive(Debug)]
pub struct ChangeCompany {
    pub name: Option<String>,
    pub address_1: Option<String>,
    pub address_2: Option<String>,
    pub city: Option<String>,
    pub state: Option<String>,
    pub zip_code: Option<String>,
    pub country: Option<String>,
}

/// The short form of a company, as listings return it.
#[derive(Debug)]
pub struct CompactCompany {
    pub id: i32,
    pub name: String,
    pub created_at: i64,
    pub updated_at: i64,
}

impl Clone for CompactCompany {
    fn clone(&self) -> (r: Self)
        ensures
            r == *self,
    {
        CompactCompany {
            id: self.id,
            name: self.name.clone(),
            created_at: self.created_at,
            updated_at: self.updated_at,
        }
    }
}

/// An invoice. `amount` carries the exact sum of the line items as of
/// the last creation or recalculation.
#[derive(Debug)]
pub struct Invoice {
    pub id: i32,
    pub invoice_id: u128,
    pub user_id: i32,
    pub client_id: i32,
    pub company_id: i32,
    pub invoice_number: String,
    pub description: String,
    pub currency: String,
    pub status: InvoiceStatus,
    pub billing_reason: BillingReason,
    pub due_date: Option<i64>,
    pub invoice_date: Option<i64>,
    pub last_send_date: Option<i64>,
    pub amount: Decimal,
    pub balance: Decimal,
    pub discount: Decimal,
    pub tax: Decimal,
    pub created_year: i32,
    pub created_at: i64,
    pub updated_at: i64,
}

impl Clone for Invoice {
    fn clone(&self) -> (r: Self)
        ensures
            r == *self,
    {
        Invoice {
            id: self.id,
            invoice_id: self.invoice_id,
            user_id: self.user_id,
            client_id: self.client_id,
            company_id: self.company_id,
            invoice_number: self.invoice_number.clone(),
            description: self.description.clone(),
            currency: self.currency.clone(),
            status: self.status,
            billing_reason: self.billing_reason,
            due_date: self.due_date,
            invoice_date: self.invoice_date,
            last_send_date: self.last_send_date,
            amount: self.amount,
            balance: self.balance,
            discount: self.discount,
            tax: self.tax,
            created_year: self.created_year,
            created_at: self.created_at,
            updated_at: self.updated_at,
        }
    }
}

/// A line item of an invoice: a unit price and a quantity.
#[derive(Debug)]
pub struct InvoiceItem {
    pub id: i32,
    pub invoice_id: i32,
    pub name: String,
    pub description: String,
    pub amount: Decimal,
    pub quantity: Decimal,
}

impl Clone for InvoiceItem {
    fn clone(&self) -> (r: Self)
        ensures
            r == *self,
    {
        InvoiceItem {
            id: self.id,
            invoice_id: self.invoice_id,
            name: self.name.clone(),
            description: self.description.clone(),
            amount: self.amount,
            quantity: self.quantity,
        }
    }
}

/// A line item to be attached to an invoice.
#[derive(Debug)]
pub struct NewInvoiceItem {
    pub name: String,
    pub description: String,
    pub amount: Decimal,
    pub quantity: Decimal,
}

impl Clone for NewInvoiceItem {
    fn clone(&self) -> (r: Self)
        ensures
            r == *self,
    {
        NewInvoiceItem {
            name: self.name.clone(),
            description: self.description.clone(),
            amount: self.amount,
            quantity: self.quantity,
        }
    }
}

/// A request to create an invoice with its line items.
#[derive(Debug)]
pub struct CreateInvoiceRequest {
    pub client_id: i32,
    pub company_id: i32,
    pub invoice_number: Option<String>,
    pub description: String,
    pub currency: String,
    pub due_date: Option<i64>,
    pub invoice_date: Option<i64>,
    pub balance: Option<Decimal>,
    pub discount: Option<Decimal>,
    pub tax: Option<Decimal>,
    pub items: Vec<NewInvoiceItem>,
}

/// Partial changes to an invoice. The owning user is not changeable.
#[derive(Debug)]
pub struct ChangeInvoice {
    pub client_id: Option<i32>,
    pub company_id: Option<i32>,
    pub invoice_number: Option<String>,
    pub description: Option<String>,
    pub currency: Option<String>,
    pub status: Option<InvoiceStatus>,
    pub billing_reason: Option<BillingReason>,
    pub due_date: Option<i64>,
    pub invoice_date: Option<i64>,
    pub amount: Option<Decimal>,
    pub balance: Option<Decimal>,
    pub discount: Option<Decimal>,
    pub tax: Option<Decimal>,
}

} // verus!
