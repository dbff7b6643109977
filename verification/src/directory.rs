//! The client and company directories: owned CRUD collections with
//! paginated, searchable listings.
//!
//! Every read, update and delete filters by the owning user id at the
//! table, so a row of another tenant comes back as "not found", never
//! as "forbidden". Listings run newest-first, search by
//! case-insensitive name prefix, and cap the page size.

use vstd::prelude::*;
use vstd::utf8::encode_utf8;

use crate::error::AppError;
use crate::models::{
    ChangeClient, ChangeCompany, Client, CompactClient, CompactCompany, Company, NewClient,
    NewCompany,
};
use crate::store::{
    clients_same, companies_same, emails_same, invoices_same, users_same, verified_monotone, Store,
};
use crate::text::{byte_prefix_matches_ci, str_prefix_matches_ci};

verus! {

/// The default page size when the caller names none.
pub const DEFAULT_PER_PAGE: i64 = 10;

/// The largest page size the API serves, whatever was asked for.
pub const MAX_PER_PAGE: i64 = 100;

/// Whether a string is a well-formed email address.
pub uninterp spec fn email_ok(s: Seq<char>) -> bool;

/// Relies on validator::ValidateEmail for str: the HTML5 notion of a
/// well-formed email address, a function of the string alone. An empty
/// string is not an address.
#[verifier::external_body]
fn validate_email_str(s: &str) -> (r: bool)
    ensures
        r == email_ok(s@),
        s@.len() == 0 ==> !r,
{
    validator::ValidateEmail::validate_email(&s)
}

/// The page size actually served: the requested one, failing that the
/// default, clamped between one and the cap.
pub open spec fn spec_effective_per_page(requested: Option<i64>) -> i64 {
    let base = if requested is Some {
        requested->0
    } else {
        DEFAULT_PER_PAGE
    };
    if base < 1 {
        1
    } else if base > MAX_PER_PAGE {
        MAX_PER_PAGE
    } else {
        base
    }
}

/// Clamps a requested page size to what the API serves: at most the
/// cap, at least one, the default when absent.
pub fn effective_per_page(requested: Option<i64>) -> (r: i64)
    ensures
        r == spec_effective_per_page(requested),
        1 <= r <= MAX_PER_PAGE,
{
    let base = match requested {
        Some(p) => p,
        None => DEFAULT_PER_PAGE,
    };
    if base < 1 {
        1
    } else if base > MAX_PER_PAGE {
        MAX_PER_PAGE
    } else {
        base
    }
}

/// The slice bounds of page `page` (one-based) of `total` rows at
/// `eff` rows a page, and the page count.
pub open spec fn page_bounds(total: int, page: int, eff: int) -> (int, int) {
    let p = if page < 1 {
        1
    } else {
        page
    };
    let lo = if (p - 1) * eff >= total {
        total
    } else {
        (p - 1) * eff
    };
    let hi = if lo + eff >= total {
        total
    } else {
        lo + eff
    };
    (lo, hi)
}

/// The number of pages `total` rows make at `eff` rows a page, capped
/// at the range of the result type.
pub open spec fn spec_total_pages(total: int, eff: int) -> int {
    let pages = (total + eff - 1) / eff;
    if pages > i64::MAX {
        i64::MAX as int
    } else {
        pages
    }
}

/// The compact projection of a client row.
pub open spec fn spec_compact_client(c: Client) -> CompactClient {
    CompactClient {
        id: c.id,
        name: c.name,
        email: c.email,
        company_name: c.company_name,
        created_at: c.created_at,
        updated_at: c.updated_at,
    }
}

/// Whether a client row belongs to `owner` and passes the optional
/// case-insensitive name-prefix search.
pub open spec fn client_matches(c: Client, owner: i32, q: Option<&str>) -> bool {
    c.user_id == owner && (q is Some ==> byte_prefix_matches_ci(
        encode_utf8(c.name@),
        encode_utf8(q->0@),
    ))
}

/// The matching clients among rows `from..`, newest insertion first.
pub open spec fn rev_matched_clients(
    clients: Seq<Client>,
    owner: i32,
    q: Option<&str>,
    from: int,
) -> Seq<CompactClient>
    decreases clients.len() - from,
{
    if from < 0 || from >= clients.len() {
        Seq::empty()
    } else {
        rev_matched_clients(clients, owner, q, from + 1) + (if client_matches(
            clients[from],
            owner,
            q,
        ) {
            seq![spec_compact_client(clients[from])]
        } else {
            Seq::empty()
        })
    }
}

/// The compact projection of a company row.
pub open spec fn spec_compact_company(c: Company) -> CompactCompany {
    CompactCompany { id: c.id, name: c.name, created_at: c.created_at, updated_at: c.updated_at }
}

/// Whether a company row belongs to `owner` and passes the optional
/// case-insensitive name-prefix search.
pub open spec fn company_matches(c: Company, owner: i32, q: Option<&str>) -> bool {
    c.user_id == owner && (q is Some ==> byte_prefix_matches_ci(
        encode_utf8(c.name@),
        encode_utf8(q->0@),
    ))
}

/// The matching companies among rows `from..`, newest insertion first.
pub open spec fn rev_matched_companies(
    companies: Seq<Company>,
    owner: i32,
    q: Option<&str>,
    from: int,
) -> Seq<CompactCompany>
    decreases companies.len() - from,
{
    if from < 0 || from >= companies.len() {
        Seq::empty()
    } else {
        rev_matched_companies(companies, owner, q, from + 1) + (if company_matches(
            companies[from],
            owner,
            q,
        ) {
            seq![spec_compact_company(companies[from])]
        } else {
            Seq::empty()
        })
    }
}

/// The client row a request for `(client_id, owner_id)` addresses.
pub open spec fn client_addressed(c: Client, client_id: i32, owner_id: i32) -> bool {
    c.id == client_id && c.user_id == owner_id
}

/// The company row a request for `(company_id, owner_id)` addresses.
pub open spec fn company_addressed(c: Company, company_id: i32, owner_id: i32) -> bool {
    c.id == company_id && c.user_id == owner_id
}

impl NewClient {
    /// Inserts the client for its owner; ids and timestamps are
    /// assigned here.
    pub fn insert_client(self, store: &mut Store, now: i64) -> (r: Result<Client, AppError>)
        requires
            old(store).inv(),
        ensures
            final(store).inv(),
            r is Ok <==> old(store).next_client_id < i32::MAX,
            r is Err ==> r->Err_0 == AppError::Internal && *final(store) == *old(store),
            r is Ok ==> ({
                let c = r->Ok_0;
                &&& c.id == old(store).next_client_id
                &&& c.user_id == self.user_id
                &&& c.name == self.name
                &&& c.email == self.email
                &&& c.company_name == self.company_name
                &&& c.address_1 == self.address_1
                &&& c.address_2 == self.address_2
                &&& c.city == self.city
                &&& c.state == self.state
                &&& c.zip_code == self.zip_code
                &&& c.country == self.country
                &&& c.website == self.website
                &&& c.notes == self.notes
                &&& c.created_at == now
                &&& c.updated_at == now
                &&& final(store).clients@ == old(store).clients@.push(c)
                &&& final(store).next_client_id == old(store).next_client_id + 1
                &&& users_same(old(store), final(store))
                &&& emails_same(old(store), final(store))
                &&& companies_same(old(store), final(store))
                &&& invoices_same(old(store), final(store))
            }),
            verified_monotone(old(store), final(store)),
    {
        if store.next_client_id == i32::MAX {
            return Err(AppError::Internal);
        }
        let client = Client {
            id: store.next_client_id,
            user_id: self.user_id,
            name: self.name,
            email: self.email,
            company_name: self.company_name,
            address_1: self.address_1,
            address_2: self.address_2,
            city: self.city,
            state: self.state,
            zip_code: self.zip_code,
            country: self.country,
            website: self.website,
            notes: self.notes,
            created_at: now,
            updated_at: now,
        };
        let out = client.clone();
        store.clients.push(client);
        store.next_client_id = store.next_client_id + 1;
        Ok(out)
    }
}

impl ChangeClient {
    /// The client with these partial changes applied.
    pub open spec fn applied(self, c: Client, now: i64) -> Client {
        Client {
            name: if self.name is Some {
                self.name->0
            } else {
                c.name
            },
            email: if self.email is Some {
                self.email->0
            } else {
                c.email
            },
            company_name: if self.company_name is Some {
                self.company_name->0
            } else {
                c.company_name
            },
            address_1: if self.address_1 is Some {
                self.address_1->0
            } else {
                c.address_1
            },
            address_2: if self.address_2 is Some {
                self.address_2->0
            } else {
                c.address_2
            },
            city: if self.city is Some {
                self.city->0
            } else {
                c.city
            },
            state: if self.state is Some {
                self.state->0
            } else {
                c.state
            },
            zip_code: if self.zip_code is Some {
                self.zip_code->0
            } else {
                c.zip_code
            },
            country: if self.country is Some {
                self.country->0
            } else {
                c.country
            },
            website: if self.website is Some {
                self.website->0
            } else {
                c.website
            },
            notes: if self.notes is Some {
                self.notes->0
            } else {
                c.notes
            },
            updated_at: now,
            ..c
        }
    }

    /// Applies the changes to the client, provided it belongs to
    /// `owner_id`. Another tenant's row, or a missing one, is "not
    /// found": the two cases are indistinguishable, and nothing is
    /// written. The owner field itself is never changeable.
    pub fn update(self, store: &mut Store, owner_id: i32, client_id: i32, now: i64) -> (r: Result<
        Client,
        AppError,
    >)
        requires
            old(store).inv(),
        ensures
            final(store).inv(),
            r is Ok <==> (exists|i: int|
                0 <= i < old(store).clients@.len() && client_addressed(
                    #[trigger] old(store).clients@[i],
                    client_id,
                    owner_id,
                )),
            r is Err ==> r->Err_0 == AppError::NotFound && *final(store) == *old(store),
            r is Ok ==> final(store).clients@.len() == old(store).clients@.len(),
            r is Ok ==> (forall|j: int|
                0 <= j < old(store).clients@.len() ==> final(store).clients@[j] == (
                if client_addressed(#[trigger] old(store).clients@[j], client_id, owner_id) {
                    self.applied(old(store).clients@[j], now)
                } else {
                    old(store).clients@[j]
                })),
            r is Ok ==> (forall|j: int|
                0 <= j < old(store).clients@.len() && client_addressed(
                    #[trigger] old(store).clients@[j],
                    client_id,
                    owner_id,
                ) ==> r->Ok_0 == self.applied(old(store).clients@[j], now)),
            r is Ok ==> final(store).next_client_id == old(store).next_client_id && users_same(
                old(store),
                final(store),
            ) && emails_same(old(store), final(store)) && companies_same(old(store), final(store))
                && invoices_same(old(store), final(store)),
            verified_monotone(old(store), final(store)),
    {
        let ghost spec_self = self;
        let idx = match find_client_index(store, client_id, owner_id) {
            Some(i) => i,
            None => {
                return Err(AppError::NotFound);
            },
        };
        let ghost pre = *store;
        let row = &mut store.clients[idx];
        match self.name {
            Some(v) => {
                row.name = v;
            },
            None => {},
        }
        match self.email {
            Some(v) => {
                row.email = v;
            },
            None => {},
        }
        match self.company_name {
            Some(v) => {
                row.company_name = v;
            },
            None => {},
        }
        match self.address_1 {
            Some(v) => {
                row.address_1 = v;
            },
            None => {},
        }
        match self.address_2 {
            Some(v) => {
                row.address_2 = v;
            },
            None => {},
        }
        match self.city {
            Some(v) => {
                row.city = v;
            },
            None => {},
        }
        match self.state {
            Some(v) => {
                row.state = v;
            },
            None => {},
        }
        match self.zip_code {
            Some(v) => {
                row.zip_code = v;
            },
            None => {},
        }
        match self.country {
            Some(v) => {
                row.country = v;
            },
            None => {},
        }
        match self.website {
            Some(v) => {
                row.website = v;
            },
            None => {},
        }
        match self.notes {
            Some(v) => {
                row.notes = v;
            },
            None => {},
        }
        row.updated_at = now;
        let out = row.clone();
        assert(out == spec_self.applied(pre.clients@[idx as int], now));
        assert(store.clients@ =~= pre.clients@.update(idx as int, out));
        proof {
            assert forall|j: int|
                0 <= j < pre.clients@.len() && j != idx as int && client_addressed(
                    #[trigger] pre.clients@[j],
                    client_id,
                    owner_id,
                ) implies false by {
                assert(pre.clients@[j].id != pre.clients@[idx as int].id);
            }
        }
        Ok(out)
    }
}

/// The index of the client with this id, provided it belongs to
/// `owner_id`.
fn find_client_index(store: &Store, client_id: i32, owner_id: i32) -> (r: Option<usize>)
    ensures
        r is Some <==> (exists|i: int|
            0 <= i < store.clients@.len() && #[trigger] store.clients@[i].id == client_id
                && store.clients@[i].user_id == owner_id),
        r is Some ==> ({
            &&& 0 <= r->0 < store.clients@.len()
            &&& store.clients@[r->0 as int].id == client_id
            &&& store.clients@[r->0 as int].user_id == owner_id
        }),
{
    let mut i: usize = 0;
    while i < store.clients.len()
        invariant
            i <= store.clients@.len(),
            forall|j: int|
                0 <= j < i ==> !(#[trigger] store.clients@[j].id == client_id
                    && store.clients@[j].user_id == owner_id),
        decreases store.clients@.len() - i,
    {
        if store.clients[i].id == client_id && store.clients[i].user_id == owner_id {
            return Some(i);
        }
        i = i + 1;
    }
    None
}

/// Creates a client after validating its fields: the name must be
/// present and the email well formed, else nothing reaches storage.
pub fn create_client(store: &mut Store, new: NewClient, now: i64) -> (r: Result<Client, AppError>)
    requires
        old(store).inv(),
    ensures
        final(store).inv(),
        new.name@.len() == 0 || !email_ok(new.email@) ==> r == Err::<Client, _>(
            AppError::ValidationFailed,
        ),
        r is Err ==> *final(store) == *old(store),
        r is Ok <==> new.name@.len() > 0 && email_ok(new.email@) && old(store).next_client_id
            < i32::MAX,
        r is Ok ==> ({
            let c = r->Ok_0;
            &&& c.id == old(store).next_client_id
            &&& c.user_id == new.user_id
            &&& c.name == new.name
            &&& c.email == new.email
            &&& c.created_at == now
            &&& final(store).clients@ == old(store).clients@.push(c)
            &&& final(store).next_client_id == old(store).next_client_id + 1
            &&& users_same(old(store), final(store))
            &&& emails_same(old(store), final(store))
            &&& companies_same(old(store), final(store))
            &&& invoices_same(old(store), final(store))
        }),
        verified_monotone(old(store), final(store)),
{
    if new.name.as_str().is_empty() {
        return Err(AppError::ValidationFailed);
    }
    if !validate_email_str(new.email.as_str()) {
        return Err(AppError::ValidationFailed);
    }
    new.insert_client(store, now)
}

/// Deletes the client, provided it belongs to `owner_id`; the count of
/// removed rows says whether anything was. Another tenant's row is
/// left untouched and reported as zero, exactly like a missing one.
pub fn delete_client(client_id: i32, owner_id: i32, store: &mut Store) -> (r: usize)
    requires
        old(store).inv(),
    ensures
        final(store).inv(),
        r <= 1,
        r == 1 <==> (exists|i: int|
            0 <= i < old(store).clients@.len() && #[trigger] old(store).clients@[i].id == client_id
                && old(store).clients@[i].user_id == owner_id),
        r == 0 ==> *final(store) == *old(store),
        r == 1 ==> (exists|i: int|
            {
                &&& 0 <= i < old(store).clients@.len()
                &&& old(store).clients@[i].id == client_id
                &&& old(store).clients@[i].user_id == owner_id
                &&& final(store).clients@ == old(store).clients@.remove(i)
            }),
        r == 1 ==> final(store).next_client_id == old(store).next_client_id && users_same(
            old(store),
            final(store),
        ) && emails_same(old(store), final(store)) && companies_same(old(store), final(store))
            && invoices_same(old(store), final(store)),
        verified_monotone(old(store), final(store)),
{
    match find_client_index(store, client_id, owner_id) {
        Some(i) => {
            let _ = store.clients.remove(i);
            1
        },
        None => 0,
    }
}

/// Lists a user's clients newest-first, with an optional
/// case-insensitive name-prefix search, a one-based page number and a
/// capped page size; also reports how many pages there are.
pub fn list_clients(
    store: &Store,
    owner_id: i32,
    page: i64,
    per_page: Option<i64>,
    q: Option<&str>,
) -> (r: (Vec<CompactClient>, i64))
    ensures
        ({
            let m = rev_matched_clients(store.clients@, owner_id, q, 0);
            let eff = spec_effective_per_page(per_page);
            let (lo, hi) = page_bounds(m.len() as int, page as int, eff as int);
            &&& r.0@ == m.subrange(lo, hi)
            &&& r.0@.len() <= eff <= MAX_PER_PAGE
            &&& r.1 == spec_total_pages(m.len() as int, eff as int)
        }),
{
    let eff = effective_per_page(per_page);
    let mut all: Vec<CompactClient> = Vec::new();
    let mut j: usize = store.clients.len();
    while j > 0
        invariant
            j <= store.clients@.len(),
            all@ == rev_matched_clients(store.clients@, owner_id, q, j as int),
        decreases j,
    {
        j = j - 1;
        let c = &store.clients[j];
        let hit = c.user_id == owner_id && (match q {
            Some(qs) => str_prefix_matches_ci(c.name.as_str(), qs),
            None => true,
        });
        if hit {
            all.push(
                CompactClient {
                    id: c.id,
                    name: c.name.clone(),
                    email: c.email.clone(),
                    company_name: c.company_name.clone(),
                    created_at: c.created_at,
                    updated_at: c.updated_at,
                },
            );
        }
        assert(all@ =~= rev_matched_clients(store.clients@, owner_id, q, j as int));
    }
    paginate_clients(all, page, eff)
}

/// Cuts the requested page out of the full match list and counts the
/// pages.
fn paginate_clients(all: Vec<CompactClient>, page: i64, eff: i64) -> (r: (Vec<CompactClient>, i64))
    requires
        1 <= eff <= MAX_PER_PAGE,
    ensures
        ({
            let (lo, hi) = page_bounds(all@.len() as int, page as int, eff as int);
            &&& r.0@ == all@.subrange(lo, hi)
            &&& r.0@.len() <= eff
            &&& r.1 == spec_total_pages(all@.len() as int, eff as int)
        }),
{
    let total = all.len();
    let p: i64 = if page < 1 {
        1
    } else {
        page
    };
    assert(((p - 1) as u128) * (eff as u128) < 0xffff_ffff_ffff_ffff_ffff_ffff_ffff_ffffu128)
        by (nonlinear_arith)
        requires
            0 <= (p - 1) as u128 <= 0x8000_0000_0000_0000u128,
            0 <= eff as u128 <= 100,
    ;
    let lo128: u128 = (p - 1) as u128 * eff as u128;
    let lo: usize = if lo128 >= total as u128 {
        total
    } else {
        lo128 as usize
    };
    let hi: usize = if total - lo < eff as usize {
        total
    } else {
        lo + eff as usize
    };
    let mut out: Vec<CompactClient> = Vec::new();
    let mut k: usize = lo;
    while k < hi
        invariant
            lo <= k <= hi <= all@.len(),
            out@ == all@.subrange(lo as int, k as int),
        decreases hi - k,
    {
        out.push(all[k].clone());
        assert(out@ =~= all@.subrange(lo as int, k + 1 as int));
        k = k + 1;
    }
    let pages128: u128 = (total as u128 + eff as u128 - 1) / eff as u128;
    let pages: i64 = if pages128 > i64::MAX as u128 {
        i64::MAX
    } else {
        pages128 as i64
    };
    (out, pages)
}

impl NewCompany {
    /// Inserts the company for its owner; ids and timestamps are
    /// assigned here.
    pub fn insert_company(&self, store: &mut Store, now: i64) -> (r: Result<Company, AppError>)
        requires
            old(store).inv(),
        ensures
            final(store).inv(),
            r is Ok <==> old(store).next_company_id < i32::MAX,
            r is Err ==> r->Err_0 == AppError::Internal && *final(store) == *old(store),
            r is Ok ==> ({
                let c = r->Ok_0;
                &&& c.id == old(store).next_company_id
                &&& c.user_id == self.user_id
                &&& c.name == self.name
                &&& c.address_1 == self.address_1
                &&& c.address_2 == self.address_2
                &&& c.city == self.city
                &&& c.state == self.state
                &&& c.zip_code == self.zip_code
                &&& c.country == self.country
                &&& c.created_at == now
                &&& c.updated_at == now
                &&& final(store).companies@ == old(store).companies@.push(c)
                &&& final(store).next_company_id == old(store).next_company_id + 1
                &&& users_same(old(store), final(store))
                &&& emails_same(old(store), final(store))
                &&& clients_same(old(store), final(store))
                &&& invoices_same(old(store), final(store))
            }),
            verified_monotone(old(store), final(store)),
    {
        if store.next_company_id == i32::MAX {
            return Err(AppError::Internal);
        }
        let company = Company {
            id: store.next_company_id,
            user_id: self.user_id,
            name: self.name.clone(),
            address_1: self.address_1.clone(),
            address_2: self.address_2.clone(),
            city: self.city.clone(),
            state: self.state.clone(),
            zip_code: self.zip_code.clone(),
            country: self.country.clone(),
            created_at: now,
            updated_at: now,
        };
        let out = company.clone();
        store.companies.push(company);
        store.next_company_id = store.next_company_id + 1;
        Ok(out)
    }
}

/// The index of the company with this id, provided it belongs to
/// `owner_id`.
fn find_company_index(store: &Store, company_id: i32, owner_id: i32) -> (r: Option<usize>)
    ensures
        r is Some <==> (exists|i: int|
            0 <= i < store.companies@.len() && #[trigger] store.companies@[i].id == company_id
                && store.companies@[i].user_id == owner_id),
        r is Some ==> ({
            &&& 0 <= r->0 < store.companies@.len()
            &&& store.companies@[r->0 as int].id == company_id
            &&& store.companies@[r->0 as int].user_id == owner_id
        }),
{
    let mut i: usize = 0;
    while i < store.companies.len()
        invariant
            i <= store.companies@.len(),
            forall|j: int|
                0 <= j < i ==> !(#[trigger] store.companies@[j].id == company_id
                    && store.companies@[j].user_id == owner_id),
        decreases store.companies@.len() - i,
    {
        if store.companies[i].id == company_id && store.companies[i].user_id == owner_id {
            return Some(i);
        }
        i = i + 1;
    }
    None
}

impl ChangeCompany {
    /// The company with these partial changes applied.
    pub open spec fn applied(self, c: Company, now: i64) -> Company {
        Company {
            name: if self.name is Some {
                self.name->0
            } else {
                c.name
            },
            address_1: if self.address_1 is Some {
                self.address_1->0
            } else {
                c.address_1
            },
            address_2: if self.address_2 is Some {
                self.address_2->0
            } else {
                c.address_2
            },
            city: if self.city is Some {
                self.city->0
            } else {
                c.city
            },
            state: if self.state is Some {
                self.state->0
            } else {
                c.state
            },
            zip_code: if self.zip_code is Some {
                self.zip_code->0
            } else {
                c.zip_code
            },
            country: if self.country is Some {
                self.country->0
            } else {
                c.country
            },
            updated_at: now,
            ..c
        }
    }

    /// Applies the changes to the company, provided it belongs to
    /// `owner_id`; another tenant's row is "not found" and untouched.
    pub fn update(self, store: &mut Store, owner_id: i32, company_id: i32, now: i64) -> (r: Result<
        Company,
        AppError,
    >)
        requires
            old(store).inv(),
        ensures
            final(store).inv(),
            r is Ok <==> (exists|i: int|
                0 <= i < old(store).companies@.len() && company_addressed(
                    #[trigger] old(store).companies@[i],
                    company_id,
                    owner_id,
                )),
            r is Err ==> r->Err_0 == AppError::NotFound && *final(store) == *old(store),
            r is Ok ==> final(store).companies@.len() == old(store).companies@.len(),
            r is Ok ==> (forall|j: int|
                0 <= j < old(store).companies@.len() ==> final(store).companies@[j] == (
                if company_addressed(#[trigger] old(store).companies@[j], company_id, owner_id) {
                    self.applied(old(store).companies@[j], now)
                } else {
                    old(store).companies@[j]
                })),
            r is Ok ==> (forall|j: int|
                0 <= j < old(store).companies@.len() && company_addressed(
                    #[trigger] old(store).companies@[j],
                    company_id,
                    owner_id,
                ) ==> r->Ok_0 == self.applied(old(store).companies@[j], now)),
            r is Ok ==> final(store).next_company_id == old(store).next_company_id && users_same(
                old(store),
                final(store),
            ) && emails_same(old(store), final(store)) && clients_same(old(store), final(store))
                && invoices_same(old(store), final(store)),
            verified_monotone(old(store), final(store)),
    {
        let ghost spec_self = self;
        let idx = match find_company_index(store, company_id, owner_id) {
            Some(i) => i,
            None => {
                return Err(AppError::NotFound);
            },
        };
        let ghost pre = *store;
        let row = &mut store.companies[idx];
        match self.name {
            Some(v) => {
                row.name = v;
            },
            None => {},
        }
        match self.address_1 {
            Some(v) => {
                row.address_1 = v;
            },
            None => {},
        }
        match self.address_2 {
            Some(v) => {
                row.address_2 = v;
            },
            None => {},
        }
        match self.city {
            Some(v) => {
                row.city = v;
            },
            None => {},
        }
        match self.state {
            Some(v) => {
                row.state = v;
            },
            None => {},
        }
        match self.zip_code {
            Some(v) => {
                row.zip_code = v;
            },
            None => {},
        }
        match self.country {
            Some(v) => {
                row.country = v;
            },
            None => {},
        }
        row.updated_at = now;
        let out = row.clone();
        assert(out == spec_self.applied(pre.companies@[idx as int], now));
        assert(store.companies@ =~= pre.companies@.update(idx as int, out));
        proof {
            assert forall|j: int|
                0 <= j < pre.companies@.len() && j != idx as int && company_addressed(
                    #[trigger] pre.companies@[j],
                    company_id,
                    owner_id,
                ) implies false by {
                assert(pre.companies@[j].id != pre.companies@[idx as int].id);
            }
        }
        Ok(out)
    }
}

/// Deletes the company, provided it belongs to `owner_id`; another
/// tenant's row is left untouched and reported as zero.
pub fn delete_company(company_id: i32, owner_id: i32, store: &mut Store) -> (r: usize)
    requires
        old(store).inv(),
    ensures
        final(store).inv(),
        r <= 1,
        r == 1 <==> (exists|i: int|
            0 <= i < old(store).companies@.len() && #[trigger] old(store).companies@[i].id
                == company_id && old(store).companies@[i].user_id == owner_id),
        r == 0 ==> *final(store) == *old(store),
        r == 1 ==> (exists|i: int|
            {
                &&& 0 <= i < old(store).companies@.len()
                &&& old(store).companies@[i].id == company_id
                &&& old(store).companies@[i].user_id == owner_id
                &&& final(store).companies@ == old(store).companies@.remove(i)
            }),
        r == 1 ==> final(store).next_company_id == old(store).next_company_id && users_same(
            old(store),
            final(store),
        ) && emails_same(old(store), final(store)) && clients_same(old(store), final(store))
            && invoices_same(old(store), final(store)),
        verified_monotone(old(store), final(store)),
{
    match find_company_index(store, company_id, owner_id) {
        Some(i) => {
            let _ = store.companies.remove(i);
            1
        },
        None => 0,
    }
}

/// Lists a user's companies newest-first, with an optional
/// case-insensitive name-prefix search and capped pagination.
pub fn list_companies(
    store: &Store,
    owner_id: i32,
    page: i64,
    per_page: Option<i64>,
    q: Option<&str>,
) -> (r: (Vec<CompactCompany>, i64))
    ensures
        ({
            let m = rev_matched_companies(store.companies@, owner_id, q, 0);
            let eff = spec_effective_per_page(per_page);
            let (lo, hi) = page_bounds(m.len() as int, page as int, eff as int);
            &&& r.0@ == m.subrange(lo, hi)
            &&& r.0@.len() <= eff <= MAX_PER_PAGE
            &&& r.1 == spec_total_pages(m.len() as int, eff as int)
        }),
{
    let eff = effective_per_page(per_page);
    let mut all: Vec<CompactCompany> = Vec::new();
    let mut j: usize = store.companies.len();
    while j > 0
        invariant
            j <= store.companies@.len(),
            all@ == rev_matched_companies(store.companies@, owner_id, q, j as int),
        decreases j,
    {
        j = j - 1;
        let c = &store.companies[j];
        let hit = c.user_id == owner_id && (match q {
            Some(qs) => str_prefix_matches_ci(c.name.as_str(), qs),
            None => true,
        });
        if hit {
            all.push(
                CompactCompany {
                    id: c.id,
                    name: c.name.clone(),
                    created_at: c.created_at,
                    updated_at: c.updated_at,
                },
            );
        }
        assert(all@ =~= rev_matched_companies(store.companies@, owner_id, q, j as int));
    }
    paginate_companies(all, page, eff)
}

/// Cuts the requested page out of the full match list and counts the
/// pages.
fn paginate_companies(all: Vec<CompactCompany>, page: i64, eff: i64) -> (r: (
    Vec<CompactCompany>,
    i64,
))
    requires
        1 <= eff <= MAX_PER_PAGE,
    ensures
        ({
            let (lo, hi) = page_bounds(all@.len() as int, page as int, eff as int);
            &&& r.0@ == all@.subrange(lo, hi)
            &&& r.0@.len() <= eff
            &&& r.1 == spec_total_pages(all@.len() as int, eff as int)
        }),
{
    let total = all.len();
    let p: i64 = if page < 1 {
        1
    } else {
        page
    };
    assert(((p - 1) as u128) * (eff as u128) < 0xffff_ffff_ffff_ffff_ffff_ffff_ffff_ffffu128)
        by (nonlinear_arith)
        requires
            0 <= (p - 1) as u128 <= 0x8000_0000_0000_0000u128,
            0 <= eff as u128 <= 100,
    ;
    let lo128: u128 = (p - 1) as u128 * eff as u128;
    let lo: usize = if lo128 >= total as u128 {
        total
    } else {
        lo128 as usize
    };
    let hi: usize = if total - lo < eff as usize {
        total
    } else {
        lo + eff as usize
    };
    let mut out: Vec<CompactCompany> = Vec::new();
    let mut k: usize = lo;
    while k < hi
        invariant
            lo <= k <= hi <= all@.len(),
            out@ == all@.subrange(lo as int, k as int),
        decreases hi - k,
    {
        out.push(all[k].clone());
        assert(out@ =~= all@.subrange(lo as int, k + 1 as int));
        k = k + 1;
    }
    let pages128: u128 = (total as u128 + eff as u128 - 1) / eff as u128;
    let pages: i64 = if pages128 > i64::MAX as u128 {
        i64::MAX
    } else {
        pages128 as i64
    };
    (out, pages)
}

} // verus!
