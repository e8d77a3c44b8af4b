//! Use cases for the club account, the customers' accounts, the dashboard
//! figures and the point-of-sale screen.
use vstd::prelude::*;
use crate::error::AppError;
use crate::models::{ClubImport, ClubTransaction, Customer, PosInitData};
use crate::paging::{offset_for_page, page_in_range, page_offset, PAGE_SIZE};
use crate::repos::{amounts_total, balances_sum, ClubImportRepoTrait, ClubTransactionRepoTrait, CustomerRepoTrait, ProductRepoTrait};

verus! {

/// Searching customers and club transactions, and listing statement imports.
pub struct ClubUseCases<U, T, I> {
    pub customer_repo: U,
    pub tx_repo: T,
    pub import_repo: I,
}

impl<U: CustomerRepoTrait, T: ClubTransactionRepoTrait, I: ClubImportRepoTrait> ClubUseCases<U, T, I> {
    pub fn new(customer_repo: U, tx_repo: T, import_repo: I) -> (r: Self)
        ensures
            r.customer_repo == customer_repo,
            r.tx_repo == tx_repo,
            r.import_repo == import_repo,
    {
        ClubUseCases { customer_repo, tx_repo, import_repo }
    }

    /// A page of customers matching a search text, each with its balance.
    pub fn search_customers(&self, page: i32, search: Option<String>) -> (r: Result<Vec<(Customer, i32)>, AppError>)
        requires
            page_in_range(page),
        ensures
            r matches Ok(v) ==> v@ == self.customer_repo.search_results(PAGE_SIZE, page_offset(page) as i32, search),
    {
        let offset = offset_for_page(page);
        self.customer_repo.search(PAGE_SIZE, offset, search)
    }

    /// How many customers match a search text.
    pub fn count_customers(&self, search: Option<String>) -> (r: Result<i32, AppError>)
        ensures
            r matches Ok(n) ==> n == self.customer_repo.count_results(search),
    {
        self.customer_repo.count(search)
    }

    /// A page of club transactions matching a date and a search text.
    pub fn search_club_transactions(&self, page: i32, date: Option<String>, search: Option<String>) -> (r: Result<Vec<(ClubTransaction, Option<String>)>, AppError>)
        requires
            page_in_range(page),
        ensures
            r matches Ok(v) ==> v@ == self.tx_repo.search_results(PAGE_SIZE, page_offset(page) as i32, date, search),
    {
        let offset = offset_for_page(page);
        self.tx_repo.search(PAGE_SIZE, offset, date, search)
    }

    /// How many club transactions match a date and a search text.
    pub fn count_club_transactions(&self, date: Option<String>, search: Option<String>) -> (r: Result<i32, AppError>)
        ensures
            r matches Ok(n) ==> n == self.tx_repo.count_results(date, search),
    {
        self.tx_repo.count(date, search)
    }

    /// All statement imports.
    pub fn list_club_imports(&self) -> (r: Result<Vec<ClubImport>, AppError>)
        ensures
            r matches Ok(v) ==> v.deep_view() == self.import_repo.imports(),
    {
        self.import_repo.list()
    }
}

/// The dashboard figures.
pub struct StatsUseCases<T, U> {
    pub club_tx_repo: T,
    pub customer_repo: U,
}

impl<T: ClubTransactionRepoTrait, U: CustomerRepoTrait> StatsUseCases<T, U> {
    pub fn new(club_tx_repo: T, customer_repo: U) -> (r: Self)
        ensures
            r.club_tx_repo == club_tx_repo,
            r.customer_repo == customer_repo,
    {
        StatsUseCases { club_tx_repo, customer_repo }
    }

    /// The club account total and the sum of the customers' balances.
    pub fn get_stats(&self) -> (r: Result<(i64, i64), AppError>)
        ensures
            r matches Ok((account, balances)) ==> account == self.club_tx_repo.account_total()
                && balances == self.customer_repo.balances_total(),
            r matches Ok((account, balances)) ==> account == amounts_total(self.club_tx_repo.transactions())
                && balances == balances_sum(self.customer_repo.accounts())
                && self.customer_repo.accounts().len() == self.customer_repo.customers().len(),
    {
        let account_total = match self.club_tx_repo.get_account_total() {
            Ok(t) => t,
            Err(e) => {
                return Err(e);
            },
        };
        let total_customer_balances = match self.customer_repo.sum_all_balances() {
            Ok(t) => t,
            Err(e) => {
                return Err(e);
            },
        };
        Ok((account_total as i64, total_customer_balances as i64))
    }
}

/// What the point-of-sale screen needs.
pub struct PosUseCase<P, U> {
    pub product_repo: P,
    pub customer_repo: U,
}

impl<P: ProductRepoTrait, U: CustomerRepoTrait> PosUseCase<P, U> {
    pub fn new(product_repo: P, customer_repo: U) -> (r: Self)
        ensures
            r.product_repo == product_repo,
            r.customer_repo == customer_repo,
    {
        PosUseCase { product_repo, customer_repo }
    }

    /// All products and every customer with their balance.
    pub fn get_pos_init_data(&self) -> (r: Result<PosInitData, AppError>)
        ensures
            r matches Ok(d) ==> d.products.deep_view() == self.product_repo.products()
                && d.customer_accounts@ == self.customer_repo.accounts(),
    {
        let products = match self.product_repo.list() {
            Ok(p) => p,
            Err(e) => {
                return Err(e);
            },
        };
        let customer_accounts = match self.customer_repo.list_customer_accounts() {
            Ok(c) => c,
            Err(e) => {
                return Err(e);
            },
        };
        Ok(PosInitData { products, customer_accounts })
    }
}

} // verus!
