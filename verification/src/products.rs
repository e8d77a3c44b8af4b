//! Use cases for products, their prices and their categories.
use vstd::prelude::*;
use crate::datetime::{now_utc, NaiveDateTime};
use crate::error::AppError;
use crate::models::{Category, CategoryView, PriceAdjustment, PriceAdjustmentView, Product, ProductView, UpdateProductDto};
use crate::paging::{offset_for_page, page_in_range, page_offset, PAGE_SIZE};
use crate::repos::{
    active_categories, adjustment_with_id, categories_marked, category_named, product_with_upc,
    products_updated, CategoryRepoTrait, PriceAdjustmentRepoTrait, PriceUnitOfWork, ProductRepoTrait,
};

verus! {

/// The message for a product that is not found.
pub open spec fn missing_product_message(upc: Seq<char>) -> Seq<char> {
    "Product "@ + upc + " not found"@
}

/// Whether the stores after a price adjustment hold what it records: the
/// adjustment, stamped and under some id, appended, and the product with its
/// UPC at the new price with a new updated date.
pub open spec fn adjustment_recorded(
    products_before: Seq<ProductView>,
    adjustments_before: Seq<PriceAdjustmentView>,
    products_after: Seq<ProductView>,
    adjustments_after: Seq<PriceAdjustmentView>,
    adj: PriceAdjustmentView,
) -> bool {
    product_with_upc(products_before, adj.upc) matches Some(p) && exists|id: i32, stamped: NaiveDateTime, updated: NaiveDateTime|
        #![trigger stamped.wf(), updated.wf(), adjustment_with_id(adjustments_after, id)]
        {
            &&& stamped.wf()
            &&& updated.wf()
            &&& adjustments_before.push(PriceAdjustmentView { id, created_at: Some(stamped), ..adj }) == adjustments_after
            &&& products_after == products_updated(products_before, ProductView { price: adj.new, updated: Some(updated), ..p })
        }
}

/// Products, price adjustments and categories.
pub struct ProductUseCases<P, A, C, W> {
    pub repo: P,
    pub price_repo: A,
    pub category_repo: C,
    pub conn: W,
}

impl<P: ProductRepoTrait, A: PriceAdjustmentRepoTrait, C: CategoryRepoTrait, W: PriceUnitOfWork<P, A>> ProductUseCases<P, A, C, W> {
    pub fn new(repo: P, price_repo: A, category_repo: C, conn: W) -> (r: Self)
        ensures
            r.repo == repo,
            r.price_repo == price_repo,
            r.category_repo == category_repo,
            r.conn == conn,
    {
        ProductUseCases { repo, price_repo, category_repo, conn }
    }

    /// Adds a product. A product with the same UPC that was deleted is brought
    /// back with the new fields, its added date kept and its updated date set
    /// to now; one that is not deleted makes this a validation error; a new
    /// product is stored with added and updated set to now.
    pub fn create_product(&mut self, product: Product) -> (r: Result<(), AppError>)
        ensures
            r is Err ==> final(self).repo.products() == old(self).repo.products(),
            (product_with_upc(old(self).repo.products(), product.upc@) matches Some(ex) && ex.deleted is None) ==> r is Err,
            r is Ok ==> match product_with_upc(old(self).repo.products(), product.upc@) {
                Some(ex) => ex.deleted is Some && exists|now: NaiveDateTime| #[trigger] now.wf()
                    && products_updated(
                        old(self).repo.products(),
                        ProductView { updated: Some(now), added: ex.added, deleted: None, ..product.deep_view() },
                    ) == final(self).repo.products(),
                None => exists|now: NaiveDateTime| #[trigger] now.wf()
                    && old(self).repo.products().push(
                        ProductView { updated: Some(now), added: Some(now), deleted: None, ..product.deep_view() },
                    ) == final(self).repo.products(),
            },
    {
        let found = match self.repo.get_by_upc(product.upc.clone()) {
            Ok(o) => o,
            Err(e) => {
                return Err(e);
            },
        };
        let now = now_utc();
        match product_to_store(&found, product, now) {
            Ok((true, revived)) => self.repo.update_by_upc(&revived),
            Ok((false, added)) => self.repo.create(&added),
            Err(e) => Err(e),
        }
    }

    /// Marks a product deleted at the current time; a missing product is `NotFound`.
    pub fn delete_product(&mut self, upc: String) -> (r: Result<(), AppError>)
        ensures
            product_with_upc(old(self).repo.products(), upc@) is None ==> r is Err,
            r is Err ==> final(self).repo.products() == old(self).repo.products(),
            r is Ok ==> (product_with_upc(old(self).repo.products(), upc@) matches Some(p) && exists|now: NaiveDateTime|
                #[trigger] now.wf() && products_updated(old(self).repo.products(), ProductView { deleted: Some(now), ..p })
                    == final(self).repo.products()),
    {
        let found = match self.repo.get_by_upc(upc.clone()) {
            Ok(o) => o,
            Err(e) => {
                return Err(e);
            },
        };
        let mut p = match require_product(found, &upc) {
            Ok(p) => p,
            Err(e) => {
                return Err(e);
            },
        };
        p.deleted = Some(now_utc());
        self.repo.update_by_upc(&p)
    }

    /// Records a price adjustment and sets the product's price to the new
    /// price, both in one storage transaction; the adjustment is stamped with
    /// the current time and read back after the commit. A failure before the
    /// commit rolls the transaction back, so both stores hold what they held
    /// before; a failure to read it back comes after the commit.
    pub fn price_adjustment(&mut self, adj: PriceAdjustment) -> (r: Result<PriceAdjustment, AppError>)
        ensures
            !old(self).conn.in_progress() ==> !final(self).conn.in_progress(),
            final(self).conn.commits() <= old(self).conn.commits() + 1,
            r is Ok ==> final(self).conn.commits() == old(self).conn.commits() + 1,
            r is Err ==> (final(self).conn.commits() == old(self).conn.commits() && final(self).repo.products() == old(
                self,
            ).repo.products() && final(self).price_repo.adjustments() == old(self).price_repo.adjustments()) || (
            final(self).conn.commits() == old(self).conn.commits() + 1 && adjustment_recorded(
                old(self).repo.products(),
                old(self).price_repo.adjustments(),
                final(self).repo.products(),
                final(self).price_repo.adjustments(),
                adj.deep_view(),
            )),
            product_with_upc(old(self).repo.products(), adj.upc@) is None ==> r is Err
                && final(self).conn.commits() == old(self).conn.commits()
                && final(self).repo.products() == old(self).repo.products()
                && final(self).price_repo.adjustments() == old(self).price_repo.adjustments(),
            r matches Ok(a) ==> (product_with_upc(old(self).repo.products(), adj.upc@) matches Some(p)
                && exists|id: i32, stamped: NaiveDateTime, updated: NaiveDateTime|
                    #![trigger adjustment_with_id(final(self).price_repo.adjustments(), id), stamped.wf(), updated.wf()]
                {
                    &&& stamped.wf()
                    &&& updated.wf()
                    &&& old(self).price_repo.adjustments().push(
                        PriceAdjustmentView { id, created_at: Some(stamped), ..adj.deep_view() },
                    ) == final(self).price_repo.adjustments()
                    &&& final(self).repo.products() == products_updated(
                        old(self).repo.products(),
                        ProductView { price: adj.new, updated: Some(updated), ..p },
                    )
                    &&& Some(a.deep_view()) == adjustment_with_id(final(self).price_repo.adjustments(), id)
                }),
    {
        let found = match self.repo.get_by_upc(adj.upc.clone()) {
            Ok(o) => o,
            Err(e) => {
                return Err(e);
            },
        };
        let mut p = match require_product(found, &adj.upc) {
            Ok(p) => p,
            Err(e) => {
                return Err(e);
            },
        };
        let ghost adj_before = adj;
        let ghost p_found = p;
        let mut adj = adj;
        let stamped = now_utc();
        adj.created_at = Some(stamped);
        match self.conn.begin(&self.repo, &self.price_repo) {
            Ok(()) => {},
            Err(e) => {
                return Err(e);
            },
        }
        let adj_id = match self.price_repo.create_with_tx(&adj) {
            Ok(id) => id,
            Err(e) => {
                self.conn.rollback(&mut self.repo, &mut self.price_repo);
                return Err(e);
            },
        };
        p.price = adj.new;
        let updated = now_utc();
        p.updated = Some(updated);
        match self.repo.update_by_upc_with_tx(&p) {
            Ok(()) => {},
            Err(e) => {
                self.conn.rollback(&mut self.repo, &mut self.price_repo);
                return Err(e);
            },
        }
        match self.conn.commit(&mut self.repo, &mut self.price_repo) {
            Ok(()) => {},
            Err(e) => {
                return Err(e);
            },
        }
        assert(adjustment_recorded(
            old(self).repo.products(),
            old(self).price_repo.adjustments(),
            self.repo.products(),
            self.price_repo.adjustments(),
            adj_before.deep_view(),
        )) by {
            let after = self.price_repo.adjustments();
            assert(adjustment_with_id(after, adj_id) == adjustment_with_id(after, adj_id));
            assert(adj.deep_view() == (PriceAdjustmentView { created_at: Some(stamped), ..adj_before.deep_view() }));
            assert(p.deep_view() == (ProductView { price: adj_before.new, updated: Some(updated), ..p_found.deep_view() }));
        }
        match self.price_repo.get_by_id(adj_id) {
            Ok(found) => stored_adjustment(found),
            Err(e) => Err(e),
        }
    }

    /// Changes a product's description and category and sets its updated
    /// date to now; a missing product is `NotFound`.
    pub fn update_product(&mut self, dto: UpdateProductDto) -> (r: Result<(), AppError>)
        ensures
            product_with_upc(old(self).repo.products(), dto.upc@) is None ==> r is Err,
            r is Err ==> final(self).repo.products() == old(self).repo.products(),
            r is Ok ==> (product_with_upc(old(self).repo.products(), dto.upc@) matches Some(p) && exists|now: NaiveDateTime|
                #[trigger] now.wf() && products_updated(
                    old(self).repo.products(),
                    ProductView { desc: dto.desc@, category: dto.category@, updated: Some(now), ..p },
                ) == final(self).repo.products()),
    {
        let found = match self.repo.get_by_upc(dto.upc.clone()) {
            Ok(o) => o,
            Err(e) => {
                return Err(e);
            },
        };
        let mut p = match require_product(found, &dto.upc) {
            Ok(p) => p,
            Err(e) => {
                return Err(e);
            },
        };
        p.desc = dto.desc;
        p.category = dto.category;
        p.updated = Some(now_utc());
        self.repo.update_by_upc(&p)
    }

    /// All price adjustments.
    pub fn list_price_adjust(&self) -> (r: Result<Vec<PriceAdjustment>, AppError>)
        ensures
            r matches Ok(v) ==> v.deep_view() == self.price_repo.adjustments(),
    {
        self.price_repo.list()
    }

    /// A page of products matching a description and a category.
    pub fn search_products(&self, search: Option<String>, category: Option<String>, page: i32) -> (r: Result<Vec<(Product, i32)>, AppError>)
        requires
            page_in_range(page),
        ensures
            r matches Ok(v) ==> v@ == self.repo.search_results(search, category, PAGE_SIZE, page_offset(page) as i32),
    {
        let offset = offset_for_page(page);
        self.repo.search(search, category, PAGE_SIZE, offset)
    }

    /// A page of price adjustments matching a date and a search text.
    pub fn search_price_adjustments(&self, page: i32, date: Option<String>, search: Option<String>) -> (r: Result<Vec<(PriceAdjustment, String, String)>, AppError>)
        requires
            page_in_range(page),
        ensures
            r matches Ok(v) ==> v@ == self.price_repo.search_results(PAGE_SIZE, page_offset(page) as i32, date, search),
    {
        let offset = offset_for_page(page);
        self.price_repo.search(PAGE_SIZE, offset, date, search)
    }

    /// How many price adjustments match a date and a search text.
    pub fn count_price_adjustments(&self, date: Option<String>, search: Option<String>) -> (r: Result<i32, AppError>)
        ensures
            r matches Ok(n) ==> n == self.price_repo.count_results(date, search),
    {
        self.price_repo.count(date, search)
    }

    /// The categories that are not deleted.
    pub fn list_categories(&self) -> (r: Result<Vec<Category>, AppError>)
        ensures
            r matches Ok(v) ==> v.deep_view() == active_categories(self.category_repo.categories()),
    {
        self.category_repo.list_active()
    }

    /// Marks the categories with the id deleted.
    pub fn delete_category(&mut self, id: i32) -> (r: Result<(), AppError>)
        ensures
            r is Ok ==> categories_marked(old(self).category_repo.categories(), final(self).category_repo.categories(), id, true),
            r is Err ==> final(self).category_repo.categories() == old(self).category_repo.categories(),
    {
        self.category_repo.soft_delete(id)
    }

    /// Adds a category. A deleted category of that name is restored; an
    /// active one makes this an error; otherwise a new category is stored.
    pub fn create_category(&mut self, cat: String) -> (r: Result<(), AppError>)
        ensures
            (category_named(old(self).category_repo.categories(), cat@) matches Some(c) && c.deleted is None) ==> r is Err,
            r is Err ==> final(self).category_repo.categories() == old(self).category_repo.categories(),
            r is Ok ==> match category_named(old(self).category_repo.categories(), cat@) {
                Some(c) => c.deleted is Some && categories_marked(
                    old(self).category_repo.categories(),
                    final(self).category_repo.categories(),
                    c.id,
                    false,
                ),
                None => {
                    &&& final(self).category_repo.categories().len() == old(self).category_repo.categories().len() + 1
                    &&& final(self).category_repo.categories().drop_last() == old(self).category_repo.categories()
                    &&& final(self).category_repo.categories().last().name == cat@
                    &&& final(self).category_repo.categories().last().deleted is None
                },
            },
    {
        let found = match self.category_repo.get_by_name(cat.as_str()) {
            Ok(o) => o,
            Err(e) => {
                return Err(e);
            },
        };
        match category_to_store(&found, &cat) {
            Ok(Some(id)) => self.category_repo.undelete(id),
            Ok(None) => self.category_repo.create(cat),
            Err(e) => Err(e),
        }
    }

    /// How many products match a description and a category.
    pub fn count_products(&self, search: Option<String>, category: Option<String>) -> (r: Result<i32, AppError>)
        ensures
            r matches Ok(n) ==> n == self.repo.count_results(search, category),
    {
        self.repo.count(search, category)
    }
}

/// The message for a category name that an active category has.
pub open spec fn duplicate_category_message(name: Seq<char>) -> Seq<char> {
    "Category `"@ + name + "` already exists"@
}

/// The product a lookup by UPC found, or `NotFound` with `missing_product_message`.
pub fn require_product(found: Option<Product>, upc: &String) -> (r: Result<Product, AppError>)
    ensures
        match found {
            Some(p) => r == Ok::<Product, AppError>(p),
            None => r matches Err(AppError::NotFound(m)) && m@ == missing_product_message(upc@),
        },
{
    match found {
        Some(p) => Ok(p),
        None => Err(AppError::NotFound(String::from_str("Product ").concat(upc.as_str()).concat(" not found"))),
    }
}

/// What adding a product stores, once the product with its UPC is looked up:
/// a deleted one is brought back (`true`) with the new fields, its added date
/// kept and its updated date `now`; an active one is a validation error; a new
/// one is added (`false`) with added and updated dates `now`.
pub fn product_to_store(found: &Option<Product>, product: Product, now: NaiveDateTime) -> (r: Result<(bool, Product), AppError>)
    ensures
        match found {
            Some(ex) => if ex.deleted is Some {
                r matches Ok((revive, p)) && revive && p.deep_view() == (ProductView {
                    updated: Some(now),
                    added: ex.added,
                    deleted: None,
                    ..product.deep_view()
                })
            } else {
                r matches Err(AppError::Validation(m)) && m@ == "Product with this UPC already exists"@
            },
            None => r matches Ok((revive, p)) && !revive && p.deep_view() == (ProductView {
                updated: Some(now),
                added: Some(now),
                deleted: None,
                ..product.deep_view()
            }),
        },
{
    match found {
        Some(existing) => {
            if existing.deleted.is_some() {
                let revived = Product { updated: Some(now), added: existing.added, deleted: None, ..product };
                Ok((true, revived))
            } else {
                Err(AppError::Validation(String::from_str("Product with this UPC already exists")))
            }
        },
        None => Ok((false, Product { updated: Some(now), added: Some(now), deleted: None, ..product })),
    }
}

/// What adding a category does, once the category with its name is looked
/// up: a deleted one is restored (its id), an active one is an error with
/// `duplicate_category_message`, and a new name is added (`None`).
pub fn category_to_store(found: &Option<Category>, name: &String) -> (r: Result<Option<i32>, AppError>)
    ensures
        match found {
            Some(c) => if c.deleted is Some {
                r == Ok::<Option<i32>, AppError>(Some(c.id))
            } else {
                r matches Err(AppError::Unexpected(m)) && m@ == duplicate_category_message(name@)
            },
            None => r == Ok::<Option<i32>, AppError>(None),
        },
{
    match found {
        Some(existing) => {
            if existing.deleted.is_some() {
                Ok(Some(existing.id))
            } else {
                Err(AppError::Unexpected(String::from_str("Category `").concat(name.as_str()).concat("` already exists")))
            }
        },
        None => Ok(None),
    }
}

/// The price adjustment read back after it was stored, or an error when it
/// is not found.
pub fn stored_adjustment(found: Option<PriceAdjustment>) -> (r: Result<PriceAdjustment, AppError>)
    ensures
        match found {
            Some(a) => r == Ok::<PriceAdjustment, AppError>(a),
            None => r matches Err(AppError::Unexpected(m)) && m@ == "failed load price adj"@,
        },
{
    match found {
        Some(a) => Ok(a),
        None => Err(AppError::Unexpected(String::from_str("failed load price adj"))),
    }
}

/// A product that replaced the stored product with its UPC is what a lookup
/// by that UPC finds afterwards: after `update_product`, `price_adjustment`
/// or `delete_product`, the product is found with exactly the new fields.
pub proof fn updated_product_is_found(ps: Seq<ProductView>, p: ProductView)
    requires
        product_with_upc(ps, p.upc) is Some,
    ensures
        product_with_upc(products_updated(ps, p), p.upc) == Some(p),
    decreases ps.len(),
{
    let after = products_updated(ps, p);
    assert(after[0] == (if ps[0].upc == p.upc { p } else { ps[0] }));
    if ps[0].upc != p.upc {
        assert(products_updated(ps.drop_first(), p) =~= after.drop_first());
        updated_product_is_found(ps.drop_first(), p);
    }
}

/// A product added under a UPC that no stored product has is what a lookup
/// by that UPC finds afterwards (the new product of `create_product`).
pub proof fn created_product_is_found(ps: Seq<ProductView>, p: ProductView)
    requires
        product_with_upc(ps, p.upc) is None,
    ensures
        product_with_upc(ps.push(p), p.upc) == Some(p),
    decreases ps.len(),
{
    if ps.len() > 0 {
        assert(ps.push(p).drop_first() =~= ps.drop_first().push(p));
        assert(ps.push(p)[0] == ps[0]);
        created_product_is_found(ps.drop_first(), p);
    } else {
        assert(ps.push(p)[0] == p);
    }
}

/// A category added as not deleted is listed last among the active
/// categories (the new category of `create_category`).
pub proof fn created_category_is_listed(cs: Seq<CategoryView>, c: CategoryView)
    requires
        c.deleted is None,
    ensures
        active_categories(cs.push(c)) == active_categories(cs).push(c),
{
    cs.lemma_filter_push(c, |d: CategoryView| d.deleted is None);
}

/// Deleting a category and then restoring it (`delete_category`, then
/// `create_category` with its name) gives back the categories as they were,
/// when the category was active before.
pub proof fn delete_then_restore_category(
    before: Seq<CategoryView>,
    deleted: Seq<CategoryView>,
    restored: Seq<CategoryView>,
    id: i32,
)
    requires
        categories_marked(before, deleted, id, true),
        categories_marked(deleted, restored, id, false),
        forall|i: int| 0 <= i < before.len() && (#[trigger] before[i]).id == id ==> before[i].deleted is None,
    ensures
        restored == before,
{
    assert forall|i: int| 0 <= i < before.len() implies #[trigger] restored[i] == before[i] by {
        if before[i].id == id {
            assert(deleted[i].id == id);
        } else {
            assert(deleted[i] == before[i]);
        }
    }
    assert(restored =~= before);
}

} // verus!
