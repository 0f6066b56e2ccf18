//! Names of the entries that the service keeps in the key-value store.
//!
//! Every key of the cache starts with `user:`, the owner's identifier and a
//! colon; what follows tells the kinds of entry apart.

use vstd::prelude::*;
use crate::ident::{hyphenated, uuid_text};
use crate::text::{decimal_of, int_text};

verus! {

/// Seconds that a cached page, item or total lives.
pub const CACHE_TTL_SECONDS: u64 = 300;

/// Seconds that the record of a refresh token lives: seven days.
pub const REFRESH_TTL_SECONDS: u64 = 604800;

/// What every cache key of one user starts with.
pub open spec fn user_prefix(user_id: u128) -> Seq<char> {
    "user:"@ + uuid_text(user_id)
}

/// Key of the generation counter of a user's category list.
pub open spec fn categories_version_key_text(user_id: u128) -> Seq<char> {
    user_prefix(user_id) + ":categories:version"@
}

/// Key of the generation counter of a user's list of all expenses.
pub open spec fn all_expenses_version_key_text(user_id: u128) -> Seq<char> {
    user_prefix(user_id) + ":expenses:version"@
}

/// What the keys of one user's view of one category start with.
pub open spec fn category_filter_prefix(category_id: u128, user_id: u128) -> Seq<char> {
    user_prefix(user_id) + ":filter:category:"@ + uuid_text(category_id)
}

/// Key of the generation counter of a user's expenses in one category.
pub open spec fn category_filter_expenses_version_key_text(
    category_id: u128,
    user_id: u128,
) -> Seq<char> {
    category_filter_prefix(category_id, user_id) + ":expenses:version"@
}

/// Key of the cached sum of a user's expenses in one category.
pub open spec fn category_filter_total_expense_key_text(
    category_id: u128,
    user_id: u128,
) -> Seq<char> {
    category_filter_prefix(category_id, user_id) + ":total:expenses"@
}

/// Key of the cached copy of one expense.
pub open spec fn single_expense_key_text(expense_id: u128, user_id: u128) -> Seq<char> {
    user_prefix(user_id) + ":expense:"@ + uuid_text(expense_id)
}

/// Key of the cached sum of all expenses of a user.
pub open spec fn total_expense_key_text(user_id: u128) -> Seq<char> {
    user_prefix(user_id) + ":total:expenses"@
}

/// Key of one cached page of all expenses of a user, for one generation.
pub open spec fn expenses_page_key_text(user_id: u128, page: int, generation: Seq<char>) -> Seq<
    char,
> {
    user_prefix(user_id) + ":p:"@ + int_text(page) + ":v:"@ + generation + ":expenses"@
}

/// Key of one cached page of a user's expenses in one category, for one
/// generation.
pub open spec fn category_filter_page_key_text(
    category_id: u128,
    user_id: u128,
    generation: Seq<char>,
    page: int,
) -> Seq<char> {
    category_filter_prefix(category_id, user_id) + ":v:"@ + generation + ":p:"@ + int_text(page)
}

/// Key of one cached page of a user's categories, for one generation.
pub open spec fn categories_page_key_text(user_id: u128, generation: Seq<char>, page: int) -> Seq<
    char,
> {
    user_prefix(user_id) + ":v:"@ + generation + ":p:"@ + int_text(page)
}

/// Key of the record that keeps a refresh token alive.
pub open spec fn refresh_token_key_text(token_id: Seq<char>) -> Seq<char> {
    "refresh:"@ + token_id
}

fn user_prefix_string(user_id: u128) -> (key: String)
    ensures
        key@ == user_prefix(user_id),
{
    let mut key = String::from_str("user:");
    key.append(hyphenated(user_id).as_str());
    key
}

fn category_filter_prefix_string(category_id: u128, user_id: u128) -> (key: String)
    ensures
        key@ == category_filter_prefix(category_id, user_id),
{
    let mut key = user_prefix_string(user_id);
    key.append(":filter:category:");
    key.append(hyphenated(category_id).as_str());
    key
}

/// Builds the key of the generation counter of a user's category list.
pub fn categories_version_key(user_id: u128) -> (key: String)
    ensures
        key@ == categories_version_key_text(user_id),
{
    let mut key = user_prefix_string(user_id);
    key.append(":categories:version");
    key
}

/// Builds the key of the generation counter of a user's list of all expenses.
pub fn all_expenses_version_key(user_id: u128) -> (key: String)
    ensures
        key@ == all_expenses_version_key_text(user_id),
{
    let mut key = user_prefix_string(user_id);
    key.append(":expenses:version");
    key
}

/// Builds the key of the generation counter of a user's expenses in one
/// category.
pub fn category_filter_expenses_version_key(category_id: u128, user_id: u128) -> (key: String)
    ensures
        key@ == category_filter_expenses_version_key_text(category_id, user_id),
{
    let mut key = category_filter_prefix_string(category_id, user_id);
    key.append(":expenses:version");
    key
}

/// Builds the key of the cached sum of a user's expenses in one category.
pub fn category_filter_total_expense_key(category_id: u128, user_id: u128) -> (key: String)
    ensures
        key@ == category_filter_total_expense_key_text(category_id, user_id),
{
    let mut key = category_filter_prefix_string(category_id, user_id);
    key.append(":total:expenses");
    key
}

/// Builds the key of the cached copy of one expense.
pub fn single_expense_key(expense_id: u128, user_id: u128) -> (key: String)
    ensures
        key@ == single_expense_key_text(expense_id, user_id),
{
    let mut key = user_prefix_string(user_id);
    key.append(":expense:");
    key.append(hyphenated(expense_id).as_str());
    key
}

/// Builds the key of the cached sum of all expenses of a user.
pub fn total_expense_key(user_id: u128) -> (key: String)
    ensures
        key@ == total_expense_key_text(user_id),
{
    let mut key = user_prefix_string(user_id);
    key.append(":total:expenses");
    key
}

/// Builds the key of one cached page of all expenses of a user.
pub fn expenses_page_key(user_id: u128, page: i64, generation: &str) -> (key: String)
    ensures
        key@ == expenses_page_key_text(user_id, page as int, generation@),
{
    let mut key = user_prefix_string(user_id);
    key.append(":p:");
    key.append(decimal_of(page).as_str());
    key.append(":v:");
    key.append(generation);
    key.append(":expenses");
    key
}

/// Builds the key of one cached page of a user's expenses in one category.
pub fn category_filter_page_key(
    category_id: u128,
    user_id: u128,
    generation: &str,
    page: i64,
) -> (key: String)
    ensures
        key@ == category_filter_page_key_text(category_id, user_id, generation@, page as int),
{
    let mut key = category_filter_prefix_string(category_id, user_id);
    key.append(":v:");
    key.append(generation);
    key.append(":p:");
    key.append(decimal_of(page).as_str());
    key
}

/// Builds the key of one cached page of a user's categories.
pub fn categories_page_key(user_id: u128, generation: &str, page: i64) -> (key: String)
    ensures
        key@ == categories_page_key_text(user_id, generation@, page as int),
{
    let mut key = user_prefix_string(user_id);
    key.append(":v:");
    key.append(generation);
    key.append(":p:");
    key.append(decimal_of(page).as_str());
    key
}

/// Builds the key of the record that keeps a refresh token alive.
pub fn refresh_token_key(token_id: &str) -> (key: String)
    ensures
        key@ == refresh_token_key_text(token_id@),
{
    let mut key = String::from_str("refresh:");
    key.append(token_id);
    key
}

/// A collection of one user whose list is cached page by page under a
/// generation counter: the scope of a write's invalidation.
#[derive(Clone, Copy, Debug)]
pub enum Scope {
    /// The user's categories.
    Categories,
    /// All expenses of the user.
    Expenses,
    /// The user's expenses in one category.
    CategoryExpenses { category_id: u128 },
}

impl Scope {
    /// Key of the scope's generation counter.
    pub open spec fn version_key_text(self, user_id: u128) -> Seq<char> {
        match self {
            Scope::Categories => categories_version_key_text(user_id),
            Scope::Expenses => all_expenses_version_key_text(user_id),
            Scope::CategoryExpenses { category_id } => category_filter_expenses_version_key_text(
                category_id,
                user_id,
            ),
        }
    }

    /// Key of one cached page of the scope, for one generation.
    pub open spec fn page_key_text(self, user_id: u128, generation: Seq<char>, page: int) -> Seq<
        char,
    > {
        match self {
            Scope::Categories => categories_page_key_text(user_id, generation, page),
            Scope::Expenses => expenses_page_key_text(user_id, page, generation),
            Scope::CategoryExpenses { category_id } => category_filter_page_key_text(
                category_id,
                user_id,
                generation,
                page,
            ),
        }
    }

    /// Builds the key of the scope's generation counter.
    pub fn version_key(&self, user_id: u128) -> (key: String)
        ensures
            key@ == self.version_key_text(user_id),
    {
        match self {
            Scope::Categories => categories_version_key(user_id),
            Scope::Expenses => all_expenses_version_key(user_id),
            Scope::CategoryExpenses { category_id } => category_filter_expenses_version_key(
                *category_id,
                user_id,
            ),
        }
    }

    /// Builds the key of one cached page of the scope.
    pub fn page_key(&self, user_id: u128, generation: &str, page: i64) -> (key: String)
        ensures
            key@ == self.page_key_text(user_id, generation@, page as int),
    {
        match self {
            Scope::Categories => categories_page_key(user_id, generation, page),
            Scope::Expenses => expenses_page_key(user_id, page, generation),
            Scope::CategoryExpenses { category_id } => category_filter_page_key(
                *category_id,
                user_id,
                generation,
                page,
            ),
        }
    }
}

/// One page of a scope of a user, with the generation that the read
/// resolved: what a cached page is filed under. Where the generation could
/// not be resolved there is none, and the page is neither looked up in the
/// cache nor put there.
#[derive(Debug)]
pub struct PageRef {
    pub scope: Scope,
    pub user_id: u128,
    pub generation: Option<String>,
    pub page: i64,
}

impl PageRef {
    /// The generation, character by character.
    pub open spec fn generation_text(&self) -> Option<Seq<char>> {
        match self.generation {
            Some(text) => Some(text@),
            None => None,
        }
    }

    /// Whether this is the page of the given scope, user and number at the
    /// given generation.
    pub open spec fn names(
        &self,
        scope: Scope,
        user_id: u128,
        generation: Option<Seq<char>>,
        page: i64,
    ) -> bool {
        &&& self.scope == scope
        &&& self.user_id == user_id
        &&& self.generation_text() == generation
        &&& self.page == page
    }

    /// The key that the page is cached under, where a generation was
    /// resolved.
    pub open spec fn key_text(&self) -> Seq<char>
        recommends
            self.generation is Some,
    {
        self.scope.page_key_text(self.user_id, self.generation->Some_0@, self.page as int)
    }

    /// Builds the key that the page is cached under, or `None` where no
    /// generation was resolved.
    pub fn key(&self) -> (key: Option<String>)
        ensures
            match key {
                Some(text) => self.generation is Some && text@ == self.key_text(),
                None => self.generation is None,
            },
    {
        match &self.generation {
            Some(generation) => Some(
                self.scope.page_key(self.user_id, generation.as_str(), self.page),
            ),
            None => None,
        }
    }
}

} // verus!
