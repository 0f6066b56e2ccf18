use expense_tracker::cache::{invalidate_category_cache, invalidate_expense_cache, Outcome};
use expense_tracker::errors::category_errors::CategoryError;
use expense_tracker::errors::expense_errors::ExpenseError;
use expense_tracker::errors::store_errors::DbFailure;
use expense_tracker::flow::Step;
use expense_tracker::keys::{
    all_expenses_version_key, categories_version_key, category_filter_expenses_version_key,
    category_filter_total_expense_key, expenses_page_key, single_expense_key, total_expense_key,
};
use expense_tracker::memory::MemoryStore;
use expense_tracker::models::amount::Amount;
use expense_tracker::models::category_models::{
    CategoriesCached, Category, CategoryPagination, CategoryResponse,
};
use expense_tracker::models::expense_model::{
    CategoryIdPath, ExpenseCached, ExpensePath, ExpenseRequest, ExpenseResponse, ExpensesTotal,
    ExpensesTotalCached, PageParams,
};
use expense_tracker::services::category_services::{
    CategoryAction, CategoryEvent, CategoryService,
};
use expense_tracker::services::expense_reads::TotalRead;
use expense_tracker::services::expense_services::{
    ExpenseAction, ExpenseEvent, ExpenseServices,
};
use expense_tracker::store::{Command, Reply};

const USER: u128 = 0x0123456789abcdef0123456789abcdef;
const FOOD: u128 = 0xf00df00df00df00df00df00df00df00d;
const RENT: u128 = 0xbeefbeefbeefbeefbeefbeefbeefbeef;

fn copy_expense(e: &ExpenseResponse) -> ExpenseResponse {
    ExpenseResponse {
        id: e.id,
        amount: e.amount,
        description: e.description.clone(),
        user_id: e.user_id,
        category_id: e.category_id,
        date: e.date,
        payment_method: e.payment_method.clone(),
        is_recurring: e.is_recurring,
        tags: e.tags.clone(),
    }
}

fn copy_category(c: &CategoryResponse) -> CategoryResponse {
    CategoryResponse {
        id: c.id,
        description: c.description.clone(),
        name: c.name.clone(),
        user_id: c.user_id,
    }
}

fn encode_expense(e: &ExpenseResponse) -> String {
    format!(
        "{}|{}|{}|{}|{}|{}|{}|{}",
        e.id, e.amount.mantissa, e.amount.scale, e.description, e.user_id, e.category_id, e.date,
        e.is_recurring
    )
}

fn decode_expense(line: &str) -> Result<ExpenseResponse, String> {
    let parts: Vec<&str> = line.split('|').collect();
    if parts.len() != 8 {
        return Err(format!("malformed expense: {}", line));
    }
    let bad = |_| "malformed number".to_string();
    Ok(ExpenseResponse {
        id: parts[0].parse().map_err(bad)?,
        amount: Amount { mantissa: parts[1].parse().map_err(bad)?, scale: parts[2].parse().map_err(bad)? },
        description: parts[3].to_string(),
        user_id: parts[4].parse().map_err(bad)?,
        category_id: parts[5].parse().map_err(bad)?,
        date: parts[6].parse().map_err(bad)?,
        payment_method: None,
        is_recurring: parts[7] == "true",
        tags: None,
    })
}

fn encode_rows(rows: &Vec<ExpenseResponse>) -> String {
    let lines: Vec<String> = rows.iter().map(encode_expense).collect();
    format!("rows\n{}", lines.join("\n"))
}

fn decode_rows(text: &str) -> Result<Vec<ExpenseResponse>, String> {
    let mut lines = text.lines();
    if lines.next() != Some("rows") {
        return Err("not a list of expenses".to_string());
    }
    lines.map(decode_expense).collect()
}

fn encode_page(page: &ExpensesTotal) -> String {
    format!("total|{}|{}\n{}", page.total.mantissa, page.total.scale, encode_rows(&page.expenses))
}

fn decode_page(text: &str) -> Result<ExpensesTotal, String> {
    let (head, rest) = text.split_once('\n').ok_or("not a page".to_string())?;
    let parts: Vec<&str> = head.split('|').collect();
    if parts.len() != 3 || parts[0] != "total" {
        return Err("not a page".to_string());
    }
    let bad = |_| "malformed number".to_string();
    Ok(ExpensesTotal {
        expenses: decode_rows(rest)?,
        total: Amount { mantissa: parts[1].parse().map_err(bad)?, scale: parts[2].parse().map_err(bad)? },
    })
}

fn encode_categories(rows: &Vec<CategoryResponse>) -> String {
    let lines: Vec<String> =
        rows.iter().map(|c| format!("{}|{}|{}", c.id, c.name, c.user_id)).collect();
    lines.join("\n")
}

fn decode_categories(text: &str) -> Result<Vec<CategoryResponse>, String> {
    let mut rows = Vec::new();
    for line in text.lines() {
        let parts: Vec<&str> = line.split('|').collect();
        if parts.len() != 3 {
            return Err("malformed category".to_string());
        }
        rows.push(CategoryResponse {
            id: parts[0].parse().map_err(|_| "malformed number".to_string())?,
            description: None,
            name: parts[1].to_string(),
            user_id: parts[2].parse().map_err(|_| "malformed number".to_string())?,
        });
    }
    Ok(rows)
}

/// A relational store and a key-value store in memory, and a record of what
/// was asked of them.
struct World {
    store: MemoryStore,
    store_down: bool,
    expenses: Vec<ExpenseResponse>,
    staged_expenses: Option<Vec<ExpenseResponse>>,
    categories: Vec<CategoryResponse>,
    staged_categories: Option<Vec<CategoryResponse>>,
    next_id: u128,
    asked: Vec<String>,
}

impl World {
    fn new() -> World {
        World {
            store: MemoryStore::new(),
            store_down: false,
            expenses: Vec::new(),
            staged_expenses: None,
            categories: vec![
                CategoryResponse { id: FOOD, description: None, name: "food".to_string(), user_id: USER },
                CategoryResponse { id: RENT, description: None, name: "rent".to_string(), user_id: USER },
            ],
            staged_categories: None,
            next_id: 1,
            asked: Vec::new(),
        }
    }

    fn send(&mut self, batch: &Vec<Command>) -> Outcome {
        if self.store_down {
            return Err("store is down".to_string());
        }
        self.store.execute_all(batch)
    }

    fn sum(&self, user_id: u128, category: Option<u128>) -> Amount {
        let mut cents: i128 = 0;
        for e in self.expenses.iter() {
            if e.user_id == user_id && category.map_or(true, |c| c == e.category_id) {
                assert_eq!(e.amount.scale, 2);
                cents += e.amount.mantissa;
            }
        }
        Amount { mantissa: cents, scale: 2 }
    }

    fn page(&self, user_id: u128, category: Option<u128>, limit: i64, offset: i64) -> Vec<ExpenseResponse> {
        self.expenses
            .iter()
            .filter(|e| e.user_id == user_id && category.map_or(true, |c| c == e.category_id))
            .skip(offset as usize)
            .take(limit as usize)
            .map(copy_expense)
            .collect()
    }

    fn perform(&mut self, action: ExpenseAction, pending: Option<String>) -> ExpenseEvent {
        match action {
            ExpenseAction::Store(batch) => {
                self.asked.push("store".to_string());
                ExpenseEvent::Store(self.send(&batch))
            }
            ExpenseAction::Begin => {
                self.asked.push("begin".to_string());
                self.staged_expenses = Some(self.expenses.iter().map(copy_expense).collect());
                ExpenseEvent::Unit(Ok(()))
            }
            ExpenseAction::Commit => {
                self.asked.push("commit".to_string());
                self.expenses = self.staged_expenses.take().expect("a transaction is open");
                ExpenseEvent::Unit(Ok(()))
            }
            ExpenseAction::Insert { user_id, expense } => {
                self.asked.push("insert".to_string());
                if !self.categories.iter().any(|c| c.id == expense.category_id) {
                    return ExpenseEvent::Row(Err(DbFailure::Database {
                        code: Some("23503".to_string()),
                        message: "violates foreign key constraint".to_string(),
                    }));
                }
                let row = ExpenseResponse {
                    id: self.next_id,
                    amount: expense.amount,
                    description: expense.description,
                    user_id,
                    category_id: expense.category_id,
                    date: expense.date,
                    payment_method: expense.payment_method,
                    is_recurring: expense.is_recurring,
                    tags: expense.tags,
                };
                self.next_id += 1;
                let staged = self.staged_expenses.as_mut().expect("a transaction is open");
                staged.insert(0, copy_expense(&row));
                ExpenseEvent::Row(Ok(row))
            }
            ExpenseAction::LocateCategory { user_id, expense_id } => {
                self.asked.push("locate".to_string());
                let staged = self.staged_expenses.as_ref().expect("a transaction is open");
                let found = staged.iter().find(|e| e.id == expense_id && e.user_id == user_id);
                ExpenseEvent::Category(Ok(found.map(|e| e.category_id)))
            }
            ExpenseAction::Update { user_id, expense_id, expense } => {
                self.asked.push("update".to_string());
                let staged = self.staged_expenses.as_mut().expect("a transaction is open");
                match staged.iter().position(|e| e.id == expense_id && e.user_id == user_id) {
                    None => ExpenseEvent::MaybeRow(Ok(None)),
                    Some(at) => {
                        staged.remove(at);
                        let row = ExpenseResponse {
                            id: expense_id,
                            amount: expense.amount,
                            description: expense.description,
                            user_id,
                            category_id: expense.category_id,
                            date: expense.date,
                            payment_method: expense.payment_method,
                            is_recurring: expense.is_recurring,
                            tags: expense.tags,
                        };
                        staged.insert(0, copy_expense(&row));
                        ExpenseEvent::MaybeRow(Ok(Some(row)))
                    }
                }
            }
            ExpenseAction::Remove { user_id, expense_id } => {
                self.asked.push("remove".to_string());
                let staged = self.staged_expenses.as_mut().expect("a transaction is open");
                match staged.iter().position(|e| e.id == expense_id && e.user_id == user_id) {
                    None => ExpenseEvent::Removed(Ok(None)),
                    Some(at) => {
                        let row = staged.remove(at);
                        ExpenseEvent::Removed(Ok(Some((row.id, row.category_id))))
                    }
                }
            }
            ExpenseAction::SelectPage { user_id, limit, offset } => {
                self.asked.push(format!("select page limit {} offset {}", limit, offset));
                ExpenseEvent::Rows(Ok(self.page(user_id, None, limit, offset)))
            }
            ExpenseAction::SelectCategoryPage { user_id, category_id, limit, offset } => {
                self.asked.push(format!("select category page limit {} offset {}", limit, offset));
                ExpenseEvent::Rows(Ok(self.page(user_id, Some(category_id), limit, offset)))
            }
            ExpenseAction::SelectOne { user_id, expense_id } => {
                self.asked.push("select one".to_string());
                match self.expenses.iter().find(|e| e.id == expense_id && e.user_id == user_id) {
                    Some(row) => ExpenseEvent::Row(Ok(copy_expense(row))),
                    None => ExpenseEvent::Row(Err(DbFailure::RowNotFound)),
                }
            }
            ExpenseAction::SumAll { user_id } => {
                self.asked.push("sum all".to_string());
                ExpenseEvent::Sum(Ok(self.sum(user_id, None)))
            }
            ExpenseAction::SumCategory { user_id, category_id } => {
                self.asked.push("sum category".to_string());
                ExpenseEvent::Sum(Ok(self.sum(user_id, Some(category_id))))
            }
            ExpenseAction::DecodePage(text) => ExpenseEvent::DecodedPage(decode_page(&text)),
            ExpenseAction::DecodeRows(text) => ExpenseEvent::DecodedRows(decode_rows(&text)),
            ExpenseAction::DecodeRow(text) => ExpenseEvent::DecodedRow(decode_expense(&text)),
            ExpenseAction::Encode => {
                ExpenseEvent::Encoded(pending.ok_or("nothing to encode".to_string()))
            }
        }
    }

    fn rollback(&mut self) {
        self.staged_expenses = None;
        self.staged_categories = None;
    }

    fn read_page(&mut self, page: i64) -> Result<ExpensesTotalCached, ExpenseError> {
        let mut step = ExpenseServices::get_user_expenses(PageParams { page }, USER);
        loop {
            match step {
                Step::Done { result } => return result,
                Step::Ask { flow, action } => {
                    let pending = flow.pending().map(encode_page);
                    let event = self.perform(action, pending);
                    step = flow.step(event);
                }
            }
        }
    }

    fn read_category_page(&mut self, category_id: u128, page: i64) -> Result<ExpensesTotalCached, ExpenseError> {
        let mut step = ExpenseServices::filter_expense_by_category_per_user(
            PageParams { page },
            CategoryIdPath { category_id },
            USER,
        );
        loop {
            match step {
                Step::Done { result } => return result,
                Step::Ask { flow, action } => {
                    let pending = flow.pending().map(encode_rows);
                    let event = self.perform(action, pending);
                    step = flow.step(event);
                }
            }
        }
    }

    fn read_one(&mut self, expense_id: u128) -> Result<ExpenseCached, ExpenseError> {
        let mut step = ExpenseServices::get_single_expense_per_user(ExpensePath { expense_id }, USER);
        loop {
            match step {
                Step::Done { result } => return result,
                Step::Ask { flow, action } => {
                    let pending = flow.pending().map(encode_expense);
                    let event = self.perform(action, pending);
                    step = flow.step(event);
                }
            }
        }
    }

    fn read_total(&mut self) -> Result<Amount, ExpenseError> {
        let mut step = ExpenseServices::get_total_of_all_expenses(USER);
        loop {
            match step {
                Step::Done { result } => return result,
                Step::Ask { flow, action } => {
                    let event = self.perform(action, None);
                    step = flow.step(event);
                }
            }
        }
    }

    fn add(&mut self, cents: i128, description: &str, category_id: u128) -> Result<ExpenseResponse, ExpenseError> {
        let step = ExpenseServices::add_expense(request(cents, description, category_id), USER);
        self.save(step)
    }

    fn edit(&mut self, expense_id: u128, cents: i128, description: &str, category_id: u128) -> Result<ExpenseResponse, ExpenseError> {
        let step = ExpenseServices::edit_expense_per_user(
            request(cents, description, category_id),
            ExpensePath { expense_id },
            USER,
        );
        self.save(step)
    }

    fn save(
        &mut self,
        first: expense_tracker::services::expense_writes::ExpenseSaveStep,
    ) -> Result<ExpenseResponse, ExpenseError> {
        let mut step = first;
        loop {
            match step {
                Step::Done { result } => {
                    self.rollback();
                    return result;
                }
                Step::Ask { flow, action } => {
                    let event = self.perform(action, None);
                    step = flow.step(event);
                }
            }
        }
    }

    fn delete(&mut self, expense_id: u128) -> Result<String, ExpenseError> {
        let mut step = ExpenseServices::delete_expense_per_user(ExpensePath { expense_id }, USER);
        loop {
            match step {
                Step::Done { result } => {
                    self.rollback();
                    return result;
                }
                Step::Ask { flow, action } => {
                    let event = self.perform(action, None);
                    step = flow.step(event);
                }
            }
        }
    }

    fn perform_category(&mut self, action: CategoryAction, pending: Option<String>) -> CategoryEvent {
        match action {
            CategoryAction::Store(batch) => {
                self.asked.push("store".to_string());
                CategoryEvent::Store(self.send(&batch))
            }
            CategoryAction::Begin => {
                self.staged_categories = Some(self.categories.iter().map(copy_category).collect());
                CategoryEvent::Unit(Ok(()))
            }
            CategoryAction::Commit => {
                self.asked.push("commit".to_string());
                self.categories = self.staged_categories.take().expect("a transaction is open");
                CategoryEvent::Unit(Ok(()))
            }
            CategoryAction::Insert { user_id, category } => {
                let staged = self.staged_categories.as_mut().expect("a transaction is open");
                if staged.iter().any(|c| c.user_id == user_id && c.name == category.name) {
                    return CategoryEvent::Row(Err(DbFailure::Database {
                        code: Some("23505".to_string()),
                        message: "duplicate key value".to_string(),
                    }));
                }
                let row = CategoryResponse {
                    id: self.next_id,
                    description: None,
                    name: category.name,
                    user_id,
                };
                self.next_id += 1;
                staged.insert(0, copy_category(&row));
                CategoryEvent::Row(Ok(row))
            }
            CategoryAction::SelectPage { user_id, limit, offset } => {
                self.asked.push(format!("select categories limit {} offset {}", limit, offset));
                let rows = self
                    .categories
                    .iter()
                    .filter(|c| c.user_id == user_id)
                    .skip(offset as usize)
                    .take(limit as usize)
                    .map(copy_category)
                    .collect();
                CategoryEvent::Rows(Ok(rows))
            }
            CategoryAction::Decode(text) => CategoryEvent::Decoded(decode_categories(&text)),
            CategoryAction::Encode => {
                CategoryEvent::Encoded(pending.ok_or("nothing to encode".to_string()))
            }
        }
    }

    fn read_categories(&mut self, page: i64) -> Result<CategoriesCached, CategoryError> {
        let mut step = CategoryService::get_user_categories(CategoryPagination { page }, USER);
        loop {
            match step {
                Step::Done { result } => return result,
                Step::Ask { flow, action } => {
                    let pending = flow.pending().map(encode_categories);
                    let event = self.perform_category(action, pending);
                    step = flow.step(event);
                }
            }
        }
    }

    fn add_category(&mut self, name: &str) -> Result<CategoryResponse, CategoryError> {
        let mut step = CategoryService::add_category(Category { name: name.to_string() }, USER);
        loop {
            match step {
                Step::Done { result } => {
                    self.rollback();
                    return result;
                }
                Step::Ask { flow, action } => {
                    let event = self.perform_category(action, None);
                    step = flow.step(event);
                }
            }
        }
    }
}

fn request(cents: i128, description: &str, category_id: u128) -> ExpenseRequest {
    ExpenseRequest {
        amount: Amount { mantissa: cents, scale: 2 },
        description: description.to_string(),
        category_id,
        date: 739000,
        payment_method: None,
        is_recurring: false,
        tags: None,
    }
}

fn descriptions(page: &ExpensesTotalCached) -> Vec<String> {
    page.expenses_total.expenses.iter().map(|e| e.description.clone()).collect()
}

fn cents(page: &ExpensesTotalCached) -> (i128, u32) {
    (page.expenses_total.total.mantissa, page.expenses_total.total.scale)
}

#[test]
fn a_page_is_computed_then_served_from_cache_until_a_write() {
    let mut world = World::new();
    world.add(1000, "E1", FOOD).unwrap();

    let first = world.read_page(1).unwrap();
    assert_eq!(descriptions(&first), vec!["E1"]);
    assert_eq!(cents(&first), (1000, 2));
    assert!(!first.cached);

    let second = world.read_page(1).unwrap();
    assert_eq!(descriptions(&second), vec!["E1"]);
    assert_eq!(cents(&second), (1000, 2));
    assert!(second.cached);
    assert_eq!(encode_page(&first.expenses_total), encode_page(&second.expenses_total));

    world.add(500, "E2", FOOD).unwrap();

    let third = world.read_page(1).unwrap();
    assert_eq!(descriptions(&third), vec!["E2", "E1"]);
    assert_eq!(cents(&third), (1500, 2));
    assert!(!third.cached);
}

#[test]
fn the_second_of_two_reads_returns_the_cached_bytes() {
    let mut world = World::new();
    world.add(1000, "E1", FOOD).unwrap();
    world.read_page(1).unwrap();
    let key = expenses_page_key(USER, 1, "1");
    let cached = world.store.get(&key).expect("the page is cached under generation 1");
    world.asked.clear();
    let again = world.read_page(1).unwrap();
    assert!(again.cached);
    assert_eq!(encode_page(&again.expenses_total), cached);
    assert_eq!(world.asked, vec!["store", "store"]);
    assert_eq!(world.store.get(&key), Some(cached));
}

#[test]
fn a_write_bumps_the_generation_and_leaves_old_pages_behind() {
    let mut world = World::new();
    world.add(1000, "E1", FOOD).unwrap();
    assert_eq!(world.store.get(&all_expenses_version_key(USER)), Some("1".to_string()));
    world.read_page(1).unwrap();
    let old_key = expenses_page_key(USER, 1, "1");
    let stale = world.store.get(&old_key).unwrap();

    world.add(500, "E2", FOOD).unwrap();
    assert_eq!(world.store.get(&all_expenses_version_key(USER)), Some("2".to_string()));
    assert_eq!(world.store.get(&old_key), Some(stale.clone()));

    let fresh = world.read_page(1).unwrap();
    assert!(!fresh.cached);
    assert_ne!(encode_page(&fresh.expenses_total), stale);
    assert!(world.store.get(&expenses_page_key(USER, 1, "2")).is_some());
}

#[test]
fn many_writes_never_bring_an_old_page_back() {
    let mut world = World::new();
    world.read_page(1).unwrap();
    let mut seen = vec![encode_page(&world.read_page(1).unwrap().expenses_total)];
    for n in 1..=12 {
        world.add(100 * n, &format!("E{}", n), FOOD).unwrap();
        let page = world.read_page(1).unwrap();
        assert!(!page.cached);
        assert_eq!(cents(&page).0, (1..=n).map(|k| 100 * k).sum::<i128>());
        let text = encode_page(&page.expenses_total);
        assert!(!seen.contains(&text));
        seen.push(text);
        assert_eq!(
            world.store.get(&all_expenses_version_key(USER)),
            Some((n + 1).to_string())
        );
    }
}

#[test]
fn the_first_read_creates_the_generation_at_one() {
    let mut world = World::new();
    assert_eq!(world.store.get(&all_expenses_version_key(USER)), None);
    let page = world.read_page(1).unwrap();
    assert!(!page.cached);
    assert!(page.expenses_total.expenses.is_empty());
    assert_eq!(cents(&page), (0, 2));
    assert_eq!(world.store.get(&all_expenses_version_key(USER)), Some("1".to_string()));
    assert_eq!(world.store.get(&total_expense_key(USER)), Some("0.00".to_string()));
}

#[test]
fn the_first_write_counts_the_generation_from_zero() {
    let mut world = World::new();
    world.add(1000, "E1", FOOD).unwrap();
    assert_eq!(world.store.get(&all_expenses_version_key(USER)), Some("1".to_string()));
    assert_eq!(
        world.store.get(&category_filter_expenses_version_key(FOOD, USER)),
        Some("1".to_string())
    );
    assert_eq!(world.store.get(&category_filter_expenses_version_key(RENT, USER)), None);
}

#[test]
fn pages_below_one_are_the_first_page() {
    let mut world = World::new();
    for n in 1..=12 {
        world.add(100, &format!("E{}", n), FOOD).unwrap();
    }
    world.asked.clear();
    let page = world.read_page(0).unwrap();
    assert_eq!(page.expenses_total.expenses.len(), 10);
    assert!(world.asked.contains(&"select page limit 10 offset 0".to_string()));
    let cached = world.read_page(-4).unwrap();
    assert!(cached.cached);
    world.asked.clear();
    let second = world.read_page(2).unwrap();
    assert_eq!(descriptions(&second), vec!["E2", "E1"]);
    assert!(world.asked.contains(&"select page limit 10 offset 10".to_string()));
}

#[test]
fn a_total_is_cached_as_decimal_text_and_read_back() {
    let mut world = World::new();
    world.add(1000, "E1", FOOD).unwrap();
    world.add(550, "E2", RENT).unwrap();
    let total = world.read_total().unwrap();
    assert_eq!((total.mantissa, total.scale), (1550, 2));
    assert_eq!(world.store.get(&total_expense_key(USER)), Some("15.50".to_string()));
    world.asked.clear();
    let again = world.read_total().unwrap();
    assert_eq!((again.mantissa, again.scale), (1550, 2));
    assert_eq!(world.asked, vec!["store"]);
}

#[test]
fn a_cached_total_that_is_no_number_is_an_internal_failure() {
    let mut world = World::new();
    world
        .store
        .execute(&Command::SetEx {
            key: total_expense_key(USER),
            value: "a lot".to_string(),
            ttl_seconds: 300,
        })
        .unwrap();
    match world.read_total() {
        Err(ExpenseError::Internal(cause)) => assert_eq!(cause, "cached total is not a decimal number"),
        _ => panic!("expected an internal failure"),
    }
}

#[test]
fn a_total_that_cannot_be_represented_is_an_internal_failure() {
    let flow = match ExpenseServices::get_total_of_all_expenses(USER) {
        Step::Ask { flow, .. } => flow,
        _ => panic!("the read begins with a lookup"),
    };
    let flow = match flow.step(ExpenseEvent::Store(Ok(vec![Reply::Nil]))) {
        Step::Ask { flow, action: ExpenseAction::SumAll { user_id } } => {
            assert_eq!(user_id, USER);
            flow
        }
        _ => panic!("a miss asks for the sum"),
    };
    match flow.step(ExpenseEvent::Sum(Ok(Amount { mantissa: 1, scale: 29 }))) {
        Step::Done { result: Err(ExpenseError::Internal(cause)) } => {
            assert_eq!(cause, "total cannot be represented")
        }
        _ => panic!("expected an internal failure"),
    }
}

#[test]
fn a_write_deletes_the_cached_totals() {
    let mut world = World::new();
    world.add(1000, "E1", FOOD).unwrap();
    world.read_total().unwrap();
    world.read_category_page(FOOD, 1).unwrap();
    assert!(world.store.get(&total_expense_key(USER)).is_some());
    assert!(world.store.get(&category_filter_total_expense_key(FOOD, USER)).is_some());
    world.add(500, "E2", FOOD).unwrap();
    assert_eq!(world.store.get(&total_expense_key(USER)), None);
    assert_eq!(world.store.get(&category_filter_total_expense_key(FOOD, USER)), None);
    let total = world.read_total().unwrap();
    assert_eq!((total.mantissa, total.scale), (1500, 2));
}

#[test]
fn a_category_view_is_cached_under_its_own_generation() {
    let mut world = World::new();
    world.add(1000, "lunch", FOOD).unwrap();
    world.add(90000, "flat", RENT).unwrap();

    let food = world.read_category_page(FOOD, 1).unwrap();
    assert_eq!(descriptions(&food), vec!["lunch"]);
    assert_eq!(cents(&food), (1000, 2));
    assert!(!food.cached);
    let again = world.read_category_page(FOOD, 1).unwrap();
    assert!(again.cached);
    assert_eq!(descriptions(&again), vec!["lunch"]);
    assert_eq!(cents(&again), (1000, 2));

    world.add(2500, "garage", RENT).unwrap();
    let still = world.read_category_page(FOOD, 1).unwrap();
    assert!(still.cached);
    let rent = world.read_category_page(RENT, 1).unwrap();
    assert!(!rent.cached);
    assert_eq!(descriptions(&rent), vec!["garage", "flat"]);
    assert_eq!(cents(&rent), (92500, 2));

    world.add(700, "dinner", FOOD).unwrap();
    let food = world.read_category_page(FOOD, 1).unwrap();
    assert!(!food.cached);
    assert_eq!(descriptions(&food), vec!["dinner", "lunch"]);
    assert_eq!(cents(&food), (1700, 2));
}

#[test]
fn an_edited_expense_is_read_fresh() {
    let mut world = World::new();
    let saved = world.add(1000, "lunch", FOOD).unwrap();
    let first = world.read_one(saved.id).unwrap();
    assert!(!first.cached);
    assert_eq!(first.expense.description, "lunch");
    let cached = world.read_one(saved.id).unwrap();
    assert!(cached.cached);
    assert_eq!(encode_expense(&cached.expense), encode_expense(&first.expense));

    let edited = world.edit(saved.id, 1250, "long lunch", FOOD).unwrap();
    assert_eq!(edited.description, "long lunch");
    assert_eq!(world.store.get(&single_expense_key(saved.id, USER)), None);

    let fresh = world.read_one(saved.id).unwrap();
    assert!(!fresh.cached);
    assert_eq!(fresh.expense.description, "long lunch");
    assert_eq!(fresh.expense.amount.mantissa, 1250);
}

#[test]
fn a_deleted_expense_is_gone_from_cache_and_store() {
    let mut world = World::new();
    let saved = world.add(1000, "lunch", FOOD).unwrap();
    world.read_one(saved.id).unwrap();
    assert!(world.store.get(&single_expense_key(saved.id, USER)).is_some());
    let removed = world.delete(saved.id).unwrap();
    assert_eq!(removed, "00000000-0000-0000-0000-000000000001");
    assert_eq!(world.store.get(&single_expense_key(saved.id, USER)), None);
    assert!(matches!(world.read_one(saved.id), Err(ExpenseError::ExpenseNotFound)));
    assert!(matches!(world.delete(saved.id), Err(ExpenseError::ExpenseNotFound)));
    assert!(matches!(
        world.edit(saved.id, 1, "x", FOOD),
        Err(ExpenseError::ExpenseNotFound)
    ));
}

#[test]
fn a_refused_request_asks_no_store() {
    let mut world = World::new();
    assert!(matches!(world.add(0, "free", FOOD), Err(ExpenseError::InvalidAmountValue)));
    assert!(matches!(world.add(1, "", FOOD), Err(ExpenseError::DescriptionRequired)));
    assert!(matches!(world.add(1, "x", 0), Err(ExpenseError::CategoryIDRequired)));
    assert!(matches!(
        world.edit(1, 1, &"d".repeat(256), FOOD),
        Err(ExpenseError::DescriptionTooLong)
    ));
    assert!(world.asked.is_empty());
}

#[test]
fn a_failed_write_does_not_invalidate() {
    let mut world = World::new();
    world.add(1000, "E1", FOOD).unwrap();
    world.read_page(1).unwrap();
    world.asked.clear();
    let unknown: u128 = 42;
    assert!(matches!(world.add(500, "E2", unknown), Err(ExpenseError::ForeignKeyNotFound)));
    assert_eq!(world.asked, vec!["begin", "insert"]);
    world.asked.clear();
    assert!(matches!(world.edit(77, 500, "E2", FOOD), Err(ExpenseError::ExpenseNotFound)));
    assert_eq!(world.asked, vec!["begin", "locate"]);
    assert_eq!(world.store.get(&all_expenses_version_key(USER)), Some("1".to_string()));
    assert!(world.read_page(1).unwrap().cached);
}

#[test]
fn constraint_violations_on_insert_are_told_apart() {
    let begun = |step| match step {
        Step::Ask { flow, action: ExpenseAction::Begin } => flow,
        _ => panic!("a valid request begins a transaction"),
    };
    let writing = |flow: expense_tracker::services::expense_writes::ExpenseSave| match flow
        .step(ExpenseEvent::Unit(Ok(())))
    {
        Step::Ask { flow, action: ExpenseAction::Insert { .. } } => flow,
        _ => panic!("the insert follows"),
    };
    let refuse = |code: Option<&str>| {
        ExpenseEvent::Row(Err(DbFailure::Database {
            code: code.map(|c| c.to_string()),
            message: "refused".to_string(),
        }))
    };
    let flow = writing(begun(ExpenseServices::add_expense(request(1, "x", FOOD), USER)));
    assert!(matches!(
        flow.step(refuse(Some("23502"))),
        Step::Done { result: Err(ExpenseError::RequiredFieldMissing) }
    ));
    let flow = writing(begun(ExpenseServices::add_expense(request(1, "x", FOOD), USER)));
    assert!(matches!(
        flow.step(refuse(Some("23503"))),
        Step::Done { result: Err(ExpenseError::ForeignKeyNotFound) }
    ));
    let flow = writing(begun(ExpenseServices::add_expense(request(1, "x", FOOD), USER)));
    match flow.step(refuse(Some("23505"))) {
        Step::Done { result: Err(ExpenseError::Internal(cause)) } => assert_eq!(cause, "refused"),
        _ => panic!("expected an internal failure"),
    }
    let flow = writing(begun(ExpenseServices::add_expense(request(1, "x", FOOD), USER)));
    assert!(matches!(
        flow.step(refuse(None)),
        Step::Done { result: Err(ExpenseError::Internal(_)) }
    ));
}

#[test]
fn a_write_whose_invalidation_fails_is_not_committed() {
    let mut world = World::new();
    world.add(1000, "E1", FOOD).unwrap();
    world.asked.clear();
    world.store_down = true;
    match world.add(500, "E2", FOOD) {
        Err(ExpenseError::Internal(cause)) => assert_eq!(cause, "store is down"),
        _ => panic!("expected an internal failure"),
    }
    assert_eq!(world.asked, vec!["begin", "insert", "store"]);
    assert_eq!(world.expenses.len(), 1);
    world.store_down = false;
    assert!(matches!(world.delete(1), Ok(_)));
    assert_eq!(world.expenses.len(), 0);
}

#[test]
fn reads_are_served_by_the_relational_store_while_the_cache_is_down() {
    let mut world = World::new();
    world.add(1000, "E1", FOOD).unwrap();
    world.add(550, "E2", RENT).unwrap();
    world.store_down = true;
    world.asked.clear();

    let page = world.read_page(1).unwrap();
    assert!(!page.cached);
    assert_eq!(descriptions(&page), vec!["E2", "E1"]);
    assert_eq!(cents(&page), (1550, 2));
    assert_eq!(
        world.asked,
        vec!["store", "select page limit 10 offset 0", "store", "sum all", "store"]
    );
    let again = world.read_page(1).unwrap();
    assert!(!again.cached);
    assert_eq!(cents(&again), (1550, 2));

    let food = world.read_category_page(FOOD, 1).unwrap();
    assert!(!food.cached);
    assert_eq!(descriptions(&food), vec!["E1"]);
    assert_eq!(cents(&food), (1000, 2));

    let one = world.read_one(1).unwrap();
    assert!(!one.cached);
    assert_eq!(one.expense.description, "E1");

    let total = world.read_total().unwrap();
    assert_eq!((total.mantissa, total.scale), (1550, 2));

    let categories = world.read_categories(1).unwrap();
    assert!(!categories.cached);
    assert_eq!(categories.categories.len(), 2);

    world.store_down = false;
    assert_eq!(world.store.get(&total_expense_key(USER)), None);
    let cached_now = world.read_page(1).unwrap();
    assert!(!cached_now.cached);
    assert!(world.read_page(1).unwrap().cached);
}

#[test]
fn a_page_that_cannot_be_cached_is_served_all_the_same() {
    let mut world = World::new();
    world.add(1000, "E1", FOOD).unwrap();
    let mut step = ExpenseServices::get_user_expenses(PageParams { page: 1 }, USER);
    let mut stores = 0;
    let result = loop {
        match step {
            Step::Done { result } => break result,
            Step::Ask { flow, action } => {
                let pending = flow.pending().map(encode_page);
                let event = match action {
                    ExpenseAction::Store(batch) => {
                        stores += 1;
                        if stores >= 4 {
                            ExpenseEvent::Store(Err("store went down".to_string()))
                        } else {
                            ExpenseEvent::Store(world.store.execute_all(&batch))
                        }
                    }
                    other => world.perform(other, pending),
                };
                step = flow.step(event);
            }
        }
    };
    let page = result.unwrap();
    assert!(!page.cached);
    assert_eq!(descriptions(&page), vec!["E1"]);
    assert_eq!(cents(&page), (1000, 2));
    assert_eq!(stores, 5);
    assert_eq!(world.store.get(&expenses_page_key(USER, 1, "1")), None);
}

#[test]
fn a_failed_lookup_counts_as_a_miss() {
    let flow = match ExpenseServices::get_single_expense_per_user(ExpensePath { expense_id: 1 }, USER) {
        Step::Ask { flow, .. } => flow,
        _ => panic!("the read begins with a lookup"),
    };
    assert!(matches!(
        flow.step(ExpenseEvent::Store(Err("store is down".to_string()))),
        Step::Ask { action: ExpenseAction::SelectOne { user_id: USER, expense_id: 1 }, .. }
    ));
}

#[test]
fn an_outcome_out_of_turn_ends_the_flow() {
    let flow = match ExpenseServices::get_user_expenses(PageParams { page: 1 }, USER) {
        Step::Ask { flow, .. } => flow,
        _ => panic!("the read begins with the generation"),
    };
    match flow.step(ExpenseEvent::Sum(Ok(Amount { mantissa: 1, scale: 0 }))) {
        Step::Done { result: Err(ExpenseError::Internal(cause)) } => {
            assert_eq!(cause, "outcome does not answer the pending action")
        }
        _ => panic!("expected an internal failure"),
    }
}

#[test]
fn a_generation_reply_of_another_shape_means_a_read_without_the_cache() {
    let flow = || match ExpenseServices::get_user_expenses(PageParams { page: 3 }, USER) {
        Step::Ask { flow, .. } => flow,
        _ => panic!("the read begins with the generation"),
    };
    assert!(matches!(
        flow().step(ExpenseEvent::Store(Ok(vec![Reply::Integer(1), Reply::Nil]))),
        Step::Ask {
            action: ExpenseAction::SelectPage { user_id: USER, limit: 10, offset: 20 },
            ..
        }
    ));
    assert!(matches!(
        flow().step(ExpenseEvent::Store(Ok(vec![Reply::Text("7".to_string())]))),
        Step::Ask { action: ExpenseAction::SelectPage { .. }, .. }
    ));
    assert!(matches!(
        flow().step(ExpenseEvent::Store(Err("down".to_string()))),
        Step::Ask { action: ExpenseAction::SelectPage { .. }, .. }
    ));
    match flow().step(ExpenseEvent::Store(Ok(vec![Reply::Integer(0), Reply::Text("7".to_string())]))) {
        Step::Ask { action: ExpenseAction::Store(batch), .. } => {
            assert_eq!(batch.len(), 1);
            match &batch[0] {
                Command::Get { key } => assert_eq!(*key, expenses_page_key(USER, 3, "7")),
                _ => panic!("the page is looked up"),
            }
        }
        _ => panic!("the page is looked up"),
    }
}

#[test]
fn the_invalidation_batch_of_an_edit_is_five_commands_in_order() {
    let batch = invalidate_expense_cache(FOOD, USER, Some(9), None);
    let shown: Vec<String> = batch
        .iter()
        .map(|c| match c {
            Command::Delete { key } => format!("del {}", key),
            Command::Increment { key, delta } => format!("incr {} {}", key, delta),
            _ => "other".to_string(),
        })
        .collect();
    assert_eq!(
        shown,
        vec![
            format!("del {}", single_expense_key(9, USER)),
            format!("incr {} 1", all_expenses_version_key(USER)),
            format!("del {}", total_expense_key(USER)),
            format!("incr {} 1", category_filter_expenses_version_key(FOOD, USER)),
            format!("del {}", category_filter_total_expense_key(FOOD, USER)),
        ]
    );
    assert_eq!(invalidate_expense_cache(FOOD, USER, None, None).len(), 4);
    let moved = invalidate_expense_cache(FOOD, USER, Some(9), Some(RENT));
    assert_eq!(moved.len(), 7);
    assert!(matches!(
        &moved[5],
        Command::Increment { key, delta: 1 } if *key == category_filter_expenses_version_key(RENT, USER)
    ));
    assert!(matches!(
        &moved[6],
        Command::Delete { key } if *key == category_filter_total_expense_key(RENT, USER)
    ));
    let batch = invalidate_category_cache(USER);
    assert_eq!(batch.len(), 1);
    assert!(matches!(&batch[0], Command::Increment { key, delta: 1 } if *key == categories_version_key(USER)));
}

#[test]
fn categories_are_cached_until_one_is_added() {
    let mut world = World::new();
    let first = world.read_categories(1).unwrap();
    assert!(!first.cached);
    assert_eq!(first.categories.len(), 2);
    let second = world.read_categories(1).unwrap();
    assert!(second.cached);
    assert_eq!(encode_categories(&second.categories), encode_categories(&first.categories));

    let saved = world.add_category("travel").unwrap();
    assert_eq!(saved.name, "travel");
    assert_eq!(world.store.get(&categories_version_key(USER)), Some("2".to_string()));
    let third = world.read_categories(1).unwrap();
    assert!(!third.cached);
    let names: Vec<&str> = third.categories.iter().map(|c| c.name.as_str()).collect();
    assert_eq!(names, vec!["travel", "food", "rent"]);
}

#[test]
fn a_duplicate_category_name_is_a_conflict_and_invalidates_nothing() {
    let mut world = World::new();
    world.read_categories(1).unwrap();
    assert!(matches!(world.add_category("food"), Err(CategoryError::NameExisting)));
    assert_eq!(world.store.get(&categories_version_key(USER)), Some("1".to_string()));
    assert!(world.read_categories(1).unwrap().cached);
    assert!(matches!(world.add_category("ab"), Err(CategoryError::NameTooShort)));
}

#[test]
fn a_category_whose_invalidation_fails_is_not_committed() {
    let mut world = World::new();
    world.store_down = true;
    world.asked.clear();
    assert!(matches!(world.add_category("travel"), Err(CategoryError::Internal(_))));
    assert!(!world.asked.contains(&"commit".to_string()));
    assert_eq!(world.categories.len(), 2);
}

#[test]
fn an_edit_that_moves_an_expense_invalidates_both_categories() {
    let mut world = World::new();
    let lunch = world.add(1000, "lunch", FOOD).unwrap();
    world.add(90000, "flat", RENT).unwrap();
    let food = world.read_category_page(FOOD, 1).unwrap();
    let rent = world.read_category_page(RENT, 1).unwrap();
    assert_eq!((cents(&food), cents(&rent)), ((1000, 2), (90000, 2)));
    assert!(world.read_category_page(FOOD, 1).unwrap().cached);
    assert!(world.read_category_page(RENT, 1).unwrap().cached);
    let food_generation = world.store.get(&category_filter_expenses_version_key(FOOD, USER));
    let rent_generation = world.store.get(&category_filter_expenses_version_key(RENT, USER));
    assert_eq!(food_generation, Some("1".to_string()));
    assert_eq!(rent_generation, Some("1".to_string()));

    let moved = world.edit(lunch.id, 1000, "lunch at home", RENT).unwrap();
    assert_eq!(moved.category_id, RENT);
    assert_eq!(
        world.store.get(&category_filter_expenses_version_key(FOOD, USER)),
        Some("2".to_string())
    );
    assert_eq!(
        world.store.get(&category_filter_expenses_version_key(RENT, USER)),
        Some("2".to_string())
    );
    assert_eq!(world.store.get(&all_expenses_version_key(USER)), Some("3".to_string()));
    assert_eq!(world.store.get(&category_filter_total_expense_key(FOOD, USER)), None);
    assert_eq!(world.store.get(&category_filter_total_expense_key(RENT, USER)), None);
    assert_eq!(world.store.get(&total_expense_key(USER)), None);

    let food = world.read_category_page(FOOD, 1).unwrap();
    assert!(!food.cached);
    assert!(food.expenses_total.expenses.is_empty());
    assert_eq!(cents(&food), (0, 2));
    let rent = world.read_category_page(RENT, 1).unwrap();
    assert!(!rent.cached);
    assert_eq!(descriptions(&rent), vec!["lunch at home", "flat"]);
    assert_eq!(cents(&rent), (91000, 2));
}

#[test]
fn an_edit_within_a_category_invalidates_it_once() {
    let mut world = World::new();
    let lunch = world.add(1000, "lunch", FOOD).unwrap();
    world.edit(lunch.id, 1200, "lunch", FOOD).unwrap();
    assert_eq!(
        world.store.get(&category_filter_expenses_version_key(FOOD, USER)),
        Some("2".to_string())
    );
    assert_eq!(world.store.get(&category_filter_expenses_version_key(RENT, USER)), None);
}

#[test]
fn an_added_expense_reads_back_with_every_field() {
    let mut world = World::new();
    let request = ExpenseRequest {
        amount: Amount { mantissa: 1999, scale: 2 },
        description: "shoes".to_string(),
        category_id: FOOD,
        date: 739123,
        payment_method: Some("card".to_string()),
        is_recurring: true,
        tags: Some(vec!["gift".to_string()]),
    };
    let saved = world.save(ExpenseServices::add_expense(request, USER)).unwrap();
    assert_eq!(saved.payment_method, Some("card".to_string()));
    match ExpenseServices::get_single_expense_per_user(ExpensePath { expense_id: saved.id }, USER) {
        Step::Ask { flow, .. } => match flow.step(ExpenseEvent::Store(Ok(vec![Reply::Nil]))) {
            Step::Ask { flow, action } => match flow.step(world.perform(action, None)) {
                Step::Ask { flow, action: ExpenseAction::Encode } => {
                    let held = flow.pending().expect("the row is held ready");
                    assert_eq!(held.payment_method, Some("card".to_string()));
                    assert_eq!(held.tags, Some(vec!["gift".to_string()]));
                    assert_eq!(held.date, 739123);
                    assert!(held.is_recurring);
                    assert_eq!((held.amount.mantissa, held.amount.scale), (1999, 2));
                    assert_eq!(held.description, "shoes");
                }
                _ => panic!("the row is written as text"),
            },
            _ => panic!("a miss asks the relational store"),
        },
        _ => panic!("the read begins with a lookup"),
    }
}

#[test]
fn a_total_reads_back_as_it_was_written() {
    let max: i128 = 79228162514264337593543950335;
    let cases: Vec<(i128, u32)> = vec![
        (0, 0),
        (0, 2),
        (0, 28),
        (1, 0),
        (1, 28),
        (-1, 28),
        (5, 1),
        (1050, 2),
        (-1050, 2),
        (100, 2),
        (10000000000000000000000000000, 28),
        (max, 0),
        (max, 28),
        (-max, 0),
        (-max, 14),
        (18446744073709551615, 3),
        (18446744073709551616, 19),
    ];
    for (mantissa, scale) in cases {
        let total = Amount { mantissa, scale };
        let text = match (TotalRead::Summing { user_id: USER }).step(ExpenseEvent::Sum(Ok(total))) {
            Step::Ask { action: ExpenseAction::Store(batch), .. } => match &batch[0] {
                Command::SetEx { value, .. } => value.clone(),
                _ => panic!("the total is cached"),
            },
            _ => panic!("the total is cached"),
        };
        let found = (TotalRead::Looking { user_id: USER })
            .step(ExpenseEvent::Store(Ok(vec![Reply::Text(text.clone())])));
        match found {
            Step::Done { result: Ok(read) } => {
                assert_eq!((read.mantissa, read.scale), (mantissa, scale), "text {}", text)
            }
            _ => panic!("the cached total is read"),
        }
    }
}

/// The text of a decimal number as the library states it: sign, digits
/// padded to one more than the scale, point before the last `scale` digits.
fn stated_text(mantissa: i128, scale: u32) -> String {
    let mut digits = mantissa.unsigned_abs().to_string();
    let scale = scale as usize;
    let sign = if mantissa < 0 { "-" } else { "" };
    if scale == 0 {
        return format!("{}{}", sign, digits);
    }
    if digits.len() <= scale {
        digits = format!("{}{}", "0".repeat(scale + 1 - digits.len()), digits);
    }
    let whole = digits.len() - scale;
    format!("{}{}.{}", sign, &digits[..whole], &digits[whole..])
}

fn cached_text(total: Amount) -> String {
    match (TotalRead::Summing { user_id: USER }).step(ExpenseEvent::Sum(Ok(total))) {
        Step::Ask { action: ExpenseAction::Store(batch), .. } => match &batch[0] {
            Command::SetEx { value, .. } => value.clone(),
            _ => panic!("the total is cached"),
        },
        _ => panic!("the total is cached"),
    }
}

#[test]
fn totals_are_written_as_stated() {
    assert_eq!(cached_text(Amount { mantissa: 0, scale: 0 }), "0");
    assert_eq!(cached_text(Amount { mantissa: 0, scale: 2 }), "0.00");
    assert_eq!(cached_text(Amount { mantissa: 5, scale: 1 }), "0.5");
    assert_eq!(cached_text(Amount { mantissa: 50, scale: 2 }), "0.50");
    assert_eq!(cached_text(Amount { mantissa: 100, scale: 2 }), "1.00");
    assert_eq!(cached_text(Amount { mantissa: -1050, scale: 2 }), "-10.50");
    assert_eq!(cached_text(Amount { mantissa: -5, scale: 3 }), "-0.005");
    assert_eq!(
        cached_text(Amount { mantissa: 1, scale: 28 }),
        "0.0000000000000000000000000001"
    );
    assert_eq!(
        cached_text(Amount { mantissa: 79228162514264337593543950335, scale: 28 }),
        "7.9228162514264337593543950335"
    );
    assert_eq!(
        cached_text(Amount { mantissa: -79228162514264337593543950335, scale: 0 }),
        "-79228162514264337593543950335"
    );
    let max: i128 = 79228162514264337593543950335;
    let mut mantissas: Vec<i128> = vec![0, 1, 9, 10, 99, 100, 12345, max, max - 1, max / 7];
    let mut power: i128 = 1;
    for _ in 0..28 {
        power *= 10;
        mantissas.push(power);
        mantissas.push(power - 1);
        mantissas.push(power + 1);
    }
    for mantissa in mantissas {
        for scale in 0..=28u32 {
            for signed in [mantissa, -mantissa] {
                assert_eq!(
                    cached_text(Amount { mantissa: signed, scale }),
                    stated_text(signed, scale),
                    "mantissa {} scale {}",
                    signed,
                    scale
                );
            }
        }
    }
}
