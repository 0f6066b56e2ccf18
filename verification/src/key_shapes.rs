//! What the keys look like, character by character: enough to tell the kinds
//! of entry apart, and to read the page and the generation back out of the
//! key of a cached page.

use vstd::prelude::*;
use crate::keys::{
    categories_version_key_text, all_expenses_version_key_text, category_filter_prefix,
    category_filter_expenses_version_key_text, category_filter_total_expense_key_text,
    refresh_token_key_text, single_expense_key_text, total_expense_key_text, user_prefix, Scope,
};
use crate::text::{int_text, is_digit, lemma_int_text_injective, lemma_nat_text_digits, nat_text};

verus! {

/// Whether no character of `text` is a colon.
pub open spec fn no_colon(text: Seq<char>) -> bool {
    forall|i: int| 0 <= i < text.len() ==> #[trigger] text[i] != ':'
}

/// Whether `text` starts with a colon.
pub open spec fn starts_with_colon(text: Seq<char>) -> bool {
    text.len() > 0 && text[0] == ':'
}

/// The decimal notation of an integer holds no colon.
pub proof fn lemma_int_text_no_colon(n: int)
    ensures
        no_colon(int_text(n)),
        int_text(n).len() >= 1,
{
    let magnitude = (if n < 0 { -n } else { n }) as nat;
    lemma_nat_text_digits(magnitude);
    assert forall|i: int| 0 <= i < int_text(n).len() implies #[trigger] int_text(n)[i]
        != ':' by {
        if n < 0 {
            if i > 0 {
                assert(int_text(n)[i] == nat_text(magnitude)[i - 1]);
                assert(is_digit(nat_text(magnitude)[i - 1]));
            }
        } else {
            assert(is_digit(nat_text(magnitude)[i]));
        }
    }
}

/// Two texts that are equal after the same beginning are equal.
pub proof fn lemma_same_beginning(start: Seq<char>, x: Seq<char>, y: Seq<char>)
    requires
        start + x == start + y,
    ensures
        x == y,
{
    assert((start + x).subrange(start.len() as int, (start + x).len() as int) =~= x);
    assert((start + y).subrange(start.len() as int, (start + y).len() as int) =~= y);
}

/// Two texts that are equal before the same ending are equal.
pub proof fn lemma_same_ending(x: Seq<char>, y: Seq<char>, end: Seq<char>)
    requires
        x + end == y + end,
    ensures
        x == y,
{
    assert((x + end).len() == x.len() + end.len());
    assert((y + end).len() == y.len() + end.len());
    assert((x + end).subrange(0, x.len() as int) =~= x);
    assert((y + end).subrange(0, y.len() as int) =~= y);
}

/// A text without colons, followed by a colon, ends where the colon stands:
/// two such texts with their continuations are equal only part by part.
pub proof fn lemma_split_at_colon(p: Seq<char>, x: Seq<char>, q: Seq<char>, y: Seq<char>)
    requires
        p + x == q + y,
        no_colon(p),
        no_colon(q),
        starts_with_colon(x),
        starts_with_colon(y),
    ensures
        p == q,
        x == y,
{
    if p.len() < q.len() {
        assert((p + x)[p.len() as int] == x[0]);
        assert((q + y)[p.len() as int] == q[p.len() as int]);
        assert(false);
    }
    if q.len() < p.len() {
        assert((q + y)[q.len() as int] == y[0]);
        assert((p + x)[q.len() as int] == p[q.len() as int]);
        assert(false);
    }
    assert((p + x).subrange(0, p.len() as int) =~= p);
    assert((q + y).subrange(0, q.len() as int) =~= q);
    lemma_same_beginning(p, x, y);
}

/// The start of every cache key of a user is 41 characters long.
pub proof fn lemma_user_prefix_len(user_id: u128)
    ensures
        user_prefix(user_id).len() == 41,
        user_prefix(user_id)[0] == 'u',
{
    reveal_strlit("user:");
}

/// The start of the keys of a category view is 94 characters long, and its
/// 43rd character is an `f`.
pub proof fn lemma_category_filter_prefix_len(category_id: u128, user_id: u128)
    ensures
        category_filter_prefix(category_id, user_id).len() == 94,
        category_filter_prefix(category_id, user_id)[42] == 'f',
        category_filter_prefix(category_id, user_id)[0] == 'u',
{
    reveal_strlit("user:");
    reveal_strlit(":filter:category:");
}

/// The characters by which the kinds of key are told apart: the first, the
/// 43rd, the 50th and the 96th (a space where the key is shorter).
pub open spec fn marks(key: Seq<char>) -> (char, char, char, char) {
    (
        if key.len() > 0 {
            key[0]
        } else {
            ' '
        },
        if key.len() > 42 {
            key[42]
        } else {
            ' '
        },
        if key.len() > 49 {
            key[49]
        } else {
            ' '
        },
        if key.len() > 95 {
            key[95]
        } else {
            ' '
        },
    )
}

/// Whether the marks are those of the key of a generation counter.
pub open spec fn version_marks(m: (char, char, char, char)) -> bool {
    m.0 == 'u' && (m.1 == 'c' || (m.1 == 'e' && m.2 == 's') || (m.1 == 'f' && m.3 == 'e'))
}

/// Whether the marks are those of the key of a cached page.
pub open spec fn page_marks(m: (char, char, char, char)) -> bool {
    m.0 == 'u' && (m.1 == 'p' || m.1 == 'v' || (m.1 == 'f' && m.3 == 'v'))
}

/// The key of a generation counter bears the marks of one, and not those of
/// a cached page.
pub proof fn lemma_version_key_marks(scope: Scope, user_id: u128)
    ensures
        version_marks(marks(scope.version_key_text(user_id))),
        !page_marks(marks(scope.version_key_text(user_id))),
{
    lemma_user_prefix_len(user_id);
    reveal_strlit(":categories:version");
    reveal_strlit(":expenses:version");
    match scope {
        Scope::Categories => {
            let key = categories_version_key_text(user_id);
            assert(key[0] == user_prefix(user_id)[0]);
            assert(key[42] == ":categories:version"@[1]);
        },
        Scope::Expenses => {
            let key = all_expenses_version_key_text(user_id);
            assert(key[0] == user_prefix(user_id)[0]);
            assert(key[42] == ":expenses:version"@[1]);
            assert(key[49] == ":expenses:version"@[8]);
        },
        Scope::CategoryExpenses { category_id } => {
            lemma_category_filter_prefix_len(category_id, user_id);
            let key = category_filter_expenses_version_key_text(category_id, user_id);
            assert(key[0] == category_filter_prefix(category_id, user_id)[0]);
            assert(key[42] == category_filter_prefix(category_id, user_id)[42]);
            assert(key[95] == ":expenses:version"@[1]);
        },
    }
}

/// The key of a cached total bears neither the marks of a generation
/// counter nor those of a cached page.
pub proof fn lemma_total_key_marks(user_id: u128)
    ensures
        !version_marks(marks(total_expense_key_text(user_id))),
        !page_marks(marks(total_expense_key_text(user_id))),
        marks(total_expense_key_text(user_id)).0 == 'u',
{
    lemma_user_prefix_len(user_id);
    reveal_strlit(":total:expenses");
    assert(total_expense_key_text(user_id)[0] == user_prefix(user_id)[0]);
    assert(total_expense_key_text(user_id)[42] == ":total:expenses"@[1]);
}

/// The key of a cached total of a category bears neither the marks of a
/// generation counter nor those of a cached page.
pub proof fn lemma_category_total_key_marks(category_id: u128, user_id: u128)
    ensures
        !version_marks(marks(category_filter_total_expense_key_text(category_id, user_id))),
        !page_marks(marks(category_filter_total_expense_key_text(category_id, user_id))),
        marks(category_filter_total_expense_key_text(category_id, user_id)).0 == 'u',
{
    lemma_category_filter_prefix_len(category_id, user_id);
    reveal_strlit(":total:expenses");
    let key = category_filter_total_expense_key_text(category_id, user_id);
    assert(key[0] == category_filter_prefix(category_id, user_id)[0]);
    assert(key[42] == category_filter_prefix(category_id, user_id)[42]);
    assert(key[95] == ":total:expenses"@[1]);
}

/// The key of a cached expense bears neither the marks of a generation
/// counter nor those of a cached page.
pub proof fn lemma_single_expense_key_marks(expense_id: u128, user_id: u128)
    ensures
        !version_marks(marks(single_expense_key_text(expense_id, user_id))),
        !page_marks(marks(single_expense_key_text(expense_id, user_id))),
        marks(single_expense_key_text(expense_id, user_id)).0 == 'u',
{
    lemma_user_prefix_len(user_id);
    reveal_strlit(":expense:");
    let key = single_expense_key_text(expense_id, user_id);
    assert(key[0] == user_prefix(user_id)[0]);
    assert(key[42] == ":expense:"@[1]);
    assert(key[49] == ":expense:"@[8]);
}

/// The key of a cached page bears the marks of one, by which its scope is
/// known, and not those of a generation counter.
pub proof fn lemma_page_key_marks(scope: Scope, user_id: u128, generation: Seq<char>, page: int)
    ensures
        !version_marks(marks(scope.page_key_text(user_id, generation, page))),
        page_marks(marks(scope.page_key_text(user_id, generation, page))),
        marks(scope.page_key_text(user_id, generation, page)).1 == (match scope {
            Scope::Categories => 'v',
            Scope::Expenses => 'p',
            Scope::CategoryExpenses { category_id } => 'f',
        }),
{
    lemma_user_prefix_len(user_id);
    reveal_strlit(":p:");
    reveal_strlit(":v:");
    let key = scope.page_key_text(user_id, generation, page);
    match scope {
        Scope::Categories => {
            assert(key[0] == user_prefix(user_id)[0]);
            assert(key[42] == ":v:"@[1]);
        },
        Scope::Expenses => {
            assert(key[0] == user_prefix(user_id)[0]);
            assert(key[42] == ":p:"@[1]);
        },
        Scope::CategoryExpenses { category_id } => {
            lemma_category_filter_prefix_len(category_id, user_id);
            assert(key[0] == category_filter_prefix(category_id, user_id)[0]);
            assert(key[42] == category_filter_prefix(category_id, user_id)[42]);
            assert(key[95] == ":v:"@[1]);
        },
    }
}

/// The key of a refresh-token record bears neither the marks of a
/// generation counter nor those of a cached page.
pub proof fn lemma_refresh_key_marks(token_id: Seq<char>)
    ensures
        !version_marks(marks(refresh_token_key_text(token_id))),
        !page_marks(marks(refresh_token_key_text(token_id))),
        marks(refresh_token_key_text(token_id)).0 == 'r',
{
    reveal_strlit("refresh:");
    assert(refresh_token_key_text(token_id)[0] == "refresh:"@[0]);
}

/// A text made of a beginning, a field without colons, a middle that starts
/// with a colon, a second field and an ending determines both fields.
pub proof fn lemma_two_fields(
    start: Seq<char>,
    a1: Seq<char>,
    a2: Seq<char>,
    middle: Seq<char>,
    b1: Seq<char>,
    b2: Seq<char>,
    end: Seq<char>,
)
    requires
        start + a1 + middle + b1 + end == start + a2 + middle + b2 + end,
        no_colon(a1),
        no_colon(a2),
        starts_with_colon(middle),
    ensures
        a1 == a2,
        b1 == b2,
{
    let x1 = middle + b1 + end;
    let x2 = middle + b2 + end;
    assert(start + a1 + middle + b1 + end =~= start + (a1 + x1));
    assert(start + a2 + middle + b2 + end =~= start + (a2 + x2));
    lemma_same_beginning(start, a1 + x1, a2 + x2);
    assert(x1[0] == middle[0]);
    assert(x2[0] == middle[0]);
    lemma_split_at_colon(a1, x1, a2, x2);
    lemma_same_ending(middle + b1, middle + b2, end);
    lemma_same_beginning(middle, b1, b2);
}

/// The key of a cached page names its page and its generation: within one
/// scope of one user, two page keys whose generations are numbers are equal
/// only if both the generations and the pages are.
pub proof fn lemma_page_key_injective(
    scope: Scope,
    user_id: u128,
    x_generation: int,
    x_page: int,
    y_generation: int,
    y_page: int,
)
    requires
        scope.page_key_text(user_id, int_text(x_generation), x_page) == scope.page_key_text(
            user_id,
            int_text(y_generation),
            y_page,
        ),
    ensures
        x_generation == y_generation,
        x_page == y_page,
{
    lemma_int_text_no_colon(x_generation);
    lemma_int_text_no_colon(y_generation);
    lemma_int_text_no_colon(x_page);
    lemma_int_text_no_colon(y_page);
    let generation_x = int_text(x_generation);
    let generation_y = int_text(y_generation);
    let page_x = int_text(x_page);
    let page_y = int_text(y_page);
    let v = ":v:"@;
    let p = ":p:"@;
    let none = Seq::<char>::empty();
    assert(starts_with_colon(v)) by {
        reveal_strlit(":v:");
    }
    assert(starts_with_colon(p)) by {
        reveal_strlit(":p:");
    }
    match scope {
        Scope::Expenses => {
            let start = user_prefix(user_id) + p;
            lemma_two_fields(start, page_x, page_y, v, generation_x, generation_y, ":expenses"@);
        },
        Scope::Categories => {
            let start = user_prefix(user_id) + v;
            assert(start + generation_x + p + page_x + none =~= start + generation_x + p + page_x);
            assert(start + generation_y + p + page_y + none =~= start + generation_y + p + page_y);
            lemma_two_fields(start, generation_x, generation_y, p, page_x, page_y, none);
        },
        Scope::CategoryExpenses { category_id } => {
            let start = category_filter_prefix(category_id, user_id) + v;
            assert(start + generation_x + p + page_x + none =~= start + generation_x + p + page_x);
            assert(start + generation_y + p + page_y + none =~= start + generation_y + p + page_y);
            lemma_two_fields(start, generation_x, generation_y, p, page_x, page_y, none);
        },
    }
    lemma_int_text_injective(x_generation, y_generation);
    lemma_int_text_injective(x_page, y_page);
}

} // verus!
