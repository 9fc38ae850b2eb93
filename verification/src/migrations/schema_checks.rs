//! The checks that the schema migrations make of a database: what the
//! database reports is read by the caller, and these functions decide.
use vstd::prelude::*;
use vstd::string::*;
use crate::app_error::{app_result_view, AppError, AppErrorKind, AppResult};
use crate::migrations::batch_processor::texts_view;
use crate::text::{i64_to_decimal, int_decimal, same_text};

verus! {

/// Whether `name` is one of `columns`.
pub open spec fn has_column(columns: Seq<Seq<char>>, name: Seq<char>) -> bool {
    exists|i: int| 0 <= i < columns.len() && columns[i] == name
}

/// Whether `name` is one of `columns`.
pub fn contains_column(columns: &Vec<String>, name: &str) -> (r: bool)
    ensures
        r == has_column(texts_view(columns@), name@),
{
    let mut i: usize = 0;
    while i < columns.len()
        invariant
            i <= columns@.len(),
            forall|j: int| 0 <= j < i ==> texts_view(columns@)[j] != name@,
        decreases columns@.len() - i,
    {
        if same_text(columns[i].as_str(), name) {
            assert(texts_view(columns@)[i as int] == name@);
            return true;
        }
        i = i + 1;
    }
    false
}

/// The check after moving expenses to receipt URLs: the `receipt_url` column
/// is there, `receipt_path` is gone, the expenses have at least three indexes
/// and the receipt cache table exists.
pub open spec fn receipt_url_schema_outcome(columns: Seq<Seq<char>>, index_count: i64, cache_table_exists: bool) -> Result<(), (AppErrorKind, Seq<char>)> {
    if !has_column(columns, "receipt_url"@) {
        Err((AppErrorKind::Validation, "receipt_urlカラムが見つかりません"@))
    } else if has_column(columns, "receipt_path"@) {
        Err((AppErrorKind::Validation, "receipt_pathカラムが残っています"@))
    } else if index_count < 3 {
        Err((AppErrorKind::Validation, "必要なインデックスが不足しています"@))
    } else if !cache_table_exists {
        Err((AppErrorKind::Validation, "receipt_cacheテーブルが作成されていません"@))
    } else {
        Ok(())
    }
}

/// Checks the expenses schema after moving to receipt URLs.
pub fn check_receipt_url_schema(columns: &Vec<String>, index_count: i64, cache_table_exists: bool) -> (r: AppResult<()>)
    ensures
        app_result_view(r) == receipt_url_schema_outcome(texts_view(columns@), index_count, cache_table_exists),
{
    if !contains_column(columns, "receipt_url") {
        return Err(AppError::validation("receipt_urlカラムが見つかりません"));
    }
    if contains_column(columns, "receipt_path") {
        return Err(AppError::validation("receipt_pathカラムが残っています"));
    }
    if index_count < 3 {
        return Err(AppError::validation("必要なインデックスが不足しています"));
    }
    if !cache_table_exists {
        return Err(AppError::validation("receipt_cacheテーブルが作成されていません"));
    }
    Ok(())
}

/// Whether the move to receipt URLs is done: there is no expenses table yet
/// (it will be made with the new schema), its columns could not be read, or
/// it has `receipt_url` and no `receipt_path`.
pub open spec fn receipt_url_done(expenses_table_exists: bool, columns: Option<Seq<Seq<char>>>) -> bool {
    match columns {
        _ if !expenses_table_exists => true,
        None => true,
        Some(c) => has_column(c, "receipt_url"@) && !has_column(c, "receipt_path"@),
    }
}

/// Whether the move to receipt URLs is done, from what the database reports.
pub fn receipt_url_migration_complete(expenses_table_exists: bool, columns: &Option<Vec<String>>) -> (r: bool)
    ensures
        r == receipt_url_done(
            expenses_table_exists,
            match columns {
                Some(c) => Some(texts_view(c@)),
                None => None,
            },
        ),
{
    if !expenses_table_exists {
        return true;
    }
    match columns {
        None => true,
        Some(c) => contains_column(c, "receipt_url") && !contains_column(c, "receipt_path"),
    }
}

/// The first table, in order, that lacks the `user_id` column.
pub open spec fn first_without_user_id(tables: Seq<(Seq<char>, bool)>) -> Option<Seq<char>>
    decreases tables.len(),
{
    if tables.len() == 0 {
        None
    } else if !tables[0].1 {
        Some(tables[0].0)
    } else {
        first_without_user_id(tables.drop_first())
    }
}

/// Tables with whether they have a `user_id` column, seen through views.
pub open spec fn flags_view(v: Seq<(String, bool)>) -> Seq<(Seq<char>, bool)> {
    v.map_values(|p: (String, bool)| (p.0@, p.1))
}

fn find_without_user_id(tables: &Vec<(String, bool)>) -> (r: Option<usize>)
    ensures
        match first_without_user_id(flags_view(tables@)) {
            Some(t) => r matches Some(i) && i < tables@.len() && tables@[i as int].0@ == t,
            None => r is None,
        },
{
    let ghost all = flags_view(tables@);
    let mut i: usize = 0;
    assert(all.skip(0) =~= all);
    while i < tables.len()
        invariant
            i <= tables@.len(),
            all == flags_view(tables@),
            first_without_user_id(all) == first_without_user_id(all.skip(i as int)),
        decreases tables@.len() - i,
    {
        assert(all.skip(i as int)[0] == all[i as int]);
        if !tables[i].1 {
            return Some(i);
        }
        assert(all.skip(i as int).drop_first() =~= all.skip(i as int + 1));
        i = i + 1;
    }
    assert(all.skip(i as int) =~= Seq::<(Seq<char>, bool)>::empty());
    None
}

/// The check after adding user authentication: the users and sessions tables
/// exist, the default user exists, and each of the given tables has a
/// `user_id` column.
pub open spec fn user_auth_schema_outcome(
    users_table_exists: bool,
    sessions_table_exists: bool,
    default_user_exists: bool,
    user_id_columns: Seq<(Seq<char>, bool)>,
) -> Result<(), (AppErrorKind, Seq<char>)> {
    if !users_table_exists {
        Err((AppErrorKind::Validation, "usersテーブルが作成されていません"@))
    } else if !sessions_table_exists {
        Err((AppErrorKind::Validation, "sessionsテーブルが作成されていません"@))
    } else if !default_user_exists {
        Err((AppErrorKind::Validation, "デフォルトユーザーが作成されていません"@))
    } else {
        match first_without_user_id(user_id_columns) {
            Some(t) => Err((AppErrorKind::Validation, t + "テーブルにuser_idカラムが追加されていません"@)),
            None => Ok(()),
        }
    }
}

/// Checks the schema after adding user authentication.
pub fn check_user_auth_schema(
    users_table_exists: bool,
    sessions_table_exists: bool,
    default_user_exists: bool,
    user_id_columns: &Vec<(String, bool)>,
) -> (r: AppResult<()>)
    ensures
        app_result_view(r) == user_auth_schema_outcome(
            users_table_exists,
            sessions_table_exists,
            default_user_exists,
            flags_view(user_id_columns@),
        ),
{
    if !users_table_exists {
        return Err(AppError::validation("usersテーブルが作成されていません"));
    }
    if !sessions_table_exists {
        return Err(AppError::validation("sessionsテーブルが作成されていません"));
    }
    if !default_user_exists {
        return Err(AppError::validation("デフォルトユーザーが作成されていません"));
    }
    match find_without_user_id(user_id_columns) {
        Some(i) => {
            let mut m = user_id_columns[i].0.clone();
            m.append("テーブルにuser_idカラムが追加されていません");
            Err(AppError::Validation(m))
        },
        None => Ok(()),
    }
}

/// Whether user authentication is in place: the users and sessions tables
/// were found (a failed query counts as not found), and no table that exists
/// lacks `user_id` (a table whose existence could not be read is passed over).
pub open spec fn user_auth_done(users_table: Option<bool>, sessions_table: Option<bool>, tables: Seq<(Option<bool>, bool)>) -> bool {
    &&& users_table == Some(true)
    &&& sessions_table == Some(true)
    &&& forall|i: int| 0 <= i < tables.len() ==> !(#[trigger] tables[i].0 == Some(true) && !tables[i].1)
}

/// Whether user authentication is in place, from what the database reports:
/// for each table, whether it exists (None when that could not be read) and
/// whether it has a `user_id` column.
pub fn user_auth_migration_complete(users_table: Option<bool>, sessions_table: Option<bool>, tables: &Vec<(Option<bool>, bool)>) -> (r: bool)
    ensures
        r == user_auth_done(users_table, sessions_table, tables@),
{
    match users_table {
        Some(true) => {},
        _ => return false,
    }
    match sessions_table {
        Some(true) => {},
        _ => return false,
    }
    let mut i: usize = 0;
    while i < tables.len()
        invariant
            i <= tables@.len(),
            forall|j: int| 0 <= j < i ==> !(#[trigger] tables@[j].0 == Some(true) && !tables@[j].1),
        decreases tables@.len() - i,
    {
        match tables[i].0 {
            Some(true) => {
                if !tables[i].1 {
                    return false;
                }
            },
            _ => {},
        }
        i = i + 1;
    }
    true
}

/// The check before the full data migration: SQLite's integrity check says
/// "ok" and the expenses table exists.
pub open spec fn integrity_before_outcome(integrity_result: Seq<char>, expenses_table_exists: bool) -> Result<(), (AppErrorKind, Seq<char>)> {
    if integrity_result != "ok"@ {
        Err((AppErrorKind::Validation, "データベース整合性チェック失敗: "@ + integrity_result))
    } else if !expenses_table_exists {
        Err((AppErrorKind::Validation, "必要なテーブル 'expenses' が存在しません"@))
    } else {
        Ok(())
    }
}

/// Checks the database before the full data migration.
pub fn check_integrity_before_migration(integrity_result: &str, expenses_table_exists: bool) -> (r: AppResult<()>)
    ensures
        app_result_view(r) == integrity_before_outcome(integrity_result@, expenses_table_exists),
{
    if !same_text(integrity_result, "ok") {
        let mut m = String::from_str("データベース整合性チェック失敗: ");
        m.append(integrity_result);
        return Err(AppError::Validation(m));
    }
    if !expenses_table_exists {
        return Err(AppError::validation("必要なテーブル 'expenses' が存在しません"));
    }
    Ok(())
}

/// What the database reports of one table after the full data migration:
/// its name, whether it exists, whether it has `user_id`, and how many of its
/// rows have no user (read only when the column exists).
pub struct UserIdState {
    pub table: String,
    pub exists: bool,
    pub has_user_id: bool,
    pub null_user_ids: i64,
}

/// The first failure among the tables after the full data migration.
pub open spec fn first_user_id_failure(tables: Seq<UserIdState>) -> Option<Seq<char>>
    decreases tables.len(),
{
    if tables.len() == 0 {
        None
    } else {
        let t = tables[0];
        if t.exists && !t.has_user_id {
            Some(t.table@ + "テーブルにuser_idカラムが追加されていません"@)
        } else if t.exists && t.null_user_ids > 0 {
            Some(t.table@ + "テーブルにuser_idがNULLのレコードが "@ + int_decimal(t.null_user_ids as int) + " 件存在します"@)
        } else {
            first_user_id_failure(tables.drop_first())
        }
    }
}

/// The check after the full data migration: a default user exists, and
/// every existing table has `user_id` set on all its rows.
pub open spec fn integrity_after_outcome(users_count: i64, tables: Seq<UserIdState>) -> Result<(), (AppErrorKind, Seq<char>)> {
    if users_count == 0 {
        Err((AppErrorKind::Validation, "usersテーブルにデフォルトユーザーが作成されていません"@))
    } else {
        match first_user_id_failure(tables) {
            Some(m) => Err((AppErrorKind::Validation, m)),
            None => Ok(()),
        }
    }
}

/// Checks the database after the full data migration.
pub fn check_integrity_after_migration(users_count: i64, tables: &Vec<UserIdState>) -> (r: AppResult<()>)
    ensures
        app_result_view(r) == integrity_after_outcome(users_count, tables@),
{
    if users_count == 0 {
        return Err(AppError::validation("usersテーブルにデフォルトユーザーが作成されていません"));
    }
    let mut i: usize = 0;
    assert(tables@.skip(0) =~= tables@);
    while i < tables.len()
        invariant
            i <= tables@.len(),
            users_count != 0,
            first_user_id_failure(tables@) == first_user_id_failure(tables@.skip(i as int)),
        decreases tables@.len() - i,
    {
        assert(tables@.skip(i as int)[0] == tables@[i as int]);
        let t = &tables[i];
        if t.exists && !t.has_user_id {
            let mut m = t.table.clone();
            m.append("テーブルにuser_idカラムが追加されていません");
            assert(first_user_id_failure(tables@.skip(i as int)) == Some(m@));
            return Err(AppError::Validation(m));
        }
        if t.exists && t.null_user_ids > 0 {
            let mut m = t.table.clone();
            m.append("テーブルにuser_idがNULLのレコードが ");
            m.append(i64_to_decimal(t.null_user_ids).as_str());
            m.append(" 件存在します");
            assert(first_user_id_failure(tables@.skip(i as int)) == Some(m@));
            return Err(AppError::Validation(m));
        }
        assert(tables@.skip(i as int).drop_first() =~= tables@.skip(i as int + 1));
        i = i + 1;
    }
    assert(tables@.skip(i as int) =~= Seq::<UserIdState>::empty());
    Ok(())
}

/// A change that the basic schema migration makes to the expenses table.
#[derive(Debug, Clone, Copy, PartialEq, Eq, Structural)]
pub enum ExpensesSchemaStep {
    /// A fresh install: the table is created with receipt URLs.
    CreateTable,
    /// The receipt URL column is added.
    AddReceiptUrl,
    /// The old receipt path column is dropped.
    DropReceiptPath,
}

/// The changes to the expenses table, in order: a missing table is created;
/// an existing one gains the receipt URL column when it lacks it, and loses
/// the receipt path column when it has it.
pub open spec fn expenses_plan(expenses_exists: bool, has_receipt_url: bool, has_receipt_path: bool) -> Seq<ExpensesSchemaStep> {
    if !expenses_exists {
        seq![ExpensesSchemaStep::CreateTable]
    } else {
        (if has_receipt_url { Seq::empty() } else { seq![ExpensesSchemaStep::AddReceiptUrl] })
            + (if has_receipt_path { seq![ExpensesSchemaStep::DropReceiptPath] } else { Seq::empty() })
    }
}

/// The state of the expenses table (exists, has the receipt URL column, has
/// the receipt path column) once `step` took effect.
pub open spec fn after_step(state: (bool, bool, bool), step: ExpensesSchemaStep) -> (bool, bool, bool) {
    match step {
        ExpensesSchemaStep::CreateTable => (true, true, false),
        ExpensesSchemaStep::AddReceiptUrl => (state.0, true, state.2),
        ExpensesSchemaStep::DropReceiptPath => (state.0, state.1, false),
    }
}

/// The state of the expenses table once every step of `steps` took effect.
pub open spec fn after_steps(state: (bool, bool, bool), steps: Seq<ExpensesSchemaStep>) -> (bool, bool, bool)
    decreases steps.len(),
{
    if steps.len() == 0 {
        state
    } else {
        after_steps(after_step(state, steps[0]), steps.drop_first())
    }
}

/// The basic schema migration settles: once the steps of its plan took
/// effect, the plan for the resulting table is empty, so running it again
/// changes nothing of the expenses table.
pub proof fn lemma_expenses_plan_settles(expenses_exists: bool, has_receipt_url: bool, has_receipt_path: bool)
    ensures
        ({
            let s = after_steps((expenses_exists, has_receipt_url, has_receipt_path),
                expenses_plan(expenses_exists, has_receipt_url, has_receipt_path));
            expenses_plan(s.0, s.1, s.2).len() == 0
        }),
{
    reveal_with_fuel(after_steps, 3);
    let steps = expenses_plan(expenses_exists, has_receipt_url, has_receipt_path);
    let e = Seq::<ExpensesSchemaStep>::empty();
    if !expenses_exists {
        assert(steps =~= seq![ExpensesSchemaStep::CreateTable]);
        assert(steps.drop_first() =~= e);
    } else if !has_receipt_url && has_receipt_path {
        assert(steps =~= seq![ExpensesSchemaStep::AddReceiptUrl, ExpensesSchemaStep::DropReceiptPath]);
        assert(steps.drop_first() =~= seq![ExpensesSchemaStep::DropReceiptPath]);
        assert(steps.drop_first().drop_first() =~= e);
    } else if !has_receipt_url {
        assert(steps =~= seq![ExpensesSchemaStep::AddReceiptUrl]);
        assert(steps.drop_first() =~= e);
    } else if has_receipt_path {
        assert(steps =~= seq![ExpensesSchemaStep::DropReceiptPath]);
        assert(steps.drop_first() =~= e);
    } else {
        assert(steps =~= e);
    }
    let s = after_steps((expenses_exists, has_receipt_url, has_receipt_path), steps);
    assert(s.0 && s.1 && !s.2);
    assert(expenses_plan(s.0, s.1, s.2) =~= e);
}

/// The changes to make to the expenses table, from what the database reports.
pub fn expenses_schema_plan(expenses_exists: bool, has_receipt_url: bool, has_receipt_path: bool) -> (r: Vec<ExpensesSchemaStep>)
    ensures
        r@ == expenses_plan(expenses_exists, has_receipt_url, has_receipt_path),
{
    let mut steps: Vec<ExpensesSchemaStep> = Vec::new();
    if !expenses_exists {
        steps.push(ExpensesSchemaStep::CreateTable);
        assert(steps@ =~= seq![ExpensesSchemaStep::CreateTable]);
        return steps;
    }
    if !has_receipt_url {
        steps.push(ExpensesSchemaStep::AddReceiptUrl);
    }
    if has_receipt_path {
        steps.push(ExpensesSchemaStep::DropReceiptPath);
    }
    assert(steps@ =~= expenses_plan(expenses_exists, has_receipt_url, has_receipt_path));
    steps
}

/// The categories seeded into an empty category table, as (name, color,
/// icon); none when the table already holds `existing` rows.
pub fn default_categories(existing: i64) -> (r: Vec<(&'static str, &'static str, &'static str)>)
    ensures
        existing != 0 ==> r@.len() == 0,
        existing == 0 ==> r@.len() == 6 && r@[0].0@ == "交通費"@ && r@[0].1@ == "#3B82F6"@ && r@[0].2@ == "🚗"@
            && r@[1].0@ == "飲食費"@ && r@[1].1@ == "#EF4444"@ && r@[1].2@ == "🍽️"@
            && r@[2].0@ == "通信費"@ && r@[2].1@ == "#8B5CF6"@ && r@[2].2@ == "📱"@
            && r@[3].0@ == "消耗品費"@ && r@[3].1@ == "#10B981"@ && r@[3].2@ == "📦"@
            && r@[4].0@ == "接待交際費"@ && r@[4].1@ == "#F59E0B"@ && r@[4].2@ == "🤝"@
            && r@[5].0@ == "その他"@ && r@[5].1@ == "#6B7280"@ && r@[5].2@ == "📋"@,
{
    let mut r: Vec<(&'static str, &'static str, &'static str)> = Vec::new();
    if existing == 0 {
        r.push(("交通費", "#3B82F6", "🚗"));
        r.push(("飲食費", "#EF4444", "🍽️"));
        r.push(("通信費", "#8B5CF6", "📱"));
        r.push(("消耗品費", "#10B981", "📦"));
        r.push(("接待交際費", "#F59E0B", "🤝"));
        r.push(("その他", "#6B7280", "📋"));
    }
    r
}

} // verus!
