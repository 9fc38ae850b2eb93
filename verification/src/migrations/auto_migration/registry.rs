//! The registry of the migrations the application knows, by unique name.
use vstd::prelude::*;
use vstd::string::*;
use super::errors::AutoMigrationError;
use super::executor::{
    executor_name, lemma_step_names_round_trip, step_for_name, ExecutableMigrationDefinition, MigrationExecutorKind,
    R2MigrationSchemaMigration,
};
use super::models::{definition_error, valid_definition, MigrationDefinition};
use crate::checksum::{calculate_text_checksum, text_checksum};

verus! {

/// The mathematical content of a definition.
pub open spec fn definition_view(d: MigrationDefinition) -> (Seq<char>, Seq<char>, Seq<char>, Seq<char>) {
    (d.name@, d.version@, d.description@, d.checksum@)
}

/// Whether some definition in `ds` has name `name`.
pub open spec fn has_name(ds: Seq<MigrationDefinition>, name: Seq<char>) -> bool {
    exists|i: int| 0 <= i < ds.len() && (#[trigger] ds[i]).name@ == name
}

/// Names are pairwise distinct.
pub open spec fn names_distinct(ds: Seq<MigrationDefinition>) -> bool {
    forall|i: int, j: int| 0 <= i < ds.len() && 0 <= j < ds.len() && i != j
        ==> (#[trigger] ds[i]).name@ != (#[trigger] ds[j]).name@
}

/// The message of a refused registration whose definition is invalid.
pub open spec fn invalid_definition_message(d: MigrationDefinition) -> Seq<char> {
    "マイグレーション定義が無効です: "@ + definition_error(d)
}

/// The message of a refused registration whose name is taken.
pub open spec fn duplicate_name_message(name: Seq<char>) -> Seq<char> {
    "マイグレーション名 '"@ + name + "' は既に登録されています"@
}

/// The known migrations, in registration order, with unique names.
pub struct MigrationRegistry {
    migrations: Vec<MigrationDefinition>,
    executable_migrations: Vec<ExecutableMigrationDefinition>,
}

impl MigrationRegistry {
    /// The registered definitions, in registration order.
    pub closed spec fn definitions(&self) -> Seq<MigrationDefinition> {
        self.migrations@
    }

    /// The procedures of the registered migrations, in registration order.
    pub closed spec fn procedures(&self) -> Seq<MigrationExecutorKind> {
        self.executable_migrations@.map_values(|e: ExecutableMigrationDefinition| e.executor)
    }

    /// The registry's invariant: definitions and executables correspond one to
    /// one, every definition is valid, and names are unique.
    pub closed spec fn wf(&self) -> bool {
        &&& self.migrations@.len() == self.executable_migrations@.len()
        &&& forall|i: int| 0 <= i < self.migrations@.len() ==>
            definition_view(#[trigger] self.executable_migrations@[i].definition) == definition_view(self.migrations@[i])
        &&& forall|i: int| 0 <= i < self.migrations@.len() ==> valid_definition(#[trigger] self.migrations@[i])
        &&& names_distinct(self.migrations@)
    }

    /// An empty registry.
    pub fn new() -> (r: MigrationRegistry)
        ensures
            r.wf(),
            r.definitions().len() == 0,
    {
        MigrationRegistry { migrations: Vec::new(), executable_migrations: Vec::new() }
    }

    /// Registers a migration: refused when its definition is invalid or its name
    /// is already registered; otherwise appended.
    pub fn register_executable(&mut self, executable_migration: ExecutableMigrationDefinition) -> (r: Result<(), AutoMigrationError>)
        requires
            old(self).wf(),
        ensures
            final(self).wf(),
            r is Ok <==> valid_definition(executable_migration.definition)
                && !has_name(old(self).definitions(), executable_migration.definition.name@),
            r is Ok ==> final(self).definitions().len() == old(self).definitions().len() + 1
                && final(self).definitions().subrange(0, old(self).definitions().len() as int) == old(self).definitions()
                && definition_view(final(self).definitions().last()) == definition_view(executable_migration.definition)
                && final(self).procedures() == old(self).procedures().push(executable_migration.executor),
            r is Err ==> final(self).definitions() == old(self).definitions() && final(self).procedures() == old(self).procedures(),
            r matches Err(e) ==> e.migration_name matches Some(n) && n@ == executable_migration.definition.name@
                && e.message@ == (if !valid_definition(executable_migration.definition) {
                    invalid_definition_message(executable_migration.definition)
                } else {
                    duplicate_name_message(executable_migration.definition.name@)
                }),
    {
        match executable_migration.definition.validate() {
            Ok(()) => {},
            Err(msg) => {
                let mut m = String::from_str("マイグレーション定義が無効です: ");
                m.append(msg.as_str());
                return Err(AutoMigrationError::validation(m, Some(executable_migration.definition.name.clone()), None));
            },
        }
        let mut i: usize = 0;
        while i < self.migrations.len()
            invariant
                i <= self.migrations@.len(),
                self.wf(),
                *self == *old(self),
                valid_definition(executable_migration.definition),
                forall|j: int| 0 <= j < i ==> (#[trigger] self.migrations@[j]).name@ != executable_migration.definition.name@,
            decreases self.migrations@.len() - i,
        {
            if self.migrations[i].name == executable_migration.definition.name {
                let mut m = String::from_str("マイグレーション名 '");
                m.append(executable_migration.definition.name.as_str());
                m.append("' は既に登録されています");
                return Err(AutoMigrationError::validation(m, Some(executable_migration.definition.name.clone()), None));
            }
            i = i + 1;
        }
        let d = copy_definition(&executable_migration.definition);
        let ghost old_m = self.migrations@;
        let ghost old_e = self.executable_migrations@;
        self.migrations.push(d);
        self.executable_migrations.push(executable_migration);
        proof {
            assert(self.migrations@.subrange(0, old_m.len() as int) =~= old_m);
            assert(self.executable_migrations@.map_values(|e: ExecutableMigrationDefinition| e.executor)
                =~= old_e.map_values(|e: ExecutableMigrationDefinition| e.executor).push(executable_migration.executor));
            assert forall|a: int, b: int| 0 <= a < self.migrations@.len() && 0 <= b < self.migrations@.len() && a != b
                implies (#[trigger] self.migrations@[a]).name@ != (#[trigger] self.migrations@[b]).name@ by {
                if a < old_m.len() && b < old_m.len() {
                    assert(old_m[a] == self.migrations@[a] && old_m[b] == self.migrations@[b]);
                }
            }
        }
        Ok(())
    }

    /// The registered migrations with their procedures.
    pub fn get_executable_migrations(&self) -> (r: &[ExecutableMigrationDefinition])
        requires
            self.wf(),
        ensures
            r@.len() == self.definitions().len(),
            forall|i: int| 0 <= i < r@.len() ==> definition_view(#[trigger] r@[i].definition) == definition_view(self.definitions()[i])
                && r@[i].executor == self.procedures()[i],
    {
        self.executable_migrations.as_slice()
    }

    /// The registered migration with this name, if any.
    pub fn find_executable_migration(&self, name: &str) -> (r: Option<&ExecutableMigrationDefinition>)
        requires
            self.wf(),
        ensures
            r is Some <==> has_name(self.definitions(), name@),
            r matches Some(e) ==> e.definition.name@ == name@ && exists|i: int| 0 <= i < self.definitions().len()
                && definition_view(e.definition) == definition_view(#[trigger] self.definitions()[i]) && e.executor == self.procedures()[i],
    {
        match self.index_of(name) {
            Some(i) => Some(&self.executable_migrations[i]),
            None => None,
        }
    }

    fn index_of(&self, name: &str) -> (r: Option<usize>)
        requires
            self.wf(),
        ensures
            r is Some <==> has_name(self.definitions(), name@),
            r matches Some(i) ==> i < self.definitions().len() && self.definitions()[i as int].name@ == name@,
    {
        let key = String::from_str(name);
        let mut i: usize = 0;
        while i < self.migrations.len()
            invariant
                i <= self.migrations@.len(),
                key@ == name@,
                forall|j: int| 0 <= j < i ==> (#[trigger] self.migrations@[j]).name@ != name@,
            decreases self.migrations@.len() - i,
        {
            if self.migrations[i].name == key {
                return Some(i);
            }
            i = i + 1;
        }
        None
    }

    /// The registered definitions, in registration order.
    pub fn get_available_migrations(&self) -> (r: &[MigrationDefinition])
        ensures
            r@ == self.definitions(),
    {
        self.migrations.as_slice()
    }

    /// The registered definition with this name, if any.
    pub fn find_migration(&self, name: &str) -> (r: Option<&MigrationDefinition>)
        requires
            self.wf(),
        ensures
            r is Some <==> has_name(self.definitions(), name@),
            r matches Some(d) ==> d.name@ == name@ && exists|i: int| 0 <= i < self.definitions().len() && *d == #[trigger] self.definitions()[i],
    {
        match self.index_of(name) {
            Some(i) => Some(&self.migrations[i]),
            None => None,
        }
    }

    /// How many migrations are registered.
    pub fn count(&self) -> (r: usize)
        ensures
            r == self.definitions().len(),
    {
        self.migrations.len()
    }

    /// Whether no migration is registered.
    pub fn is_empty(&self) -> (r: bool)
        ensures
            r == (self.definitions().len() == 0),
    {
        self.migrations.len() == 0
    }

    /// The names of the registered migrations, in registration order; in a
    /// well-formed registry no name occurs twice.
    pub fn get_migration_names(&self) -> (r: Vec<String>)
        ensures
            r@.len() == self.definitions().len(),
            forall|i: int| 0 <= i < r@.len() ==> (#[trigger] r@[i])@ == self.definitions()[i].name@,
            self.wf() ==> forall|i: int, j: int| 0 <= i < r@.len() && 0 <= j < r@.len() && i != j
                ==> (#[trigger] r@[i])@ != (#[trigger] r@[j])@,
    {
        proof {
            if self.wf() {
                lemma_registry_names_distinct(*self);
            }
        }
        let mut names: Vec<String> = Vec::new();
        let mut i: usize = 0;
        while i < self.migrations.len()
            invariant
                i <= self.migrations@.len(),
                names@.len() == i,
                forall|j: int| 0 <= j < i ==> (#[trigger] names@[j])@ == self.migrations@[j].name@,
            decreases self.migrations@.len() - i,
        {
            names.push(self.migrations[i].name.clone());
            i = i + 1;
        }
        names
    }

    /// The checksum of a migration's content: 64 lower-case hexadecimal digits of
    /// its SHA-256 digest.
    pub fn calculate_checksum(content: &str) -> (r: String)
        ensures
            r@ == text_checksum(content@),
            r@.len() == 64,
            forall|i: int| 0 <= i < r@.len() ==> crate::checksum::is_hex_char(#[trigger] r@[i]),
    {
        calculate_text_checksum(content)
    }

    /// The registry of the application's own migrations: basic schema, user
    /// authentication, receipt URLs and the receipt-storage migration schema, in
    /// that order, each with the checksum of its content.
    pub fn register_default_migrations() -> (r: Result<MigrationRegistry, AutoMigrationError>)
        ensures
            r matches Ok(reg) && reg.wf() && reg.definitions().len() == 4
                && reg.definitions()[0].name@ == "001_create_basic_schema"@
                && reg.definitions()[0].checksum@ == text_checksum("run_migrations"@)
                && reg.definitions()[1].name@ == "002_add_user_authentication"@
                && reg.definitions()[1].checksum@ == text_checksum("migrate_user_authentication"@)
                && reg.definitions()[2].name@ == "003_migrate_receipt_url"@
                && reg.definitions()[2].checksum@ == text_checksum("migrate_receipt_path_to_url"@)
                && reg.definitions()[3].name@ == "r2_migration_schema"@
                && reg.definitions()[3].checksum@ == text_checksum(super::executor::R2_SCHEMA_SQL@)
                && reg.procedures() == seq![MigrationExecutorKind::BasicSchema, MigrationExecutorKind::UserAuth,
                    MigrationExecutorKind::ReceiptUrl, MigrationExecutorKind::R2Schema]
                && (forall|i: int| 0 <= i < 4 ==> #[trigger] reg.definitions()[i].name@ == executor_name(reg.procedures()[i]))
                && (forall|i: int| 0 <= i < 4 && reg.procedures()[i] != MigrationExecutorKind::R2Schema
                    ==> step_for_name(#[trigger] reg.definitions()[i].name@) == Some(reg.procedures()[i])),
    {
        let mut registry = MigrationRegistry::new();
        let n1 = String::from_str("001_create_basic_schema");
        let n2 = String::from_str("002_add_user_authentication");
        let n3 = String::from_str("003_migrate_receipt_url");
        let n4 = String::from_str("r2_migration_schema");
        proof {
            reveal_strlit("001_create_basic_schema");
            reveal_strlit("002_add_user_authentication");
            reveal_strlit("003_migrate_receipt_url");
            reveal_strlit("r2_migration_schema");
            reveal_strlit("1.0.0");
            reveal_strlit("2.0.0");
            reveal_strlit("2.1.0");
            assert(n1@ != n2@) by { assert(n1@[2] != n2@[2]); }
            assert(n1@ != n3@) by { assert(n1@[2] != n3@[2]); }
            assert(n2@ != n3@) by { assert(n2@[2] != n3@[2]); }
            assert(n4@ != n1@) by { assert(n4@[0] != n1@[0]); }
            assert(n4@ != n2@) by { assert(n4@[0] != n2@[0]); }
            assert(n4@ != n3@) by { assert(n4@[0] != n3@[0]); }
        }
        let d1 = MigrationDefinition::new(n1, String::from_str("1.0.0"), String::from_str("基本テーブル構造の作成"),
            Self::calculate_checksum("run_migrations"));
        let d2 = MigrationDefinition::new(n2, String::from_str("2.0.0"), String::from_str("ユーザー認証機能の追加"),
            Self::calculate_checksum("migrate_user_authentication"));
        let d3 = MigrationDefinition::new(n3, String::from_str("2.1.0"), String::from_str("receipt_pathからreceipt_urlへの移行"),
            Self::calculate_checksum("migrate_receipt_path_to_url"));
        let d4 = MigrationDefinition::new(n4, String::from_str("1.0.0"),
            String::from_str("R2ユーザーディレクトリ移行用データベーススキーマ"),
            Self::calculate_checksum(R2MigrationSchemaMigration::schema_sql()));
        proof {
            lemma_checksum_definition_valid(d1);
            lemma_checksum_definition_valid(d2);
            lemma_checksum_definition_valid(d3);
            lemma_checksum_definition_valid(d4);
        }
        let r1 = registry.register_executable(ExecutableMigrationDefinition::new(d1, MigrationExecutorKind::BasicSchema));
        assert(r1 is Ok);
        let r2 = registry.register_executable(ExecutableMigrationDefinition::new(d2, MigrationExecutorKind::UserAuth));
        assert(r2 is Ok);
        let r3 = registry.register_executable(ExecutableMigrationDefinition::new(d3, MigrationExecutorKind::ReceiptUrl));
        assert(r3 is Ok);
        let r4 = registry.register_executable(ExecutableMigrationDefinition::new(d4, MigrationExecutorKind::R2Schema));
        assert(r4 is Ok);
        assert(registry.procedures() =~= seq![MigrationExecutorKind::BasicSchema, MigrationExecutorKind::UserAuth,
            MigrationExecutorKind::ReceiptUrl, MigrationExecutorKind::R2Schema]);
        proof {
            lemma_step_names_round_trip(MigrationExecutorKind::BasicSchema, Seq::empty());
            lemma_step_names_round_trip(MigrationExecutorKind::UserAuth, Seq::empty());
            lemma_step_names_round_trip(MigrationExecutorKind::ReceiptUrl, Seq::empty());
            lemma_step_names_round_trip(MigrationExecutorKind::R2Schema, Seq::empty());
        }
        Ok(registry)
    }
}

/// A registry refuses a second migration of a name it holds: in a well-formed
/// registry every definition is valid and no two definitions share a name.
pub proof fn lemma_registry_names_distinct(registry: MigrationRegistry)
    requires
        registry.wf(),
    ensures
        names_distinct(registry.definitions()),
        forall|i: int| 0 <= i < registry.definitions().len() ==> valid_definition(#[trigger] registry.definitions()[i]),
{
}

/// The definition of the schema migration that tracks the receipt-storage
/// migration: named `r2_migration_schema`, version 1.0.0, with the checksum of
/// its SQL.
pub fn get_r2_migration_schema_definition() -> (r: ExecutableMigrationDefinition)
    ensures
        r.definition.name@ == "r2_migration_schema"@,
        r.definition.version@ == "1.0.0"@,
        r.definition.description@ == "R2ユーザーディレクトリ移行用データベーススキーマ"@,
        r.definition.checksum@ == text_checksum(super::executor::R2_SCHEMA_SQL@),
        r.executor == MigrationExecutorKind::R2Schema,
{
    let definition = MigrationDefinition::new(
        String::from_str("r2_migration_schema"),
        String::from_str("1.0.0"),
        String::from_str("R2ユーザーディレクトリ移行用データベーススキーマ"),
        MigrationRegistry::calculate_checksum(R2MigrationSchemaMigration::schema_sql()),
    );
    ExecutableMigrationDefinition::new(definition, MigrationExecutorKind::R2Schema)
}

/// A definition with a non-empty name and version and a computed checksum is valid.
proof fn lemma_checksum_definition_valid(d: MigrationDefinition)
    requires
        d.name@.len() > 0,
        d.version@.len() > 0,
        d.checksum@.len() == 64,
        forall|i: int| 0 <= i < d.checksum@.len() ==> crate::checksum::is_hex_char(#[trigger] d.checksum@[i]),
    ensures
        valid_definition(d),
{
    vstd::utf8::is_ascii_chars_encode_utf8(d.checksum@);
    assert(vstd::utf8::is_ascii_chars(d.checksum@)) by {
        assert forall|i: int| 0 <= i < d.checksum@.len() implies (#[trigger] d.checksum@[i] as u32) < 128 by {
            assert(crate::checksum::is_hex_char(d.checksum@[i]));
        }
    }
}

/// A field-by-field copy of a definition.
pub fn copy_definition(d: &MigrationDefinition) -> (r: MigrationDefinition)
    ensures
        definition_view(r) == definition_view(*d),
{
    MigrationDefinition {
        name: d.name.clone(),
        version: d.version.clone(),
        description: d.description.clone(),
        checksum: d.checksum.clone(),
    }
}

} // verus!
