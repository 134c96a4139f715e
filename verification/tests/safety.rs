use sqlk::query_parser::analyzer::QueryAnalyzer;
use sqlk::query_parser::analyzer::QueryType;
use sqlk::query_parser::safety::Concerns;
use sqlk::query_parser::safety::DangerLevel;
use sqlk::query_parser::safety::Findings;
use sqlk::query_parser::safety::SafetyChecker;

fn no_findings() -> Findings {
    Findings {
        drops_container: false,
        drops_object: false,
        truncates_table: false,
        deletes: false,
        updates: false,
        alters: false,
    }
}

#[test]
fn classify_examples() {
    let checker = SafetyChecker::new();
    assert_eq!(checker.get_danger_level("DROP DATABASE prod"), DangerLevel::Critical);
    assert_eq!(checker.get_danger_level("DELETE FROM t"), DangerLevel::Medium);
    assert_eq!(checker.get_danger_level("SELECT 1"), DangerLevel::Safe);
}

#[test]
fn classify_every_level_in_any_case() {
    let checker = SafetyChecker::new();
    assert_eq!(checker.get_danger_level("drop schema s"), DangerLevel::Critical);
    assert_eq!(checker.get_danger_level("drop table t"), DangerLevel::High);
    assert_eq!(checker.get_danger_level("Drop Index i"), DangerLevel::High);
    assert_eq!(checker.get_danger_level("DROP VIEW v"), DangerLevel::High);
    assert_eq!(checker.get_danger_level("truncate   table t"), DangerLevel::High);
    assert_eq!(checker.get_danger_level("update t set x = 1"), DangerLevel::Medium);
    assert_eq!(checker.get_danger_level("alter table t add c int"), DangerLevel::Low);
    assert_eq!(checker.get_danger_level("ALTER DATABASE d"), DangerLevel::Low);
    assert_eq!(checker.get_danger_level("ALTER SCHEMA s"), DangerLevel::Low);
    assert_eq!(checker.get_danger_level("SELECT dropped FROM updates"), DangerLevel::Safe);
    assert_eq!(checker.get_danger_level(""), DangerLevel::Safe);
}

#[test]
fn classify_first_rule_wins() {
    let checker = SafetyChecker::new();
    assert_eq!(
        checker.get_danger_level("ALTER TABLE t; DELETE FROM t; DROP TABLE t; DROP DATABASE d"),
        DangerLevel::Critical
    );
    assert_eq!(checker.get_danger_level("DELETE FROM t; DROP TABLE t"), DangerLevel::High);
    assert_eq!(checker.get_danger_level("ALTER TABLE t; UPDATE t SET x = 1"), DangerLevel::Medium);
}

#[test]
fn level_for_findings() {
    let checker = SafetyChecker::new();
    assert_eq!(checker.level_for(no_findings()), DangerLevel::Safe);
    assert_eq!(checker.level_for(Findings { alters: true, ..no_findings() }), DangerLevel::Low);
    assert_eq!(checker.level_for(Findings { deletes: true, alters: true, ..no_findings() }), DangerLevel::Medium);
    assert_eq!(checker.level_for(Findings { updates: true, ..no_findings() }), DangerLevel::Medium);
    assert_eq!(checker.level_for(Findings { truncates_table: true, updates: true, ..no_findings() }), DangerLevel::High);
    assert_eq!(checker.level_for(Findings { drops_object: true, ..no_findings() }), DangerLevel::High);
    assert_eq!(
        checker.level_for(Findings { drops_container: true, drops_object: true, deletes: true, ..no_findings() }),
        DangerLevel::Critical
    );
}

#[test]
fn dangerous_query() {
    let checker = SafetyChecker::new();
    assert!(checker.is_dangerous_query("drop table users"));
    assert!(checker.is_dangerous_query("UPDATE t SET a = 1 WHERE b"));
    assert!(checker.is_dangerous_query("alter schema s rename to t"));
    assert!(!checker.is_dangerous_query("SELECT * FROM t"));
    assert!(!checker.is_dangerous_query("INSERT INTO t VALUES (1)"));
}

#[test]
fn warnings_are_independent_of_the_level() {
    let checker = SafetyChecker::new();
    assert_eq!(
        checker.get_safety_warnings("DROP TABLE a; DELETE FROM b"),
        vec![
            "Contains DROP statement - will permanently delete data/structure".to_string(),
            "DELETE without WHERE clause - will delete all rows".to_string(),
        ]
    );
    assert_eq!(
        checker.get_safety_warnings("truncate table t; update t set x = 1"),
        vec![
            "Contains TRUNCATE statement - will delete all table data".to_string(),
            "UPDATE without WHERE clause - will modify all rows".to_string(),
        ]
    );
    assert!(checker.get_safety_warnings("DELETE FROM t WHERE id = 1").is_empty());
    assert!(checker.get_safety_warnings("update t set x = 1 where id = 2").is_empty());
    assert!(checker.get_safety_warnings("SELECT 1").is_empty());
}

#[test]
fn warnings_for_concerns() {
    let checker = SafetyChecker::new();
    let all = Concerns { drops: true, truncates: true, deletes: true, updates: true, has_where: false };
    assert_eq!(checker.warnings_for(all).len(), 4);
    let guarded = Concerns { has_where: true, ..all };
    assert_eq!(
        checker.warnings_for(guarded),
        vec![
            "Contains DROP statement - will permanently delete data/structure".to_string(),
            "Contains TRUNCATE statement - will delete all table data".to_string(),
        ]
    );
    let none = Concerns { drops: false, truncates: false, deletes: false, updates: false, has_where: false };
    assert!(checker.warnings_for(none).is_empty());
}

#[test]
fn query_types() {
    let analyzer = QueryAnalyzer::new();
    assert_eq!(analyzer.get_query_type("  select 1"), QueryType::Select);
    assert_eq!(analyzer.get_query_type("Insert into t values (1)"), QueryType::Insert);
    assert_eq!(analyzer.get_query_type("UPDATE t SET x = 1"), QueryType::Update);
    assert_eq!(analyzer.get_query_type("delete from t"), QueryType::Delete);
    assert_eq!(analyzer.get_query_type("create table t (x int)"), QueryType::Create);
    assert_eq!(analyzer.get_query_type("drop table t"), QueryType::Drop);
    assert_eq!(analyzer.get_query_type("alter table t add c int"), QueryType::Alter);
    assert_eq!(analyzer.get_query_type("vacuum"), QueryType::Other);
    assert_eq!(analyzer.get_query_type(""), QueryType::Other);
    assert_eq!(analyzer.type_of_upper("SELECT"), QueryType::Select);
    assert_eq!(analyzer.type_of_upper("select"), QueryType::Other);
}

#[test]
fn table_names() {
    let analyzer = QueryAnalyzer::new();
    assert_eq!(
        analyzer.extract_table_names("SELECT * FROM Users u JOIN public.orders o ON u.id = o.uid JOIN users x ON 1 = 1"),
        vec!["users".to_string(), "public.orders".to_string()]
    );
    assert_eq!(analyzer.extract_table_names("UPDATE accounts SET x = 1"), vec!["accounts".to_string()]);
    assert_eq!(analyzer.extract_table_names("insert  into  logs values (1)"), vec!["logs".to_string()]);
    assert!(analyzer.extract_table_names("SELECT 1").is_empty());
    assert!(analyzer.extract_table_names("SELECT * FROM (select 1)").is_empty());
}

#[test]
fn table_name_selection() {
    let analyzer = QueryAnalyzer::new();
    let captured = vec![
        Some("users".to_string()),
        None,
        Some("where".to_string()),
        Some("orders".to_string()),
        Some("users".to_string()),
    ];
    assert_eq!(analyzer.select_table_names(&captured), vec!["users".to_string(), "orders".to_string()]);
    assert!(analyzer.is_valid_table_name("users"));
    for word in ["select", "where", "group", "order", "having", "limit", "offset", "union", "with"] {
        assert!(!analyzer.is_valid_table_name(word));
    }
}
