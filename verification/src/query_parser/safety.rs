use crate::query_parser::pattern::contains_pattern;
use crate::query_parser::pattern::pattern_matches;
use crate::text::to_uppercase;
use crate::text::uppercase_of;
use vstd::prelude::*;

verus! {

/// How destructive a statement is, from harmless to catastrophic.
#[derive(Debug, Clone, Copy, PartialEq, Eq, Structural)]
pub enum DangerLevel {
    Safe,
    Low,
    Medium,
    High,
    Critical,
}

impl DangerLevel {
    /// The place of a level in the order `Safe < Low < Medium < High < Critical`.
    pub open spec fn rank(self) -> int {
        match self {
            DangerLevel::Safe => 0,
            DangerLevel::Low => 1,
            DangerLevel::Medium => 2,
            DangerLevel::High => 3,
            DangerLevel::Critical => 4,
        }
    }
}

/// Which destructive forms were found in a statement.
#[derive(Debug, Clone, Copy, PartialEq, Eq, Structural)]
pub struct Findings {
    /// `DROP DATABASE` or `DROP SCHEMA`.
    pub drops_container: bool,
    /// `DROP TABLE`, `DROP INDEX` or `DROP VIEW`.
    pub drops_object: bool,
    /// `TRUNCATE TABLE`.
    pub truncates_table: bool,
    /// `DELETE FROM`.
    pub deletes: bool,
    /// `UPDATE` with a later `SET`.
    pub updates: bool,
    /// `ALTER TABLE`, `ALTER DATABASE` or `ALTER SCHEMA`.
    pub alters: bool,
}

/// Which cautions a statement gives rise to.
#[derive(Debug, Clone, Copy, PartialEq, Eq, Structural)]
pub struct Concerns {
    /// `DROP` followed by whitespace.
    pub drops: bool,
    /// `TRUNCATE` followed by whitespace.
    pub truncates: bool,
    /// `DELETE FROM`.
    pub deletes: bool,
    /// `UPDATE` with a later `SET`.
    pub updates: bool,
    /// The word `WHERE`.
    pub has_where: bool,
}

/// The level of a statement with the given findings: the first rule that
/// applies decides, from the most to the least destructive.
pub open spec fn level_of(f: Findings) -> DangerLevel {
    if f.drops_container {
        DangerLevel::Critical
    } else if f.drops_object || f.truncates_table {
        DangerLevel::High
    } else if f.deletes || f.updates {
        DangerLevel::Medium
    } else if f.alters {
        DangerLevel::Low
    } else {
        DangerLevel::Safe
    }
}

/// What the patterns find in a statement, given in upper case.
pub open spec fn findings_in(upper: Seq<char>) -> Findings {
    Findings {
        drops_container: pattern_matches("\\bDROP\\s+(DATABASE|SCHEMA)\\b"@, upper),
        drops_object: pattern_matches("\\bDROP\\s+(TABLE|INDEX|VIEW)\\b"@, upper),
        truncates_table: pattern_matches("\\bTRUNCATE\\s+TABLE\\b"@, upper),
        deletes: pattern_matches("\\bDELETE\\s+FROM\\b"@, upper),
        updates: pattern_matches("\\bUPDATE\\b.*\\bSET\\b"@, upper),
        alters: pattern_matches("\\bALTER\\s+(TABLE|DATABASE|SCHEMA)\\b"@, upper),
    }
}

/// The cautions that the patterns give for a statement, given in upper case.
pub open spec fn concerns_in(upper: Seq<char>) -> Concerns {
    Concerns {
        drops: pattern_matches("\\bDROP\\s+"@, upper),
        truncates: pattern_matches("\\bTRUNCATE\\s+"@, upper),
        deletes: pattern_matches("\\bDELETE\\s+FROM\\b"@, upper),
        updates: pattern_matches("\\bUPDATE\\b.*\\bSET\\b"@, upper),
        has_where: pattern_matches("\\bWHERE\\b"@, upper),
    }
}

/// The danger level of a statement.
pub open spec fn danger_level(query: Seq<char>) -> DangerLevel {
    level_of(findings_in(uppercase_of(query)))
}

/// Whether a statement holds any destructive form.
pub open spec fn is_dangerous(query: Seq<char>) -> bool {
    let f = findings_in(uppercase_of(query));
    f.drops_container || f.drops_object || f.truncates_table || f.deletes || f.updates || f.alters
}

/// The caution against a `DROP`.
pub open spec fn drop_warning() -> Seq<char> {
    "Contains DROP statement - will permanently delete data/structure"@
}

/// The caution against a `TRUNCATE`.
pub open spec fn truncate_warning() -> Seq<char> {
    "Contains TRUNCATE statement - will delete all table data"@
}

/// The caution against a `DELETE` that has no `WHERE`.
pub open spec fn delete_warning() -> Seq<char> {
    "DELETE without WHERE clause - will delete all rows"@
}

/// The caution against an `UPDATE` that has no `WHERE`.
pub open spec fn update_warning() -> Seq<char> {
    "UPDATE without WHERE clause - will modify all rows"@
}

/// One warning, or none.
pub open spec fn warning_if(applies: bool, warning: Seq<char>) -> Seq<Seq<char>> {
    if applies {
        seq![warning]
    } else {
        Seq::empty()
    }
}

/// The warnings for the given concerns: every one that applies, in a fixed
/// order, whatever the others are.
pub open spec fn warnings_of(c: Concerns) -> Seq<Seq<char>> {
    warning_if(c.drops, drop_warning()) + warning_if(c.truncates, truncate_warning()) + warning_if(
        c.deletes && !c.has_where,
        delete_warning(),
    ) + warning_if(c.updates && !c.has_where, update_warning())
}

/// The warnings for a statement.
pub open spec fn safety_warnings(query: Seq<char>) -> Seq<Seq<char>> {
    warnings_of(concerns_in(uppercase_of(query)))
}

/// Rates how destructive a statement is, and cautions against what it may
/// destroy.
pub struct SafetyChecker;

impl SafetyChecker {
    /// A fresh instance.
    pub fn new() -> Self {
        Self
    }

    /// The level that goes with the given findings.
    pub fn level_for(&self, f: Findings) -> (r: DangerLevel)
        ensures
            r == level_of(f),
    {
        if f.drops_container {
            DangerLevel::Critical
        } else if f.drops_object || f.truncates_table {
            DangerLevel::High
        } else if f.deletes || f.updates {
            DangerLevel::Medium
        } else if f.alters {
            DangerLevel::Low
        } else {
            DangerLevel::Safe
        }
    }

    /// The warnings that go with the given concerns.
    pub fn warnings_for(&self, c: Concerns) -> (r: Vec<String>)
        ensures
            r.deep_view() == warnings_of(c),
    {
        let mut warnings: Vec<String> = Vec::new();
        assert(warnings.deep_view() =~= Seq::empty());
        if c.drops {
            let ghost before = warnings.deep_view();
            warnings.push(
                "Contains DROP statement - will permanently delete data/structure".to_owned(),
            );
            assert(warnings.deep_view() =~= before + seq![drop_warning()]);
        }
        if c.truncates {
            let ghost before = warnings.deep_view();
            warnings.push("Contains TRUNCATE statement - will delete all table data".to_owned());
            assert(warnings.deep_view() =~= before + seq![truncate_warning()]);
        }
        if c.deletes && !c.has_where {
            let ghost before = warnings.deep_view();
            warnings.push("DELETE without WHERE clause - will delete all rows".to_owned());
            assert(warnings.deep_view() =~= before + seq![delete_warning()]);
        }
        if c.updates && !c.has_where {
            let ghost before = warnings.deep_view();
            warnings.push("UPDATE without WHERE clause - will modify all rows".to_owned());
            assert(warnings.deep_view() =~= before + seq![update_warning()]);
        }
        assert(warnings.deep_view() =~= warnings_of(c));
        warnings
    }

    /// What the patterns find in a statement given in upper case.
    fn findings(&self, upper: &str) -> (f: Findings)
        ensures
            f == findings_in(upper@),
    {
        Findings {
            drops_container: contains_pattern(upper, "\\bDROP\\s+(DATABASE|SCHEMA)\\b"),
            drops_object: contains_pattern(upper, "\\bDROP\\s+(TABLE|INDEX|VIEW)\\b"),
            truncates_table: contains_pattern(upper, "\\bTRUNCATE\\s+TABLE\\b"),
            deletes: contains_pattern(upper, "\\bDELETE\\s+FROM\\b"),
            updates: contains_pattern(upper, "\\bUPDATE\\b.*\\bSET\\b"),
            alters: contains_pattern(upper, "\\bALTER\\s+(TABLE|DATABASE|SCHEMA)\\b"),
        }
    }

    /// Whether a query holds a potentially destructive SQL command.
    pub fn is_dangerous_query(&self, query: &str) -> (r: bool)
        ensures
            r == is_dangerous(query@),
    {
        let upper_query = to_uppercase(query);
        let f = self.findings(upper_query.as_str());
        f.drops_container || f.drops_object || f.truncates_table || f.deletes || f.updates
            || f.alters
    }

    /// The danger level of a query: the first rule that matches decides.
    pub fn get_danger_level(&self, query: &str) -> (r: DangerLevel)
        ensures
            r == danger_level(query@),
    {
        let upper_query = to_uppercase(query);
        let f = self.findings(upper_query.as_str());
        self.level_for(f)
    }

    /// Every warning that applies to a query, independently of its level.
    pub fn get_safety_warnings(&self, query: &str) -> (r: Vec<String>)
        ensures
            r.deep_view() == safety_warnings(query@),
    {
        let upper_query = to_uppercase(query);
        let upper = upper_query.as_str();
        let c = Concerns {
            drops: contains_pattern(upper, "\\bDROP\\s+"),
            truncates: contains_pattern(upper, "\\bTRUNCATE\\s+"),
            deletes: contains_pattern(upper, "\\bDELETE\\s+FROM\\b"),
            updates: contains_pattern(upper, "\\bUPDATE\\b.*\\bSET\\b"),
            has_where: contains_pattern(upper, "\\bWHERE\\b"),
        };
        self.warnings_for(c)
    }
}

impl Default for SafetyChecker {
    fn default() -> Self {
        Self::new()
    }
}

} // verus!
