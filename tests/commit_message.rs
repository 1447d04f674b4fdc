use conventional_commit::commit_type::selected_type;
use conventional_commit::message::compose_commit_message_with;
use conventional_commit::{compose_commit_message, ConventionalCommitType};

fn registry_entry(class: &str) -> ConventionalCommitType {
    let types = ConventionalCommitType::conventional_commits();
    let found: Vec<ConventionalCommitType> =
        types.into_iter().filter(|t| t.class == class).collect();
    assert_eq!(found.len(), 1);
    found[0]
}

#[test]
fn scoped_feature_without_body() {
    let feat = registry_entry("feat");
    assert_eq!(
        compose_commit_message(&feat, "api", "add login endpoint", ""),
        "feat(api): add login endpoint"
    );
}

#[test]
fn unscoped_fix_without_body() {
    let fix = registry_entry("fix");
    assert_eq!(
        compose_commit_message(&fix, "", "null pointer on startup", ""),
        "fix: null pointer on startup"
    );
}

#[test]
fn scoped_docs_with_multiline_body() {
    let docs = registry_entry("docs");
    assert_eq!(
        compose_commit_message(&docs, "readme", "fix typo", "closes #42\nsee discussion"),
        "docs(readme): fix typo\n\ncloses #42\nsee discussion"
    );
}

#[test]
fn empty_scope_gives_colon_after_class() {
    let chore = registry_entry("chore");
    assert_eq!(compose_commit_message(&chore, "", "bump", ""), "chore: bump");
}

#[test]
fn non_empty_scope_is_parenthesised() {
    let ci = registry_entry("ci");
    assert_eq!(compose_commit_message(&ci, "gh", "cache deps", ""), "ci(gh): cache deps");
}

#[test]
fn body_follows_header_after_blank_line() {
    let perf = registry_entry("perf");
    let without = compose_commit_message(&perf, "db", "index lookups", "");
    let with = compose_commit_message(&perf, "db", "index lookups", "was O(n)");
    assert!(with.ends_with("\n\nwas O(n)"));
    assert_eq!(&with[..with.len() - "\n\nwas O(n)".len()], without);
}

#[test]
fn compose_is_deterministic() {
    let style = registry_entry("style");
    let first = compose_commit_message(&style, "ui", "Align Buttons", "body");
    let second = compose_commit_message(&style, "ui", "Align Buttons", "body");
    assert_eq!(first, second);
}

#[test]
fn summary_and_body_are_kept_verbatim() {
    let fix = registry_entry("fix");
    assert_eq!(
        compose_commit_message(&fix, "", "  Keep CASE  ", " Body "),
        "fix:   Keep CASE  \n\n Body "
    );
}

#[test]
fn empty_summary_is_accepted() {
    let test = registry_entry("test");
    assert_eq!(compose_commit_message(&test, "", "", ""), "test: ");
}

#[test]
fn parentheses_in_scope_are_not_escaped() {
    let build = registry_entry("build");
    assert_eq!(compose_commit_message(&build, "a(b)", "x", ""), "build(a(b)): x");
}

#[test]
fn custom_type_uses_its_class_only() {
    let custom = ConventionalCommitType {
        class: "wip",
        title: "Work In Progress",
        description: "Unfinished work",
    };
    assert_eq!(compose_commit_message(&custom, "", "draft", ""), "wip: draft");
}

#[test]
fn case_folding_lowers_the_summary_only() {
    let feat = registry_entry("feat");
    assert_eq!(
        compose_commit_message_with(&feat, "API", "Add Login", "Body Text", true),
        "feat(API): add login\n\nBody Text"
    );
}

#[test]
fn without_case_folding_summary_is_unchanged() {
    let feat = registry_entry("feat");
    assert_eq!(
        compose_commit_message_with(&feat, "API", "Add Login", "", false),
        "feat(API): Add Login"
    );
}

#[test]
fn registry_has_eleven_classes_in_order() {
    let types = ConventionalCommitType::conventional_commits();
    let classes: Vec<&str> = types.iter().map(|t| t.class).collect();
    assert_eq!(
        classes,
        vec!["feat", "fix", "docs", "style", "refactor", "perf", "test", "build", "ci", "chore", "revert"]
    );
    for i in 0..classes.len() {
        for j in (i + 1)..classes.len() {
            assert_ne!(classes[i], classes[j]);
        }
    }
}

#[test]
fn registry_titles_and_descriptions() {
    let types = ConventionalCommitType::conventional_commits();
    assert_eq!(types[0].title, "Features");
    assert_eq!(types[0].description, "A new feature");
    assert_eq!(types[8].title, "Continuous Integrations");
    assert_eq!(types[9].description, "Other changes that don't modify src or test files");
    assert_eq!(types[10].title, "Reverts");
}

#[test]
fn registry_is_the_same_on_every_call() {
    let first = ConventionalCommitType::conventional_commits();
    let second = ConventionalCommitType::conventional_commits();
    assert_eq!(first.len(), second.len());
    for (a, b) in first.iter().zip(second.iter()) {
        assert_eq!((a.class, a.title, a.description), (b.class, b.title, b.description));
    }
}

#[test]
fn display_line_pads_short_labels() {
    let feat = registry_entry("feat");
    assert_eq!(feat.display_line(), "feat:     A new feature");
    let revert = registry_entry("revert");
    assert_eq!(revert.display_line(), "revert:   Reverts a previous commit");
}

#[test]
fn display_line_keeps_full_width_labels() {
    let refactor = registry_entry("refactor");
    assert_eq!(
        refactor.display_line(),
        "refactor: A code change that neither fixes a bug nor adds a feature"
    );
    let long = ConventionalCommitType {
        class: "dependencies",
        title: "Dependencies",
        description: "Bumps",
    };
    assert_eq!(long.display_line(), "dependencies: Bumps");
}

#[test]
fn cancelled_selection_selects_nothing() {
    let types = ConventionalCommitType::conventional_commits();
    assert!(selected_type(&types, None).is_none());
}

#[test]
fn selection_picks_the_indexed_entry() {
    let types = ConventionalCommitType::conventional_commits();
    let chosen = selected_type(&types, Some(1)).unwrap();
    assert_eq!(chosen.class, "fix");
    let first = selected_type(&types, Some(0)).unwrap();
    assert_eq!(first.class, "feat");
}
