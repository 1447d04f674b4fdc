use vstd::prelude::*;

verus! {

/// One category of change: the token written into the message, a title and a
/// one-line description for display.
#[derive(Clone, Copy)]
pub struct ConventionalCommitType {
    pub class: &'static str,
    pub title: &'static str,
    pub description: &'static str,
}

/// The number of categories in the registry.
pub const NUM_COMMIT_TYPES: usize = 11;

/// The class tokens of the registry, in display order.
pub open spec fn registry_classes() -> Seq<Seq<char>> {
    seq![
        "feat"@,
        "fix"@,
        "docs"@,
        "style"@,
        "refactor"@,
        "perf"@,
        "test"@,
        "build"@,
        "ci"@,
        "chore"@,
        "revert"@,
    ]
}

/// The titles of the registry, in display order.
pub open spec fn registry_titles() -> Seq<Seq<char>> {
    seq![
        "Features"@,
        "Bug Fixes"@,
        "Documentation"@,
        "Styles"@,
        "Code Refactoring"@,
        "Performance Improvements"@,
        "Tests"@,
        "Builds"@,
        "Continuous Integrations"@,
        "Chores"@,
        "Reverts"@,
    ]
}

/// The descriptions of the registry, in display order.
pub open spec fn registry_descriptions() -> Seq<Seq<char>> {
    seq![
        "A new feature"@,
        "A bug fix"@,
        "Documentation only changes"@,
        "Changes that do not affect the meaning of the code (white-space, formatting, missing semi-colons, etc)"@,
        "A code change that neither fixes a bug nor adds a feature"@,
        "A code change that improves performance"@,
        "Adding missing tests or correcting existing tests"@,
        "Changes that affect the build system or external dependencies (example scopes: gulp, broccoli, npm)"@,
        "Changes to our CI configuration files and scripts (example scopes: Travis, Circle, BrowserStack, SauceLabs)"@,
        "Other changes that don't modify src or test files"@,
        "Reverts a previous commit"@,
    ]
}

/// `types` holds exactly the registry's entries, in the registry's order.
pub open spec fn is_registry(types: Seq<ConventionalCommitType>) -> bool {
    &&& types.len() == NUM_COMMIT_TYPES
    &&& forall|i: int|
        0 <= i < types.len() ==> {
            &&& #[trigger] types[i].class@ == registry_classes()[i]
            &&& types[i].title@ == registry_titles()[i]
            &&& types[i].description@ == registry_descriptions()[i]
        }
}

impl ConventionalCommitType {
    /// The fixed, ordered catalogue of categories; the first is the default
    /// choice.
    pub fn conventional_commits() -> (r: Vec<ConventionalCommitType>)
        ensures
            is_registry(r@),
    {
        vec![
        ConventionalCommitType {
            class: "feat",
            title: "Features",
            description: "A new feature",
        },
        ConventionalCommitType {
            class: "fix",
            title: "Bug Fixes",
            description: "A bug fix",
        },
        ConventionalCommitType {
            class: "docs",
            title: "Documentation",
            description: "Documentation only changes",
        },
        ConventionalCommitType {
            class: "style",
            title: "Styles",
            description: "Changes that do not affect the meaning of the code (white-space, formatting, missing semi-colons, etc)",
        },
        ConventionalCommitType {
            class: "refactor",
            title: "Code Refactoring",
            description: "A code change that neither fixes a bug nor adds a feature",
        },
        ConventionalCommitType {
            class: "perf",
            title: "Performance Improvements",
            description: "A code change that improves performance",
        },
        ConventionalCommitType {
            class: "test",
            title: "Tests",
            description: "Adding missing tests or correcting existing tests",
        },
        ConventionalCommitType {
            class: "build",
            title: "Builds",
            description: "Changes that affect the build system or external dependencies (example scopes: gulp, broccoli, npm)",
        },
        ConventionalCommitType {
            class: "ci",
            title: "Continuous Integrations",
            description: "Changes to our CI configuration files and scripts (example scopes: Travis, Circle, BrowserStack, SauceLabs)",
        },
        ConventionalCommitType {
            class: "chore",
            title: "Chores",
            description: "Other changes that don't modify src or test files",
        },
        ConventionalCommitType {
            class: "revert",
            title: "Reverts",
            description: "Reverts a previous commit",
        },
        ]
    }
}

/// Width that the `class:` label is padded to in a display line.
pub const LABEL_WIDTH: usize = 9;

/// `s` followed by spaces up to `width` characters; `s` itself when it is
/// already that wide.
pub open spec fn pad_right(s: Seq<char>, width: nat) -> Seq<char> {
    if s.len() >= width {
        s
    } else {
        s + Seq::new((width - s.len()) as nat, |_i: int| ' ')
    }
}

/// How an entry reads in a selection list: `class:` padded to the label width,
/// a space, then the description.
pub open spec fn display_line_of(class: Seq<char>, description: Seq<char>) -> Seq<char> {
    pad_right(class + ":"@, LABEL_WIDTH as nat) + " "@ + description
}

impl ConventionalCommitType {
    /// The entry as a line of a selection list; the title does not appear.
    pub fn display_line(&self) -> (r: String)
        ensures
            r@ == display_line_of(self.class@, self.description@),
    {
        let mut label = self.class.to_owned();
        label.append(":");
        let ghost base = label@;
        let mut n: usize = label.as_str().unicode_len();
        while n < LABEL_WIDTH
            invariant
                n == label@.len(),
                base.len() <= n,
                n <= LABEL_WIDTH || n == base.len(),
                label@ =~= base + Seq::new((n - base.len()) as nat, |_i: int| ' '),
            decreases LABEL_WIDTH - n,
        {
            proof {
                reveal_strlit(" ");
            }
            label.append(" ");
            n = n + 1;
        }
        assert(label@ == pad_right(base, LABEL_WIDTH as nat));
        label.append(" ");
        label.append(self.description);
        label
    }
}

/// The entry that a selection step chose, or `None` when the choice was
/// cancelled.
pub fn selected_type(types: &Vec<ConventionalCommitType>, selection: Option<usize>) -> (r: Option<
    ConventionalCommitType,
>)
    requires
        match selection {
            Some(i) => i < types@.len(),
            None => true,
        },
    ensures
        r == match selection {
            Some(i) => Some(types@[i as int]),
            None => None,
        },
{
    match selection {
        Some(i) => Some(types[i]),
        None => None,
    }
}

/// The registry has eleven classes and no class occurs twice in it.
pub proof fn lemma_registry_classes_distinct()
    ensures
        registry_classes().len() == NUM_COMMIT_TYPES,
        forall|i: int, j: int|
            0 <= i < j < registry_classes().len() ==> registry_classes()[i]
                != registry_classes()[j],
{
    reveal_strlit("feat");
    reveal_strlit("fix");
    reveal_strlit("docs");
    reveal_strlit("style");
    reveal_strlit("refactor");
    reveal_strlit("perf");
    reveal_strlit("test");
    reveal_strlit("build");
    reveal_strlit("ci");
    reveal_strlit("chore");
    reveal_strlit("revert");
    // no two classes agree in both their length and their first character
    assert(registry_classes()[0].len() == 4 && registry_classes()[0][0] == 'f');
    assert(registry_classes()[1].len() == 3 && registry_classes()[1][0] == 'f');
    assert(registry_classes()[2].len() == 4 && registry_classes()[2][0] == 'd');
    assert(registry_classes()[3].len() == 5 && registry_classes()[3][0] == 's');
    assert(registry_classes()[4].len() == 8 && registry_classes()[4][0] == 'r');
    assert(registry_classes()[5].len() == 4 && registry_classes()[5][0] == 'p');
    assert(registry_classes()[6].len() == 4 && registry_classes()[6][0] == 't');
    assert(registry_classes()[7].len() == 5 && registry_classes()[7][0] == 'b');
    assert(registry_classes()[8].len() == 2 && registry_classes()[8][0] == 'c');
    assert(registry_classes()[9].len() == 5 && registry_classes()[9][0] == 'c');
    assert(registry_classes()[10].len() == 6 && registry_classes()[10][0] == 'r');
    assert forall|i: int, j: int| 0 <= i < j < registry_classes().len() implies registry_classes()[i]
        != registry_classes()[j] by {
        if registry_classes()[i] == registry_classes()[j] {
            assert(registry_classes()[i].len() == registry_classes()[j].len());
            assert(registry_classes()[i][0] == registry_classes()[j][0]);
        }
    }
}

} // verus!
