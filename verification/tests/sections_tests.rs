use bora::sections::{
    create_section, create_section_with_seed, declared_section_for_checkout, generate_section_id,
    generated_two_word_name, hex_string, update_section, update_section_with_seed, Project,
    ProjectEntry, ProjectsStore, Section, SectionChild, SectionKind, SectionParts, SectionTarget,
};

fn workspace_child(checkout: &str) -> SectionChild {
    SectionChild::Workspace {
        name: checkout.to_string(),
        checkout: checkout.to_string(),
    }
}

fn branch_section(id: &str, checkout: &str) -> Section {
    Section {
        id: id.to_string(),
        kind: SectionKind::Branch,
        name: None,
        header_on: true,
        parts: SectionParts::default(),
        children: vec![workspace_child(checkout)],
    }
}

#[test]
fn create_section_appends_a_named_section_and_returns_its_id() {
    let mut layout = Vec::new();
    let id = create_section(&mut layout, SectionKind::Comando, Some("Dev".to_string()));

    assert_eq!(
        layout.len(),
        1,
        "create_section must append exactly one section"
    );
    let section = &layout[0];
    assert_eq!(section.id, id);
    assert_eq!(section.kind, SectionKind::Comando);
    assert_eq!(section.name.as_deref(), Some("Dev"));
    assert!(section.header_on);
    assert_eq!(section.parts, SectionParts::default());
    assert!(section.children.is_empty());
}

#[test]
fn create_section_without_a_name_gets_a_generated_two_word_name() {
    let mut layout = Vec::new();
    create_section(&mut layout, SectionKind::Livre, None);

    let name = layout[0].name.as_deref().expect("a name must be generated");
    assert!(
        name.contains('-') && name.chars().all(|c| c.is_ascii_lowercase() || c == '-'),
        "generated name must be a bare two-word hyphenated name, got {name:?}"
    );
}

#[test]
fn create_section_ids_are_unique_across_calls() {
    let mut layout = Vec::new();
    let first = create_section(&mut layout, SectionKind::Checks, None);
    let second = create_section(&mut layout, SectionKind::Checks, None);
    assert_ne!(first, second, "each created section must get a distinct id");
}

#[test]
fn update_section_by_id_applies_only_the_fields_given() {
    let mut layout = vec![branch_section("sec-1", "main")];

    let landed = update_section(
        &mut layout,
        &SectionTarget::Id("sec-1".to_string()),
        Some(false),
        None,
        Some(false),
    );

    assert_eq!(landed, Some("sec-1".to_string()));
    let section = &layout[0];
    assert!(!section.header_on, "header_on: Some(false) must apply");
    assert!(
        section.parts.dots,
        "dots: None must leave the default untouched"
    );
    assert!(!section.parts.diff, "diff: Some(false) must apply");
}

#[test]
fn update_section_by_unknown_id_mutates_nothing_and_returns_none() {
    let mut layout = vec![branch_section("sec-1", "main")];
    let before = layout.clone();

    let landed = update_section(
        &mut layout,
        &SectionTarget::Id("sec-ghost".to_string()),
        Some(false),
        Some(false),
        Some(false),
    );

    assert_eq!(landed, None, "an unknown id must not land on any section");
    assert_eq!(layout, before, "an unknown id must mutate nothing");
}

#[test]
fn update_section_by_checkout_on_an_empty_layout_materializes_one_branch_section() {
    let mut layout = Vec::new();

    let landed = update_section(
        &mut layout,
        &SectionTarget::Checkout("checkout-a".to_string()),
        Some(false),
        None,
        None,
    );

    assert_eq!(layout.len(), 1, "exactly one section must be materialized");
    let section = &layout[0];
    assert_eq!(landed, Some(section.id.clone()));
    assert_eq!(section.kind, SectionKind::Branch);
    assert!(
        !section.header_on,
        "the requested field must apply to the materialized section"
    );
    assert_eq!(
        section.children,
        vec![SectionChild::Workspace {
            name: "checkout-a".to_string(),
            checkout: "checkout-a".to_string(),
        }],
        "the materialized section must carry the checkout as its one child"
    );
}

#[test]
fn update_section_by_checkout_reuses_the_declaring_section_when_one_exists() {
    let mut layout = vec![
        branch_section("sec-other", "other"),
        branch_section("sec-target", "target"),
    ];

    let landed = update_section(
        &mut layout,
        &SectionTarget::Checkout("target".to_string()),
        Some(false),
        None,
        None,
    );

    assert_eq!(landed, Some("sec-target".to_string()));
    assert_eq!(layout.len(), 2, "no new section must be materialized");
    assert!(!layout[1].header_on);
    assert!(
        layout[0].header_on,
        "the non-matching section must stay untouched"
    );
}

fn store_with_cnb() -> ProjectsStore {
    ProjectsStore {
        projects: vec![ProjectEntry {
            slug: "cnb".to_string(),
            project: Project {
                name: None,
                layout: Some(vec![branch_section("sec-main", "main")]),
                auto_join: true,
            },
        }],
    }
}

#[test]
fn declared_section_for_checkout_reads_the_projects_store_layout() {
    let store = store_with_cnb();

    let found = declared_section_for_checkout(&store, "cnb", "main");
    assert_eq!(found.map(|section| section.id.as_str()), Some("sec-main"));

    assert!(
        declared_section_for_checkout(&store, "cnb", "nope").is_none(),
        "an unmatched checkout must yield None"
    );
    assert!(
        declared_section_for_checkout(&store, "ghost", "main").is_none(),
        "an unknown slug must yield None"
    );
}

#[test]
fn declared_section_for_checkout_without_a_layout_is_none() {
    let store = ProjectsStore {
        projects: vec![ProjectEntry {
            slug: "cnb".to_string(),
            project: Project { name: None, layout: None, auto_join: false },
        }],
    };
    assert!(declared_section_for_checkout(&store, "cnb", "main").is_none());
}

#[test]
fn declared_section_for_checkout_takes_the_first_declaring_section() {
    let store = ProjectsStore {
        projects: vec![ProjectEntry {
            slug: "cnb".to_string(),
            project: Project {
                name: None,
                layout: Some(vec![
                    branch_section("sec-a", "other"),
                    branch_section("sec-b", "main"),
                    branch_section("sec-c", "main"),
                ]),
                auto_join: true,
            },
        }],
    };
    let found = declared_section_for_checkout(&store, "cnb", "main");
    assert_eq!(found.map(|s| s.id.as_str()), Some("sec-b"));
}

#[test]
fn generated_ids_are_hex_and_avoid_existing_ids() {
    assert_eq!(hex_string(0), "0");
    assert_eq!(hex_string(255), "ff");
    assert_eq!(hex_string(0x1a2b), "1a2b");
    let id = generate_section_id(&vec![], 0xbeef);
    assert_eq!(id, "sec-beef");
    let taken = vec![branch_section("sec-beef", "main")];
    let other = generate_section_id(&taken, 0xbeef);
    assert_ne!(other, "sec-beef");
    assert!(other.starts_with("sec-beef"));
}

#[test]
fn create_section_with_a_seed_names_it_from_the_seed() {
    let mut layout = Vec::new();
    let id = create_section_with_seed(&mut layout, SectionKind::Livre, None, 42);
    assert_eq!(layout[0].id, id);
    assert_eq!(layout[0].name.as_deref(), Some(generated_two_word_name(42).as_str()));
    let name = generated_two_word_name(42);
    assert_eq!(name.matches('-').count(), 1);
}

#[test]
fn update_section_by_checkout_with_a_seed_appends_after_existing_sections() {
    let mut layout = vec![branch_section("sec-1", "main")];
    let landed = update_section_with_seed(
        &mut layout,
        &SectionTarget::Checkout("feature".to_string()),
        None,
        Some(false),
        None,
        7,
    );
    assert_eq!(layout.len(), 2);
    assert_eq!(landed.as_deref(), Some(layout[1].id.as_str()));
    assert_ne!(layout[1].id, "sec-1");
    assert!(layout[1].header_on);
    assert!(!layout[1].parts.dots);
    assert!(layout[1].parts.diff);
    assert_eq!(layout[0], branch_section("sec-1", "main"));
}

#[test]
fn repeated_checkout_updates_reach_the_same_section() {
    let mut layout = vec![branch_section("sec-1", "main")];
    let first = update_section(&mut layout, &SectionTarget::Checkout("feature".to_string()), Some(false), None, None);
    let len_after_first = layout.len();
    let second = update_section(&mut layout, &SectionTarget::Checkout("feature".to_string()), None, Some(false), None);
    assert!(first.is_some());
    assert_eq!(first, second);
    assert_eq!(layout.len(), len_after_first);
    let section = &layout[1];
    assert!(!section.header_on);
    assert!(!section.parts.dots);
}

#[test]
fn update_section_by_checkout_skips_sections_that_are_not_branch_sections() {
    let mut comando = branch_section("sec-c", "c");
    comando.kind = SectionKind::Comando;
    let mut layout = vec![comando.clone()];
    let landed = update_section(&mut layout, &SectionTarget::Checkout("c".to_string()), Some(false), None, None);
    assert_eq!(layout.len(), 2);
    assert_eq!(layout[0], comando);
    assert_eq!(layout[1].kind, SectionKind::Branch);
    assert!(!layout[1].header_on);
    assert_eq!(layout[1].children, vec![workspace_child("c")]);
    assert_eq!(landed, Some(layout[1].id.clone()));
}

#[test]
fn declared_section_for_checkout_skips_sections_that_are_not_branch_sections() {
    let mut checks = branch_section("sec-checks", "main");
    checks.kind = SectionKind::Checks;
    let store = ProjectsStore {
        projects: vec![ProjectEntry {
            slug: "cnb".to_string(),
            project: Project {
                name: None,
                layout: Some(vec![checks.clone(), branch_section("sec-main", "main")]),
                auto_join: true,
            },
        }],
    };
    let found = declared_section_for_checkout(&store, "cnb", "main");
    assert_eq!(found.map(|section| section.id.as_str()), Some("sec-main"));

    let only_checks = ProjectsStore {
        projects: vec![ProjectEntry {
            slug: "cnb".to_string(),
            project: Project { name: None, layout: Some(vec![checks]), auto_join: true },
        }],
    };
    assert!(declared_section_for_checkout(&only_checks, "cnb", "main").is_none());
}
