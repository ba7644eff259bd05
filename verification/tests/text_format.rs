use starscout::text::repo_to_embedding_text;
use starscout::text::truncate_readme;
use starscout::types::Repository;

fn item(name: &str, owner: &str) -> Repository {
    Repository {
        id: 1,
        name: name.to_string(),
        owner: owner.to_string(),
        description: None,
        readme_content: None,
        topics: Vec::new(),
        homepage_url: String::new(),
        created_at: None,
        last_updated: None,
    }
}

#[test]
fn truncates_long_readme_to_two_thousand_chars_with_ellipsis() {
    let long = "a".repeat(2500);
    let out = truncate_readme(&long);
    assert_eq!(out.chars().count(), 2003);
    let expected = format!("{}...", "a".repeat(2000));
    assert_eq!(out, expected);
}

#[test]
fn keeps_short_readme_unmodified() {
    let short = "b".repeat(1500);
    let out = truncate_readme(&short);
    assert_eq!(out, short);
}

#[test]
fn truncation_counts_scalar_values_not_bytes() {
    let long = "é".repeat(2500);
    let out = truncate_readme(&long);
    assert_eq!(out.chars().count(), 2003);
    assert_eq!(out, format!("{}...", "é".repeat(2000)));
}

#[test]
fn boundary_readme_of_exactly_two_thousand_chars_is_unmodified() {
    let exact = "c".repeat(2000);
    assert_eq!(truncate_readme(&exact), exact);
}

#[test]
fn embedding_text_has_exact_shape() {
    let mut repo = item("scout", "stars");
    repo.description = Some("finds things".to_string());
    repo.topics = vec!["search".to_string(), "vectors".to_string()];
    repo.readme_content = Some("hello readme".to_string());
    let text = repo_to_embedding_text(&repo);
    let expected = "\n# Key Information\nRepository name: stars/scout\nDescription: finds things\nTopics: search, vectors\nOwner: stars\n\n# README Content\nhello readme\n";
    assert_eq!(text, expected);
}

#[test]
fn embedding_text_uses_placeholders_when_fields_are_absent() {
    let repo = item("bare", "own");
    let text = repo_to_embedding_text(&repo);
    let expected = "\n# Key Information\nRepository name: own/bare\nDescription: None\nTopics: None\nOwner: own\n\n# README Content\nNone\n";
    assert_eq!(text, expected);
}

#[test]
fn embedding_text_truncates_embedded_readme() {
    let mut repo = item("long", "own");
    repo.readme_content = Some("x".repeat(2400));
    let text = repo_to_embedding_text(&repo);
    let expected = format!(
        "\n# Key Information\nRepository name: own/long\nDescription: None\nTopics: None\nOwner: own\n\n# README Content\n{}...\n",
        "x".repeat(2000)
    );
    assert_eq!(text, expected);
}

#[test]
fn single_topic_is_not_comma_joined() {
    let mut repo = item("one", "own");
    repo.topics = vec!["solo".to_string()];
    let text = repo_to_embedding_text(&repo);
    assert!(text.contains("\nTopics: solo\n"));
}
