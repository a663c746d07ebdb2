use rsphate::commands::{git, LINK_FAILURE};

#[test]
fn github_link() {
    assert_eq!(git("github", "Phate6660/rsfetch"), "https://github.com/Phate6660/rsfetch");
}

#[test]
fn gitlab_link() {
    assert_eq!(git("gitlab", "ArcticTheRogue/asgl"), "https://gitlab.com/ArcticTheRogue/asgl");
}

#[test]
fn codeberg_link() {
    assert_eq!(git("codeberg", "Phate6660/musinfo"), "https://codeberg.org/Phate6660/musinfo");
}

#[test]
fn sourcehut_link_has_tilde_before_the_user() {
    assert_eq!(git("sourcehut", "sircmpwn/scdoc"), "https://sr.ht/~sircmpwn/scdoc");
}

#[test]
fn repo_is_passed_through_unchanged() {
    let odd = "a b/%20?x=1&y=<z>#é/\u{1F980}";
    for site in ["github", "gitlab", "codeberg", "sourcehut"] {
        let link = git(site, odd);
        assert!(link.ends_with(odd));
        assert_eq!(link.len(), git(site, "").len() + odd.len());
    }
}

#[test]
fn empty_repo_gives_the_base_address() {
    assert_eq!(git("github", ""), "https://github.com/");
    assert_eq!(git("gitlab", ""), "https://gitlab.com/");
    assert_eq!(git("codeberg", ""), "https://codeberg.org/");
    assert_eq!(git("sourcehut", ""), "https://sr.ht/~");
}

#[test]
fn unknown_site_gives_the_failure_text() {
    let failure = "Could not generate a full link, please try again.";
    assert_eq!(LINK_FAILURE, failure);
    assert_eq!(git("bitbucket", "a/b"), failure);
    assert_eq!(git("bitbucket", ""), failure);
    assert_eq!(git("", "a/b"), failure);
    assert_eq!(git("hub", "github"), failure);
}

#[test]
fn site_keywords_are_case_sensitive_and_exact() {
    let failure = "Could not generate a full link, please try again.";
    assert_eq!(git("GitHub", "a/b"), failure);
    assert_eq!(git("github ", "a/b"), failure);
    assert_eq!(git("github.com", "a/b"), failure);
    assert_eq!(git("sr.ht", "a/b"), failure);
}

#[test]
fn link_is_what_the_message_builder_makes_of_base_and_repo() {
    let built = serenity::utils::MessageBuilder::new()
        .push("https://codeberg.org/")
        .push("Phate6660/musinfo")
        .build();
    assert_eq!(git("codeberg", "Phate6660/musinfo"), built);
}
