use libproduct::{render, BuildAgent, BuildProvenance, ProductName};
use libproduct::{
    DESCRIPTOR_DEFAULT, DESCRIPTOR_DEFAULT_DIRTY, DESCRIPTOR_FULL, DESCRIPTOR_GIT_REF_SHORT,
    DESCRIPTOR_LONG, DESCRIPTOR_SHORT, DESCRIPTOR_USER_AGENT,
};

fn sample_agent() -> BuildAgent {
    BuildAgent {
        hostname: String::from("builder01"),
        os_name: String::from("Linux"),
        os_version: String::from("6.1"),
        os_long_version: String::from("Linux 6.1.0-generic"),
        cpu_arch: String::from("x86_64"),
        cpu_count: 8,
        total_memory: String::from("32 GiB"),
    }
}

fn sample_build(dirty: bool) -> BuildProvenance {
    BuildProvenance {
        version: Some(String::from("1.2.3")),
        branch: Some(String::from("main")),
        commit_short: String::from("abc1234"),
        commit_long: String::from("abc1234def5678"),
        dirty,
        message: Some(String::from("fix the frobnicator")),
        author_name: Some(String::from("Sam Coder")),
        author_email: Some(String::from("sam@example.org")),
        tags: vec![String::from("v1.2.3"), String::from("stable")],
        remote_url: Some(String::from("https://example.org/repo.git")),
        commit_count: Some(42),
        agent: sample_agent(),
    }
}

#[test]
fn renders_name_and_version() {
    let id = ProductName::new("dev.thmsn.app", "0.1.0", None);
    assert_eq!(render("{NAME} v{VERSION}", &id), "dev.thmsn.app v0.1.0");
}

#[test]
fn dirty_star_is_a_star_when_dirty() {
    let id = ProductName::new("dev.thmsn.app", "0.1.0", Some(sample_build(true)));
    assert_eq!(render("{GIT_DIRTY_STAR}", &id), "*");
}

#[test]
fn dirty_star_is_empty_when_clean() {
    let id = ProductName::new("dev.thmsn.app", "0.1.0", Some(sample_build(false)));
    assert_eq!(render("{GIT_DIRTY_STAR}", &id), "");
}

#[test]
fn dirty_word_and_marker_differ() {
    let dirty = ProductName::new("dev.thmsn.app", "0.1.0", Some(sample_build(true)));
    let clean = ProductName::new("dev.thmsn.app", "0.1.0", Some(sample_build(false)));
    assert_eq!(render("{GIT_DIRTY}", &dirty), "dirty");
    assert_eq!(render("{GIT_DIRTY}", &clean), "");
}

#[test]
fn missing_build_record_renders_every_git_key_empty() {
    let id = ProductName::new("dev.thmsn.app", "0.1.0", None);
    let all_git_keys = "{GIT_BRANCH}{GIT_COMMIT}{GIT_COMMIT_LONG}{GIT_DIRTY}{GIT_DIRTY_STAR}\
                        {GIT_MESSAGE}{GIT_AUTHOR}{GIT_AUTHOR_EMAIL}{GIT_TAGS}{GIT_REMOTE}\
                        {GIT_COMMIT_COUNT}{HOST}{OS}{OS_VERSION}{OS_LONG}{CPU_ARCH}{CPU_COUNT}\
                        {MEMORY}";
    assert_eq!(render(all_git_keys, &id), "");
    assert_eq!(render("{NAME} v{VERSION}", &id), "dev.thmsn.app v0.1.0");
}

#[test]
fn build_version_wins_over_fallback() {
    let id = ProductName::new("dev.thmsn.app", "0.1.0", Some(sample_build(false)));
    assert_eq!(id.resolved_version(), "1.2.3");
    assert_eq!(render("{VERSION}", &id), "1.2.3");
}

#[test]
fn renders_git_and_host_details() {
    let id = ProductName::new("dev.thmsn.app", "0.1.0", Some(sample_build(false)));
    assert_eq!(render("{GIT_BRANCH}", &id), "main");
    assert_eq!(render("{GIT_COMMIT}", &id), "abc1234");
    assert_eq!(render("{GIT_COMMIT_LONG}", &id), "abc1234def5678");
    assert_eq!(render("{GIT_MESSAGE}", &id), "fix the frobnicator");
    assert_eq!(render("{GIT_AUTHOR}", &id), "Sam Coder");
    assert_eq!(render("{GIT_AUTHOR_EMAIL}", &id), "sam@example.org");
    assert_eq!(render("{GIT_TAGS}", &id), "v1.2.3, stable");
    assert_eq!(render("{GIT_REMOTE}", &id), "https://example.org/repo.git");
    assert_eq!(render("{GIT_COMMIT_COUNT}", &id), "42");
    assert_eq!(render("{HOST}", &id), "builder01");
    assert_eq!(render("{OS} {OS_VERSION}", &id), "Linux 6.1");
    assert_eq!(render("{OS_LONG}", &id), "Linux 6.1.0-generic");
    assert_eq!(render("{CPU_ARCH}", &id), "x86_64");
    assert_eq!(render("{CPU_COUNT}", &id), "8");
    assert_eq!(render("{MEMORY}", &id), "32 GiB");
}

#[test]
fn unrecognized_tokens_are_left_untouched() {
    let id = ProductName::new("dev.thmsn.app", "0.1.0", None);
    assert_eq!(render("{UNKNOWN} {nope} {}", &id), "{UNKNOWN} {nope} {}");
}

#[test]
fn substitution_is_single_pass_and_non_recursive() {
    let mut build = sample_build(false);
    build.message = Some(String::from("rename {NAME} to {VERSION}"));
    let id = ProductName::new("dev.thmsn.app", "0.1.0", Some(build));
    assert_eq!(render("{GIT_MESSAGE}", &id), "rename {NAME} to {VERSION}");
}

#[test]
fn presets_render_expected_descriptors() {
    let id = ProductName::new("dev.thmsn.app", "0.1.0", Some(sample_build(true)));
    assert_eq!(render(DESCRIPTOR_SHORT, &id), "dev.thmsn.app v1.2.3");
    assert_eq!(render(DESCRIPTOR_DEFAULT, &id), "dev.thmsn.app v1.2.3 (abc1234)");
    assert_eq!(render(DESCRIPTOR_GIT_REF_SHORT, &id), "main@abc1234*");
    assert_eq!(
        render(DESCRIPTOR_USER_AGENT, &id),
        "dev.thmsn.app/1.2.3 (Linux 6.1; x86_64)"
    );
}

#[test]
fn empty_template_renders_empty() {
    let id = ProductName::new("dev.thmsn.app", "0.1.0", None);
    assert_eq!(render("", &id), "");
}

#[test]
fn unterminated_token_is_left_untouched() {
    let id = ProductName::new("dev.thmsn.app", "0.1.0", None);
    assert_eq!(render("{NAME", &id), "{NAME");
    assert_eq!(render("NAME}", &id), "NAME}");
    assert_eq!(render("{{NAME}}", &id), "{dev.thmsn.app}");
}

#[test]
fn tags_join_handles_none_one_and_many() {
    let mut build = sample_build(false);
    build.tags = vec![];
    let id = ProductName::new("dev.thmsn.app", "0.1.0", Some(build));
    assert_eq!(render("{GIT_TAGS}", &id), "");
    let mut build = sample_build(false);
    build.tags = vec![String::from("only")];
    let id = ProductName::new("dev.thmsn.app", "0.1.0", Some(build));
    assert_eq!(render("{GIT_TAGS}", &id), "only");
    let mut build = sample_build(false);
    build.tags = vec![
        String::from("a"),
        String::from("b"),
        String::from("c"),
    ];
    let id = ProductName::new("dev.thmsn.app", "0.1.0", Some(build));
    assert_eq!(render("{GIT_TAGS}", &id), "a, b, c");
}

#[test]
fn build_record_without_version_falls_back() {
    let mut build = sample_build(false);
    build.version = None;
    let id = ProductName::new("dev.thmsn.app", "0.1.0", Some(build));
    assert_eq!(id.resolved_version(), "0.1.0");
    assert_eq!(render("{VERSION}", &id), "0.1.0");
}

#[test]
fn long_presets_render_expected_descriptors() {
    let id = ProductName::new("dev.thmsn.app", "0.1.0", Some(sample_build(true)));
    assert_eq!(
        render(DESCRIPTOR_DEFAULT_DIRTY, &id),
        "dev.thmsn.app v1.2.3 (abc1234*)"
    );
    assert_eq!(
        render(DESCRIPTOR_LONG, &id),
        "dev.thmsn.app v1.2.3 (main abc1234*) built on builder01"
    );
    assert_eq!(
        render(DESCRIPTOR_FULL, &id),
        "dev.thmsn.app v1.2.3 (main abc1234def5678*) built on builder01 \
         (Linux 6.1, x86_64, 8 cpus, 32 GiB)"
    );
    let clean = ProductName::new("dev.thmsn.app", "0.1.0", Some(sample_build(false)));
    assert_eq!(
        render(DESCRIPTOR_DEFAULT_DIRTY, &clean),
        "dev.thmsn.app v1.2.3 (abc1234)"
    );
}

#[test]
fn extensions_show_up_in_rendered_descriptors() {
    let id = ProductName::new("dev.thmsn.app", "0.1.0", None).with("worker");
    assert_eq!(render(DESCRIPTOR_SHORT, &id), "dev.thmsn.app.worker v0.1.0");
}
