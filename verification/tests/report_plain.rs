use repo_status::manifest::project::Project;
use repo_status::report::{get_status, render_report, render_status, ChangeRecord};
use repo_status::status::{
    Status, Verdict, IGNORED, INDEX_MODIFIED, INDEX_NEW, WT_DELETED, WT_MODIFIED, WT_NEW,
};
use repo_status::text::paint;

fn plain_record(path: &str, bits: u32) -> ChangeRecord {
    ChangeRecord::new(String::from(path), Status::from_bits(bits))
}

fn plain_project(name: &str, path: Option<&str>) -> Project {
    Project {
        name: String::from(name),
        path: path.map(String::from),
        groups: None,
        revision: None,
    }
}

#[test]
fn line_has_space_code_separator_path() {
    colored::control::set_override(false);
    assert_eq!(plain_record("foo.txt", INDEX_NEW).line("\t\t"), " A-\t\tfoo.txt");
    assert_eq!(plain_record("dir/bar", WT_MODIFIED).line("     "), " -m     dir/bar");
    assert_eq!(plain_record("", 0).line(""), " --");
}

#[test]
fn paint_without_colors_keeps_the_text() {
    colored::control::set_override(false);
    assert_eq!(paint(Verdict::Green, " A-\t\tfoo.txt"), " A-\t\tfoo.txt");
    assert_eq!(paint(Verdict::Red, " -m\t\tfoo.txt"), " -m\t\tfoo.txt");
}

#[test]
fn clean_project_yields_empty_report() {
    colored::control::set_override(false);
    assert_eq!(plain_project("a", None).get_status(vec![]), "");
    assert_eq!(get_status(String::from("a"), vec![]), "");
    assert_eq!(render_status("a", &vec![], "\t\t"), "");
}

#[test]
fn unchanged_and_ignored_records_are_dropped() {
    colored::control::set_override(false);
    let records = vec![plain_record("x", 0), plain_record("y", IGNORED)];
    assert_eq!(plain_project("a", None).get_status(records.clone()), "");
    assert_eq!(get_status(String::from("a"), records), "");
}

#[test]
fn project_report_uses_tabs_and_effective_path() {
    colored::control::set_override(false);
    let records = vec![
        plain_record("foo.txt", INDEX_NEW),
        plain_record("skipped", 0),
        plain_record("bar.rs", INDEX_MODIFIED | WT_MODIFIED),
        plain_record("gone", WT_DELETED),
    ];
    assert_eq!(
        plain_project("name", Some("some/path")).get_status(records.clone()),
        "project some/path/\n A-\t\tfoo.txt\n Mm\t\tbar.rs\n -d\t\tgone"
    );
    assert_eq!(
        plain_project("name", None).get_status(records),
        "project name/\n A-\t\tfoo.txt\n Mm\t\tbar.rs\n -d\t\tgone"
    );
}

#[test]
fn bare_path_report_uses_two_tabs() {
    colored::control::set_override(false);
    let records = vec![plain_record("foo.txt", INDEX_NEW), plain_record("new", WT_NEW)];
    assert_eq!(
        get_status(String::from("a/b"), records),
        "project a/b/\n A-\t\tfoo.txt\n -a\t\tnew"
    );
    assert_eq!(
        get_status(String::from("a"), vec![plain_record("foo.txt", INDEX_NEW)]),
        "project a/\n A-\t\tfoo.txt"
    );
}

#[test]
fn bare_path_and_project_give_the_same_report() {
    colored::control::set_override(false);
    let records = vec![
        plain_record("foo.txt", INDEX_NEW),
        plain_record("same", 0),
        plain_record("bar", INDEX_MODIFIED | WT_DELETED),
    ];
    assert_eq!(
        get_status(String::from("a"), records.clone()),
        plain_project("a", None).get_status(records.clone())
    );
    assert_eq!(
        get_status(String::from("p/q"), records.clone()),
        plain_project("a", Some("p/q")).get_status(records)
    );
}

#[test]
fn escape_character_in_a_path_is_kept_without_colors() {
    colored::control::set_override(false);
    assert_eq!(
        get_status(String::from("p\u{1b}[0m"), vec![plain_record("f\u{1b}[0mg", INDEX_NEW)]),
        "project p\u{1b}[0m/\n A-\t\tf\u{1b}[0mg"
    );
}

#[test]
fn render_report_joins_lines_under_the_header() {
    colored::control::set_override(false);
    assert_eq!(render_report("p", &vec![]), "");
    assert_eq!(render_report("p", &vec![String::from("one")]), "project p/\none");
    assert_eq!(
        render_report("p", &vec![String::from("one"), String::from("two"), String::new()]),
        "project p/\none\ntwo\n"
    );
}

#[test]
fn effective_path_prefers_the_override() {
    assert_eq!(plain_project("n", Some("p")).effective_path(), "p");
    assert_eq!(plain_project("n", None).effective_path(), "n");
    assert_eq!(plain_project("n", Some("")).effective_path(), "");
}
