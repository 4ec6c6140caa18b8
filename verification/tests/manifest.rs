use repo_status::error::RepoStatusError;
use repo_status::manifest::project::Project;
use repo_status::manifest::{get_projects, select_paths, Manifest, Remote};
use repo_status::markup::{find_attribute, Attribute, XmlItem};

fn attribute(name: &str, value: &str) -> Attribute {
    Attribute { name: String::from(name), value: String::from(value) }
}

fn start(name: &str, attributes: Vec<Attribute>) -> XmlItem {
    XmlItem::Start { name: String::from(name), attributes }
}

fn parse_error(message: &str) -> RepoStatusError {
    RepoStatusError::ManifestParseError { message: String::from(message) }
}

#[test]
fn project_without_optional_fields_has_them_absent() {
    let manifest = Manifest::from_xml(b"<manifest><project name=\"a\"/></manifest>").unwrap();
    assert_eq!(manifest.remotes, vec![]);
    assert_eq!(manifest.defaults, vec![]);
    assert_eq!(
        manifest.projects,
        vec![Project { name: String::from("a"), path: None, groups: None, revision: None }]
    );
    assert_eq!(manifest.projects[0].effective_path(), "a");
}

#[test]
fn empty_optional_attribute_is_present_and_empty() {
    let manifest =
        Manifest::from_xml(b"<manifest><project name=\"a\" groups=\"\"/></manifest>").unwrap();
    assert_eq!(manifest.projects[0].groups, Some(String::new()));
    assert_eq!(manifest.projects[0].path, None);
    assert_eq!(manifest.projects[0].revision, None);
}

#[test]
fn full_manifest_is_read_in_document_order() {
    let text = "<?xml version=\"1.0\" encoding=\"UTF-8\"?>\n\
        <manifest>\n\
          <remote name=\"origin\" fetch=\"..\" review=\"https://review.example.org\"/>\n\
          <default revision=\"main\" remote=\"origin\"/>\n\
          <!-- the projects -->\n\
          <project name=\"platform/build\" path=\"build\" groups=\"core,tools\" revision=\"v1\"/>\n\
          <project name=\"kernel\"/>\n\
          <remote name=\"mirror\" fetch=\"git://m\" review=\"\"/>\n\
          <project path=\"third\" name=\"vendor/third\"/>\n\
        </manifest>\n";
    let manifest = Manifest::from_xml(text.as_bytes()).unwrap();
    assert_eq!(
        manifest.remotes,
        vec![
            Remote {
                name: String::from("origin"),
                fetch: String::from(".."),
                review: String::from("https://review.example.org"),
            },
            Remote {
                name: String::from("mirror"),
                fetch: String::from("git://m"),
                review: String::new(),
            },
        ]
    );
    assert_eq!(
        manifest.defaults,
        vec![repo_status::manifest::Default { revision: String::from("main"), remote: String::from("origin") }]
    );
    assert_eq!(
        manifest.projects,
        vec![
            Project {
                name: String::from("platform/build"),
                path: Some(String::from("build")),
                groups: Some(String::from("core,tools")),
                revision: Some(String::from("v1")),
            },
            Project { name: String::from("kernel"), path: None, groups: None, revision: None },
            Project {
                name: String::from("vendor/third"),
                path: Some(String::from("third")),
                groups: None,
                revision: None,
            },
        ]
    );
    let paths: Vec<&str> = manifest.projects.iter().map(|p| p.effective_path()).collect();
    assert_eq!(paths, vec!["build", "kernel", "third"]);
}

#[test]
fn empty_manifest_has_empty_lists() {
    let manifest = Manifest::from_xml(b"<manifest></manifest>").unwrap();
    assert_eq!(manifest, Manifest { remotes: vec![], defaults: vec![], projects: vec![] });
    let bodiless = Manifest::from_xml(b"<manifest/>").unwrap();
    assert_eq!(bodiless, Manifest { remotes: vec![], defaults: vec![], projects: vec![] });
}

#[test]
fn unknown_elements_and_attributes_are_ignored() {
    let text = "<manifest version=\"2\">\
        <notice>hello</notice>\
        <project name=\"a\" upstream=\"x\" clone-depth=\"1\"><copyfile src=\"s\" dest=\"d\"/></project>\
        <repo-hooks in-project=\"hooks\" enabled-list=\"pre-upload\"/>\
        <include name=\"other.xml\"/>\
        </manifest>";
    let manifest = Manifest::from_xml(text.as_bytes()).unwrap();
    assert_eq!(manifest.remotes, vec![]);
    assert_eq!(manifest.defaults, vec![]);
    assert_eq!(
        manifest.projects,
        vec![Project { name: String::from("a"), path: None, groups: None, revision: None }]
    );
}

#[test]
fn elements_below_the_children_of_the_root_do_not_count() {
    let text = "<manifest>\
        <project name=\"outer\"><project name=\"inner\" path=\"in\"/><remote/></project>\
        <extend><default/></extend>\
        </manifest>";
    let manifest = Manifest::from_xml(text.as_bytes()).unwrap();
    assert_eq!(manifest.remotes, vec![]);
    assert_eq!(manifest.defaults, vec![]);
    assert_eq!(manifest.projects.len(), 1);
    assert_eq!(manifest.projects[0].name, "outer");
}

#[test]
fn project_without_name_is_a_parse_error() {
    assert_eq!(
        Manifest::from_xml(b"<manifest><project path=\"p\"/></manifest>"),
        Err(parse_error("missing attribute `name` in element `project`"))
    );
}

#[test]
fn project_with_empty_effective_path_is_a_parse_error() {
    assert_eq!(
        Manifest::from_xml(b"<manifest><project name=\"\"/></manifest>"),
        Err(parse_error("project with an empty path"))
    );
    assert_eq!(
        Manifest::from_xml(b"<manifest><project name=\"a\" path=\"\"/></manifest>"),
        Err(parse_error("project with an empty path"))
    );
    assert!(Manifest::from_xml(b"<manifest><project name=\"\" path=\"p\"/></manifest>").is_ok());
}

#[test]
fn remote_and_default_need_all_their_attributes() {
    assert_eq!(
        Manifest::from_xml(b"<manifest><remote fetch=\"f\" review=\"r\"/></manifest>"),
        Err(parse_error("missing attribute `name` in element `remote`"))
    );
    assert_eq!(
        Manifest::from_xml(b"<manifest><remote name=\"n\" review=\"r\"/></manifest>"),
        Err(parse_error("missing attribute `fetch` in element `remote`"))
    );
    assert_eq!(
        Manifest::from_xml(b"<manifest><remote name=\"n\" fetch=\"f\"/></manifest>"),
        Err(parse_error("missing attribute `review` in element `remote`"))
    );
    assert_eq!(
        Manifest::from_xml(b"<manifest><default remote=\"r\"/></manifest>"),
        Err(parse_error("missing attribute `revision` in element `default`"))
    );
    assert_eq!(
        Manifest::from_xml(b"<manifest><default revision=\"r\"/></manifest>"),
        Err(parse_error("missing attribute `remote` in element `default`"))
    );
}

#[test]
fn first_defect_in_document_order_is_reported() {
    let text = "<manifest><default revision=\"r\"/><project path=\"p\"/><remote/></manifest>";
    assert_eq!(
        Manifest::from_xml(text.as_bytes()),
        Err(parse_error("missing attribute `remote` in element `default`"))
    );
}

#[test]
fn malformed_xml_is_a_parse_error() {
    for text in [
        "",
        "not xml",
        "<manifest><project name=\"a\"></manifest>",
        "<manifest><project name=\"a\"/>",
        "<manifest><project name=\"a\" name=\"b\"/></manifest>",
    ] {
        let loaded = Manifest::from_xml(text.as_bytes());
        assert!(
            matches!(loaded, Err(RepoStatusError::ManifestParseError { .. })),
            "{:?} gave {:?}",
            text,
            loaded
        );
    }
}

#[test]
fn defect_before_malformed_tail_wins() {
    assert_eq!(
        Manifest::from_xml(b"<manifest><project/><broken"),
        Err(parse_error("missing attribute `name` in element `project`"))
    );
}

#[test]
fn any_root_element_is_accepted() {
    let manifest = Manifest::from_xml(b"<other><project name=\"a\"/></other>").unwrap();
    assert_eq!(manifest.projects.len(), 1);
}

#[test]
fn namespace_prefix_is_not_part_of_the_name() {
    let text = "<m:manifest xmlns:m=\"urn:m\"><m:project m:name=\"a\"/></m:manifest>";
    let manifest = Manifest::from_xml(text.as_bytes()).unwrap();
    assert_eq!(manifest.projects[0].name, "a");
}

#[test]
fn from_events_follows_depth() {
    let events = vec![
        XmlItem::Other,
        start("manifest", vec![attribute("name", "ignored")]),
        start("project", vec![attribute("name", "a"), attribute("path", "pa")]),
        start("project", vec![attribute("name", "nested")]),
        XmlItem::End,
        XmlItem::End,
        XmlItem::Other,
        start("project", vec![attribute("name", "b")]),
        XmlItem::End,
        XmlItem::End,
        start("project", vec![attribute("name", "outside")]),
        XmlItem::End,
        XmlItem::End,
        XmlItem::End,
        start("root", vec![]),
        start("project", vec![attribute("name", "c")]),
    ];
    let manifest = Manifest::from_events(&events).unwrap();
    let names: Vec<&str> = manifest.projects.iter().map(|p| p.name.as_str()).collect();
    assert_eq!(names, vec!["a", "b", "c"]);
}

#[test]
fn from_events_reports_a_failure_event() {
    let events = vec![start("manifest", vec![]), XmlItem::Failure { message: String::from("bad") }];
    assert_eq!(Manifest::from_events(&events), Err(parse_error("bad")));
    assert_eq!(Manifest::from_events(&vec![]).unwrap().projects, vec![]);
}

#[test]
fn from_attributes_reads_each_kind() {
    let attributes = vec![
        attribute("name", "n"),
        attribute("fetch", "f"),
        attribute("review", "r"),
        attribute("revision", "v"),
        attribute("remote", "o"),
    ];
    assert_eq!(
        Remote::from_attributes(&attributes),
        Ok(Remote { name: String::from("n"), fetch: String::from("f"), review: String::from("r") })
    );
    assert_eq!(
        repo_status::manifest::Default::from_attributes(&attributes),
        Ok(repo_status::manifest::Default { revision: String::from("v"), remote: String::from("o") })
    );
    assert_eq!(
        Project::from_attributes(&attributes),
        Ok(Project {
            name: String::from("n"),
            path: None,
            groups: None,
            revision: Some(String::from("v")),
        })
    );
    assert_eq!(
        Project::from_attributes(&vec![]),
        Err(parse_error("missing attribute `name` in element `project`"))
    );
}

#[test]
fn find_attribute_takes_the_first_of_that_name() {
    let attributes = vec![attribute("a", "1"), attribute("b", "2"), attribute("a", "3")];
    assert_eq!(find_attribute(&attributes, "a"), Some(String::from("1")));
    assert_eq!(find_attribute(&attributes, "b"), Some(String::from("2")));
    assert_eq!(find_attribute(&attributes, "c"), None);
    assert_eq!(find_attribute(&vec![], "a"), None);
}

#[test]
fn get_projects_lists_effective_paths_at_any_depth() {
    let text = "<manifest>\
        <project name=\"a\" path=\"pa\"/>\
        <project name=\"no-path\"/>\
        <other path=\"not-a-project\"/>\
        <project name=\"b\" path=\"pb\"><project name=\"c\" path=\"pc\"/></project>\
        </manifest>";
    assert_eq!(
        get_projects(text.as_bytes()),
        vec![
            Ok(String::from("pa")),
            Ok(String::from("no-path")),
            Ok(String::from("pb")),
            Ok(String::from("pc")),
        ]
    );
}

#[test]
fn get_projects_falls_back_to_the_name() {
    assert_eq!(
        get_projects(b"<manifest><project name=\"n\"/></manifest>"),
        vec![Ok(String::from("n"))]
    );
}

#[test]
fn get_projects_agrees_with_the_manifest() {
    let text = "<manifest>\
        <remote name=\"o\" fetch=\"f\" review=\"r\"/>\
        <project name=\"a\" path=\"pa\"/><project name=\"b\"/><project name=\"c\" path=\"x/y\"/>\
        </manifest>";
    let manifest = Manifest::from_xml(text.as_bytes()).unwrap();
    let expected: Vec<Result<String, RepoStatusError>> =
        manifest.projects.iter().map(|p| Ok(String::from(p.effective_path()))).collect();
    assert_eq!(get_projects(text.as_bytes()), expected);
}

#[test]
fn get_projects_reports_a_project_without_a_place() {
    assert_eq!(
        get_projects(b"<manifest><project groups=\"g\"/><project name=\"ok\"/></manifest>"),
        vec![
            Err(parse_error("missing attribute `name` in element `project`")),
            Ok(String::from("ok")),
        ]
    );
    assert_eq!(
        get_projects(b"<manifest><project path=\"p\"/></manifest>"),
        vec![Err(parse_error("missing attribute `name` in element `project`"))]
    );
    assert_eq!(
        get_projects(b"<manifest><project name=\"a\" path=\"\"/></manifest>"),
        vec![Err(parse_error("project with an empty path"))]
    );
}

#[test]
fn get_projects_ends_with_the_parser_failure() {
    let paths = get_projects(b"<manifest><project name=\"a\" path=\"pa\"/><project name=\"b\">");
    assert_eq!(paths.len(), 3);
    assert_eq!(paths[0], Ok(String::from("pa")));
    assert_eq!(paths[1], Ok(String::from("b")));
    assert!(matches!(paths[2], Err(RepoStatusError::ManifestParseError { .. })));
    let message = paths[2].clone().unwrap_err().message();
    assert!(message.contains("Unexpected end of stream"), "{}", message);
}

#[test]
fn select_paths_works_on_given_events() {
    let events = vec![
        start("project", vec![attribute("name", "a"), attribute("path", "x")]),
        XmlItem::End,
        start("project", vec![attribute("name", "n")]),
        start("remote", vec![attribute("path", "r")]),
        start("project", vec![attribute("revision", "v")]),
        XmlItem::Failure { message: String::from("broken") },
    ];
    assert_eq!(
        select_paths(&events),
        vec![
            Ok(String::from("x")),
            Ok(String::from("n")),
            Err(parse_error("missing attribute `name` in element `project`")),
            Err(parse_error("broken")),
        ]
    );
    assert_eq!(select_paths(&vec![]), vec![]);
}
