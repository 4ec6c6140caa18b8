//! The manifest of a super-repository: its projects, remotes and defaults,
//! read from the events of its XML document.

pub mod project;

use vstd::prelude::*;

use crate::aggregate::{outcome_views, Outcome, OutcomeView};
use crate::error::{RepoStatusError, RepoStatusErrorView};
use crate::manifest::project::{
    missing_attribute, project_defect, project_of, required_attribute, Project, ProjectView,
};
use crate::markup::{
    attribute_value, read_events, xml_events, Attribute, AttributeView, XmlItem, XmlItemView,
};

verus! {

/// Where projects are fetched from. Kept for later use; no report reads it.
#[derive(Clone, Debug, PartialEq, Eq)]
pub struct Remote {
    pub name: String,
    pub fetch: String,
    pub review: String,
}

/// What holds of a project that does not say otherwise. Kept for later use;
/// no report reads it.
#[derive(Clone, Debug, PartialEq, Eq)]
pub struct Default {
    pub revision: String,
    pub remote: String,
}

/// The manifest: what its document lists, each kind in the order of the
/// document. The order of the projects is the order of the report.
#[derive(Clone, Debug, PartialEq, Eq)]
pub struct Manifest {
    pub remotes: Vec<Remote>,
    pub defaults: Vec<Default>,
    pub projects: Vec<Project>,
}

/// A `Remote` as a mathematical value.
pub struct RemoteView {
    pub name: Seq<char>,
    pub fetch: Seq<char>,
    pub review: Seq<char>,
}

/// A `Default` as a mathematical value.
pub struct DefaultView {
    pub revision: Seq<char>,
    pub remote: Seq<char>,
}

/// A `Manifest` as a mathematical value.
pub struct ManifestView {
    pub remotes: Seq<RemoteView>,
    pub defaults: Seq<DefaultView>,
    pub projects: Seq<ProjectView>,
}

impl View for Remote {
    type V = RemoteView;

    open spec fn view(&self) -> RemoteView {
        RemoteView { name: self.name@, fetch: self.fetch@, review: self.review@ }
    }
}

impl DeepView for Remote {
    type V = RemoteView;

    open spec fn deep_view(&self) -> RemoteView {
        self@
    }
}

impl View for Default {
    type V = DefaultView;

    open spec fn view(&self) -> DefaultView {
        DefaultView { revision: self.revision@, remote: self.remote@ }
    }
}

impl DeepView for Default {
    type V = DefaultView;

    open spec fn deep_view(&self) -> DefaultView {
        self@
    }
}

impl View for Manifest {
    type V = ManifestView;

    open spec fn view(&self) -> ManifestView {
        ManifestView {
            remotes: self.remotes.deep_view(),
            defaults: self.defaults.deep_view(),
            projects: self.projects.deep_view(),
        }
    }
}

/// How many elements are open after these events.
pub open spec fn depth_after(events: Seq<XmlItemView>) -> nat
    decreases events.len(),
{
    if events.len() == 0 {
        0
    } else {
        let before = depth_after(events.drop_last());
        match events.last() {
            XmlItemView::Start { .. } => before + 1,
            XmlItemView::End => if before > 0 {
                (before - 1) as nat
            } else {
                0
            },
            _ => before,
        }
    }
}

/// The event at `index` opens a child of the root element, called `name`.
pub open spec fn opens_child(events: Seq<XmlItemView>, index: int, name: Seq<char>) -> bool {
    &&& 0 <= index < events.len()
    &&& events[index] matches XmlItemView::Start { name: found, .. }
    &&& found == name
    &&& depth_after(events.take(index)) == 1
}

/// The attributes of each child of the root element that is called `name`,
/// in the order of the document. Elements further down do not count.
pub open spec fn children(events: Seq<XmlItemView>, name: Seq<char>) -> Seq<Seq<AttributeView>>
    decreases events.len(),
{
    if events.len() == 0 {
        Seq::empty()
    } else {
        let earlier = children(events.drop_last(), name);
        if opens_child(events, events.len() - 1, name) {
            earlier.push(events.last()->Start_attributes)
        } else {
            earlier
        }
    }
}

/// The remote that a `remote` element with these attributes stands for.
pub open spec fn remote_of(attributes: Seq<AttributeView>) -> RemoteView {
    RemoteView {
        name: attribute_value(attributes, "name"@).unwrap(),
        fetch: attribute_value(attributes, "fetch"@).unwrap(),
        review: attribute_value(attributes, "review"@).unwrap(),
    }
}

/// The default that a `default` element with these attributes stands for.
pub open spec fn default_of(attributes: Seq<AttributeView>) -> DefaultView {
    DefaultView {
        revision: attribute_value(attributes, "revision"@).unwrap(),
        remote: attribute_value(attributes, "remote"@).unwrap(),
    }
}

/// What is wrong with a `remote` element that has these attributes, if
/// anything: the first of `name`, `fetch`, `review` that it lacks.
pub open spec fn remote_defect(attributes: Seq<AttributeView>) -> Option<Seq<char>> {
    if attribute_value(attributes, "name"@) is None {
        Some(missing_attribute("remote"@, "name"@))
    } else if attribute_value(attributes, "fetch"@) is None {
        Some(missing_attribute("remote"@, "fetch"@))
    } else if attribute_value(attributes, "review"@) is None {
        Some(missing_attribute("remote"@, "review"@))
    } else {
        None
    }
}

/// What is wrong with a `default` element that has these attributes, if
/// anything: the first of `revision`, `remote` that it lacks.
pub open spec fn default_defect(attributes: Seq<AttributeView>) -> Option<Seq<char>> {
    if attribute_value(attributes, "revision"@) is None {
        Some(missing_attribute("default"@, "revision"@))
    } else if attribute_value(attributes, "remote"@) is None {
        Some(missing_attribute("default"@, "remote"@))
    } else {
        None
    }
}

/// What is wrong with the event at `index`, if anything: it is a failure of
/// the parser, or it opens a child of the root that is a remote, a default
/// or a project and lacks what that must have. Every other element, and every
/// other attribute, is passed over.
pub open spec fn defect_at(events: Seq<XmlItemView>, index: int) -> Option<Seq<char>> {
    match events[index] {
        XmlItemView::Failure { message } => Some(message),
        XmlItemView::Start { name, attributes } => if opens_child(events, index, "remote"@) {
            remote_defect(attributes)
        } else if opens_child(events, index, "default"@) {
            default_defect(attributes)
        } else if opens_child(events, index, "project"@) {
            project_defect(attributes)
        } else {
            None
        },
        _ => None,
    }
}

/// No event before `index` has a defect.
pub open spec fn sound_before(events: Seq<XmlItemView>, index: int) -> bool {
    forall|earlier: int| 0 <= earlier < index ==> (#[trigger] defect_at(events, earlier)) is None
}

/// The manifest that a document with these events holds: the remotes,
/// defaults and projects among the children of its root element, each kind
/// in the order of the document. It fails with the first defect, in the
/// order of the document, where there is one.
pub open spec fn is_manifest_of(
    events: Seq<XmlItemView>,
    loaded: Result<ManifestView, RepoStatusErrorView>,
) -> bool {
    match loaded {
        Ok(manifest) => {
            &&& sound_before(events, events.len() as int)
            &&& manifest.remotes == children(events, "remote"@).map_values(
                |attributes: Seq<AttributeView>| remote_of(attributes),
            )
            &&& manifest.defaults == children(events, "default"@).map_values(
                |attributes: Seq<AttributeView>| default_of(attributes),
            )
            &&& manifest.projects == children(events, "project"@).map_values(
                |attributes: Seq<AttributeView>| project_of(attributes),
            )
        },
        Err(failure) => exists|index: int|
            {
                &&& 0 <= index < events.len()
                &&& #[trigger] sound_before(events, index)
                &&& defect_at(events, index) matches Some(message)
                &&& failure == (RepoStatusErrorView::ManifestParseError { message })
            },
    }
}

/// The mathematical value of what a load hands back.
pub open spec fn loaded_view(loaded: Result<Manifest, RepoStatusError>) -> Result<
    ManifestView,
    RepoStatusErrorView,
> {
    match loaded {
        Ok(manifest) => Ok(manifest@),
        Err(failure) => Err(failure@),
    }
}

/// What an event adds to the list of checkout paths. A `project` element,
/// wherever it stands in the document, adds its effective path: its `path`
/// where it has one, else its `name`; where it has neither, or the one that
/// counts is empty, it adds the failure that says so. A failure of the parser
/// is added as it is; anything else adds nothing.
pub open spec fn path_of(item: XmlItemView) -> Option<OutcomeView> {
    match item {
        XmlItemView::Start { name, attributes } => if name == "project"@ {
            match project_defect(attributes) {
                Some(message) => Some(Err(RepoStatusErrorView::ManifestParseError { message })),
                None => Some(Ok(project_of(attributes).effective_path())),
            }
        } else {
            None
        },
        XmlItemView::Failure { message } => Some(
            Err(RepoStatusErrorView::ManifestParseError { message }),
        ),
        _ => None,
    }
}

/// The checkout paths that a document with these events lists, in the order
/// of the document.
pub open spec fn project_paths(events: Seq<XmlItemView>) -> Seq<OutcomeView> {
    events.filter_map(|item: XmlItemView| path_of(item))
}

impl Remote {
    /// Reads a remote from the attributes of a `remote` element.
    pub fn from_attributes(attributes: &Vec<Attribute>) -> (remote: Result<
        Remote,
        RepoStatusError,
    >)
        ensures
            match remote_defect(attributes.deep_view()) {
                Some(message) => remote matches Err(failure) && failure@
                    == (RepoStatusErrorView::ManifestParseError { message }),
                None => remote matches Ok(read) && read@ == remote_of(attributes.deep_view()),
            },
    {
        let name = match required_attribute(attributes, "remote", "name") {
            Ok(name) => name,
            Err(failure) => {
                return Err(failure);
            },
        };
        let fetch = match required_attribute(attributes, "remote", "fetch") {
            Ok(fetch) => fetch,
            Err(failure) => {
                return Err(failure);
            },
        };
        let review = match required_attribute(attributes, "remote", "review") {
            Ok(review) => review,
            Err(failure) => {
                return Err(failure);
            },
        };
        Ok(Remote { name, fetch, review })
    }
}

impl Default {
    /// Reads a default from the attributes of a `default` element.
    pub fn from_attributes(attributes: &Vec<Attribute>) -> (default: Result<
        Default,
        RepoStatusError,
    >)
        ensures
            match default_defect(attributes.deep_view()) {
                Some(message) => default matches Err(failure) && failure@
                    == (RepoStatusErrorView::ManifestParseError { message }),
                None => default matches Ok(read) && read@ == default_of(attributes.deep_view()),
            },
    {
        let revision = match required_attribute(attributes, "default", "revision") {
            Ok(revision) => revision,
            Err(failure) => {
                return Err(failure);
            },
        };
        let remote = match required_attribute(attributes, "default", "remote") {
            Ok(remote) => remote,
            Err(failure) => {
                return Err(failure);
            },
        };
        Ok(Default { revision, remote })
    }
}

/// The children of the root among the first `index + 1` events are those among
/// the first `index`, and the event at `index` where it opens one.
proof fn children_step(events: Seq<XmlItemView>, index: int, name: Seq<char>)
    requires
        0 <= index < events.len(),
    ensures
        children(events.take(index + 1), name) == if opens_child(events, index, name) {
            children(events.take(index), name).push(events[index]->Start_attributes)
        } else {
            children(events.take(index), name)
        },
        depth_after(events.take(index + 1)) == match events[index] {
            XmlItemView::Start { .. } => depth_after(events.take(index)) + 1,
            XmlItemView::End => if depth_after(events.take(index)) > 0 {
                (depth_after(events.take(index)) - 1) as nat
            } else {
                0
            },
            _ => depth_after(events.take(index)),
        },
{
    let head = events.take(index + 1);
    assert(head.drop_last() =~= events.take(index));
    assert(head.take(index) =~= events.take(index));
    assert(head.last() == events[index]);
}

impl Manifest {
    /// Reads the manifest from the events of its document.
    pub fn from_events(events: &Vec<XmlItem>) -> (loaded: Result<Manifest, RepoStatusError>)
        ensures
            is_manifest_of(events.deep_view(), loaded_view(loaded)),
            loaded matches Ok(manifest) ==> forall|index: int|
                0 <= index < manifest@.projects.len() ==> (
                #[trigger] manifest@.projects[index]).well_formed(),
    {
        let ghost all = events.deep_view();
        let ghost to_remote = |attributes: Seq<AttributeView>| remote_of(attributes);
        let ghost to_default = |attributes: Seq<AttributeView>| default_of(attributes);
        let ghost to_project = |attributes: Seq<AttributeView>| project_of(attributes);
        let remote_tag = String::from_str("remote");
        let default_tag = String::from_str("default");
        let project_tag = String::from_str("project");
        proof {
            reveal_strlit("remote");
            reveal_strlit("default");
            reveal_strlit("project");
            assert("remote"@.len() == 6 && "default"@.len() == 7 && "project"@.len() == 7);
            assert("default"@[0] == 'd' && "project"@[0] == 'p');
        }
        let mut remotes: Vec<Remote> = Vec::new();
        let mut defaults: Vec<Default> = Vec::new();
        let mut projects: Vec<Project> = Vec::new();
        let mut depth: usize = 0;
        let mut i: usize = 0;
        assert(all.take(0) =~= Seq::empty());
        assert(remotes.deep_view() =~= children(all.take(0), "remote"@).map_values(to_remote));
        assert(defaults.deep_view() =~= children(all.take(0), "default"@).map_values(to_default));
        assert(projects.deep_view() =~= children(all.take(0), "project"@).map_values(to_project));
        while i < events.len()
            invariant
                i <= events.len(),
                all == events.deep_view(),
                to_remote == |attributes: Seq<AttributeView>| remote_of(attributes),
                to_default == |attributes: Seq<AttributeView>| default_of(attributes),
                to_project == |attributes: Seq<AttributeView>| project_of(attributes),
                remote_tag@ == "remote"@,
                default_tag@ == "default"@,
                project_tag@ == "project"@,
                "remote"@ != "default"@,
                "remote"@ != "project"@,
                "default"@ != "project"@,
                depth <= i,
                depth == depth_after(all.take(i as int)),
                sound_before(all, i as int),
                remotes.deep_view() == children(all.take(i as int), "remote"@).map_values(
                    to_remote,
                ),
                defaults.deep_view() == children(all.take(i as int), "default"@).map_values(
                    to_default,
                ),
                projects.deep_view() == children(all.take(i as int), "project"@).map_values(
                    to_project,
                ),
                forall|index: int|
                    0 <= index < projects.len() ==> (#[trigger] projects[index])@.well_formed(),
            decreases events.len() - i,
        {
            let ghost old_remotes = remotes.deep_view();
            let ghost old_defaults = defaults.deep_view();
            let ghost old_projects = projects.deep_view();
            proof {
                children_step(all, i as int, "remote"@);
                children_step(all, i as int, "default"@);
                children_step(all, i as int, "project"@);
                assert(all[i as int] == events[i as int]@);
            }
            match &events[i] {
                XmlItem::Start { name, attributes } => {
                    if depth == 1 && *name == remote_tag {
                        match Remote::from_attributes(attributes) {
                            Ok(remote) => {
                                remotes.push(remote);
                                assert(remotes.deep_view() =~= old_remotes.push(remote@));
                            },
                            Err(failure) => {
                                assert(defect_at(all, i as int) is Some);
                                return Err(failure);
                            },
                        }
                    } else if depth == 1 && *name == default_tag {
                        match Default::from_attributes(attributes) {
                            Ok(default) => {
                                defaults.push(default);
                                assert(defaults.deep_view() =~= old_defaults.push(default@));
                            },
                            Err(failure) => {
                                assert(defect_at(all, i as int) is Some);
                                return Err(failure);
                            },
                        }
                    } else if depth == 1 && *name == project_tag {
                        match Project::from_attributes(attributes) {
                            Ok(project) => {
                                projects.push(project);
                                assert(projects.deep_view() =~= old_projects.push(project@));
                            },
                            Err(failure) => {
                                assert(defect_at(all, i as int) is Some);
                                return Err(failure);
                            },
                        }
                    }
                    depth += 1;
                },
                XmlItem::End => {
                    if depth > 0 {
                        depth -= 1;
                    }
                },
                XmlItem::Other => {},
                XmlItem::Failure { message } => {
                    assert(defect_at(all, i as int) == Some(message@));
                    return Err(RepoStatusError::ManifestParseError { message: message.clone() });
                },
            }
            assert(defect_at(all, i as int) is None);
            assert(remotes.deep_view() =~= children(all.take(i as int + 1), "remote"@).map_values(
                to_remote,
            ));
            assert(defaults.deep_view() =~= children(
                all.take(i as int + 1),
                "default"@,
            ).map_values(to_default));
            assert(projects.deep_view() =~= children(
                all.take(i as int + 1),
                "project"@,
            ).map_values(to_project));
            i += 1;
        }
        assert(all.take(i as int) =~= all);
        let manifest = Manifest { remotes, defaults, projects };
        assert forall|index: int| 0 <= index < manifest@.projects.len() implies (
        #[trigger] manifest@.projects[index]).well_formed() by {
            assert(manifest@.projects[index] == manifest.projects[index]@);
        }
        Ok(manifest)
    }

    /// Reads the manifest from the bytes of its document. Elements and
    /// attributes that the manifest does not know are passed over; a project
    /// without `path`, `groups` or `revision` has them absent.
    pub fn from_xml(content: &[u8]) -> (loaded: Result<Manifest, RepoStatusError>)
        ensures
            is_manifest_of(xml_events(content@), loaded_view(loaded)),
            loaded matches Ok(manifest) ==> forall|index: int|
                0 <= index < manifest@.projects.len() ==> (
                #[trigger] manifest@.projects[index]).well_formed(),
    {
        let events = read_events(content);
        Manifest::from_events(&events)
    }
}

/// Picks the checkout paths out of the events of a manifest's document: the
/// effective path of every `project` element, or what is wrong with the
/// element, and the failure of the parser where it met one.
pub fn select_paths(events: &Vec<XmlItem>) -> (paths: Vec<Outcome>)
    ensures
        outcome_views(paths@) == project_paths(events.deep_view()),
{
    let ghost all = events.deep_view();
    let ghost pick = |item: XmlItemView| path_of(item);
    let project_tag = String::from_str("project");
    let mut paths: Vec<Outcome> = Vec::new();
    let mut i: usize = 0;
    assert(all.take(0) =~= Seq::empty());
    assert(outcome_views(paths@) =~= all.take(0).filter_map(pick));
    while i < events.len()
        invariant
            i <= events.len(),
            all == events.deep_view(),
            pick == |item: XmlItemView| path_of(item),
            project_tag@ == "project"@,
            outcome_views(paths@) == all.take(i as int).filter_map(pick),
        decreases events.len() - i,
    {
        let ghost before = outcome_views(paths@);
        proof {
            all.lemma_filter_map_take_succ(pick, i as int);
            assert(all[i as int] == events[i as int]@);
        }
        match &events[i] {
            XmlItem::Start { name, attributes } => {
                if *name == project_tag {
                    match Project::from_attributes(attributes) {
                        Ok(project) => {
                            let path = match project.path {
                                Some(path) => path,
                                None => project.name,
                            };
                            paths.push(Ok(path));
                            assert(outcome_views(paths@) =~= before + seq![
                                Ok::<Seq<char>, RepoStatusErrorView>(path@),
                            ]);
                        },
                        Err(failure) => {
                            paths.push(Err(failure));
                            assert(outcome_views(paths@) =~= before + seq![
                                Err::<Seq<char>, RepoStatusErrorView>(failure@),
                            ]);
                        },
                    }
                }
            },
            XmlItem::Failure { message } => {
                let failure = RepoStatusError::ManifestParseError { message: message.clone() };
                paths.push(Err(failure));
                assert(outcome_views(paths@) =~= before + seq![
                    Err::<Seq<char>, RepoStatusErrorView>(
                        RepoStatusErrorView::ManifestParseError { message: message@ },
                    ),
                ]);
            },
            _ => {},
        }
        i += 1;
    }
    assert(all.take(i as int) =~= all);
    paths
}

/// Lists the checkout paths of a manifest, from the bytes of its document.
pub fn get_projects(content: &[u8]) -> (paths: Vec<Outcome>)
    ensures
        outcome_views(paths@) == project_paths(xml_events(content@)),
{
    let events = read_events(content);
    select_paths(&events)
}

/// A document holds one manifest or one failure, and no two: what a load
/// hands back is determined by the events.
pub proof fn manifest_is_unique(
    events: Seq<XmlItemView>,
    first: Result<ManifestView, RepoStatusErrorView>,
    second: Result<ManifestView, RepoStatusErrorView>,
)
    requires
        is_manifest_of(events, first),
        is_manifest_of(events, second),
    ensures
        first == second,
{
    if first is Err {
        let at = choose|index: int|
            {
                &&& 0 <= index < events.len()
                &&& #[trigger] sound_before(events, index)
                &&& defect_at(events, index) matches Some(message)
                &&& first->Err_0 == (RepoStatusErrorView::ManifestParseError { message })
            };
        if second is Err {
            let other = choose|index: int|
                {
                    &&& 0 <= index < events.len()
                    &&& #[trigger] sound_before(events, index)
                    &&& defect_at(events, index) matches Some(message)
                    &&& second->Err_0 == (RepoStatusErrorView::ManifestParseError { message })
                };
            if at < other {
                assert(defect_at(events, at) is None);
            } else if other < at {
                assert(defect_at(events, other) is None);
            }
        } else {
            assert(defect_at(events, at) is None);
        }
    } else if second is Err {
        let other = choose|index: int|
            {
                &&& 0 <= index < events.len()
                &&& #[trigger] sound_before(events, index)
                &&& defect_at(events, index) matches Some(message)
                &&& second->Err_0 == (RepoStatusErrorView::ManifestParseError { message })
            };
        assert(defect_at(events, other) is None);
    }
}

/// The manifest lists its projects in the order of the document: a project
/// element that stands later in the document stands later in the list.
pub proof fn projects_keep_document_order(events: Seq<XmlItemView>, extra: XmlItemView)
    ensures
        children(events, "project"@).is_prefix_of(children(events.push(extra), "project"@)),
        children(events.push(extra), "project"@).len() <= children(events, "project"@).len() + 1,
{
    let longer = events.push(extra);
    assert(longer.drop_last() =~= events);
}

} // verus!
