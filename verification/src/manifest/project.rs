//! One project of a manifest and the report on its checkout.

use vstd::prelude::*;

use crate::error::{RepoStatusError, RepoStatusErrorView};
use crate::markup::{attribute_value, find_attribute, Attribute, AttributeView};
use crate::report::{
    is_status_report, render_status, shown, tab_separator, ChangeRecord, ChangeRecordView,
};

verus! {

/// One entry of the manifest.
#[derive(Clone, Debug, PartialEq, Eq)]
pub struct Project {
    pub name: String,
    pub path: Option<String>,
    pub groups: Option<String>,
    pub revision: Option<String>,
}

/// A `Project` as a mathematical value.
pub struct ProjectView {
    pub name: Seq<char>,
    pub path: Option<Seq<char>>,
    pub groups: Option<Seq<char>>,
    pub revision: Option<Seq<char>>,
}

impl View for Project {
    type V = ProjectView;

    open spec fn view(&self) -> ProjectView {
        ProjectView {
            name: self.name@,
            path: self.path.deep_view(),
            groups: self.groups.deep_view(),
            revision: self.revision.deep_view(),
        }
    }
}

impl DeepView for Project {
    type V = ProjectView;

    open spec fn deep_view(&self) -> ProjectView {
        self@
    }
}

impl ProjectView {
    /// Where the project is checked out, relative to the root: its path where
    /// it has one, else its name.
    pub open spec fn effective_path(self) -> Seq<char> {
        match self.path {
            Some(path) => path,
            None => self.name,
        }
    }

    /// The project is checked out somewhere: its effective path is not empty.
    pub open spec fn well_formed(self) -> bool {
        self.effective_path().len() > 0
    }
}

/// What is said of an element that lacks an attribute it must have.
pub open spec fn missing_attribute(element: Seq<char>, attribute: Seq<char>) -> Seq<char> {
    "missing attribute `"@ + attribute + "` in element `"@ + element + "`"@
}

/// What is said of a project without a place for its checkout.
pub open spec fn empty_path() -> Seq<char> {
    "project with an empty path"@
}

/// What is wrong with a `project` element that has these attributes, if
/// anything: it has no name, or its effective path is empty.
pub open spec fn project_defect(attributes: Seq<AttributeView>) -> Option<Seq<char>> {
    if attribute_value(attributes, "name"@) is None {
        Some(missing_attribute("project"@, "name"@))
    } else if !project_of(attributes).well_formed() {
        Some(empty_path())
    } else {
        None
    }
}

/// The project that a `project` element with these attributes stands for.
/// An attribute that is not there is absent in the project too.
pub open spec fn project_of(attributes: Seq<AttributeView>) -> ProjectView {
    ProjectView {
        name: attribute_value(attributes, "name"@).unwrap(),
        path: attribute_value(attributes, "path"@),
        groups: attribute_value(attributes, "groups"@),
        revision: attribute_value(attributes, "revision"@),
    }
}

/// The value of an attribute that an element must have, or the failure that
/// says which one it lacks.
pub fn required_attribute(attributes: &Vec<Attribute>, element: &str, name: &str) -> (value:
    Result<String, RepoStatusError>)
    ensures
        match attribute_value(attributes.deep_view(), name@) {
            Some(text) => value matches Ok(found) && found@ == text,
            None => value matches Err(failure) && failure@
                == (RepoStatusErrorView::ManifestParseError {
                message: missing_attribute(element@, name@),
            }),
        },
{
    match find_attribute(attributes, name) {
        Some(found) => Ok(found),
        None => {
            let message = String::from_str("missing attribute `").concat(name).concat(
                "` in element `",
            ).concat(element).concat("`");
            assert(message@ =~= missing_attribute(element@, name@));
            Err(RepoStatusError::ManifestParseError { message })
        },
    }
}

impl Project {
    /// Reads a project from the attributes of a `project` element.
    pub fn from_attributes(attributes: &Vec<Attribute>) -> (project: Result<
        Project,
        RepoStatusError,
    >)
        ensures
            match project_defect(attributes.deep_view()) {
                Some(message) => project matches Err(failure) && failure@
                    == (RepoStatusErrorView::ManifestParseError { message }),
                None => project matches Ok(read) && read@ == project_of(attributes.deep_view())
                    && read@.well_formed(),
            },
    {
        let name = match required_attribute(attributes, "project", "name") {
            Ok(name) => name,
            Err(failure) => {
                return Err(failure);
            },
        };
        let project = Project {
            name,
            path: find_attribute(attributes, "path"),
            groups: find_attribute(attributes, "groups"),
            revision: find_attribute(attributes, "revision"),
        };
        assert(project@ == project_of(attributes.deep_view()));
        if project.effective_path().is_empty() {
            Err(
                RepoStatusError::ManifestParseError {
                    message: String::from_str("project with an empty path"),
                },
            )
        } else {
            Ok(project)
        }
    }

    /// Where the project is checked out, relative to the root.
    pub fn effective_path(&self) -> (path: &str)
        ensures
            path@ == self@.effective_path(),
    {
        match &self.path {
            Some(path) => path.as_str(),
            None => self.name.as_str(),
        }
    }

    /// Reports on the records of the project's checkout. The report is empty
    /// where no record is changed on either side; else it is the header
    /// `project <effective path>/`, the path in bold, and one line per changed
    /// record: a space, the flag code, two tabs and the record's path, green
    /// where the change is fully staged and red where it is not.
    pub fn get_status(self, records: Vec<ChangeRecord>) -> (out: String)
        ensures
            is_status_report(
                self@.effective_path(),
                records.deep_view(),
                tab_separator(),
                out@,
            ),
            out@.len() == 0 <==> shown(records.deep_view()).len() == 0,
    {
        render_status(self.effective_path(), &records, "\t\t")
    }
}

/// An attribute that an element does not have is absent, not empty: the
/// lookup finds no value for it.
pub proof fn absent_attribute_has_no_value(attributes: Seq<AttributeView>, name: Seq<char>)
    requires
        forall|index: int| 0 <= index < attributes.len() ==> (#[trigger] attributes[index]).name != name,
    ensures
        attribute_value(attributes, name) is None,
{
    attributes.lemma_all_neg_filter_empty(|attribute: AttributeView| attribute.name == name);
}

/// A `project` element that has a name and none of `path`, `groups`,
/// `revision` is read without a defect, and the project has the three absent.
pub proof fn optional_attributes_stay_absent(attributes: Seq<AttributeView>)
    requires
        attribute_value(attributes, "name"@) matches Some(name) && name.len() > 0,
        forall|index: int|
            0 <= index < attributes.len() ==> {
                &&& (#[trigger] attributes[index]).name != "path"@
                &&& attributes[index].name != "groups"@
                &&& attributes[index].name != "revision"@
            },
    ensures
        project_defect(attributes) is None,
        project_of(attributes).path is None,
        project_of(attributes).groups is None,
        project_of(attributes).revision is None,
        project_of(attributes).effective_path() == project_of(attributes).name,
{
    absent_attribute_has_no_value(attributes, "path"@);
    absent_attribute_has_no_value(attributes, "groups"@);
    absent_attribute_has_no_value(attributes, "revision"@);
}

/// A project that has no path of its own is reported as the bare path that
/// is its name: the two reports obey the same contract.
pub proof fn project_by_name_reports_as_its_name(
    project: ProjectView,
    records: Seq<ChangeRecordView>,
    out: Seq<char>,
)
    requires
        project.path is None,
    ensures
        is_status_report(project.effective_path(), records, tab_separator(), out)
            <==> is_status_report(project.name, records, tab_separator(), out),
{
}

} // verus!
