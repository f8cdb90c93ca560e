//! The console path of a resource, found by its type in a table of templates.
//!
//! A template belongs to one resource type and gives the path of any
//! resource of that type from its physical id alone. The table is data: a
//! new type is one more entry, and the lookup does not change.

use vstd::prelude::*;
use crate::error::{Error, ErrorView};
use crate::resource::{Resource, ResourceView};

verus! {

/// The console path of the resources of one type: the physical id between a
/// fixed prefix and a fixed suffix.
#[derive(Debug, PartialEq, Eq)]
pub struct PathTemplate {
    /// The type whose resources the template is for.
    pub resource_type: String,
    /// What stands before the physical id.
    pub prefix: String,
    /// What stands after it.
    pub suffix: String,
}

/// A [`PathTemplate`] with its texts as character sequences.
pub struct TemplateView {
    pub resource_type: Seq<char>,
    pub prefix: Seq<char>,
    pub suffix: Seq<char>,
}

impl View for PathTemplate {
    type V = TemplateView;

    open spec fn view(&self) -> TemplateView {
        TemplateView {
            resource_type: self.resource_type@,
            prefix: self.prefix@,
            suffix: self.suffix@,
        }
    }
}

impl TemplateView {
    /// The path of the resource with this physical id.
    pub open spec fn rendered(self, physical_id: Seq<char>) -> Seq<char> {
        self.prefix + physical_id + self.suffix
    }
}

/// The templates that a table holds.
pub open spec fn template_views(table: Seq<PathTemplate>) -> Seq<TemplateView> {
    Seq::new(table.len(), |i: int| table[i]@)
}

/// The resource types with a console path, each with its template. A
/// function is known by its provider-qualified tag and by the short one.
pub open spec fn console_templates() -> Seq<TemplateView> {
    seq![
        TemplateView {
            resource_type: "AWS::Lambda::Function"@,
            prefix: "lambda/home#/functions/"@,
            suffix: "?tab=code"@,
        },
        TemplateView {
            resource_type: "Lambda::Function"@,
            prefix: "lambda/home#/functions/"@,
            suffix: "?tab=code"@,
        },
        TemplateView {
            resource_type: "AWS::S3::Bucket"@,
            prefix: "s3/buckets/"@,
            suffix: "?tab=objects"@,
        },
        TemplateView {
            resource_type: "AWS::DynamoDB::Table"@,
            prefix: "dynamodbv2/home#table?name="@,
            suffix: ""@,
        },
    ]
}

/// The first template of the table whose type is exactly `resource_type`.
pub open spec fn template_of(table: Seq<TemplateView>, resource_type: Seq<char>) -> Option<
    TemplateView,
>
    decreases table.len(),
{
    if table.len() == 0 {
        None
    } else if table[0].resource_type == resource_type {
        Some(table[0])
    } else {
        template_of(table.drop_first(), resource_type)
    }
}

/// The console path of a resource: its physical id in the template of its
/// type. A resource of a type without a template has none.
pub open spec fn console_path(resource: ResourceView) -> Option<Seq<char>> {
    match template_of(console_templates(), resource.resource_type) {
        Some(template) => Some(template.rendered(resource.physical_id)),
        None => None,
    }
}

/// The lookup finds the template at `i` where no template before it has the
/// type, and none where `i` is the end of the table.
pub proof fn lemma_template_of_first(table: Seq<TemplateView>, resource_type: Seq<char>, i: int)
    requires
        0 <= i <= table.len(),
        forall|j: int| 0 <= j < i ==> table[j].resource_type != resource_type,
        i < table.len() ==> table[i].resource_type == resource_type,
    ensures
        template_of(table, resource_type) == if i < table.len() {
            Some(table[i])
        } else {
            None
        },
    decreases table.len(),
{
    if table.len() > 0 && i > 0 {
        let rest = table.drop_first();
        assert forall|j: int| 0 <= j < i - 1 implies rest[j].resource_type != resource_type by {
            assert(rest[j] == table[j + 1]);
        }
        lemma_template_of_first(rest, resource_type, i - 1);
    }
}

/// No entry of the table hides another: each is found by its own type.
pub proof fn lemma_console_templates_distinct()
    ensures
        forall|i: int|
            0 <= i < console_templates().len() ==> template_of(
                console_templates(),
                #[trigger] console_templates()[i].resource_type,
            ) == Some(console_templates()[i]),
{
    let table = console_templates();
    reveal_strlit("AWS::Lambda::Function");
    reveal_strlit("Lambda::Function");
    reveal_strlit("AWS::S3::Bucket");
    reveal_strlit("AWS::DynamoDB::Table");
    assert(table[0].resource_type[5] == 'L');
    assert(table[1].resource_type[5] == 'a');
    assert(table[2].resource_type[5] == 'S');
    assert(table[3].resource_type[5] == 'D');
    assert forall|i: int| 0 <= i < table.len() implies template_of(
        table,
        #[trigger] table[i].resource_type,
    ) == Some(table[i]) by {
        lemma_template_of_first(table, table[i].resource_type, i);
    }
}

/// A resource of the type of the entry at `i` has the path that this entry
/// renders.
pub proof fn lemma_console_path_of_mapped(i: int, physical_id: Seq<char>)
    requires
        0 <= i < console_templates().len(),
    ensures
        console_path(
            ResourceView { physical_id, resource_type: console_templates()[i].resource_type },
        ) == Some(console_templates()[i].rendered(physical_id)),
{
    lemma_console_templates_distinct();
}

/// The type decides, and by equality alone: a resource has a console path
/// exactly where an entry of the table has its type.
pub proof fn lemma_console_path_exact(resource: ResourceView)
    ensures
        console_path(resource) is Some <==> exists|i: int|
            0 <= i < console_templates().len() && #[trigger] console_templates()[i].resource_type
                == resource.resource_type,
{
    lemma_template_of_some(console_templates(), resource.resource_type);
}

/// The lookup finds a template exactly where the table holds the type, and
/// what it finds has the type.
pub proof fn lemma_template_of_some(table: Seq<TemplateView>, resource_type: Seq<char>)
    ensures
        template_of(table, resource_type) is Some <==> exists|i: int|
            0 <= i < table.len() && #[trigger] table[i].resource_type == resource_type,
        template_of(table, resource_type) matches Some(template) ==> template.resource_type
            == resource_type,
    decreases table.len(),
{
    if table.len() > 0 {
        let rest = table.drop_first();
        lemma_template_of_some(rest, resource_type);
        if table[0].resource_type != resource_type {
            if template_of(rest, resource_type) is Some {
                let j = choose|j: int|
                    0 <= j < rest.len() && #[trigger] rest[j].resource_type == resource_type;
                assert(table[j + 1].resource_type == resource_type);
            }
            if exists|i: int|
                0 <= i < table.len() && #[trigger] table[i].resource_type == resource_type {
                let i = choose|i: int|
                    0 <= i < table.len() && #[trigger] table[i].resource_type == resource_type;
                assert(rest[i - 1].resource_type == resource_type);
            }
        }
    }
}

impl PathTemplate {
    /// The template of `resource_type` that puts the physical id between
    /// `prefix` and `suffix`.
    pub fn new(resource_type: &str, prefix: &str, suffix: &str) -> (template: PathTemplate)
        ensures
            template@ == (TemplateView {
                resource_type: resource_type@,
                prefix: prefix@,
                suffix: suffix@,
            }),
    {
        PathTemplate {
            resource_type: String::from_str(resource_type),
            prefix: String::from_str(prefix),
            suffix: String::from_str(suffix),
        }
    }

    /// The path of the resource with this physical id.
    pub fn render(&self, physical_id: &str) -> (path: String)
        ensures
            path@ == self@.rendered(physical_id@),
    {
        let mut path = self.prefix.clone();
        path.append(physical_id);
        path.append(self.suffix.as_str());
        path
    }
}

/// The table of templates.
pub fn templates() -> (table: Vec<PathTemplate>)
    ensures
        template_views(table@) == console_templates(),
{
    let table = vec![
        PathTemplate::new("AWS::Lambda::Function", "lambda/home#/functions/", "?tab=code"),
        PathTemplate::new("Lambda::Function", "lambda/home#/functions/", "?tab=code"),
        PathTemplate::new("AWS::S3::Bucket", "s3/buckets/", "?tab=objects"),
        PathTemplate::new("AWS::DynamoDB::Table", "dynamodbv2/home#table?name=", ""),
    ];
    assert(template_views(table@) =~= console_templates());
    table
}

/// Looks `resource_type` up in `table`, by exact equality and in the order of
/// the table.
pub fn find_template<'a>(table: &'a Vec<PathTemplate>, resource_type: &String) -> (found: Option<
    &'a PathTemplate,
>)
    ensures
        match template_of(template_views(table@), resource_type@) {
            Some(template) => found matches Some(entry) && entry@ == template,
            None => found is None,
        },
{
    let ghost views = template_views(table@);
    let mut i: usize = 0;
    while i < table.len()
        invariant
            i <= table.len(),
            views == template_views(table@),
            forall|j: int| 0 <= j < i ==> views[j].resource_type != resource_type@,
        decreases table.len() - i,
    {
        if table[i].resource_type == *resource_type {
            proof {
                lemma_template_of_first(views, resource_type@, i as int);
            }
            return Some(&table[i]);
        }
        i = i + 1;
    }
    proof {
        lemma_template_of_first(views, resource_type@, i as int);
    }
    None
}

impl Resource {
    /// The console path of this resource. The stack name plays no part in any
    /// template so far.
    ///
    /// Fails with [`Error::UnmappedResourceType`], which names the type, where
    /// the table has no template for it.
    pub fn to_console_url_path(&self, _stack_name: &str) -> (result: Result<String, Error>)
        ensures
            match console_path(self@) {
                Some(path) => result matches Ok(found) && found@ == path,
                None => result matches Err(error) && error@ == ErrorView::UnmappedResourceType(
                    self.resource_type@,
                ),
            },
    {
        let table = templates();
        match find_template(&table, &self.resource_type) {
            Some(template) => Ok(template.render(self.resource_physical_id.as_str())),
            None => Err(Error::UnmappedResourceType(self.resource_type.clone())),
        }
    }
}

} // verus!
