//! The values that the tool accepts for the settings of a project, as its
//! published schema lists them, with a built-in list to fall back on.

use vstd::prelude::*;
use vstd::string::*;
use crate::error::{DdevError, DdevErrorView};
use crate::text::{concat, copy_strings, strings};

verus! {

/// `serde_json::Value`, a JSON value. The library looks into no such
/// value: it carries them and asks each one question, `json_string`.
#[verifier::external_type_specification]
#[verifier::external_body]
pub struct ExJsonValue(serde_json::Value);

/// What `serde_json::Value::as_str` answers for a JSON value: the text of
/// a value that is a string, and nothing for a value of any other kind.
pub uninterp spec fn json_string(value: serde_json::Value) -> Option<Seq<char>>;

/// `serde_json::Value::as_str`: the string that a JSON value holds, where
/// it holds one, copied into a `String`. The answer depends on the value
/// alone; the contract gives it the name `json_string` and says no more
/// of it.
#[verifier::external_body]
fn value_text(value: &serde_json::Value) -> (text: Option<String>)
    ensures
        text.deep_view() == json_string(*value),
{
    match value.as_str() {
        Some(s) => Some(s.to_string()),
        None => None,
    }
}

/// The values that the tool accepts, setting by setting.
#[derive(Clone, Debug, PartialEq, Eq)]
pub struct DdevSchema {
    pub php_versions: Vec<String>,
    pub project_types: Vec<String>,
    pub database_types: Vec<String>,
    pub webserver_types: Vec<String>,
    pub nodejs_versions: Vec<String>,
}

/// What a `DdevSchema` holds, with every text as a sequence of characters.
pub struct DdevSchemaView {
    pub php_versions: Seq<Seq<char>>,
    pub project_types: Seq<Seq<char>>,
    pub database_types: Seq<Seq<char>>,
    pub webserver_types: Seq<Seq<char>>,
    pub nodejs_versions: Seq<Seq<char>>,
}

impl View for DdevSchema {
    type V = DdevSchemaView;

    open spec fn view(&self) -> DdevSchemaView {
        DdevSchemaView {
            php_versions: self.php_versions.deep_view(),
            project_types: self.project_types.deep_view(),
            database_types: self.database_types.deep_view(),
            webserver_types: self.webserver_types.deep_view(),
            nodejs_versions: self.nodejs_versions.deep_view(),
        }
    }
}

/// One list of the published schema: the values of an enumeration, of
/// whatever JSON kind.
#[derive(Debug)]
pub struct EnumDef {
    pub values: Option<Vec<serde_json::Value>>,
}

/// The definitions of the published schema that the library reads.
#[derive(Debug)]
pub struct RawDefs {
    pub php_version: Option<EnumDef>,
    pub project_type: Option<EnumDef>,
    pub database_type: Option<EnumDef>,
    pub webserver_type: Option<EnumDef>,
    pub nodejs_version: Option<EnumDef>,
}

/// The published schema as far as the library reads it.
#[derive(Debug)]
pub struct RawSchema {
    pub defs: Option<RawDefs>,
}

/// The built-in values.
pub open spec fn fallback_schema() -> DdevSchemaView {
    DdevSchemaView {
        php_versions: seq![
            "5.6"@,
            "7.0"@,
            "7.1"@,
            "7.2"@,
            "7.3"@,
            "7.4"@,
            "8.0"@,
            "8.1"@,
            "8.2"@,
            "8.3"@,
            "8.4"@,
        ],
        project_types: seq![
            "backdrop"@,
            "craftcms"@,
            "drupal"@,
            "drupal6"@,
            "drupal7"@,
            "laravel"@,
            "magento"@,
            "magento2"@,
            "php"@,
            "shopware6"@,
            "silverstripe"@,
            "typo3"@,
            "wordpress"@,
        ],
        database_types: seq!["mariadb"@, "mysql"@, "postgres"@],
        webserver_types: seq!["nginx-fpm"@, "apache-fpm"@],
        nodejs_versions: seq!["16"@, "18"@, "20"@, "22"@],
    }
}

/// The texts that are present in a list, in order.
pub open spec fn present_texts(items: Seq<Option<Seq<char>>>) -> Seq<Seq<char>>
    decreases items.len(),
{
    if items.len() == 0 {
        Seq::empty()
    } else {
        match items.last() {
            Some(text) => present_texts(items.drop_last()).push(text),
            None => present_texts(items.drop_last()),
        }
    }
}

/// What each of a list of JSON values holds as a string.
pub open spec fn json_strings(values: Seq<serde_json::Value>) -> Seq<Option<Seq<char>>> {
    Seq::new(values.len(), |i: int| json_string(values[i]))
}

/// The strings of one list of the published schema: those of its values
/// that are JSON strings, in order; none where the list or its values are
/// missing.
pub open spec fn enum_strings(def: Option<EnumDef>) -> Seq<Seq<char>> {
    match def {
        Some(d) => match d.values {
            Some(values) => present_texts(json_strings(values@)),
            None => Seq::empty(),
        },
        None => Seq::empty(),
    }
}

/// The values that a published schema lists.
pub open spec fn schema_of(raw: RawSchema) -> DdevSchemaView {
    match raw.defs {
        Some(defs) => DdevSchemaView {
            php_versions: enum_strings(defs.php_version),
            project_types: enum_strings(defs.project_type),
            database_types: enum_strings(defs.database_type),
            webserver_types: enum_strings(defs.webserver_type),
            nodejs_versions: enum_strings(defs.nodejs_version),
        },
        None => DdevSchemaView {
            php_versions: Seq::empty(),
            project_types: Seq::empty(),
            database_types: Seq::empty(),
            webserver_types: Seq::empty(),
            nodejs_versions: Seq::empty(),
        },
    }
}

/// The texts that are present in `items`, in order.
pub fn keep_present(items: Vec<Option<String>>) -> (kept: Vec<String>)
    ensures
        kept.deep_view() == present_texts(items.deep_view()),
{
    let mut kept: Vec<String> = Vec::new();
    let mut i: usize = 0;
    assert(items.deep_view().take(0) =~= Seq::<Option<Seq<char>>>::empty());
    assert(kept.deep_view() =~= Seq::<Seq<char>>::empty());
    while i < items.len()
        invariant
            i <= items.len(),
            kept.deep_view() == present_texts(items.deep_view().take(i as int)),
        decreases items.len() - i,
    {
        let ghost before = kept.deep_view();
        let ghost seen = items.deep_view().take(i + 1);
        proof {
            assert(seen.drop_last() =~= items.deep_view().take(i as int));
            assert(seen.last() == items[i as int].deep_view());
        }
        match &items[i] {
            Some(text) => {
                kept.push(text.clone());
                assert(kept.deep_view() =~= before.push(text@));
            },
            None => {},
        }
        i = i + 1;
    }
    assert(items.deep_view().take(items.len() as int) =~= items.deep_view());
    kept
}

fn extract_strings(def: &Option<EnumDef>) -> (list: Vec<String>)
    ensures
        list.deep_view() == enum_strings(*def),
{
    match def {
        Some(d) => match &d.values {
            Some(values) => {
                let mut texts: Vec<Option<String>> = Vec::new();
                let mut i: usize = 0;
                while i < values.len()
                    invariant
                        i <= values.len(),
                        texts.len() == i,
                        forall|j: int|
                            0 <= j < i ==> texts[j].deep_view() == json_string(values[j]),
                    decreases values.len() - i,
                {
                    texts.push(value_text(&values[i]));
                    i = i + 1;
                }
                assert(texts.deep_view() =~= json_strings(values@));
                keep_present(texts)
            },
            None => no_strings(),
        },
        None => no_strings(),
    }
}

fn no_strings() -> (list: Vec<String>)
    ensures
        list.deep_view() == Seq::<Seq<char>>::empty(),
{
    let list: Vec<String> = Vec::new();
    assert(list.deep_view() =~= Seq::<Seq<char>>::empty());
    list
}

impl DdevSchema {
    /// The built-in values, for when the published schema cannot be had.
    pub fn fallback() -> (schema: DdevSchema)
        ensures
            schema@ == fallback_schema(),
    {
        let php_versions = strings(
            &["5.6", "7.0", "7.1", "7.2", "7.3", "7.4", "8.0", "8.1", "8.2", "8.3", "8.4"],
        );
        let project_types = strings(
            &[
                "backdrop",
                "craftcms",
                "drupal",
                "drupal6",
                "drupal7",
                "laravel",
                "magento",
                "magento2",
                "php",
                "shopware6",
                "silverstripe",
                "typo3",
                "wordpress",
            ],
        );
        let database_types = strings(&["mariadb", "mysql", "postgres"]);
        let webserver_types = strings(&["nginx-fpm", "apache-fpm"]);
        let nodejs_versions = strings(&["16", "18", "20", "22"]);
        assert(php_versions.deep_view() =~= fallback_schema().php_versions);
        assert(project_types.deep_view() =~= fallback_schema().project_types);
        assert(database_types.deep_view() =~= fallback_schema().database_types);
        assert(webserver_types.deep_view() =~= fallback_schema().webserver_types);
        assert(nodejs_versions.deep_view() =~= fallback_schema().nodejs_versions);
        DdevSchema {
            php_versions,
            project_types,
            database_types,
            webserver_types,
            nodejs_versions,
        }
    }

    /// The values that the published schema `raw` lists: of each list the
    /// values that are strings.
    pub fn from_raw(raw: &RawSchema) -> (schema: DdevSchema)
        ensures
            schema@ == schema_of(*raw),
    {
        match &raw.defs {
            Some(defs) => DdevSchema {
                php_versions: extract_strings(&defs.php_version),
                project_types: extract_strings(&defs.project_type),
                database_types: extract_strings(&defs.database_type),
                webserver_types: extract_strings(&defs.webserver_type),
                nodejs_versions: extract_strings(&defs.nodejs_version),
            },
            None => DdevSchema {
                php_versions: no_strings(),
                project_types: no_strings(),
                database_types: no_strings(),
                webserver_types: no_strings(),
                nodejs_versions: no_strings(),
            },
        }
    }

    /// Whether the schema holds what the interface cannot do without: a
    /// PHP version and a project type.
    pub fn is_valid(&self) -> (valid: bool)
        ensures
            valid == (self@.php_versions.len() > 0 && self@.project_types.len() > 0),
    {
        !self.php_versions.is_empty() && !self.project_types.is_empty()
    }

    /// A copy of this schema.
    pub fn duplicate(&self) -> (copy: DdevSchema)
        ensures
            copy@ == self@,
    {
        DdevSchema {
            php_versions: copy_strings(&self.php_versions),
            project_types: copy_strings(&self.project_types),
            database_types: copy_strings(&self.database_types),
            webserver_types: copy_strings(&self.webserver_types),
            nodejs_versions: copy_strings(&self.nodejs_versions),
        }
    }
}

/// Where the schema is published.
pub fn schema_url() -> (url: &'static str)
    ensures
        url@ == "https://raw.githubusercontent.com/ddev/ddev/master/pkg/ddevapp/schema.json"@,
{
    "https://raw.githubusercontent.com/ddev/ddev/master/pkg/ddevapp/schema.json"
}

/// The name of the file in which the schema is kept between runs.
pub fn schema_file_name() -> (name: &'static str)
    ensures
        name@ == "ddev-schema.json"@,
{
    "ddev-schema.json"
}

/// The name of the application's directory below the user's data
/// directory.
pub fn schema_dir_name() -> (name: &'static str)
    ensures
        name@ == "ddev-manager"@,
{
    "ddev-manager"
}

/// How old the kept schema is.
#[derive(Clone, Copy, Debug, PartialEq, Eq, Structural)]
pub enum CacheAge {
    /// There is no kept schema, or its age cannot be told.
    Unknown,
    /// The time since the file was last written. A file with a time in
    /// the future counts as having the longest age there is.
    Age { seconds: u64, nanos: u32 },
}

/// How many seconds a kept schema stays fresh: a day.
pub open spec fn schema_max_age() -> int {
    86400
}

/// Whether the kept schema is to be fetched anew: it is when it is older
/// than a day, and when its age is unknown.
pub fn is_schema_stale(age: CacheAge) -> (stale: bool)
    ensures
        stale == match age {
            CacheAge::Unknown => true,
            CacheAge::Age { seconds, nanos } => seconds > schema_max_age() || (seconds
                == schema_max_age() && nanos > 0),
        },
{
    match age {
        CacheAge::Unknown => true,
        CacheAge::Age { seconds, nanos } => seconds > 86400 || (seconds == 86400 && nanos > 0),
    }
}

/// What went wrong around the schema. Each holds the words of whoever
/// noticed.
#[derive(Debug)]
pub enum SchemaFailure {
    /// The user's data directory is not known.
    NoDataDir,
    /// The application's directory could not be made.
    CreateDir(String),
    /// The request could not be sent.
    Request(String),
    /// The server answered with a status that is no success.
    Status(String),
    /// The answer could not be read to its end.
    Body(String),
    /// The answer is not the expected JSON.
    Json(String),
    /// There is no kept schema.
    NoCache,
    /// The kept schema could not be read.
    ReadCache(String),
    /// The kept schema is not the expected JSON.
    CacheJson(String),
    /// The schema could not be turned into JSON.
    Serialize(String),
    /// The schema could not be written to its file.
    WriteCache(String),
}

/// The error that a failure around the schema is reported as.
pub open spec fn schema_error(failure: SchemaFailure) -> DdevErrorView {
    match failure {
        SchemaFailure::NoDataDir => DdevErrorView::IoError(
            "Could not determine app data directory"@,
        ),
        SchemaFailure::CreateDir(e) => DdevErrorView::IoError(
            "Failed to create app data directory: "@ + e@,
        ),
        SchemaFailure::Request(e) => DdevErrorView::CommandFailed(
            "Failed to fetch schema: "@ + e@,
        ),
        SchemaFailure::Status(s) => DdevErrorView::CommandFailed(
            "Failed to fetch schema: HTTP "@ + s@,
        ),
        SchemaFailure::Body(e) => DdevErrorView::CommandFailed(
            "Failed to read schema response: "@ + e@,
        ),
        SchemaFailure::Json(e) => DdevErrorView::ParseError("Failed to parse schema: "@ + e@),
        SchemaFailure::NoCache => DdevErrorView::IoError("Cached schema not found"@),
        SchemaFailure::ReadCache(e) => DdevErrorView::IoError(
            "Failed to read cached schema: "@ + e@,
        ),
        SchemaFailure::CacheJson(e) => DdevErrorView::ParseError(
            "Failed to parse cached schema: "@ + e@,
        ),
        SchemaFailure::Serialize(e) => DdevErrorView::ParseError(
            "Failed to serialize schema: "@ + e@,
        ),
        SchemaFailure::WriteCache(e) => DdevErrorView::IoError(
            "Failed to write schema cache: "@ + e@,
        ),
    }
}

/// The error that a failure around the schema is reported as.
pub fn schema_failure(failure: SchemaFailure) -> (error: DdevError)
    ensures
        error@ == schema_error(failure),
{
    match failure {
        SchemaFailure::NoDataDir => DdevError::IoError(
            String::from_str("Could not determine app data directory"),
        ),
        SchemaFailure::CreateDir(e) => DdevError::IoError(
            concat("Failed to create app data directory: ", e.as_str()),
        ),
        SchemaFailure::Request(e) => DdevError::CommandFailed(
            concat("Failed to fetch schema: ", e.as_str()),
        ),
        SchemaFailure::Status(s) => DdevError::CommandFailed(
            concat("Failed to fetch schema: HTTP ", s.as_str()),
        ),
        SchemaFailure::Body(e) => DdevError::CommandFailed(
            concat("Failed to read schema response: ", e.as_str()),
        ),
        SchemaFailure::Json(e) => DdevError::ParseError(
            concat("Failed to parse schema: ", e.as_str()),
        ),
        SchemaFailure::NoCache => DdevError::IoError(String::from_str("Cached schema not found")),
        SchemaFailure::ReadCache(e) => DdevError::IoError(
            concat("Failed to read cached schema: ", e.as_str()),
        ),
        SchemaFailure::CacheJson(e) => DdevError::ParseError(
            concat("Failed to parse cached schema: ", e.as_str()),
        ),
        SchemaFailure::Serialize(e) => DdevError::ParseError(
            concat("Failed to serialize schema: ", e.as_str()),
        ),
        SchemaFailure::WriteCache(e) => DdevError::IoError(
            concat("Failed to write schema cache: ", e.as_str()),
        ),
    }
}

/// What asking for the published schema gave.
#[derive(Debug)]
pub enum SchemaFetch {
    /// It could not be had.
    Failed(SchemaFailure),
    /// It was had and read as JSON.
    Fetched(RawSchema),
}

/// What `fetch_schema` returns.
pub open spec fn fetched_schema(fetch: SchemaFetch) -> Result<DdevSchemaView, DdevErrorView> {
    match fetch {
        SchemaFetch::Failed(failure) => Err(schema_error(failure)),
        SchemaFetch::Fetched(raw) => if schema_of(raw).php_versions.len() > 0 && schema_of(
            raw,
        ).project_types.len() > 0 {
            Ok(schema_of(raw))
        } else {
            Err(DdevErrorView::ParseError("Schema is missing required fields"@))
        },
    }
}

/// The view of a schema or the error in its place.
pub open spec fn schema_result_view(result: Result<DdevSchema, DdevError>) -> Result<
    DdevSchemaView,
    DdevErrorView,
> {
    match result {
        Ok(schema) => Ok(schema@),
        Err(e) => Err(e@),
    }
}

/// The schema that the published one gives, to be kept and used: its
/// lists, provided that it names a PHP version and a project type. A
/// schema without them is refused.
pub fn fetch_schema(fetch: SchemaFetch) -> (result: Result<DdevSchema, DdevError>)
    ensures
        schema_result_view(result) == fetched_schema(fetch),
{
    match fetch {
        SchemaFetch::Failed(failure) => Err(schema_failure(failure)),
        SchemaFetch::Fetched(raw) => {
            let schema = DdevSchema::from_raw(&raw);
            if schema.is_valid() {
                Ok(schema)
            } else {
                Err(DdevError::ParseError(String::from_str("Schema is missing required fields")))
            }
        },
    }
}

/// The schema to work with: the kept one where there is one; else the one
/// just fetched, where that worked; else the built-in one.
pub fn get_schema(cached: Option<DdevSchema>, fetched: Option<DdevSchema>) -> (schema: DdevSchema)
    ensures
        schema@ == match cached {
            Some(kept) => kept@,
            None => match fetched {
                Some(fresh) => fresh@,
                None => fallback_schema(),
            },
        },
{
    match cached {
        Some(kept) => kept,
        None => match fetched {
            Some(fresh) => fresh,
            None => DdevSchema::fallback(),
        },
    }
}

} // verus!
