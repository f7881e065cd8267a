//! What templates are rendered against, and what a rendering comes to.

use vstd::prelude::*;
use crate::error::DeployError;
use crate::hospital_settings::HospitalSettings;
use crate::text::same_text;

verus! {

/// A value a caller passes to a flow: any JSON value.
#[derive(Debug)]
pub enum ArgValue {
    Null,
    Bool(bool),
    Number(serde_json::Number),
    Text(String),
    List(Vec<ArgValue>),
    Record(Vec<(String, ArgValue)>),
}

/// The entry that a key stands for in a list of entries: the last one under
/// that key.
pub open spec fn lookup(entries: Seq<(String, ArgValue)>, key: Seq<char>) -> Option<ArgValue>
    decreases entries.len(),
{
    if entries.len() == 0 {
        None
    } else if entries.last().0@ == key {
        Some(entries.last().1)
    } else {
        lookup(entries.drop_last(), key)
    }
}

/// The arguments of a flow run, by name.
#[derive(Debug)]
pub struct FlowArgs {
    pub entries: Vec<(String, ArgValue)>,
}

impl FlowArgs {
    pub fn new() -> (args: Self)
        ensures
            args.entries@.len() == 0,
    {
        FlowArgs { entries: Vec::new() }
    }

    /// Binds `key` to `value`, in place of what it was bound to.
    pub fn insert(&mut self, key: String, value: ArgValue)
        ensures
            final(self).entries@ == old(self).entries@.push((key, value)),
            lookup(final(self).entries@, key@) == Some(value),
            forall|other: Seq<char>| other != key@ ==> lookup(final(self).entries@, other) == lookup(
                old(self).entries@,
                other,
            ),
    {
        self.entries.push((key, value));
        proof {
            let after = self.entries@;
            assert(after.drop_last() == old(self).entries@);
        }
    }

    /// The value bound to `key`, if there is one.
    pub fn get(&self, key: &str) -> (value: Option<&ArgValue>)
        ensures
            match value {
                Some(found) => lookup(self.entries@, key@) == Some(*found),
                None => lookup(self.entries@, key@) is None,
            },
    {
        let mut index: usize = self.entries.len();
        proof {
            assert(self.entries@.take(index as int) == self.entries@);
        }
        while index > 0
            invariant
                index <= self.entries.len(),
                lookup(self.entries@, key@) == lookup(self.entries@.take(index as int), key@),
            decreases index,
        {
            index -= 1;
            proof {
                let head = self.entries@.take(index + 1);
                assert(head.drop_last() == self.entries@.take(index as int));
                assert(head.last() == self.entries@[index as int]);
            }
            if same_text(self.entries[index].0.as_str(), key) {
                return Some(&self.entries[index].1);
            }
        }
        proof {
            assert(self.entries@.take(0).len() == 0);
        }
        None
    }
}

/// What templates are rendered against during one flow run.
#[derive(Debug)]
pub struct TemplateContext {
    /// The remote operating system, in lower case.
    pub os: String,
    /// The settings of the site.
    pub settings: HospitalSettings,
    /// The caller's arguments.
    pub args: FlowArgs,
}

/// Whether `entry` binds `key` to the text `value`.
pub open spec fn binds_text(entry: (String, ArgValue), key: Seq<char>, value: Seq<char>) -> bool {
    &&& entry.0@ == key
    &&& entry.1 matches ArgValue::Text(text) && text@ == value
}

fn text_entry(key: &str, value: &String) -> (entry: (String, ArgValue))
    ensures
        binds_text(entry, key@, value@),
{
    (key.to_owned(), ArgValue::Text(value.clone()))
}

impl HospitalSettings {
    /// The names and values under which templates find the settings.
    pub fn bindings(&self) -> (entries: Vec<(String, ArgValue)>)
        ensures
            entries@.len() == 10,
            binds_text(entries@[0], "id"@, self.id@),
            binds_text(entries@[1], "name"@, self.name@),
            binds_text(entries@[2], "mainServerIp"@, self.main_server_ip@),
            binds_text(entries@[3], "databaseServerIp"@, self.database_server_ip@),
            binds_text(entries@[4], "redisServerIp"@, self.redis_server_ip@),
            binds_text(entries@[5], "minioServerIp"@, self.minio_server_ip@),
            binds_text(entries@[6], "reportServerIp"@, self.report_server_ip@),
            binds_text(entries@[7], "filePreviewServerIp"@, self.file_preview_server_ip@),
            binds_text(entries@[8], "dashboardServerIp"@, self.dashboard_server_ip@),
            binds_text(entries@[9], "bigScreenServerIp"@, self.big_screen_server_ip@),
    {
        let mut entries: Vec<(String, ArgValue)> = Vec::new();
        entries.push(text_entry("id", &self.id));
        entries.push(text_entry("name", &self.name));
        entries.push(text_entry("mainServerIp", &self.main_server_ip));
        entries.push(text_entry("databaseServerIp", &self.database_server_ip));
        entries.push(text_entry("redisServerIp", &self.redis_server_ip));
        entries.push(text_entry("minioServerIp", &self.minio_server_ip));
        entries.push(text_entry("reportServerIp", &self.report_server_ip));
        entries.push(text_entry("filePreviewServerIp", &self.file_preview_server_ip));
        entries.push(text_entry("dashboardServerIp", &self.dashboard_server_ip));
        entries.push(text_entry("bigScreenServerIp", &self.big_screen_server_ip));
        entries
    }
}

/// Turns what the template engine answers into the outcome of a rendering.
#[derive(Debug)]
pub struct TemplateEvaluator;

impl TemplateEvaluator {
    /// What a rendering comes to once the template engine has answered: the
    /// text it rendered, or a [`DeployError::TemplateError`] that carries the
    /// engine's failure.
    pub fn rendered(outcome: Result<String, tera::Error>) -> (result: Result<String, DeployError>)
        ensures
            match outcome {
                Ok(text) => result == Ok::<String, DeployError>(text),
                Err(cause) => result == Err::<String, DeployError>(DeployError::TemplateError(cause)),
            },
    {
        match outcome {
            Ok(text) => Ok(text),
            Err(cause) => Err(DeployError::TemplateError(cause)),
        }
    }
}

} // verus!
