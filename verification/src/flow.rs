//! Flow definitions, the catalog that holds them, and the decisions a step
//! takes from plain values.

use vstd::prelude::*;
use crate::error::{text_result, DeployError, ErrorView};
use crate::template::{ArgValue, TemplateEvaluator};
use crate::text::{
    concat,
    file_name,
    join_path,
    joined_path,
    parent,
    parse_u64,
    parsed_u64,
    path_file_name,
    path_parent,
    same_text,
};

verus! {

/// One input that a flow declares. The engine does not enforce it.
#[derive(Debug)]
pub struct FlowParameter {
    pub name: String,
    pub label: String,
    /// The kind of input, as the user interface understands it.
    pub param_type: String,
    pub required: bool,
    pub multiple: bool,
}

/// One unit of work in a flow.
#[derive(Debug)]
pub struct FlowStepDefinition {
    /// The tag that names the kind of step.
    pub step_type: String,
    pub name: String,
    /// A command template; the step is skipped when the command succeeds.
    pub condition: Option<String>,
    pub command: Option<String>,
    pub package: Option<String>,
    pub source_file_param_name: Option<String>,
    pub source_file: Option<String>,
    pub target_dir: Option<String>,
    pub target_file: Option<String>,
}

/// A named, ordered sequence of steps.
#[derive(Debug)]
pub struct FlowDefinition {
    pub local: bool,
    pub name: String,
    pub description: String,
    pub icon: String,
    pub parameters: Vec<FlowParameter>,
    pub steps: Vec<FlowStepDefinition>,
}

/// The kinds of step.
#[derive(Debug, Clone, Copy, PartialEq, Eq, Structural)]
pub enum StepKind {
    RunCommand,
    DownloadPackage,
    TransferPackage,
    TransferConfigFile,
    TransferFile,
    DecompressionOfflinePackage,
    /// A tag that names none of the kinds.
    Unknown,
}

/// The kind that a tag names.
pub open spec fn kind_of(tag: Seq<char>) -> StepKind {
    if tag == "decompressionOfflinePackage"@ {
        StepKind::DecompressionOfflinePackage
    } else if tag == "runCommand"@ {
        StepKind::RunCommand
    } else if tag == "downloadPackage"@ {
        StepKind::DownloadPackage
    } else if tag == "transferPackage"@ {
        StepKind::TransferPackage
    } else if tag == "transferConfigFile"@ {
        StepKind::TransferConfigFile
    } else if tag == "transferFile"@ {
        StepKind::TransferFile
    } else {
        StepKind::Unknown
    }
}

impl FlowStepDefinition {
    /// The kind of this step.
    pub fn kind(&self) -> (kind: StepKind)
        ensures
            kind == kind_of(self.step_type@),
    {
        let tag = self.step_type.as_str();
        if same_text(tag, "decompressionOfflinePackage") {
            StepKind::DecompressionOfflinePackage
        } else if same_text(tag, "runCommand") {
            StepKind::RunCommand
        } else if same_text(tag, "downloadPackage") {
            StepKind::DownloadPackage
        } else if same_text(tag, "transferPackage") {
            StepKind::TransferPackage
        } else if same_text(tag, "transferConfigFile") {
            StepKind::TransferConfigFile
        } else if same_text(tag, "transferFile") {
            StepKind::TransferFile
        } else {
            StepKind::Unknown
        }
    }
}

/// The position of the first flow named `name`, or the number of flows where
/// none has that name.
pub open spec fn position_of(flows: Seq<FlowDefinition>, name: Seq<char>) -> int
    decreases flows.len(),
{
    if flows.len() == 0 || flows[0].name@ == name {
        0
    } else {
        1 + position_of(flows.skip(1), name)
    }
}

/// The flows known to an engine, in the order they were loaded.
#[derive(Debug)]
pub struct FlowContainer {
    pub flows: Vec<FlowDefinition>,
}

impl FlowContainer {
    pub fn new(flows: Vec<FlowDefinition>) -> (container: Self)
        ensures
            container.flows == flows,
    {
        Self { flows }
    }

    /// The first flow named `name`, if there is one.
    pub fn get_flow(&self, name: &str) -> (flow: Option<&FlowDefinition>)
        ensures
            0 <= position_of(self.flows@, name@) <= self.flows@.len(),
            match flow {
                Some(found) => {
                    &&& position_of(self.flows@, name@) < self.flows@.len()
                    &&& *found == self.flows@[position_of(self.flows@, name@)]
                    &&& found.name@ == name@
                },
                None => {
                    &&& position_of(self.flows@, name@) == self.flows@.len()
                    &&& forall|i: int| 0 <= i < self.flows@.len() ==> (#[trigger] self.flows@[i]).name@ != name@
                },
            },
    {
        let mut index: usize = 0;
        proof {
            assert(self.flows@.skip(0) == self.flows@);
        }
        while index < self.flows.len()
            invariant
                index <= self.flows.len(),
                position_of(self.flows@, name@) == index + position_of(self.flows@.skip(index as int), name@),
                forall|i: int| 0 <= i < index ==> (#[trigger] self.flows@[i]).name@ != name@,
            decreases self.flows.len() - index,
        {
            proof {
                let rest = self.flows@.skip(index as int);
                assert(rest[0] == self.flows@[index as int]);
                assert(rest.skip(1) == self.flows@.skip(index + 1));
            }
            if same_text(self.flows[index].name.as_str(), name) {
                return Some(&self.flows[index]);
            }
            index += 1;
        }
        proof {
            assert(self.flows@.skip(index as int).len() == 0);
        }
        None
    }

    /// All flows, in the order they were loaded.
    pub fn get_all_flows(&self) -> (flows: &[FlowDefinition])
        ensures
            flows@ == self.flows@,
    {
        self.flows.as_slice()
    }
}

/// A remote path as the directory and the file name a transfer takes.
#[derive(Debug)]
pub struct RemoteTarget {
    pub dir: String,
    pub filename: String,
}

/// An optional text by its characters.
pub open spec fn optional_text(text: Option<&str>) -> Option<Seq<char>> {
    match text {
        Some(t) => Some(t@),
        None => None,
    }
}

/// Where a source file goes on the remote side: to the target file where the
/// step names one; else into the target directory under the source's own file
/// name; else to the source's own path.
pub open spec fn target_file_for(
    target_dir: Option<Seq<char>>,
    target_file: Option<Seq<char>>,
    source_file: Seq<char>,
) -> Result<Seq<char>, ErrorView> {
    match target_file {
        Some(file) => Ok(file),
        None => match target_dir {
            Some(dir) => match path_file_name(source_file) {
                Some(name) => Ok(joined_path(dir, name)),
                None => Err(ErrorView::InvalidFilename(source_file)),
            },
            None => Ok(source_file),
        },
    }
}

/// The command that asks the remote side for the size of a file.
pub open spec fn size_probe(target_file: Seq<char>) -> Seq<char> {
    "du "@ + target_file + " | tr -s ' ' | cut -d ' ' -f 1"@
}

/// The number of kilobytes that the answer to a size probe reports: the number
/// it consists of, and zero where the probe failed or its answer is no number.
pub open spec fn reported_kilobytes(answer: Option<Seq<char>>) -> u64 {
    match answer {
        Some(text) => match parsed_u64(text) {
            Some(number) => number,
            None => 0,
        },
        None => 0,
    }
}

/// Whether a package of `local_size` bytes is transferred when the remote side
/// reports `remote_kilobytes`: always below five megabytes, and above only
/// where the sizes differ by more than one megabyte.
pub open spec fn needs_transfer(local_size: int, remote_kilobytes: int) -> bool {
    ||| local_size < 5 * 1000000
    ||| remote_kilobytes * 1000 - local_size > 1000000
    ||| local_size - remote_kilobytes * 1000 > 1000000
}

/// The texts among the items of a list.
pub open spec fn texts_in(items: Seq<ArgValue>) -> Seq<Seq<char>>
    decreases items.len(),
{
    if items.len() == 0 {
        Seq::empty()
    } else if let ArgValue::Text(text) = items.last() {
        texts_in(items.drop_last()).push(text@)
    } else {
        texts_in(items.drop_last())
    }
}

/// The source files that an argument names: the one of a text, the texts of a
/// list, and none for any other value.
pub open spec fn sources_in(value: ArgValue) -> Option<Seq<Seq<char>>> {
    match value {
        ArgValue::Text(text) => Some(seq![text@]),
        ArgValue::List(items) => Some(texts_in(items@)),
        _ => None,
    }
}

/// Texts by their characters.
pub open spec fn views_of(texts: Seq<String>) -> Seq<Seq<char>> {
    texts.map_values(|text: String| text@)
}

/// `ByteSize::kb`: the number of bytes in `count` kilobytes of 1000 bytes.
#[verifier::external_body]
fn kilobytes(count: u64) -> (bytes: u64)
    requires
        count * 1000 <= u64::MAX,
    ensures
        bytes == count * 1000,
{
    bytesize::ByteSize::kb(count).as_u64()
}

/// `ByteSize::mb`: the number of bytes in `count` megabytes of 1000000 bytes.
#[verifier::external_body]
fn megabytes(count: u64) -> (bytes: u64)
    requires
        count * 1000000 <= u64::MAX,
    ensures
        bytes == count * 1000000,
{
    bytesize::ByteSize::mb(count).as_u64()
}

/// Splits a remote path into the directory and the file name a transfer
/// takes; [`DeployError::InvalidPath`] where it lacks either.
pub fn split_target(path: &str) -> (result: Result<RemoteTarget, DeployError>)
    ensures
        match result {
            Ok(target) => {
                &&& path_file_name(path@) == Some(target.filename@)
                &&& path_parent(path@) == Some(target.dir@)
            },
            Err(error) => {
                &&& error@ == ErrorView::InvalidPath
                &&& path_file_name(path@) is None || path_parent(path@) is None
            },
        },
{
    match file_name(path) {
        Some(filename) => match parent(path) {
            Some(dir) => Ok(RemoteTarget { dir, filename }),
            None => Err(DeployError::InvalidPath),
        },
        None => Err(DeployError::InvalidPath),
    }
}

/// The command that asks the remote side for the size of `target_file`.
pub fn size_probe_command(target_file: &str) -> (command: String)
    ensures
        command@ == size_probe(target_file@),
{
    let mut command = concat("du ", target_file);
    command.append(" | tr -s ' ' | cut -d ' ' -f 1");
    command
}

/// The number of kilobytes in the answer to a size probe; `None` stands for a
/// probe that failed.
pub fn remote_kilobytes(answer: Option<&str>) -> (kilobytes: u64)
    ensures
        kilobytes == reported_kilobytes(optional_text(answer)),
{
    match answer {
        Some(text) => match parse_u64(text) {
            Some(number) => number,
            None => 0,
        },
        None => 0,
    }
}

/// Whether a package of `local_size` bytes is transferred when the remote
/// side reports a file of `remote_kilobytes` kilobytes.
pub fn should_transfer(local_size: u64, remote_kilobytes: u64) -> (transfer: bool)
    ensures
        transfer == needs_transfer(local_size as int, remote_kilobytes as int),
{
    if local_size < megabytes(5) {
        return true;
    }
    let tolerance = megabytes(1);
    if remote_kilobytes <= u64::MAX / 1000 {
        let remote_size = kilobytes(remote_kilobytes);
        if remote_size >= local_size {
            remote_size - local_size > tolerance
        } else {
            local_size - remote_size > tolerance
        }
    } else {
        (remote_kilobytes as u128) * 1000 - (local_size as u128) > tolerance as u128
    }
}

/// The source files that the argument `value` of the parameter `param_name`
/// names; [`DeployError::FlowExecutionFailed`] where it is neither a text nor
/// a list.
pub fn source_files(param_name: &str, value: &ArgValue) -> (result: Result<Vec<String>, DeployError>)
    ensures
        match result {
            Ok(sources) => sources_in(*value) == Some(views_of(sources@)),
            Err(error) => {
                &&& sources_in(*value) is None
                &&& error@ == ErrorView::FlowExecutionFailed(
                    "Invalid value type for parameter "@ + param_name@,
                )
            },
        },
{
    match value {
        ArgValue::Text(text) => {
            let mut sources: Vec<String> = Vec::new();
            sources.push(text.clone());
            proof {
                assert(views_of(sources@) =~= seq![text@]);
            }
            Ok(sources)
        },
        ArgValue::List(items) => {
            let mut sources: Vec<String> = Vec::new();
            let mut index: usize = 0;
            proof {
                assert(views_of(sources@) =~= texts_in(items@.take(0)));
            }
            while index < items.len()
                invariant
                    index <= items.len(),
                    views_of(sources@) == texts_in(items@.take(index as int)),
                decreases items.len() - index,
            {
                proof {
                    let head = items@.take(index + 1);
                    assert(head.drop_last() == items@.take(index as int));
                    assert(head.last() == items@[index as int]);
                }
                if let ArgValue::Text(text) = &items[index] {
                    let ghost before = sources@;
                    sources.push(text.clone());
                    proof {
                        assert(views_of(sources@) =~= views_of(before).push(text@));
                    }
                }
                index += 1;
            }
            proof {
                assert(items@.take(index as int) == items@);
            }
            Ok(sources)
        },
        _ => Err(DeployError::FlowExecutionFailed(concat("Invalid value type for parameter ", param_name))),
    }
}

/// Runs flows.
#[derive(Debug)]
pub struct FlowEngine {
    pub container: FlowContainer,
    pub template_evaluator: TemplateEvaluator,
}

impl FlowEngine {
    pub fn new(container: FlowContainer) -> (engine: Self)
        ensures
            engine.container == container,
    {
        Self { container, template_evaluator: TemplateEvaluator }
    }

    /// All flows, in the order they were loaded.
    pub fn list_flows(&self) -> (flows: &[FlowDefinition])
        ensures
            flows@ == self.container.flows@,
    {
        self.container.get_all_flows()
    }

    /// Where `source_file` goes on the remote side: to `target_file` where
    /// there is one; else into `target_dir` under its own file name, or
    /// [`DeployError::InvalidFilename`] where it has none; else to its own
    /// path.
    pub fn construct_target_file(
        &self,
        target_dir: Option<&str>,
        target_file: Option<&str>,
        source_file: &str,
    ) -> (result: Result<String, DeployError>)
        ensures
            text_result(result) == target_file_for(
                optional_text(target_dir),
                optional_text(target_file),
                source_file@,
            ),
    {
        if let Some(file) = target_file {
            return Ok(file.to_owned());
        }
        if let Some(dir) = target_dir {
            match file_name(source_file) {
                Some(name) => Ok(join_path(dir, name.as_str())),
                None => Err(DeployError::InvalidFilename(source_file.to_owned())),
            }
        } else {
            Ok(source_file.to_owned())
        }
    }
}

} // verus!
