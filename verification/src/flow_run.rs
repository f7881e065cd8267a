//! One run of a flow, as a conversation: the run asks for one thing at a time
//! and continues from the answer.
//!
//! [`FlowEngine::run_flow`] starts a run and gives its first [`Request`]. The
//! caller carries the request out, hands the [`Reply`] to
//! [`FlowRun::advance`], and goes on with the request that comes back, until
//! it is [`Request::Finished`]. The steps are taken in order, each at most
//! once, and the first failure ends the run.
//!
//! Rendering a template is one of the things a run asks for: the request
//! carries the template and the bindings to render it against, and the run
//! uses the text of the reply as it is.

use vstd::prelude::*;
use crate::bindings::{bound_values, context_model, JsonModel};
use crate::error::{unit_result, DeployError, ErrorView};
use crate::flow::{
    kind_of,
    needs_transfer,
    remote_kilobytes,
    reported_kilobytes,
    should_transfer,
    size_probe,
    size_probe_command,
    source_files,
    sources_in,
    split_target,
    target_file_for,
    views_of,
    FlowDefinition,
    FlowEngine,
    FlowStepDefinition,
    StepKind,
};
use crate::hospital_settings::HospitalSettings;
use crate::package_resolver::{base_remote_package_url, RemoteServerPackageResolver};
use crate::template::{lookup, ArgValue, FlowArgs, TemplateContext};
use crate::text::{concat, join_path, joined_path, lowercased, path_file_name, path_parent, to_lowercase};

verus! {

/// What a run asks its caller to do next.
#[derive(Debug)]
pub enum Request {
    /// Run a command on the remote host and reply with its output.
    Execute { command: String },
    /// Run a command on the remote host and pass its output on as it arrives.
    ExecuteStream { command: String },
    /// Run a command on the remote host and reply whether it succeeded.
    TestCommand { command: String },
    /// Tell the observer that the step at `index` begins.
    ReportStep { index: usize },
    /// Render `template` against `bindings` and reply with the text.
    Render { template: String, bindings: tera::Context },
    /// Reply whether a local path exists.
    PathExists { path: String },
    /// Reply with the size of a local file.
    FileSize { path: String },
    /// Reply with the bytes of a local file.
    ReadFile { path: String },
    /// Reply with the text of a local file.
    ReadText { path: String },
    /// Fetch `url` into the local file `target_file`.
    Download { url: String, target_file: String },
    /// Write `data` to the file `filename` in the remote directory `dir`.
    Transfer { dir: String, filename: String, data: Vec<u8> },
    /// Unpack the local archive `archive` into `target_dir`.
    Decompress { archive: String, target_dir: String },
    /// Nothing: the run is over, with this outcome.
    Finished(Result<(), DeployError>),
}

/// A [`Request`] with its contents as sequences.
pub enum RequestView {
    Execute { command: Seq<char> },
    ExecuteStream { command: Seq<char> },
    TestCommand { command: Seq<char> },
    ReportStep { index: usize },
    Render { template: Seq<char>, bound: Map<Seq<char>, JsonModel> },
    PathExists { path: Seq<char> },
    FileSize { path: Seq<char> },
    ReadFile { path: Seq<char> },
    ReadText { path: Seq<char> },
    Download { url: Seq<char>, target_file: Seq<char> },
    Transfer { dir: Seq<char>, filename: Seq<char>, data: Seq<u8> },
    Decompress { archive: Seq<char>, target_dir: Seq<char> },
    Finished(Result<(), ErrorView>),
}

impl View for Request {
    type V = RequestView;

    open spec fn view(&self) -> RequestView {
        match self {
            Request::Execute { command } => RequestView::Execute { command: command@ },
            Request::ExecuteStream { command } => RequestView::ExecuteStream { command: command@ },
            Request::TestCommand { command } => RequestView::TestCommand { command: command@ },
            Request::ReportStep { index } => RequestView::ReportStep { index: *index },
            Request::Render { template, bindings } => RequestView::Render {
                template: template@,
                bound: bound_values(*bindings),
            },
            Request::PathExists { path } => RequestView::PathExists { path: path@ },
            Request::FileSize { path } => RequestView::FileSize { path: path@ },
            Request::ReadFile { path } => RequestView::ReadFile { path: path@ },
            Request::ReadText { path } => RequestView::ReadText { path: path@ },
            Request::Download { url, target_file } => RequestView::Download {
                url: url@,
                target_file: target_file@,
            },
            Request::Transfer { dir, filename, data } => RequestView::Transfer {
                dir: dir@,
                filename: filename@,
                data: data@,
            },
            Request::Decompress { archive, target_dir } => RequestView::Decompress {
                archive: archive@,
                target_dir: target_dir@,
            },
            Request::Finished(outcome) => RequestView::Finished(unit_result(*outcome)),
        }
    }
}

/// How a request turned out.
#[derive(Debug)]
pub enum Reply {
    /// It was carried out and there is nothing to tell.
    Done,
    /// Whether the command succeeded or the path exists.
    Flag(bool),
    /// The size of the file in bytes.
    Size(u64),
    /// The output of the command, the text of the file or the rendered text.
    Text(String),
    /// The bytes of the file.
    Bytes(Vec<u8>),
    /// It failed.
    Failed(DeployError),
}

/// Where a run stands: which reply it waits for, and what it keeps for then.
#[derive(Debug)]
pub enum Phase {
    /// Waits for the description of the remote operating system.
    OsProbe,
    /// Waits for the observer to have been told of the step.
    StepAnnounced,
    /// Waits for the step's condition to be rendered.
    RenderCondition,
    /// Waits for the outcome of the step's condition.
    Condition,
    /// Waits for the step's command to be rendered.
    RenderCommand,
    /// Waits for the step's last request to be done.
    Completion,
    /// Waits for the name of the file to download to be rendered.
    RenderDownloadTarget,
    /// Waits to learn whether the file to download is there already.
    DownloadCheck { target: String },
    /// Waits for the name of the package to download to be rendered.
    RenderDownloadPackage { target: String },
    /// Waits for the name of the package to transfer to be rendered.
    RenderPackage,
    /// Waits to learn whether the package to transfer is in the cache.
    PackageCheck { package: String, local_file: String },
    /// Waits for the remote path of the package to be rendered.
    RenderPackageTarget { local_file: String },
    /// Waits for the size of the package in the cache.
    PackageSize { local_file: String, target_file: String, dir: String, filename: String },
    /// Waits for the size of the package on the remote side.
    PackageProbe { local_file: String, dir: String, filename: String, total_size: u64 },
    /// Waits for the bytes of the package.
    PackageRead { dir: String, filename: String },
    /// Waits for the name of the configuration template to be rendered.
    RenderConfigSource,
    /// Waits to learn whether the configuration template is in the cache.
    ConfigCheck { source_file: String, local_file: String },
    /// Waits for the text of the configuration template.
    ConfigRead,
    /// Waits for the configuration template to be rendered.
    RenderConfigContent,
    /// Waits for the remote path of the configuration file to be rendered.
    RenderConfigTarget { content: String },
    /// Waits for the bytes of the source file at `index`.
    FileRead { sources: Vec<String>, index: usize, target_file: String },
    /// Waits for the source file at `index` to have been transferred.
    FileSent { sources: Vec<String>, index: usize },
    /// The run is over.
    Finished,
}

/// What a run works on.
#[derive(Debug)]
pub struct Job<'a> {
    /// The engine that renders the templates.
    pub engine: &'a FlowEngine,
    /// The flow to run, if the engine knows one by the name asked for.
    pub flow: Option<&'a FlowDefinition>,
    /// What templates are rendered against.
    pub context: TemplateContext,
    /// The local directory that packages are kept in, if there is one.
    pub cache_dir: Option<String>,
}

/// One run of a flow.
#[derive(Debug)]
pub struct FlowRun<'a> {
    pub job: Job<'a>,
    /// The index of the step the run is at.
    pub cursor: usize,
    pub phase: Phase,
}

/// The command whose output describes the remote operating system.
pub open spec fn os_probe() -> Seq<char> {
    "cat /etc/os-release | grep PRETTY_NAME | cut -d '=' -f 2 | tr -d '\"'"@
}

/// The step at `index` of the job's flow.
pub open spec fn step_at(job: Job, index: int) -> Option<FlowStepDefinition> {
    match job.flow {
        Some(flow) => if 0 <= index < flow.steps@.len() {
            Some(flow.steps@[index])
        } else {
            None
        },
        None => None,
    }
}

/// A run's failure to go on.
pub open spec fn flow_failure(detail: Seq<char>) -> Result<(), ErrorView> {
    Err(ErrorView::FlowExecutionFailed(detail))
}

/// The failure of a run without a directory to keep packages in.
pub open spec fn no_cache_dir() -> Result<(), ErrorView> {
    Err(ErrorView::Io("Cache directory not found"@))
}

/// The run is over with `outcome`.
pub open spec fn ends(job: Job, cursor: usize, post: FlowRun, request: Request, outcome: Result<(), ErrorView>) -> bool {
    &&& post.job == job
    &&& post.cursor == cursor
    &&& post.phase is Finished
    &&& request@ == RequestView::Finished(outcome)
}

/// The run stays at its step and asks for `template` to be rendered against
/// the job's context.
pub open spec fn renders(job: Job, cursor: usize, post: FlowRun, request: Request, template: Seq<char>) -> bool {
    &&& post.job == job
    &&& post.cursor == cursor
    &&& request@ == RequestView::Render { template, bound: context_model(job.context) }
}

/// The run is over because the reply does not answer the request.
pub open spec fn ends_on_reply(job: Job, cursor: usize, post: FlowRun, request: Request) -> bool {
    ends(job, cursor, post, request, flow_failure("Unexpected reply"@))
}

/// The run turns to the step at `index`: it announces the step, or is over
/// with success where the flow has no such step.
pub open spec fn begins_step(job: Job, index: int, post: FlowRun, request: Request) -> bool {
    &&& post.job == job
    &&& post.cursor == index
    &&& if step_at(job, index) is Some {
        &&& post.phase is StepAnnounced
        &&& request@ == RequestView::ReportStep { index: index as usize }
    } else {
        &&& post.phase is Finished
        &&& request@ == RequestView::Finished(Ok(()))
    }
}

/// The run stays at its step and waits for the step's last request to be done.
pub open spec fn completes(job: Job, cursor: usize, post: FlowRun) -> bool {
    &&& post.job == job
    &&& post.cursor == cursor
    &&& post.phase is Completion
}

/// The run goes on with the source file at `index` of a file transfer: it
/// asks for the file's bytes, or turns to the next step after the last file.
pub open spec fn continues_files(
    job: Job,
    cursor: usize,
    sources: Seq<String>,
    index: int,
    post: FlowRun,
    request: Request,
) -> bool {
    if 0 <= index < sources.len() {
        match step_at(job, cursor as int) {
            Some(step) => match target_file_for(
                optional_view(step.target_dir),
                optional_view(step.target_file),
                sources[index]@,
            ) {
                Ok(target) => {
                    &&& post.job == job
                    &&& post.cursor == cursor
                    &&& post.phase matches Phase::FileRead { sources: kept, index: at, target_file }
                    &&& kept@ == sources
                    &&& at == index
                    &&& target_file@ == target
                    &&& request@ == RequestView::ReadFile { path: sources[index]@ }
                },
                Err(error) => ends(job, cursor, post, request, Err(error)),
            },
            None => ends(job, cursor, post, request, Ok(())),
        }
    } else {
        begins_step(job, cursor + 1, post, request)
    }
}

/// An optional text by its characters.
pub open spec fn optional_view(text: Option<String>) -> Option<Seq<char>> {
    match text {
        Some(t) => Some(t@),
        None => None,
    }
}

/// What `text` holds, encoded as UTF-8.
pub open spec fn utf8_of(text: Seq<char>) -> Seq<u8> {
    vstd::utf8::encode_utf8(text)
}

/// The step under the cursor is carried out as far as its first request, or
/// the run is over where the step cannot be carried out.
pub open spec fn dispatches(job: Job, cursor: usize, post: FlowRun, request: Request) -> bool {
    match step_at(job, cursor as int) {
        None => ends(job, cursor, post, request, Ok(())),
        Some(step) => match kind_of(step.step_type@) {
            StepKind::DecompressionOfflinePackage => match lookup(
                job.context.args.entries@,
                "offline_package"@,
            ) {
                None => ends(job, cursor, post, request, flow_failure("No offline package specified"@)),
                Some(ArgValue::Text(archive)) => match job.cache_dir {
                    None => ends(job, cursor, post, request, no_cache_dir()),
                    Some(dir) => {
                        &&& completes(job, cursor, post)
                        &&& request@ == RequestView::Decompress { archive: archive@, target_dir: dir@ }
                    },
                },
                Some(_) => ends(job, cursor, post, request, flow_failure("Invalid offline package type"@)),
            },
            StepKind::RunCommand => match step.command {
                None => ends(
                    job,
                    cursor,
                    post,
                    request,
                    flow_failure("No command specified for step "@ + step.name@),
                ),
                Some(command) => renders(job, cursor, post, request, command@) && post.phase is RenderCommand,
            },
            StepKind::DownloadPackage => match job.cache_dir {
                None => ends(job, cursor, post, request, no_cache_dir()),
                Some(_) => match step.target_file {
                    None => ends(job, cursor, post, request, flow_failure("No target file specified"@)),
                    Some(target_file) => renders(job, cursor, post, request, target_file@) && post.phase
                        is RenderDownloadTarget,
                },
            },
            StepKind::TransferPackage => match step.package {
                None => ends(
                    job,
                    cursor,
                    post,
                    request,
                    flow_failure("No package specified for step "@ + step.name@),
                ),
                Some(package) => match step.target_file {
                    None => ends(
                        job,
                        cursor,
                        post,
                        request,
                        flow_failure("No target file specified for step "@ + step.name@),
                    ),
                    Some(_) => match job.cache_dir {
                        None => ends(job, cursor, post, request, no_cache_dir()),
                        Some(_) => renders(job, cursor, post, request, package@) && post.phase is RenderPackage,
                    },
                },
            },
            StepKind::TransferConfigFile => match step.source_file {
                None => ends(
                    job,
                    cursor,
                    post,
                    request,
                    flow_failure("No source file specified for step "@ + step.name@),
                ),
                Some(source_file) => match step.target_file {
                    None => ends(
                        job,
                        cursor,
                        post,
                        request,
                        flow_failure("No target file specified for step "@ + step.name@),
                    ),
                    Some(_) => match job.cache_dir {
                        None => ends(job, cursor, post, request, no_cache_dir()),
                        Some(_) => renders(job, cursor, post, request, source_file@) && post.phase
                            is RenderConfigSource,
                    },
                },
            },
            StepKind::TransferFile => match step.source_file_param_name {
                None => begins_step(job, cursor + 1, post, request),
                Some(param) => match lookup(job.context.args.entries@, param@) {
                    None => begins_step(job, cursor + 1, post, request),
                    Some(value) => match sources_in(value) {
                        None => ends(
                            job,
                            cursor,
                            post,
                            request,
                            flow_failure("Invalid value type for parameter "@ + param@),
                        ),
                        Some(names) => exists|sources: Seq<String>| #[trigger] views_of(sources) == names
                            && continues_files(job, cursor, sources, 0, post, request),
                    },
                },
            },
            StepKind::Unknown => ends(
                job,
                cursor,
                post,
                request,
                flow_failure("Unsupported step type: "@ + step.step_type@),
            ),
        },
    }
}

/// Whether `path` has both a directory and a file name.
pub open spec fn splits(path: Seq<char>) -> bool {
    path_file_name(path) is Some && path_parent(path) is Some
}

/// What follows a reply other than the one awaited: a failure ends the run
/// with that failure, and anything else ends it as unexpected.
pub open spec fn unanswered(job: Job, cursor: usize, reply: Reply, post: FlowRun, request: Request) -> bool {
    match reply {
        Reply::Failed(error) => ends(job, cursor, post, request, Err(error@)),
        _ => ends_on_reply(job, cursor, post, request),
    }
}

/// What follows the description of the remote operating system: the
/// templates' `os` is its lower case, and the run turns to the first step.
pub open spec fn after_os_probe(job: Job, cursor: usize, reply: Reply, post: FlowRun, request: Request) -> bool {
    match reply {
        Reply::Text(description) => {
            &&& post.job.engine == job.engine
            &&& post.job.flow == job.flow
            &&& post.job.cache_dir == job.cache_dir
            &&& post.job.context.settings == job.context.settings
            &&& post.job.context.args == job.context.args
            &&& post.job.context.os@ == lowercased(description@)
            &&& begins_step(post.job, 0, post, request)
        },
        _ => unanswered(job, cursor, reply, post, request),
    }
}

/// What follows the announcement of a step: its condition is rendered where
/// it has one, and it is carried out where it has none.
pub open spec fn after_announcement(
    job: Job,
    cursor: usize,
    step: FlowStepDefinition,
    reply: Reply,
    post: FlowRun,
    request: Request,
) -> bool {
    match reply {
        Reply::Done => match step.condition {
            Some(condition) => renders(job, cursor, post, request, condition@) && post.phase is RenderCondition,
            None => dispatches(job, cursor, post, request),
        },
        _ => unanswered(job, cursor, reply, post, request),
    }
}

/// What follows the rendering of a step's condition: the rendered command is
/// tested on the remote host.
pub open spec fn after_condition_rendered(
    job: Job,
    cursor: usize,
    reply: Reply,
    post: FlowRun,
    request: Request,
) -> bool {
    match reply {
        Reply::Text(command) => {
            &&& post.job == job
            &&& post.cursor == cursor
            &&& post.phase is Condition
            &&& request@ == RequestView::TestCommand { command: command@ }
        },
        _ => unanswered(job, cursor, reply, post, request),
    }
}

/// What follows the test of a step's condition: the step is skipped where the
/// condition holds and carried out where it does not.
pub open spec fn after_condition(job: Job, cursor: usize, reply: Reply, post: FlowRun, request: Request) -> bool {
    match reply {
        Reply::Flag(holds) => if holds {
            begins_step(job, cursor + 1, post, request)
        } else {
            dispatches(job, cursor, post, request)
        },
        _ => unanswered(job, cursor, reply, post, request),
    }
}

/// What follows the rendering of a step's command: the rendered command is
/// run on the remote host.
pub open spec fn after_command_rendered(
    job: Job,
    cursor: usize,
    reply: Reply,
    post: FlowRun,
    request: Request,
) -> bool {
    match reply {
        Reply::Text(command) => {
            &&& completes(job, cursor, post)
            &&& request@ == RequestView::ExecuteStream { command: command@ }
        },
        _ => unanswered(job, cursor, reply, post, request),
    }
}

/// What follows a step's last request: the next step.
pub open spec fn after_completion(job: Job, cursor: usize, reply: Reply, post: FlowRun, request: Request) -> bool {
    match reply {
        Reply::Done => begins_step(job, cursor + 1, post, request),
        _ => unanswered(job, cursor, reply, post, request),
    }
}

/// What follows the rendering of the name of a file to download: the run asks
/// whether the file of that name is in the cache already.
pub open spec fn after_download_target_rendered(
    job: Job,
    cursor: usize,
    reply: Reply,
    post: FlowRun,
    request: Request,
) -> bool {
    match reply {
        Reply::Text(name) => match job.cache_dir {
            Some(dir) => {
                &&& post.job == job
                &&& post.cursor == cursor
                &&& post.phase matches Phase::DownloadCheck { target }
                &&& target@ == joined_path(dir@, name@)
                &&& request@ == RequestView::PathExists { path: joined_path(dir@, name@) }
            },
            None => ends(job, cursor, post, request, no_cache_dir()),
        },
        _ => unanswered(job, cursor, reply, post, request),
    }
}

/// What follows the look for a file to download: nothing is fetched where it
/// exists, and the name of the step's package is rendered where it does not.
pub open spec fn after_download_check(
    job: Job,
    cursor: usize,
    step: FlowStepDefinition,
    target: Seq<char>,
    reply: Reply,
    post: FlowRun,
    request: Request,
) -> bool {
    match reply {
        Reply::Flag(exists) => if exists {
            begins_step(job, cursor + 1, post, request)
        } else {
            match step.package {
                None => ends(job, cursor, post, request, flow_failure("No package specified"@)),
                Some(package) => {
                    &&& renders(job, cursor, post, request, package@)
                    &&& post.phase matches Phase::RenderDownloadPackage { target: kept }
                    &&& kept@ == target
                },
            }
        },
        _ => unanswered(job, cursor, reply, post, request),
    }
}

/// What follows the rendering of the name of a package to download: the
/// package of that name is fetched from the package server into `target`.
pub open spec fn after_download_package_rendered(
    job: Job,
    cursor: usize,
    target: Seq<char>,
    reply: Reply,
    post: FlowRun,
    request: Request,
) -> bool {
    match reply {
        Reply::Text(package) => {
            &&& completes(job, cursor, post)
            &&& request@ == RequestView::Download {
                url: base_remote_package_url() + package@,
                target_file: target,
            }
        },
        _ => unanswered(job, cursor, reply, post, request),
    }
}

/// What follows the rendering of the name of a package to transfer: the run
/// asks whether the package of that name is in the cache.
pub open spec fn after_package_rendered(
    job: Job,
    cursor: usize,
    reply: Reply,
    post: FlowRun,
    request: Request,
) -> bool {
    match reply {
        Reply::Text(name) => match job.cache_dir {
            Some(dir) => {
                &&& post.job == job
                &&& post.cursor == cursor
                &&& post.phase matches Phase::PackageCheck { package, local_file }
                &&& package@ == name@
                &&& local_file@ == joined_path(dir@, name@)
                &&& request@ == RequestView::PathExists { path: joined_path(dir@, name@) }
            },
            None => ends(job, cursor, post, request, no_cache_dir()),
        },
        _ => unanswered(job, cursor, reply, post, request),
    }
}

/// What follows the look for a package to transfer: the run fails where the
/// package is missing, and has its remote path rendered where it is there.
pub open spec fn after_package_check(
    job: Job,
    cursor: usize,
    step: FlowStepDefinition,
    package: Seq<char>,
    local_file: Seq<char>,
    reply: Reply,
    post: FlowRun,
    request: Request,
) -> bool {
    match reply {
        Reply::Flag(exists) => if exists {
            match step.target_file {
                None => ends(
                    job,
                    cursor,
                    post,
                    request,
                    flow_failure("No target file specified for step "@ + step.name@),
                ),
                Some(target_file) => {
                    &&& renders(job, cursor, post, request, target_file@)
                    &&& post.phase matches Phase::RenderPackageTarget { local_file: kept }
                    &&& kept@ == local_file
                },
            }
        } else {
            ends(job, cursor, post, request, flow_failure("Package not found: "@ + package))
        },
        _ => unanswered(job, cursor, reply, post, request),
    }
}

/// What follows the rendering of the remote path of a package: the run asks
/// for the size of the package in the cache, or is over with
/// [`DeployError::InvalidPath`] where the path cannot be split.
pub open spec fn after_package_target_rendered(
    job: Job,
    cursor: usize,
    local: Seq<char>,
    reply: Reply,
    post: FlowRun,
    request: Request,
) -> bool {
    match reply {
        Reply::Text(target) => if splits(target@) {
            &&& post.job == job
            &&& post.cursor == cursor
            &&& post.phase matches Phase::PackageSize { local_file, target_file, dir, filename }
            &&& local_file@ == local
            &&& target_file@ == target@
            &&& path_parent(target@) == Some(dir@)
            &&& path_file_name(target@) == Some(filename@)
            &&& request@ == RequestView::FileSize { path: local }
        } else {
            ends(job, cursor, post, request, Err(ErrorView::InvalidPath))
        },
        _ => unanswered(job, cursor, reply, post, request),
    }
}

/// What follows the size of a package in the cache: the run asks the remote
/// side for the size of the file there.
pub open spec fn after_package_size(
    job: Job,
    cursor: usize,
    local: Seq<char>,
    target: Seq<char>,
    remote_dir: Seq<char>,
    name: Seq<char>,
    reply: Reply,
    post: FlowRun,
    request: Request,
) -> bool {
    match reply {
        Reply::Size(size) => {
            &&& post.job == job
            &&& post.cursor == cursor
            &&& post.phase matches Phase::PackageProbe { local_file, dir, filename, total_size }
            &&& local_file@ == local
            &&& dir@ == remote_dir
            &&& filename@ == name
            &&& total_size == size
            &&& request@ == RequestView::Execute { command: size_probe(target) }
        },
        _ => unanswered(job, cursor, reply, post, request),
    }
}

/// The run asks for the bytes of a package, or turns to the next step where
/// the package is taken as deployed.
pub open spec fn decides_transfer(
    job: Job,
    cursor: usize,
    local: Seq<char>,
    remote_dir: Seq<char>,
    name: Seq<char>,
    total_size: u64,
    answer: Option<Seq<char>>,
    post: FlowRun,
    request: Request,
) -> bool {
    if needs_transfer(total_size as int, reported_kilobytes(answer) as int) {
        &&& post.job == job
        &&& post.cursor == cursor
        &&& post.phase matches Phase::PackageRead { dir, filename }
        &&& dir@ == remote_dir
        &&& filename@ == name
        &&& request@ == RequestView::ReadFile { path: local }
    } else {
        begins_step(job, cursor + 1, post, request)
    }
}

/// What follows the remote side's answer to the size probe, a failure of the
/// probe counting as no answer.
pub open spec fn after_package_probe(
    job: Job,
    cursor: usize,
    local: Seq<char>,
    remote_dir: Seq<char>,
    name: Seq<char>,
    total_size: u64,
    reply: Reply,
    post: FlowRun,
    request: Request,
) -> bool {
    match reply {
        Reply::Text(answer) => decides_transfer(
            job,
            cursor,
            local,
            remote_dir,
            name,
            total_size,
            Some(answer@),
            post,
            request,
        ),
        Reply::Failed(_) => decides_transfer(
            job,
            cursor,
            local,
            remote_dir,
            name,
            total_size,
            None,
            post,
            request,
        ),
        _ => ends_on_reply(job, cursor, post, request),
    }
}

/// What follows the bytes of a package: their transfer.
pub open spec fn after_package_read(
    job: Job,
    cursor: usize,
    remote_dir: Seq<char>,
    name: Seq<char>,
    reply: Reply,
    post: FlowRun,
    request: Request,
) -> bool {
    match reply {
        Reply::Bytes(bytes) => {
            &&& completes(job, cursor, post)
            &&& request@ == RequestView::Transfer { dir: remote_dir, filename: name, data: bytes@ }
        },
        _ => unanswered(job, cursor, reply, post, request),
    }
}

/// What follows the rendering of the name of a configuration template: the
/// run asks whether the template of that name is in the cache.
pub open spec fn after_config_source_rendered(
    job: Job,
    cursor: usize,
    reply: Reply,
    post: FlowRun,
    request: Request,
) -> bool {
    match reply {
        Reply::Text(name) => match job.cache_dir {
            Some(dir) => {
                &&& post.job == job
                &&& post.cursor == cursor
                &&& post.phase matches Phase::ConfigCheck { source_file, local_file }
                &&& source_file@ == name@
                &&& local_file@ == joined_path(dir@, name@)
                &&& request@ == RequestView::PathExists { path: joined_path(dir@, name@) }
            },
            None => ends(job, cursor, post, request, no_cache_dir()),
        },
        _ => unanswered(job, cursor, reply, post, request),
    }
}

/// What follows the look for a configuration template: the run fails where
/// the template is missing, and asks for its text where it is there.
pub open spec fn after_config_check(
    job: Job,
    cursor: usize,
    source: Seq<char>,
    local: Seq<char>,
    reply: Reply,
    post: FlowRun,
    request: Request,
) -> bool {
    match reply {
        Reply::Flag(exists) => if exists {
            &&& post.job == job
            &&& post.cursor == cursor
            &&& post.phase is ConfigRead
            &&& request@ == RequestView::ReadText { path: local }
        } else {
            ends(job, cursor, post, request, flow_failure("Source config file not found: "@ + source))
        },
        _ => unanswered(job, cursor, reply, post, request),
    }
}

/// What follows the text of a configuration template: its rendering.
pub open spec fn after_config_read(job: Job, cursor: usize, reply: Reply, post: FlowRun, request: Request) -> bool {
    match reply {
        Reply::Text(template) => renders(job, cursor, post, request, template@) && post.phase
            is RenderConfigContent,
        _ => unanswered(job, cursor, reply, post, request),
    }
}

/// What follows the rendering of a configuration template: the rendered text
/// is kept and the remote path of the file is rendered.
pub open spec fn after_config_content_rendered(
    job: Job,
    cursor: usize,
    step: FlowStepDefinition,
    reply: Reply,
    post: FlowRun,
    request: Request,
) -> bool {
    match reply {
        Reply::Text(rendered) => match step.target_file {
            None => ends(
                job,
                cursor,
                post,
                request,
                flow_failure("No target file specified for step "@ + step.name@),
            ),
            Some(target_file) => {
                &&& renders(job, cursor, post, request, target_file@)
                &&& post.phase matches Phase::RenderConfigTarget { content }
                &&& content@ == rendered@
            },
        },
        _ => unanswered(job, cursor, reply, post, request),
    }
}

/// What follows the rendering of the remote path of a configuration file: the
/// rendered content is transferred there as it is, or the run is over with
/// [`DeployError::InvalidPath`] where the path cannot be split.
pub open spec fn after_config_target_rendered(
    job: Job,
    cursor: usize,
    content: Seq<char>,
    reply: Reply,
    post: FlowRun,
    request: Request,
) -> bool {
    match reply {
        Reply::Text(target) => if splits(target@) {
            &&& completes(job, cursor, post)
            &&& request@ matches RequestView::Transfer { dir, filename, data }
            &&& path_parent(target@) == Some(dir)
            &&& path_file_name(target@) == Some(filename)
            &&& data == utf8_of(content)
        } else {
            ends(job, cursor, post, request, Err(ErrorView::InvalidPath))
        },
        _ => unanswered(job, cursor, reply, post, request),
    }
}

/// What follows the bytes of a source file: their transfer to the file's
/// remote path, or the end of the run where that path cannot be split.
pub open spec fn after_file_read(
    job: Job,
    cursor: usize,
    sources: Seq<String>,
    index: usize,
    target: Seq<char>,
    reply: Reply,
    post: FlowRun,
    request: Request,
) -> bool {
    match reply {
        Reply::Bytes(bytes) => if splits(target) {
            &&& post.job == job
            &&& post.cursor == cursor
            &&& post.phase matches Phase::FileSent { sources: kept, index: at }
            &&& kept@ == sources
            &&& at == index
            &&& request@ matches RequestView::Transfer { dir, filename, data }
            &&& path_parent(target) == Some(dir)
            &&& path_file_name(target) == Some(filename)
            &&& data == bytes@
        } else {
            ends(job, cursor, post, request, Err(ErrorView::InvalidPath))
        },
        _ => unanswered(job, cursor, reply, post, request),
    }
}

/// What follows the transfer of a source file: the next source file.
pub open spec fn after_file_sent(
    job: Job,
    cursor: usize,
    sources: Seq<String>,
    index: usize,
    reply: Reply,
    post: FlowRun,
    request: Request,
) -> bool {
    match reply {
        Reply::Done => continues_files(job, cursor, sources, index + 1, post, request),
        _ => unanswered(job, cursor, reply, post, request),
    }
}

/// What follows a reply in the middle of a step.
pub open spec fn after_reply(
    job: Job,
    cursor: usize,
    step: FlowStepDefinition,
    phase: Phase,
    reply: Reply,
    post: FlowRun,
    request: Request,
) -> bool {
    match phase {
        Phase::StepAnnounced => after_announcement(job, cursor, step, reply, post, request),
        Phase::RenderCondition => after_condition_rendered(job, cursor, reply, post, request),
        Phase::Condition => after_condition(job, cursor, reply, post, request),
        Phase::RenderCommand => after_command_rendered(job, cursor, reply, post, request),
        Phase::Completion => after_completion(job, cursor, reply, post, request),
        Phase::RenderDownloadTarget => after_download_target_rendered(job, cursor, reply, post, request),
        Phase::DownloadCheck { target } => after_download_check(
            job,
            cursor,
            step,
            target@,
            reply,
            post,
            request,
        ),
        Phase::RenderDownloadPackage { target } => after_download_package_rendered(
            job,
            cursor,
            target@,
            reply,
            post,
            request,
        ),
        Phase::RenderPackage => after_package_rendered(job, cursor, reply, post, request),
        Phase::PackageCheck { package, local_file } => after_package_check(
            job,
            cursor,
            step,
            package@,
            local_file@,
            reply,
            post,
            request,
        ),
        Phase::RenderPackageTarget { local_file } => after_package_target_rendered(
            job,
            cursor,
            local_file@,
            reply,
            post,
            request,
        ),
        Phase::PackageSize { local_file, target_file, dir, filename } => after_package_size(
            job,
            cursor,
            local_file@,
            target_file@,
            dir@,
            filename@,
            reply,
            post,
            request,
        ),
        Phase::PackageProbe { local_file, dir, filename, total_size } => after_package_probe(
            job,
            cursor,
            local_file@,
            dir@,
            filename@,
            total_size,
            reply,
            post,
            request,
        ),
        Phase::PackageRead { dir, filename } => after_package_read(
            job,
            cursor,
            dir@,
            filename@,
            reply,
            post,
            request,
        ),
        Phase::RenderConfigSource => after_config_source_rendered(job, cursor, reply, post, request),
        Phase::ConfigCheck { source_file, local_file } => after_config_check(
            job,
            cursor,
            source_file@,
            local_file@,
            reply,
            post,
            request,
        ),
        Phase::ConfigRead => after_config_read(job, cursor, reply, post, request),
        Phase::RenderConfigContent => after_config_content_rendered(job, cursor, step, reply, post, request),
        Phase::RenderConfigTarget { content } => after_config_target_rendered(
            job,
            cursor,
            content@,
            reply,
            post,
            request,
        ),
        Phase::FileRead { sources, index, target_file } => after_file_read(
            job,
            cursor,
            sources@,
            index,
            target_file@,
            reply,
            post,
            request,
        ),
        Phase::FileSent { sources, index } => after_file_sent(
            job,
            cursor,
            sources@,
            index,
            reply,
            post,
            request,
        ),
        Phase::OsProbe => after_os_probe(job, cursor, reply, post, request),
        Phase::Finished => ends(job, cursor, post, request, flow_failure("The flow run is over"@)),
    }
}

/// What one call of [`FlowRun::advance`] does: `post` and `request` are a run
/// and the request it makes after the run `pre` has taken in `reply`.
pub open spec fn follows(pre: FlowRun, reply: Reply, post: FlowRun, request: Request) -> bool {
    match pre.phase {
        Phase::OsProbe => after_os_probe(pre.job, pre.cursor, reply, post, request),
        Phase::Finished => ends(
            pre.job,
            pre.cursor,
            post,
            request,
            flow_failure("The flow run is over"@),
        ),
        _ => match step_at(pre.job, pre.cursor as int) {
            Some(step) => after_reply(pre.job, pre.cursor, step, pre.phase, reply, post, request),
            None => ends(pre.job, pre.cursor, post, request, Ok(())),
        },
    }
}

/// The request that ends a run with `error`.
fn failed(error: DeployError) -> (request: Request)
    ensures
        request@ == RequestView::Finished(Err(error@)),
{
    Request::Finished(Err(error))
}

/// The request that ends a run that cannot go on.
fn flow_failed(detail: String) -> (request: Request)
    ensures
        request@ == RequestView::Finished(flow_failure(detail@)),
{
    Request::Finished(Err(DeployError::FlowExecutionFailed(detail)))
}

/// The request that ends a run without a directory to keep packages in.
fn cache_dir_missing() -> (request: Request)
    ensures
        request@ == RequestView::Finished(no_cache_dir()),
{
    Request::Finished(Err(DeployError::Io("Cache directory not found".to_owned())))
}

/// The request that ends a run on a reply other than the one awaited.
fn give_up(reply: Reply) -> (request: Request)
    ensures
        match reply {
            Reply::Failed(error) => request@ == RequestView::Finished(Err(error@)),
            _ => request@ == RequestView::Finished(flow_failure("Unexpected reply"@)),
        },
{
    match reply {
        Reply::Failed(error) => failed(error),
        _ => flow_failed("Unexpected reply".to_owned()),
    }
}

impl<'a> FlowRun<'a> {
    /// The step under the cursor.
    fn step(&self) -> (step: Option<&'a FlowStepDefinition>)
        ensures
            match step {
                Some(found) => step_at(self.job, self.cursor as int) == Some(*found),
                None => step_at(self.job, self.cursor as int) is None,
            },
    {
        match self.job.flow {
            Some(flow) => if self.cursor < flow.steps.len() {
                Some(&flow.steps[self.cursor])
            } else {
                None
            },
            None => None,
        }
    }

    /// Asks for `template` to be rendered against the run's context and waits
    /// for the text in `phase`.
    fn render(&mut self, template: &str, phase: Phase) -> (request: Request)
        ensures
            renders(old(self).job, old(self).cursor, *final(self), request, template@),
            final(self).phase == phase,
    {
        self.phase = phase;
        Request::Render { template: template.to_owned(), bindings: self.job.context.bindings() }
    }

    /// The path of `name` in the directory that packages are kept in.
    fn cache_path(&self, name: &str) -> (path: Option<String>)
        ensures
            match self.job.cache_dir {
                Some(dir) => (path matches Some(found) && found@ == joined_path(dir@, name@)),
                None => path is None,
            },
    {
        match &self.job.cache_dir {
            Some(dir) => Some(join_path(dir.as_str(), name)),
            None => None,
        }
    }

    /// Turns to the step at `index`.
    fn begin_step(&mut self, index: usize) -> (request: Request)
        ensures
            begins_step(old(self).job, index as int, *final(self), request),
    {
        self.cursor = index;
        if self.step().is_some() {
            self.phase = Phase::StepAnnounced;
            Request::ReportStep { index }
        } else {
            self.phase = Phase::Finished;
            Request::Finished(Ok(()))
        }
    }

    /// Turns to the step after the one under the cursor.
    fn next_step(&mut self) -> (request: Request)
        requires
            step_at(old(self).job, old(self).cursor as int) is Some,
        ensures
            begins_step(old(self).job, old(self).cursor + 1, *final(self), request),
    {
        let mut next = self.cursor;
        if let Some(flow) = self.job.flow {
            if next < flow.steps.len() {
                next = next + 1;
            }
        }
        self.begin_step(next)
    }

    /// Asks to unpack the archive that the argument `offline_package` names.
    pub fn decompress_offline_package(&mut self) -> (request: Request)
        requires
            step_at(old(self).job, old(self).cursor as int) matches Some(step) && kind_of(step.step_type@)
                == StepKind::DecompressionOfflinePackage,
        ensures
            dispatches(old(self).job, old(self).cursor, *final(self), request),
    {
        self.phase = Phase::Finished;
        let archive = match self.job.context.args.get("offline_package") {
            None => {
                return flow_failed("No offline package specified".to_owned());
            },
            Some(ArgValue::Text(archive)) => archive.clone(),
            Some(_) => {
                return flow_failed("Invalid offline package type".to_owned());
            },
        };
        let target_dir = match &self.job.cache_dir {
            Some(dir) => dir.clone(),
            None => {
                return cache_dir_missing();
            },
        };
        self.phase = Phase::Completion;
        Request::Decompress { archive, target_dir }
    }

    /// Asks for the command of a step that runs one to be rendered.
    pub fn handle_command_step(&mut self, command: &str) -> (request: Request)
        requires
            step_at(old(self).job, old(self).cursor as int) matches Some(step) && kind_of(step.step_type@)
                == StepKind::RunCommand && (step.command matches Some(text) && text@ == command@),
        ensures
            dispatches(old(self).job, old(self).cursor, *final(self), request),
    {
        self.render(command, Phase::RenderCommand)
    }

    /// Begins a step that downloads a package: asks for the name of the file
    /// to download to be rendered.
    pub fn download_package(&mut self, step: &FlowStepDefinition) -> (request: Request)
        requires
            step_at(old(self).job, old(self).cursor as int) == Some(*step),
            kind_of(step.step_type@) == StepKind::DownloadPackage,
        ensures
            dispatches(old(self).job, old(self).cursor, *final(self), request),
    {
        self.phase = Phase::Finished;
        if self.job.cache_dir.is_none() {
            return cache_dir_missing();
        }
        match &step.target_file {
            Some(target_file) => self.render(target_file.as_str(), Phase::RenderDownloadTarget),
            None => flow_failed("No target file specified".to_owned()),
        }
    }

    /// Begins a step that transfers a package: asks for the name of the
    /// package to be rendered.
    pub fn transfer_package(&mut self, package: &str) -> (request: Request)
        requires
            step_at(old(self).job, old(self).cursor as int) matches Some(step) && kind_of(step.step_type@)
                == StepKind::TransferPackage && step.target_file is Some && (step.package matches Some(text)
                && text@ == package@),
        ensures
            dispatches(old(self).job, old(self).cursor, *final(self), request),
    {
        self.phase = Phase::Finished;
        if self.job.cache_dir.is_none() {
            return cache_dir_missing();
        }
        self.render(package, Phase::RenderPackage)
    }

    /// Begins a step that transfers a configuration file: asks for the name
    /// of the configuration template to be rendered.
    pub fn transfer_config_file(&mut self, source_file: &str) -> (request: Request)
        requires
            step_at(old(self).job, old(self).cursor as int) matches Some(step) && kind_of(step.step_type@)
                == StepKind::TransferConfigFile && step.target_file is Some && (step.source_file matches Some(
                text,
            ) && text@ == source_file@),
        ensures
            dispatches(old(self).job, old(self).cursor, *final(self), request),
    {
        self.phase = Phase::Finished;
        if self.job.cache_dir.is_none() {
            return cache_dir_missing();
        }
        self.render(source_file, Phase::RenderConfigSource)
    }

    /// Goes on with the source file at `index` of the step's file transfer.
    pub fn continue_files(&mut self, sources: Vec<String>, index: usize) -> (request: Request)
        requires
            step_at(old(self).job, old(self).cursor as int) is Some,
        ensures
            continues_files(old(self).job, old(self).cursor, sources@, index as int, *final(self), request),
    {
        self.phase = Phase::Finished;
        if index >= sources.len() {
            return self.next_step();
        }
        let step = match self.step() {
            Some(step) => step,
            None => {
                return Request::Finished(Ok(()));
            },
        };
        let target_dir = match &step.target_dir {
            Some(dir) => Some(dir.as_str()),
            None => None,
        };
        let target_file = match &step.target_file {
            Some(file) => Some(file.as_str()),
            None => None,
        };
        match self.job.engine.construct_target_file(target_dir, target_file, sources[index].as_str()) {
            Err(error) => failed(error),
            Ok(target_file) => {
                let path = sources[index].clone();
                self.phase = Phase::FileRead { sources, index, target_file };
                Request::ReadFile { path }
            },
        }
    }

    /// Begins a step that transfers the files that an argument names.
    pub fn transfer_file(&mut self, step: &FlowStepDefinition) -> (request: Request)
        requires
            step_at(old(self).job, old(self).cursor as int) == Some(*step),
            kind_of(step.step_type@) == StepKind::TransferFile,
        ensures
            dispatches(old(self).job, old(self).cursor, *final(self), request),
    {
        self.phase = Phase::Finished;
        let param_name = match &step.source_file_param_name {
            Some(name) => name,
            None => {
                return self.next_step();
            },
        };
        let found = match self.job.context.args.get(param_name.as_str()) {
            Some(value) => source_files(param_name.as_str(), value),
            None => {
                return self.next_step();
            },
        };
        match found {
            Err(error) => failed(error),
            Ok(sources) => {
                let ghost names = sources@;
                let request = self.continue_files(sources, 0);
                proof {
                    assert(views_of(names) == views_of(names) && continues_files(
                        old(self).job,
                        old(self).cursor,
                        names,
                        0,
                        *self,
                        request,
                    ));
                }
                request
            },
        }
    }

    /// Carries the step under the cursor out as far as its first request.
    pub fn handle_step(&mut self) -> (request: Request)
        ensures
            dispatches(old(self).job, old(self).cursor, *final(self), request),
    {
        self.phase = Phase::Finished;
        let step = match self.step() {
            Some(step) => step,
            None => {
                return Request::Finished(Ok(()));
            },
        };
        match step.kind() {
            StepKind::DecompressionOfflinePackage => self.decompress_offline_package(),
            StepKind::RunCommand => match &step.command {
                Some(command) => self.handle_command_step(command.as_str()),
                None => flow_failed(concat("No command specified for step ", step.name.as_str())),
            },
            StepKind::DownloadPackage => self.download_package(step),
            StepKind::TransferPackage => match &step.package {
                None => flow_failed(concat("No package specified for step ", step.name.as_str())),
                Some(package) => match &step.target_file {
                    None => flow_failed(concat("No target file specified for step ", step.name.as_str())),
                    Some(_) => self.transfer_package(package.as_str()),
                },
            },
            StepKind::TransferConfigFile => match &step.source_file {
                None => flow_failed(concat("No source file specified for step ", step.name.as_str())),
                Some(source_file) => match &step.target_file {
                    None => flow_failed(concat("No target file specified for step ", step.name.as_str())),
                    Some(_) => self.transfer_config_file(source_file.as_str()),
                },
            },
            StepKind::TransferFile => self.transfer_file(step),
            StepKind::Unknown => flow_failed(concat("Unsupported step type: ", step.step_type.as_str())),
        }
    }

    /// Takes in the description of the remote operating system.
    pub fn on_os_probe(&mut self, reply: Reply) -> (request: Request)
        ensures
            after_os_probe(old(self).job, old(self).cursor, reply, *final(self), request),
    {
        self.phase = Phase::Finished;
        match reply {
            Reply::Text(description) => {
                self.job.context.os = to_lowercase(description.as_str());
                self.begin_step(0)
            },
            other => give_up(other),
        }
    }

    /// Takes in that the observer has been told of the step.
    pub fn on_announcement(&mut self, step: &FlowStepDefinition, reply: Reply) -> (request: Request)
        requires
            step_at(old(self).job, old(self).cursor as int) == Some(*step),
        ensures
            after_announcement(old(self).job, old(self).cursor, *step, reply, *final(self), request),
    {
        self.phase = Phase::Finished;
        match reply {
            Reply::Done => match &step.condition {
                Some(condition) => self.render(condition.as_str(), Phase::RenderCondition),
                None => self.handle_step(),
            },
            other => give_up(other),
        }
    }

    /// Takes in the rendered condition of the step.
    pub fn on_condition_rendered(&mut self, reply: Reply) -> (request: Request)
        ensures
            after_condition_rendered(old(self).job, old(self).cursor, reply, *final(self), request),
    {
        self.phase = Phase::Finished;
        match reply {
            Reply::Text(command) => {
                self.phase = Phase::Condition;
                Request::TestCommand { command }
            },
            other => give_up(other),
        }
    }

    /// Takes in whether the condition of the step holds.
    pub fn on_condition(&mut self, reply: Reply) -> (request: Request)
        requires
            step_at(old(self).job, old(self).cursor as int) is Some,
        ensures
            after_condition(old(self).job, old(self).cursor, reply, *final(self), request),
    {
        self.phase = Phase::Finished;
        match reply {
            Reply::Flag(holds) => if holds {
                self.next_step()
            } else {
                self.handle_step()
            },
            other => give_up(other),
        }
    }

    /// Takes in the rendered command of the step.
    pub fn on_command_rendered(&mut self, reply: Reply) -> (request: Request)
        ensures
            after_command_rendered(old(self).job, old(self).cursor, reply, *final(self), request),
    {
        self.phase = Phase::Finished;
        match reply {
            Reply::Text(command) => {
                self.phase = Phase::Completion;
                Request::ExecuteStream { command }
            },
            other => give_up(other),
        }
    }

    /// Takes in that the last request of the step is done.
    pub fn on_completion(&mut self, reply: Reply) -> (request: Request)
        requires
            step_at(old(self).job, old(self).cursor as int) is Some,
        ensures
            after_completion(old(self).job, old(self).cursor, reply, *final(self), request),
    {
        self.phase = Phase::Finished;
        match reply {
            Reply::Done => self.next_step(),
            other => give_up(other),
        }
    }

    /// Takes in the rendered name of the file to download.
    pub fn on_download_target_rendered(&mut self, reply: Reply) -> (request: Request)
        ensures
            after_download_target_rendered(old(self).job, old(self).cursor, reply, *final(self), request),
    {
        self.phase = Phase::Finished;
        match reply {
            Reply::Text(name) => match self.cache_path(name.as_str()) {
                Some(target) => {
                    let path = target.clone();
                    self.phase = Phase::DownloadCheck { target };
                    Request::PathExists { path }
                },
                None => cache_dir_missing(),
            },
            other => give_up(other),
        }
    }

    /// Takes in whether the file to download is in the cache already.
    pub fn on_download_check(&mut self, step: &FlowStepDefinition, target: String, reply: Reply) -> (request:
        Request)
        requires
            step_at(old(self).job, old(self).cursor as int) == Some(*step),
        ensures
            after_download_check(old(self).job, old(self).cursor, *step, target@, reply, *final(self), request),
    {
        self.phase = Phase::Finished;
        match reply {
            Reply::Flag(exists) => if exists {
                self.next_step()
            } else {
                match &step.package {
                    None => flow_failed("No package specified".to_owned()),
                    Some(package) => self.render(package.as_str(), Phase::RenderDownloadPackage { target }),
                }
            },
            other => give_up(other),
        }
    }

    /// Takes in the rendered name of the package to download.
    pub fn on_download_package_rendered(&mut self, target: String, reply: Reply) -> (request: Request)
        ensures
            after_download_package_rendered(
                old(self).job,
                old(self).cursor,
                target@,
                reply,
                *final(self),
                request,
            ),
    {
        self.phase = Phase::Finished;
        match reply {
            Reply::Text(package) => {
                let download = RemoteServerPackageResolver::new().resolve(package.as_str(), target.as_str());
                self.phase = Phase::Completion;
                Request::Download { url: download.url, target_file: download.target_file }
            },
            other => give_up(other),
        }
    }

    /// Takes in the rendered name of the package to transfer.
    pub fn on_package_rendered(&mut self, reply: Reply) -> (request: Request)
        ensures
            after_package_rendered(old(self).job, old(self).cursor, reply, *final(self), request),
    {
        self.phase = Phase::Finished;
        match reply {
            Reply::Text(package) => match self.cache_path(package.as_str()) {
                Some(local_file) => {
                    let path = local_file.clone();
                    self.phase = Phase::PackageCheck { package, local_file };
                    Request::PathExists { path }
                },
                None => cache_dir_missing(),
            },
            other => give_up(other),
        }
    }

    /// Takes in whether the package to transfer is in the cache.
    pub fn on_package_check(
        &mut self,
        step: &FlowStepDefinition,
        package: String,
        local_file: String,
        reply: Reply,
    ) -> (request: Request)
        requires
            step_at(old(self).job, old(self).cursor as int) == Some(*step),
        ensures
            after_package_check(
                old(self).job,
                old(self).cursor,
                *step,
                package@,
                local_file@,
                reply,
                *final(self),
                request,
            ),
    {
        self.phase = Phase::Finished;
        match reply {
            Reply::Flag(exists) => if exists {
                match &step.target_file {
                    None => flow_failed(concat("No target file specified for step ", step.name.as_str())),
                    Some(target_file) => self.render(
                        target_file.as_str(),
                        Phase::RenderPackageTarget { local_file },
                    ),
                }
            } else {
                flow_failed(concat("Package not found: ", package.as_str()))
            },
            other => give_up(other),
        }
    }

    /// Takes in the rendered remote path of the package to transfer.
    pub fn on_package_target_rendered(&mut self, local_file: String, reply: Reply) -> (request: Request)
        ensures
            after_package_target_rendered(
                old(self).job,
                old(self).cursor,
                local_file@,
                reply,
                *final(self),
                request,
            ),
    {
        self.phase = Phase::Finished;
        match reply {
            Reply::Text(target_file) => match split_target(target_file.as_str()) {
                Err(error) => failed(error),
                Ok(split) => {
                    let path = local_file.clone();
                    self.phase = Phase::PackageSize {
                        local_file,
                        target_file,
                        dir: split.dir,
                        filename: split.filename,
                    };
                    Request::FileSize { path }
                },
            },
            other => give_up(other),
        }
    }

    /// Takes in the size of the package in the cache.
    pub fn on_package_size(
        &mut self,
        local_file: String,
        target_file: String,
        dir: String,
        filename: String,
        reply: Reply,
    ) -> (request: Request)
        ensures
            after_package_size(
                old(self).job,
                old(self).cursor,
                local_file@,
                target_file@,
                dir@,
                filename@,
                reply,
                *final(self),
                request,
            ),
    {
        self.phase = Phase::Finished;
        match reply {
            Reply::Size(total_size) => {
                let command = size_probe_command(target_file.as_str());
                self.phase = Phase::PackageProbe { local_file, dir, filename, total_size };
                Request::Execute { command }
            },
            other => give_up(other),
        }
    }

    /// Takes in the remote side's answer to the size probe and decides
    /// whether the package is transferred.
    pub fn on_package_probe(
        &mut self,
        local_file: String,
        dir: String,
        filename: String,
        total_size: u64,
        reply: Reply,
    ) -> (request: Request)
        requires
            step_at(old(self).job, old(self).cursor as int) is Some,
        ensures
            after_package_probe(
                old(self).job,
                old(self).cursor,
                local_file@,
                dir@,
                filename@,
                total_size,
                reply,
                *final(self),
                request,
            ),
    {
        self.phase = Phase::Finished;
        let remote_size = match &reply {
            Reply::Text(answer) => remote_kilobytes(Some(answer.as_str())),
            Reply::Failed(_) => remote_kilobytes(None),
            _ => {
                return flow_failed("Unexpected reply".to_owned());
            },
        };
        if should_transfer(total_size, remote_size) {
            self.phase = Phase::PackageRead { dir, filename };
            Request::ReadFile { path: local_file }
        } else {
            self.next_step()
        }
    }

    /// Takes in the bytes of the package to transfer.
    pub fn on_package_read(&mut self, dir: String, filename: String, reply: Reply) -> (request: Request)
        ensures
            after_package_read(old(self).job, old(self).cursor, dir@, filename@, reply, *final(self), request),
    {
        self.phase = Phase::Finished;
        match reply {
            Reply::Bytes(data) => {
                self.phase = Phase::Completion;
                Request::Transfer { dir, filename, data }
            },
            other => give_up(other),
        }
    }

    /// Takes in the rendered name of the configuration template.
    pub fn on_config_source_rendered(&mut self, reply: Reply) -> (request: Request)
        ensures
            after_config_source_rendered(old(self).job, old(self).cursor, reply, *final(self), request),
    {
        self.phase = Phase::Finished;
        match reply {
            Reply::Text(source_file) => match self.cache_path(source_file.as_str()) {
                Some(local_file) => {
                    let path = local_file.clone();
                    self.phase = Phase::ConfigCheck { source_file, local_file };
                    Request::PathExists { path }
                },
                None => cache_dir_missing(),
            },
            other => give_up(other),
        }
    }

    /// Takes in whether the configuration template is in the cache.
    pub fn on_config_check(&mut self, source_file: String, local_file: String, reply: Reply) -> (request:
        Request)
        ensures
            after_config_check(
                old(self).job,
                old(self).cursor,
                source_file@,
                local_file@,
                reply,
                *final(self),
                request,
            ),
    {
        self.phase = Phase::Finished;
        match reply {
            Reply::Flag(exists) => if exists {
                self.phase = Phase::ConfigRead;
                Request::ReadText { path: local_file }
            } else {
                flow_failed(concat("Source config file not found: ", source_file.as_str()))
            },
            other => give_up(other),
        }
    }

    /// Takes in the text of the configuration template.
    pub fn on_config_read(&mut self, reply: Reply) -> (request: Request)
        ensures
            after_config_read(old(self).job, old(self).cursor, reply, *final(self), request),
    {
        self.phase = Phase::Finished;
        match reply {
            Reply::Text(template) => self.render(template.as_str(), Phase::RenderConfigContent),
            other => give_up(other),
        }
    }

    /// Takes in the rendered configuration.
    pub fn on_config_content_rendered(&mut self, step: &FlowStepDefinition, reply: Reply) -> (request:
        Request)
        requires
            step_at(old(self).job, old(self).cursor as int) == Some(*step),
        ensures
            after_config_content_rendered(old(self).job, old(self).cursor, *step, reply, *final(self), request),
    {
        self.phase = Phase::Finished;
        match reply {
            Reply::Text(content) => match &step.target_file {
                None => flow_failed(concat("No target file specified for step ", step.name.as_str())),
                Some(target_file) => self.render(target_file.as_str(), Phase::RenderConfigTarget { content }),
            },
            other => give_up(other),
        }
    }

    /// Takes in the rendered remote path of the configuration file and asks
    /// to transfer the rendered configuration there.
    pub fn on_config_target_rendered(&mut self, content: String, reply: Reply) -> (request: Request)
        ensures
            after_config_target_rendered(old(self).job, old(self).cursor, content@, reply, *final(self), request),
    {
        self.phase = Phase::Finished;
        match reply {
            Reply::Text(target_file) => match split_target(target_file.as_str()) {
                Err(error) => failed(error),
                Ok(split) => {
                    let data = content.as_str().as_bytes_vec();
                    self.phase = Phase::Completion;
                    Request::Transfer { dir: split.dir, filename: split.filename, data }
                },
            },
            other => give_up(other),
        }
    }

    /// Takes in the bytes of a source file and asks to transfer them.
    pub fn on_file_read(&mut self, sources: Vec<String>, index: usize, target_file: String, reply: Reply) -> (request:
        Request)
        ensures
            after_file_read(
                old(self).job,
                old(self).cursor,
                sources@,
                index,
                target_file@,
                reply,
                *final(self),
                request,
            ),
    {
        self.phase = Phase::Finished;
        match reply {
            Reply::Bytes(data) => match split_target(target_file.as_str()) {
                Err(error) => failed(error),
                Ok(split) => {
                    self.phase = Phase::FileSent { sources, index };
                    Request::Transfer { dir: split.dir, filename: split.filename, data }
                },
            },
            other => give_up(other),
        }
    }

    /// Takes in that a source file has been transferred.
    pub fn on_file_sent(&mut self, sources: Vec<String>, index: usize, reply: Reply) -> (request: Request)
        requires
            step_at(old(self).job, old(self).cursor as int) is Some,
        ensures
            after_file_sent(old(self).job, old(self).cursor, sources@, index, reply, *final(self), request),
    {
        self.phase = Phase::Finished;
        match reply {
            Reply::Done => {
                let next = if index < sources.len() {
                    index + 1
                } else {
                    index
                };
                self.continue_files(sources, next)
            },
            other => give_up(other),
        }
    }

    /// Takes in the reply to the request made last and gives the next request.
    ///
    /// The reply must answer that request; any other ends the run with
    /// [`DeployError::FlowExecutionFailed`], and so does any reply to a run
    /// that is over. [`Reply::Failed`] ends the run with the failure it
    /// carries, except in reply to the probe of a remote file's size, where it
    /// counts as a size of zero.
    pub fn advance(&mut self, reply: Reply) -> (request: Request)
        ensures
            follows(*old(self), reply, *final(self), request),
    {
        let mut phase = Phase::Finished;
        core::mem::swap(&mut self.phase, &mut phase);
        match phase {
            Phase::Finished => flow_failed("The flow run is over".to_owned()),
            Phase::OsProbe => self.on_os_probe(reply),
            phase => {
                let step = match self.step() {
                    Some(step) => step,
                    None => {
                        return Request::Finished(Ok(()));
                    },
                };
                match phase {
                    Phase::StepAnnounced => self.on_announcement(step, reply),
                    Phase::RenderCondition => self.on_condition_rendered(reply),
                    Phase::Condition => self.on_condition(reply),
                    Phase::RenderCommand => self.on_command_rendered(reply),
                    Phase::Completion => self.on_completion(reply),
                    Phase::RenderDownloadTarget => self.on_download_target_rendered(reply),
                    Phase::DownloadCheck { target } => self.on_download_check(step, target, reply),
                    Phase::RenderDownloadPackage { target } => self.on_download_package_rendered(target, reply),
                    Phase::RenderPackage => self.on_package_rendered(reply),
                    Phase::PackageCheck { package, local_file } => self.on_package_check(
                        step,
                        package,
                        local_file,
                        reply,
                    ),
                    Phase::RenderPackageTarget { local_file } => self.on_package_target_rendered(
                        local_file,
                        reply,
                    ),
                    Phase::PackageSize { local_file, target_file, dir, filename } => self.on_package_size(
                        local_file,
                        target_file,
                        dir,
                        filename,
                        reply,
                    ),
                    Phase::PackageProbe { local_file, dir, filename, total_size } => self.on_package_probe(
                        local_file,
                        dir,
                        filename,
                        total_size,
                        reply,
                    ),
                    Phase::PackageRead { dir, filename } => self.on_package_read(dir, filename, reply),
                    Phase::RenderConfigSource => self.on_config_source_rendered(reply),
                    Phase::ConfigCheck { source_file, local_file } => self.on_config_check(
                        source_file,
                        local_file,
                        reply,
                    ),
                    Phase::ConfigRead => self.on_config_read(reply),
                    Phase::RenderConfigContent => self.on_config_content_rendered(step, reply),
                    Phase::RenderConfigTarget { content } => self.on_config_target_rendered(content, reply),
                    Phase::FileRead { sources, index, target_file } => self.on_file_read(
                        sources,
                        index,
                        target_file,
                        reply,
                    ),
                    Phase::FileSent { sources, index } => self.on_file_sent(sources, index, reply),
                    Phase::OsProbe => self.on_os_probe(reply),
                    Phase::Finished => flow_failed("The flow run is over".to_owned()),
                }
            },
        }
    }

    /// Whether the run is over.
    pub fn is_finished(&self) -> (finished: bool)
        ensures
            finished == (self.phase is Finished),
    {
        match self.phase {
            Phase::Finished => true,
            _ => false,
        }
    }
}

impl FlowEngine {
    /// Starts a run of the flow named `flow_name` and gives its first request.
    ///
    /// A run of a flow that the engine does not know is over at once, with
    /// success. Any other begins by asking for the description of the remote
    /// operating system.
    pub fn run_flow<'a>(
        &'a self,
        flow_name: &str,
        hospital_settings: HospitalSettings,
        args: FlowArgs,
        cache_dir: Option<String>,
    ) -> (started: (FlowRun<'a>, Request))
        ensures
            started.0.job.engine == self,
            started.0.job.context.os@ == Seq::<char>::empty(),
            started.0.job.context.settings == hospital_settings,
            started.0.job.context.args == args,
            started.0.job.cache_dir == cache_dir,
            started.0.cursor == 0,
            crate::flow::position_of(self.container.flows@, flow_name@) < self.container.flows@.len() ==> {
                &&& started.0.job.flow == Some(
                    &self.container.flows@[crate::flow::position_of(self.container.flows@, flow_name@)],
                )
                &&& started.0.phase is OsProbe
                &&& started.1@ == RequestView::Execute { command: os_probe() }
            },
            crate::flow::position_of(self.container.flows@, flow_name@) >= self.container.flows@.len() ==> {
                &&& started.0.job.flow is None
                &&& started.0.phase is Finished
                &&& started.1@ == RequestView::Finished(Ok(()))
            },
    {
        let flow = self.container.get_flow(flow_name);
        let context = TemplateContext { os: String::new(), settings: hospital_settings, args };
        let job = Job { engine: self, flow, context, cache_dir };
        match flow {
            Some(_) => (
                FlowRun { job, cursor: 0, phase: Phase::OsProbe },
                Request::Execute {
                    command: "cat /etc/os-release | grep PRETTY_NAME | cut -d '=' -f 2 | tr -d '\"'".to_owned(),
                },
            ),
            None => (FlowRun { job, cursor: 0, phase: Phase::Finished }, Request::Finished(Ok(()))),
        }
    }
}

/// A step whose condition holds is skipped: the run turns to the next step
/// and makes no request of the step's own. A step whose condition does not
/// hold is carried out.
pub proof fn condition_decides_step(pre: FlowRun, holds: bool, post: FlowRun, request: Request)
    requires
        pre.phase is Condition,
        step_at(pre.job, pre.cursor as int) is Some,
        follows(pre, Reply::Flag(holds), post, request),
    ensures
        holds ==> post.cursor == pre.cursor + 1,
        holds ==> request@ == (RequestView::ReportStep { index: post.cursor }) || request@
            == RequestView::Finished(Ok(())),
        !holds ==> dispatches(pre.job, pre.cursor, post, request),
{
}

/// A step of no known kind ends the run with a failure that names the kind.
pub proof fn unsupported_step_ends_run(job: Job, cursor: usize, post: FlowRun, request: Request)
    requires
        step_at(job, cursor as int) matches Some(step) && kind_of(step.step_type@) == StepKind::Unknown,
        dispatches(job, cursor, post, request),
    ensures
        post.phase is Finished,
        post.cursor == cursor,
        request@ == RequestView::Finished(
            flow_failure("Unsupported step type: "@ + step_at(job, cursor as int)->0.step_type@),
        ),
{
}

/// A run that is over stays over: it stands where it stood and asks for nothing.
pub proof fn finished_run_asks_nothing(pre: FlowRun, reply: Reply, post: FlowRun, request: Request)
    requires
        pre.phase is Finished,
        follows(pre, reply, post, request),
    ensures
        post.phase is Finished,
        post.cursor == pre.cursor,
        request@ is Finished,
{
}

/// Where the file a step downloads exists already, nothing is fetched: the
/// run turns to the next step.
pub proof fn cached_download_is_not_fetched(pre: FlowRun, post: FlowRun, request: Request)
    requires
        pre.phase is DownloadCheck,
        step_at(pre.job, pre.cursor as int) is Some,
        follows(pre, Reply::Flag(true), post, request),
    ensures
        begins_step(pre.job, pre.cursor + 1, post, request),
        !(request@ is Download),
{
}

/// A failure ends the run at once with that failure, wherever the run stands,
/// unless it answers the probe of a remote file's size.
pub proof fn failure_ends_run(pre: FlowRun, error: DeployError, post: FlowRun, request: Request)
    requires
        !(pre.phase is Finished),
        !(pre.phase is PackageProbe),
        pre.phase is OsProbe || step_at(pre.job, pre.cursor as int) is Some,
        follows(pre, Reply::Failed(error), post, request),
    ensures
        post.phase is Finished,
        post.cursor == pre.cursor,
        request@ == RequestView::Finished(Err(error@)),
{
}

/// The steps are taken in order and none twice: after the first step has
/// begun, a call leaves the run at its step or takes it to the next one.
pub proof fn steps_are_taken_in_order(pre: FlowRun, reply: Reply, post: FlowRun, request: Request)
    requires
        !(pre.phase is OsProbe),
        follows(pre, reply, post, request),
    ensures
        post.cursor == pre.cursor || post.cursor == pre.cursor + 1,
        post.job == pre.job,
{
}

/// The bytes sent for a configuration file are those of the text that its
/// template was rendered to: the rendered text is kept while the remote path
/// is rendered, and transferred as it is, not rendered again.
pub proof fn rendered_configuration_is_sent(
    pre: FlowRun,
    content: String,
    between: FlowRun,
    asked: Request,
    target: String,
    post: FlowRun,
    request: Request,
)
    requires
        pre.phase is RenderConfigContent,
        step_at(pre.job, pre.cursor as int) matches Some(step) && step.target_file is Some,
        follows(pre, Reply::Text(content), between, asked),
        follows(between, Reply::Text(target), post, request),
        splits(target@),
    ensures
        asked@ == (RequestView::Render {
            template: step_at(pre.job, pre.cursor as int)->0.target_file->0@,
            bound: context_model(pre.job.context),
        }),
        request@ matches RequestView::Transfer { dir, filename, data } && data == utf8_of(content@)
            && path_parent(target@) == Some(dir) && path_file_name(target@) == Some(filename),
{
}

/// A package in the cache is read for transfer exactly when it is smaller
/// than five megabytes or its size differs from the size the remote side
/// reports by more than one megabyte, a failed probe counting as a report of
/// nothing; otherwise the run turns to the next step and transfers nothing.
pub proof fn package_is_transferred_by_size(pre: FlowRun, reply: Reply, post: FlowRun, request: Request)
    requires
        pre.phase is PackageProbe,
        step_at(pre.job, pre.cursor as int) is Some,
        reply is Text || reply is Failed,
        follows(pre, reply, post, request),
    ensures
        request@ is ReadFile == needs_transfer(
            pre.phase->PackageProbe_total_size as int,
            reported_kilobytes(
                match reply {
                    Reply::Text(answer) => Some(answer@),
                    _ => None,
                },
            ) as int,
        ),
        !(request@ is ReadFile) ==> begins_step(pre.job, pre.cursor + 1, post, request),
{
}

} // verus!
